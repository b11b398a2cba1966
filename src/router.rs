//! The router record, with networks keyed by name, and its construction from the
//! command line `<program> <asn> <network>...`.

use vstd::hash_map::StringHashMap;
use vstd::prelude::*;

use crate::decimal::{decimal, decimal_text};

verus! {

/// The texts that a sequence of strings holds.
pub open spec fn texts(v: Seq<String>) -> Seq<Seq<char>> {
    v.map_values(|s: String| s@)
}

/// What a router holds, as mathematical values.
pub struct RouterView {
    pub networks: Map<Seq<char>, Seq<char>>,
    pub routes: Seq<Seq<char>>,
    pub updates: Seq<Seq<char>>,
    pub relations: Seq<Seq<char>>,
    pub sockets: Seq<Seq<char>>,
    pub asn: Seq<char>,
}

/// A simulated BGP router: the networks it knows, placeholders for its routes, updates,
/// peer relations and sockets, and the number of its autonomous system.
pub struct Router {
    pub networks: StringHashMap<String>,
    pub routes: Vec<String>,
    pub updates: Vec<String>,
    pub relations: Vec<String>,
    pub sockets: Vec<String>,
    pub asn: String,
}

/// Why a command line gives no router.
#[derive(Clone, Copy, Debug, PartialEq, Eq)]
pub enum ArgsError {
    /// Nothing follows the program name: the ASN is missing.
    MissingAsn,
}

impl View for Router {
    type V = RouterView;

    open spec fn view(&self) -> RouterView {
        RouterView {
            networks: self.networks@.map_values(|v: String| v@),
            routes: texts(self.routes@),
            updates: texts(self.updates@),
            relations: texts(self.relations@),
            sockets: texts(self.sockets@),
            asn: self.asn@,
        }
    }
}

/// The networks that the command line `args` names: each argument after the ASN, keyed
/// to its position in `args` written in decimal, that is its position among the
/// networks counted from one, plus one. Of two equal arguments the later one's
/// position stands. Covers the arguments before index `n`.
pub open spec fn networks_of(args: Seq<Seq<char>>, n: int) -> Map<Seq<char>, Seq<char>>
    decreases n,
{
    if n <= 2 {
        Map::empty()
    } else {
        networks_of(args, n - 1).insert(args[n - 1], decimal((n - 1) as nat))
    }
}

/// True when `r` holds the given networks and ASN and nothing else.
pub open spec fn is_fresh(r: RouterView, networks: Map<Seq<char>, Seq<char>>, asn: Seq<char>) -> bool {
    &&& r.networks == networks
    &&& r.asn == asn
    &&& r.routes.len() == 0
    &&& r.updates.len() == 0
    &&& r.relations.len() == 0
    &&& r.sockets.len() == 0
}

impl Router {
    /// A router with the given networks and ASN, and with no routes, updates,
    /// relations or sockets.
    pub fn new(networks: StringHashMap<String>, asn: String) -> (r: Self)
        ensures
            r.networks == networks,
            is_fresh(r@, networks@.map_values(|v: String| v@), asn@),
    {
        Self {
            networks,
            routes: Vec::new(),
            updates: Vec::new(),
            relations: Vec::new(),
            sockets: Vec::new(),
            asn,
        }
    }

    /// The router that the command line `args` describes: `args[0]` is the program,
    /// `args[1]` the ASN, and each later argument a network, mapped to its position in
    /// `args` in decimal (see `networks_of`). Fails when `args` holds no ASN.
    pub fn from_args(args: Vec<String>) -> (r: Result<Self, ArgsError>)
        ensures
            args.len() < 2 <==> r is Err,
            r is Err ==> r == Err::<Self, ArgsError>(ArgsError::MissingAsn),
            r matches Ok(router) ==> is_fresh(
                router@,
                networks_of(texts(args@), args.len() as int),
                args@[1]@,
            ),
    {
        if args.len() < 2 {
            return Err(ArgsError::MissingAsn);
        }
        let ghost all = texts(args@);
        let mut rest = args;
        let asn = rest.remove(1);
        let mut networks: StringHashMap<String> = StringHashMap::new();
        let mut ii: usize = 1;
        while ii < rest.len()
            invariant
                1 <= ii <= rest.len(),
                rest.len() + 1 == all.len(),
                forall|j: int| 1 <= j < rest.len() ==> #[trigger] rest@[j]@ == all[j + 1],
                networks@.map_values(|v: String| v@) == networks_of(all, ii + 1),
            decreases rest.len() - ii,
        {
            let name = rest[ii].clone();
            let position = decimal_text(ii + 1);
            let ghost before = networks@;
            networks.insert(name, position);
            proof {
                assert(networks@.map_values(|v: String| v@) =~= before.map_values(
                    |v: String| v@,
                ).insert(all[ii + 1], decimal((ii + 1) as nat)));
            }
            ii = ii + 1;
        }
        Ok(Router::new(networks, asn))
    }
}

} // verus!
