//! A router record that keeps its command line as it came, in place of a map of
//! networks, and stands at the loopback address.

use vstd::prelude::*;
use vstd::string::StringExecFns;

use crate::router::texts;

verus! {

/// The ASN that an argument-list router takes: the loopback address.
pub open spec fn loopback_asn() -> Seq<char> {
    "127.0.0.1"@
}

/// What an argument-list router holds, as mathematical values.
pub struct ArgListRouterView {
    pub networks: Seq<Seq<char>>,
    pub routes: Seq<Seq<char>>,
    pub updates: Seq<Seq<char>>,
    pub relations: Seq<Seq<char>>,
    pub sockets: Seq<Seq<char>>,
    pub asn: Seq<char>,
}

/// A simulated BGP router whose networks are the raw arguments it was started with,
/// program name included.
pub struct ArgListRouter {
    pub networks: Vec<String>,
    pub routes: Vec<String>,
    pub updates: Vec<String>,
    pub relations: Vec<String>,
    pub sockets: Vec<String>,
    pub asn: String,
}

impl View for ArgListRouter {
    type V = ArgListRouterView;

    open spec fn view(&self) -> ArgListRouterView {
        ArgListRouterView {
            networks: texts(self.networks@),
            routes: texts(self.routes@),
            updates: texts(self.updates@),
            relations: texts(self.relations@),
            sockets: texts(self.sockets@),
            asn: self.asn@,
        }
    }
}

impl ArgListRouter {
    /// A router that keeps `args` verbatim as its networks, has the loopback address as
    /// its ASN, and has no routes, updates, relations or sockets.
    pub fn new(args: Vec<String>) -> (r: Self)
        ensures
            r.networks == args,
            r@.networks == texts(args@),
            r@.asn == loopback_asn(),
            r@.routes.len() == 0,
            r@.updates.len() == 0,
            r@.relations.len() == 0,
            r@.sockets.len() == 0,
    {
        Self {
            networks: args,
            routes: Vec::new(),
            updates: Vec::new(),
            relations: Vec::new(),
            sockets: Vec::new(),
            asn: String::from_str("127.0.0.1"),
        }
    }
}

} // verus!
