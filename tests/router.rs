use bgp_router::arg_list_router::ArgListRouter;
use bgp_router::decimal::decimal_text;
use bgp_router::router::{ArgsError, Router};
use vstd::hash_map::StringHashMap;

fn strings(v: &[&str]) -> Vec<String> {
    v.iter().map(|s| s.to_string()).collect()
}

fn network(r: &Router, name: &str) -> Option<String> {
    r.networks.get(name).cloned()
}

#[test]
fn from_args_takes_asn_and_numbers_networks() {
    let r = Router::from_args(strings(&["prog", "65001", "net-a", "net-b"])).unwrap();
    assert_eq!(r.asn, "65001");
    assert_eq!(r.networks.len(), 2);
    assert_eq!(network(&r, "net-a"), Some("2".to_string()));
    assert_eq!(network(&r, "net-b"), Some("3".to_string()));
    assert_eq!(network(&r, "prog"), None);
    assert_eq!(network(&r, "65001"), None);
    assert!(r.routes.is_empty());
    assert!(r.updates.is_empty());
    assert!(r.relations.is_empty());
    assert!(r.sockets.is_empty());
}

#[test]
fn from_args_program_name_only_is_missing_asn() {
    let r = Router::from_args(strings(&["prog"]));
    assert!(matches!(r, Err(ArgsError::MissingAsn)));
}

#[test]
fn from_args_empty_is_missing_asn() {
    let r = Router::from_args(Vec::new());
    assert!(matches!(r, Err(ArgsError::MissingAsn)));
}

#[test]
fn from_args_asn_only_has_no_networks() {
    let r = Router::from_args(strings(&["prog", "7"])).unwrap();
    assert_eq!(r.asn, "7");
    assert!(r.networks.is_empty());
    assert!(r.routes.is_empty());
    assert!(r.sockets.is_empty());
}

#[test]
fn from_args_repeated_network_keeps_later_position() {
    let r = Router::from_args(strings(&["prog", "1", "a", "b", "a"])).unwrap();
    assert_eq!(r.networks.len(), 2);
    assert_eq!(network(&r, "a"), Some("4".to_string()));
    assert_eq!(network(&r, "b"), Some("3".to_string()));
}

#[test]
fn from_args_positions_past_nine_are_two_digits() {
    let mut args = strings(&["prog", "64512"]);
    for i in 0..10 {
        args.push(format!("n{}", i));
    }
    let r = Router::from_args(args).unwrap();
    assert_eq!(r.networks.len(), 10);
    assert_eq!(network(&r, "n0"), Some("2".to_string()));
    assert_eq!(network(&r, "n7"), Some("9".to_string()));
    assert_eq!(network(&r, "n8"), Some("10".to_string()));
    assert_eq!(network(&r, "n9"), Some("11".to_string()));
}

#[test]
fn new_keeps_networks_and_asn() {
    let mut networks = StringHashMap::new();
    networks.insert("net-a".to_string(), "x".to_string());
    let r = Router::new(networks, "65001".to_string());
    assert_eq!(r.asn, "65001");
    assert_eq!(r.networks.len(), 1);
    assert_eq!(network(&r, "net-a"), Some("x".to_string()));
    assert!(r.routes.is_empty());
    assert!(r.updates.is_empty());
    assert!(r.relations.is_empty());
    assert!(r.sockets.is_empty());
}

#[test]
fn arg_list_router_keeps_arguments_at_loopback() {
    let r = ArgListRouter::new(strings(&["prog", "x", "y"]));
    assert_eq!(r.asn, "127.0.0.1");
    assert_eq!(r.networks, strings(&["prog", "x", "y"]));
    assert!(r.routes.is_empty());
    assert!(r.updates.is_empty());
    assert!(r.relations.is_empty());
    assert!(r.sockets.is_empty());
}

#[test]
fn arg_list_router_empty_arguments() {
    let r = ArgListRouter::new(Vec::new());
    assert_eq!(r.asn, "127.0.0.1");
    assert!(r.networks.is_empty());
    assert!(r.routes.is_empty());
}

#[test]
fn decimal_text_values() {
    assert_eq!(decimal_text(0), "0");
    assert_eq!(decimal_text(7), "7");
    assert_eq!(decimal_text(10), "10");
    assert_eq!(decimal_text(65001), "65001");
    assert_eq!(decimal_text(usize::MAX), usize::MAX.to_string());
}
