use sentinel_core::discovery::{instance_name, should_dial_discovered, SERVICE_TYPE};
use sentinel_core::engine::SentinelNode;
use sentinel_core::identity::NodeIdentity;

#[test]
fn instance_name_takes_eight_id_chars() {
    assert_eq!(instance_name(&String::from("0123456789abcdef")), "node-01234567");
    assert_eq!(instance_name(&String::from("abc")), "node-abc");
    assert_eq!(SERVICE_TYPE, "_sentinel._tcp.local.");
}

#[test]
fn discovered_services_worth_dialing() {
    let mut n = SentinelNode::new(NodeIdentity::from_bytes([3; 32]), 8443);
    let addr = String::from("192.168.1.4:8443");
    assert!(should_dial_discovered(&n, &addr, &String::from("192.168.1.4")));
    assert!(!should_dial_discovered(&n, &String::from("0.0.0.0:8443"), &String::from("0.0.0.0")));
    n.register_peer(addr.clone(), String::from("Outbound"), 0);
    assert!(!should_dial_discovered(&n, &addr, &String::from("192.168.1.4")));
}
