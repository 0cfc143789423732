use sentinel_core::rendezvous::{peer_response_target, SignalDirectory};
use sentinel_core::dedup::{SeenMessages, SEEN_CAPACITY};
use sentinel_core::engine::{is_ping, message_key, Inbound, PublicAddress, SentinelNode};
use sentinel_core::identity::NodeIdentity;
use sentinel_core::messages::{MessageContent, SentinelMessage, PROTOCOL_VERSION};

fn node(seed: u8) -> SentinelNode {
    SentinelNode::new(NodeIdentity::from_bytes([seed; 32]), 9000 + seed as u16)
}

fn signed(from: &SentinelNode, content: MessageContent, id: u8, ts: u64) -> (SentinelMessage, Vec<u8>) {
    let mut m = SentinelMessage::new_at(from.identity.node_id(), content, [id; 16], ts);
    let content_bytes = vec![id, 1, 2, 3];
    from.sign_envelope(&mut m, &content_bytes);
    (m, content_bytes)
}

#[test]
fn dialed_peer_is_in_the_table() {
    let mut n = node(1);
    let addr = String::from("10.0.0.2:9002");
    assert!(n.should_dial(&addr, &String::from("10.0.0.2"), 9002));
    n.register_peer(addr.clone(), String::from("Outbound"), 5);
    assert!(n.contains_peer(&addr));
    let p = n.peer(&addr).unwrap();
    assert_eq!(p.node_id, "pending");
    assert_eq!(p.node_name, "Outbound");
    assert_eq!(p.last_seen, 5);
    assert!(!n.should_dial(&addr, &String::from("10.0.0.2"), 9002));
    // A remote node on our own listen port (9001) may be dialed; we ourselves may not.
    assert!(n.should_dial(&String::from("10.0.0.3:9001"), &String::from("10.0.0.3"), 9001));
    assert!(!n.should_dial(&String::from("127.0.0.1:9001"), &String::from("127.0.0.1"), 9001));
    assert!(!n.should_dial(&String::from("0.0.0.0:9001"), &String::from("0.0.0.0"), 9001));
    assert!(!n.should_dial(&String::from("[::1]:9001"), &String::from("::1"), 9001));
    assert!(n.should_dial(&String::from("127.0.0.1:9005"), &String::from("127.0.0.1"), 9005));
    assert_eq!(n.peer_count(), 1);
}

#[test]
fn handshake_names_the_connection_peer() {
    let a = node(1);
    let mut b = node(2);
    let addr = String::from("10.0.0.1:9001");
    b.register_peer(addr.clone(), String::from("Inbound"), 0);
    let hs = a.handshake_message(String::from("Sentinel-Node"));
    let cb = vec![5, 5];
    let mut hs2 = hs.clone();
    a.sign_envelope(&mut hs2, &cb);
    assert_eq!(b.handle_incoming_message(&hs2, &addr, &cb, 3), Inbound::Handshake);
    let p = b.peer(&addr).unwrap();
    assert_eq!(p.node_id, a.identity.node_id());
    assert_eq!(p.node_name, "Sentinel-Node");
    assert_eq!(p.public_key, Some(a.identity.public_key_bytes()));
    assert_eq!(p.last_seen, 3);
}

#[test]
fn same_envelope_twice_is_handled_once() {
    let a = node(1);
    let mut b = node(2);
    let (m, cb) = signed(&a, MessageContent::Chat(String::from("hi")), 7, 1700000000);
    let first = b.handle_incoming_message(&m, &String::from("10.0.0.1:1"), &cb, 1);
    let second = b.handle_incoming_message(&m, &String::from("10.0.0.1:2"), &cb, 2);
    assert!(matches!(first, Inbound::Chat { .. }));
    assert_eq!(second, Inbound::Duplicate);
}

#[test]
fn chat_is_stored_under_timestamp_and_sender() {
    let a = node(1);
    let mut b = node(2);
    let (m, cb) = signed(&a, MessageContent::Chat(String::from("hi")), 8, 1700000123);
    let key = format!("1700000123:{}", a.identity.node_id());
    assert_eq!(b.handle_incoming_message(&m, &String::from("x:1"), &cb, 0), Inbound::Chat { key: key.clone() });
    assert_eq!(message_key(&m), key);
}

#[test]
fn ping_chat_is_not_stored() {
    let a = node(1);
    let mut b = node(2);
    let ping = a.heartbeat_ping();
    assert_eq!(ping.content, MessageContent::Chat(String::from("PING")));
    let mut p = ping.clone();
    a.sign_envelope(&mut p, &[1]);
    assert_eq!(b.handle_incoming_message(&p, &String::from("x:1"), &[1], 0), Inbound::Accepted);
    assert!(is_ping(&String::from("PING")));
    assert!(!is_ping(&String::from("ping")));
}

#[test]
fn forged_signature_is_dropped() {
    let x = node(1);
    let y = node(2);
    let mut b = node(3);
    // Sender X, key Y, signature valid against Y.
    let mut m = SentinelMessage::new_at(x.identity.node_id(), MessageContent::Chat(String::from("hi")), [4; 16], 10);
    let cb = vec![9, 9];
    y.sign_envelope(&mut m, &cb);
    assert_eq!(m.public_key, y.identity.public_key_bytes());
    assert!(NodeIdentity::verify(&m.sig_hash(&cb), &m.signature, &m.public_key));
    assert_eq!(b.handle_incoming_message(&m, &String::from("x:1"), &cb, 0), Inbound::BadSignature);
    // Signed by Y, but carrying X's key.
    let mut m1 = SentinelMessage::new_at(x.identity.node_id(), MessageContent::Chat(String::from("hi")), [3; 16], 10);
    y.sign_envelope(&mut m1, &cb);
    m1.public_key = x.identity.public_key_bytes();
    assert_eq!(b.handle_incoming_message(&m1, &String::from("x:1"), &cb, 0), Inbound::BadSignature);
    // Signature over other content bytes does not check either.
    let (m2, _) = signed(&x, MessageContent::Chat(String::from("yo")), 5, 11);
    assert_eq!(b.handle_incoming_message(&m2, &String::from("x:1"), &[0], 0), Inbound::BadSignature);
}

#[test]
fn unsigned_envelope_passes_the_gate() {
    let mut b = node(3);
    let m = SentinelMessage::new_at(String::from("abc"), MessageContent::Pong, [6; 16], 10);
    assert_eq!(b.handle_incoming_message(&m, &String::from("x:1"), &[], 0), Inbound::Accepted);
}

#[test]
fn signed_envelope_carries_key_and_valid_signature() {
    let a = node(1);
    let mut m = SentinelMessage::new_at(a.identity.node_id(), MessageContent::Ping, [1; 16], 77);
    let cb = vec![3u8, 4];
    a.sign_envelope(&mut m, &cb);
    assert_eq!(m.public_key, a.identity.public_key_bytes());
    assert!(NodeIdentity::verify(&m.sig_hash(&cb), &m.signature, &m.public_key));
}

#[test]
fn last_seen_only_moves_forward() {
    let mut b = node(2);
    let addr = String::from("x:1");
    b.register_peer(addr.clone(), String::from("Inbound"), 50);
    let m = SentinelMessage::new_at(String::from("s"), MessageContent::Ping, [1; 16], 0);
    b.handle_incoming_message(&m, &addr, &[], 40);
    assert_eq!(b.peer(&addr).unwrap().last_seen, 50);
    let m2 = SentinelMessage::new_at(String::from("s"), MessageContent::Ping, [2; 16], 0);
    b.handle_incoming_message(&m2, &addr, &[], 70);
    assert_eq!(b.peer(&addr).unwrap().last_seen, 70);
}

#[test]
fn silent_peer_is_evicted_at_the_next_heartbeat() {
    let mut b = node(2);
    let quiet = String::from("10.0.0.5:1");
    let lively = String::from("10.0.0.6:1");
    b.register_peer(quiet.clone(), String::from("Inbound"), 0);
    b.register_peer(lively.clone(), String::from("Inbound"), 30);
    assert_eq!(b.evict_stale(59), Vec::<String>::new());
    assert!(b.contains_peer(&quiet));
    assert_eq!(b.evict_stale(80), vec![quiet.clone()]);
    assert!(!b.contains_peer(&quiet));
    assert!(b.contains_peer(&lively));
    assert_eq!(b.evict_stale(90), vec![lively.clone()]);
    assert_eq!(b.peer_count(), 0);
}

#[test]
fn dedup_cache_never_exceeds_its_capacity() {
    let mut seen = SeenMessages::new();
    for i in 0..1500u32 {
        let mut id = [0u8; 16];
        id[..4].copy_from_slice(&i.to_le_bytes());
        assert!(seen.check_and_insert(id));
        assert!(seen.len() <= SEEN_CAPACITY);
    }
    assert_eq!(seen.len(), 1000);
    let mut oldest = [0u8; 16];
    oldest[..4].copy_from_slice(&0u32.to_le_bytes());
    assert!(!seen.contains(&oldest));
    let mut newest = [0u8; 16];
    newest[..4].copy_from_slice(&1499u32.to_le_bytes());
    assert!(!seen.check_and_insert(newest));
}

#[test]
fn node_dedup_count_is_bounded() {
    let mut b = node(2);
    for i in 0..1200u32 {
        let mut id = [0u8; 16];
        id[..4].copy_from_slice(&i.to_le_bytes());
        let m = SentinelMessage::new_at(String::from("s"), MessageContent::Ping, id, 0);
        b.handle_incoming_message(&m, &String::from("a:1"), &[], 0);
    }
    assert_eq!(b.seen_count(), 1000);
}

#[test]
fn gossip_lists_every_peer() {
    let mut b = node(2);
    assert!(b.gossip_message().is_none());
    b.register_peer(String::from("10.0.0.1:1"), String::from("Inbound"), 0);
    b.register_peer(String::from("10.0.0.2:2"), String::from("Outbound"), 0);
    b.register_peer(String::from("10.0.0.1:1"), String::from("Inbound"), 3);
    let mut list = b.gossip_peers();
    list.sort_by(|x, y| x.address.cmp(&y.address));
    assert_eq!(list.len(), 2);
    assert_eq!(list[0].address, "10.0.0.1:1");
    assert_eq!(list[0].node_id, "pending");
    assert_eq!(list[1].node_name, "Outbound");
    assert_eq!(list[1].last_seen, 0);
    let msg = b.gossip_message().unwrap();
    assert!(matches!(msg.content, MessageContent::PeerDiscovery(ref l) if l.len() == 2));
    let mut addrs = b.peer_addresses();
    addrs.sort();
    assert_eq!(addrs, vec![String::from("10.0.0.1:1"), String::from("10.0.0.2:2")]);
}

#[test]
fn removed_peer_is_gone() {
    let mut b = node(2);
    let addr = String::from("10.0.0.1:1");
    b.register_peer(addr.clone(), String::from("Inbound"), 0);
    b.remove_peer(&addr);
    assert!(!b.contains_peer(&addr));
    assert!(b.peer(&addr).is_none());
}

#[test]
fn outgoing_messages_are_stamped() {
    let a = node(1);
    let d = a.disconnect_message(String::from("Node shutting down"));
    assert_eq!(d.version, PROTOCOL_VERSION);
    assert_eq!(d.sender, a.identity.node_id());
    assert_eq!(d.content, MessageContent::Disconnect(String::from("Node shutting down")));
    assert!(d.signature.is_empty() && d.public_key.is_empty());
    let r = a.register_message();
    assert!(matches!(r.content, MessageContent::Signal(sentinel_core::messages::SignalingMessage::Register { .. })));
    let l = a.lookup_message(String::from("abcd"));
    assert_eq!(
        l.content,
        MessageContent::Signal(sentinel_core::messages::SignalingMessage::LookupRequest { target_id: String::from("abcd") })
    );
}

#[test]
fn public_address_decides_local_peers() {
    let mut a = node(1);
    assert!(!a.is_local_peer(&String::from("1.2.3.4")));
    a.set_public_addr(PublicAddress { ip: String::from("1.2.3.4"), port: 4000 });
    assert!(a.is_local_peer(&String::from("1.2.3.4")));
    assert!(!a.is_local_peer(&String::from("1.2.3.5")));
}

#[test]
fn two_node_chat_exchange() {
    let mut a = SentinelNode::new(NodeIdentity::from_bytes([11; 32]), 9001);
    let mut b = SentinelNode::new(NodeIdentity::from_bytes([12; 32]), 9002);
    let mut r = SignalDirectory::new();
    r.register(a.identity.node_id(), String::from("198.51.100.1:9001"));
    r.register(b.identity.node_id(), String::from("198.51.100.2:9002"));
    let lookup = a.lookup_message(b.identity.node_id());
    let answer = r.process_signal(&lookup, &a.identity.node_id()).unwrap();
    let target = peer_response_target(&answer).unwrap();
    assert_eq!(target, "198.51.100.2:9002");
    assert!(a.should_dial(&target, &String::from("198.51.100.2"), 9002));
    a.register_peer(target.clone(), String::from("Outbound"), 0);
    let a_seen_by_b = String::from("198.51.100.1:9001");
    b.register_peer(a_seen_by_b.clone(), String::from("Inbound"), 0);
    let mut hs_a = a.handshake_message(String::from("Sentinel-Node"));
    a.sign_envelope(&mut hs_a, &[1]);
    let mut hs_b = b.handshake_message(String::from("Sentinel-Core-Node"));
    b.sign_envelope(&mut hs_b, &[2]);
    assert_eq!(b.handle_incoming_message(&hs_a, &a_seen_by_b, &[1], 1), Inbound::Handshake);
    assert_eq!(a.handle_incoming_message(&hs_b, &target, &[2], 1), Inbound::Handshake);
    assert_eq!(b.peer(&a_seen_by_b).unwrap().node_id, a.identity.node_id());
    assert_eq!(a.peer(&target).unwrap().node_id, b.identity.node_id());
    let mut chat = SentinelMessage::new_at(a.identity.node_id(), MessageContent::Chat(String::from("hi")), [77; 16], 1700000500);
    a.sign_envelope(&mut chat, &[3]);
    let expected = format!("1700000500:{}", a.identity.node_id());
    assert_eq!(b.handle_incoming_message(&chat, &a_seen_by_b, &[3], 2), Inbound::Chat { key: expected });
}

#[test]
fn storage_key_spells_the_timestamp_in_decimal() {
    let zero = SentinelMessage::new_at(String::from("ab"), MessageContent::Chat(String::from("x")), [0; 16], 0);
    assert_eq!(message_key(&zero), "0:ab");
    let big = SentinelMessage::new_at(String::from("cd"), MessageContent::Chat(String::from("x")), [0; 16], u64::MAX);
    assert_eq!(message_key(&big), "18446744073709551615:cd");
    let ten = SentinelMessage::new_at(String::new(), MessageContent::Chat(String::from("x")), [0; 16], 10);
    assert_eq!(message_key(&ten), "10:");
}

#[test]
fn two_nodes_on_the_default_port_may_dial_each_other() {
    let n = SentinelNode::new(NodeIdentity::from_bytes([21; 32]), 8443);
    assert!(n.should_dial(&String::from("203.0.113.9:8443"), &String::from("203.0.113.9"), 8443));
}
