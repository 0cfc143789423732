use sentinel_core::messages::{MessageContent, SentinelMessage, SignalingMessage};
use sentinel_core::rendezvous::{registration, SignalDirectory};

fn lookup(target: &str) -> SentinelMessage {
    SentinelMessage::new_signal(String::from("a"), SignalingMessage::LookupRequest { target_id: String::from(target) })
}

#[test]
fn lookup_answers_with_registered_address() {
    let mut dir = SignalDirectory::new();
    dir.register(String::from("bbb"), String::from("203.0.113.7:9002"));
    let answer = dir.process_signal(&lookup("bbb"), &String::from("aaa")).unwrap();
    assert_eq!(answer.sender, "aaa");
    assert_eq!(
        answer.content,
        MessageContent::Signal(SignalingMessage::PeerResponse {
            peer_id: String::from("bbb"),
            public_addr: String::from("203.0.113.7:9002"),
        })
    );
}

#[test]
fn lookup_of_unknown_node_is_an_error() {
    let mut dir = SignalDirectory::new();
    dir.register(String::from("bbb"), String::from("203.0.113.7:9002"));
    dir.deregister(&String::from("bbb"));
    let answer = dir.process_signal(&lookup("bbb"), &String::from("aaa")).unwrap();
    assert_eq!(answer.content, MessageContent::Signal(SignalingMessage::Error(String::from("Peer not found"))));
}

#[test]
fn other_signals_get_no_answer() {
    let dir = SignalDirectory::new();
    let m = SentinelMessage::new(String::from("a"), MessageContent::Ping);
    assert!(dir.process_signal(&m, &String::from("a")).is_none());
}

#[test]
fn registration_names_the_node() {
    let reg = SentinelMessage::new_signal(
        String::from("n"),
        SignalingMessage::Register { node_id: String::from("n1"), public_key: vec![1], signature: vec![] },
    );
    assert_eq!(registration(&reg), Some(String::from("n1")));
    assert_eq!(registration(&lookup("x")), None);
}
