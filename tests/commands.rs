use sentinel_core::commands::{parse_command, Command};

#[test]
fn blank_and_chat_lines() {
    assert_eq!(parse_command(""), Command::Empty);
    assert_eq!(parse_command("   \t "), Command::Empty);
    assert_eq!(parse_command("  hello there  "), Command::Chat(String::from("hello there")));
}

#[test]
fn dial_by_address_or_node_id() {
    assert_eq!(parse_command("/dial 10.0.0.2:9002"), Command::Dial(String::from("10.0.0.2:9002")));
    assert_eq!(parse_command("  /dial   [::1]:9002 extra"), Command::Dial(String::from("[::1]:9002")));
    assert_eq!(parse_command("/dial abcdef0123"), Command::Lookup(String::from("abcdef0123")));
    assert_eq!(parse_command("/dial"), Command::DialUsage);
}

#[test]
fn other_slash_commands() {
    assert_eq!(parse_command("/peers"), Command::Peers);
    assert_eq!(parse_command("/history"), Command::History);
    assert_eq!(parse_command(" /id "), Command::Id);
    assert_eq!(parse_command("/quit"), Command::Unknown);
    assert_eq!(parse_command("/"), Command::Unknown);
}
