use netgame::chat::{ack_message, is_exit_command, ClientCounter};

#[test]
fn ack_names_the_client() {
    assert_eq!(ack_message(1), "Message received from Client 1");
    assert_eq!(ack_message(42), "Message received from Client 42");
}

#[test]
fn exit_command_ignores_surrounding_space() {
    assert!(is_exit_command("exit\n"));
    assert!(is_exit_command("  exit \r\n"));
    assert!(!is_exit_command("Exit\n"));
    assert!(!is_exit_command("exits\n"));
    assert!(!is_exit_command("ex it\n"));
    assert!(!is_exit_command(""));
}

#[test]
fn clients_are_numbered_from_one() {
    let mut c = ClientCounter::new();
    assert_eq!(c.count(), 0);
    assert_eq!(c.next_id(), 1);
    assert_eq!(c.next_id(), 2);
    assert_eq!(c.next_id(), 3);
    assert_eq!(c.count(), 3);
}
