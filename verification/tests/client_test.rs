use chat_relay::client::ChatClient;
use chat_relay::client::UserCommand;
use chat_relay::client::parse_user_command;

#[test]
fn client_builds_its_join_line() {
    let c = ChatClient::new("127.0.0.1".to_owned(), 8080, "alice".to_owned());
    assert_eq!(c.host, "127.0.0.1");
    assert_eq!(c.port, 8080);
    assert_eq!(c.username, "alice");
    assert_eq!(c.join_line(), "JOIN alice\n");
}

#[test]
fn prompt_commands_map_to_wire_lines() {
    let c = ChatClient::new("localhost".to_owned(), 8080, "bob".to_owned());
    let send = parse_user_command("send Hello Bob!");
    assert!(matches!(&send, UserCommand::Send(text) if text == "Hello Bob!"));
    assert_eq!(c.wire_line(&send), Some("MSG Hello Bob!\n".to_owned()));
    let leave = parse_user_command("leave");
    assert!(matches!(leave, UserCommand::Leave));
    assert_eq!(c.wire_line(&leave), Some("LEAVE\n".to_owned()));
}

#[test]
fn unknown_prompt_commands_send_nothing() {
    let c = ChatClient::new("localhost".to_owned(), 8080, "bob".to_owned());
    for line in ["", "send", "sendx", "leaves", "LEAVE", "hello there"] {
        let cmd = parse_user_command(line);
        assert!(matches!(cmd, UserCommand::Unknown), "{:?} must be unknown", line);
        assert_eq!(c.wire_line(&cmd), None);
    }
}
