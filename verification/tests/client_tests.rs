use chat::client::{parse_input, show_server_message, Args, ChatClient, InputAction};
use chat::protocol::{ClientMessage, ServerMessage};
use chat::text::{decimal_text, starts_with, trim};

fn client(host: &str, port: u16, name: &str) -> ChatClient {
    ChatClient::new(Args {
        host: host.to_string(),
        port,
        username: name.to_string(),
    })
}

#[test]
fn addresses() {
    let c = client("127.0.0.1", 8080, "alice");
    assert_eq!(c.address(), "127.0.0.1:8080");
    assert_eq!(c.ws_url(), "ws://127.0.0.1:8080");
    assert_eq!(c.username(), "alice");
    assert_eq!(
        c.join_message(),
        ClientMessage::Join {
            username: "alice".to_string()
        }
    );
    assert_eq!(client("h", 0, "x").address(), "h:0");
    assert_eq!(client("h", 65535, "x").ws_url(), "ws://h:65535");
}

#[test]
fn decimal_matches_std() {
    for n in [0u16, 7, 10, 99, 100, 1234, 9999, 10000, 65535] {
        assert_eq!(decimal_text(n), n.to_string());
    }
}

#[test]
fn trim_matches_std() {
    for s in [
        "",
        "   ",
        "  hi  ",
        "\t send x \n",
        "\u{3000}wide\u{2028}",
        "a b",
        "\u{85}x\u{a0}",
        "\u{200b}z",
    ] {
        assert_eq!(trim(s), s.trim(), "{s:?}");
    }
    assert!(starts_with("send hi", "send "));
    assert!(!starts_with("sen", "send "));
}

#[test]
fn input_commands() {
    assert!(matches!(parse_input("   "), InputAction::Nothing));
    assert!(matches!(parse_input(""), InputAction::Nothing));
    match parse_input(" leave \n") {
        InputAction::Quit(ClientMessage::Leave) => {}
        _ => panic!("expected leave"),
    }
    match parse_input("send Hello everyone!\n") {
        InputAction::Send(ClientMessage::SendMessage { content }) => {
            assert_eq!(content, "Hello everyone!")
        }
        _ => panic!("expected send"),
    }
    match parse_input("send   spaced") {
        InputAction::Send(ClientMessage::SendMessage { content }) => assert_eq!(content, "  spaced"),
        _ => panic!("expected send"),
    }
    match parse_input("send") {
        InputAction::Notice(t) => assert_eq!(
            t,
            "Unknown command. Use 'send <message>' to send a message or 'leave' to exit"
        ),
        _ => panic!("expected notice"),
    }
    match parse_input("leaves") {
        InputAction::Notice(t) => assert!(t.starts_with("Unknown command")),
        _ => panic!("expected notice"),
    }
}

#[test]
fn shown_messages() {
    let me = "me".to_string();
    let s = show_server_message(&ServerMessage::JoinSuccess { user_id: 1 }, &me);
    assert_eq!(
        s.lines,
        vec![
            "Successfully joined the chat room!".to_string(),
            "Commands: 'send <message>' to send a message, 'leave' to exit".to_string()
        ]
    );
    assert!(!s.stop);
    let s = show_server_message(
        &ServerMessage::JoinError {
            error: "taken".to_string(),
        },
        &me,
    );
    assert_eq!(s.lines, vec!["Failed to join: taken".to_string()]);
    assert!(s.stop);
    let s = show_server_message(
        &ServerMessage::UserJoined {
            username: "me".to_string(),
        },
        &me,
    );
    assert!(s.lines.is_empty());
    let s = show_server_message(
        &ServerMessage::UserJoined {
            username: "bob".to_string(),
        },
        &me,
    );
    assert_eq!(s.lines, vec!["* bob joined the chat".to_string()]);
    let s = show_server_message(
        &ServerMessage::UserLeft {
            username: "bob".to_string(),
        },
        &me,
    );
    assert_eq!(s.lines, vec!["* bob left the chat".to_string()]);
    let s = show_server_message(
        &ServerMessage::UserLeft {
            username: "me".to_string(),
        },
        &me,
    );
    assert!(s.lines.is_empty());
    let s = show_server_message(
        &ServerMessage::Message {
            username: "bob".to_string(),
            content: "hi".to_string(),
        },
        &me,
    );
    assert_eq!(s.lines, vec!["bob: hi".to_string()]);
    let s = show_server_message(
        &ServerMessage::Error {
            error: "oops".to_string(),
        },
        &me,
    );
    assert_eq!(s.lines, vec!["Error: oops".to_string()]);
    assert!(!s.stop);
}

/// Runs typed lines through the client's decisions the way its input loop
/// does, and gives the messages it would send.
fn sent_for(lines: &[&str]) -> Vec<ClientMessage> {
    let mut sent = Vec::new();
    for l in lines {
        match parse_input(l) {
            InputAction::Send(m) => sent.push(m),
            InputAction::Quit(m) => {
                sent.push(m);
                break;
            }
            _ => {}
        }
    }
    sent
}

#[test]
fn quiet_lines_send_nothing_and_leave_ends_input() {
    let base = sent_for(&["send hi", "leave", "send after"]);
    let noisy = sent_for(&["", "  ", "bogus", "send hi", "send", "leave", "send after"]);
    assert_eq!(base, noisy);
    assert_eq!(
        base,
        vec![
            ClientMessage::SendMessage {
                content: "hi".to_string()
            },
            ClientMessage::Leave
        ]
    );
}
