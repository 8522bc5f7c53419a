use chat::protocol::{ClientMessage, ServerMessage};
use chat::server::ChatServer;

fn join(name: &str) -> ClientMessage {
    ClientMessage::Join {
        username: name.to_string(),
    }
}

#[test]
fn join_send_leave_flow() {
    let mut server = ChatServer::new();
    let mut session = None;
    let r = server.process_message(join("ann"), &mut session).unwrap();
    let id = match r {
        Some(ServerMessage::JoinSuccess { user_id }) => user_id,
        other => panic!("unexpected {other:?}"),
    };
    assert_eq!(session, Some(id));
    let r = server.process_message(
        ClientMessage::SendMessage {
            content: "hello".to_string(),
        },
        &mut session,
    );
    assert_eq!(r, Ok(None));
    let r = server.process_message(ClientMessage::Leave, &mut session);
    assert_eq!(r, Ok(None));
    assert_eq!(session, None);
    assert_eq!(
        server
            .take_broadcasts()
            .into_iter()
            .map(|b| b.message)
            .collect::<Vec<_>>(),
        vec![
            ServerMessage::UserJoined {
                username: "ann".to_string()
            },
            ServerMessage::Message {
                username: "ann".to_string(),
                content: "hello".to_string()
            },
            ServerMessage::UserLeft {
                username: "ann".to_string()
            },
        ]
    );
    assert!(server.take_broadcasts().is_empty());
}

#[test]
fn second_join_on_session_is_refused() {
    let mut server = ChatServer::default();
    let mut session = None;
    server.process_message(join("a"), &mut session).unwrap();
    let before = session;
    let r = server.process_message(join("b"), &mut session);
    assert_eq!(
        r,
        Ok(Some(ServerMessage::Error {
            error: "Already joined".to_string()
        }))
    );
    assert_eq!(session, before);
}

#[test]
fn taken_name_is_an_error_answered_as_error_message() {
    let mut server = ChatServer::new();
    let mut s1 = None;
    let mut s2 = None;
    server.process_message(join("same"), &mut s1).unwrap();
    let r = server.process_message(join("same"), &mut s2);
    assert_eq!(r, Err("Username already taken".to_string()));
    assert_eq!(s2, None);
    let mut s3 = None;
    let a = server.respond(Ok(join("same")), &mut s3);
    assert_eq!(
        a,
        Some(ServerMessage::Error {
            error: "Username already taken".to_string()
        })
    );
}

#[test]
fn unparsable_line_is_answered() {
    let mut server = ChatServer::new();
    let mut session = None;
    let a = server.respond(Err("expected value at line 1 column 1".to_string()), &mut session);
    assert_eq!(
        a,
        Some(ServerMessage::Error {
            error: "Invalid message format: expected value at line 1 column 1".to_string()
        })
    );
    assert!(server.take_broadcasts().is_empty());
}

#[test]
fn send_without_join_is_silently_dropped() {
    let mut server = ChatServer::new();
    let mut session = None;
    let r = server.process_message(
        ClientMessage::SendMessage {
            content: "x".to_string(),
        },
        &mut session,
    );
    assert_eq!(r, Ok(None));
    assert!(server.take_broadcasts().is_empty());
}

#[test]
fn disconnect_unregisters_and_frees_the_name() {
    let mut server = ChatServer::new();
    let mut session = None;
    server.respond(Ok(join("gone")), &mut session);
    server.take_broadcasts();
    server.disconnect(session);
    assert_eq!(
        server
            .take_broadcasts()
            .into_iter()
            .map(|b| b.message)
            .collect::<Vec<_>>(),
        vec![ServerMessage::UserLeft {
            username: "gone".to_string()
        }]
    );
    let mut again = None;
    let r = server.process_message(join("gone"), &mut again).unwrap();
    assert!(matches!(r, Some(ServerMessage::JoinSuccess { .. })));
}

#[test]
fn tcp_chat_message_is_tagged_with_sender_and_skips_it() {
    let mut server = ChatServer::new();
    let mut a = None;
    let mut b = None;
    server.process_message(join("a"), &mut a).unwrap();
    server.process_message(join("b"), &mut b).unwrap();
    server.take_broadcasts();
    server
        .process_message(
            ClientMessage::SendMessage {
                content: "yo".to_string(),
            },
            &mut a,
        )
        .unwrap();
    let out = server.take_broadcasts();
    assert_eq!(out.len(), 1);
    assert_eq!(out[0].sender, a.unwrap());
    assert!(!chat::protocol::delivers_to(&out[0], a));
    assert!(chat::protocol::delivers_to(&out[0], b));
}
