use chat::messages::{handle_disconnect, handle_message, handle_text_frame};
use chat::protocol::{delivers_to, Broadcast, ClientMessage, ServerMessage};
use chat::users::create_user_stores;

fn msgs(out: &[Broadcast]) -> Vec<ServerMessage> {
    out.iter().map(|b| b.message.clone()).collect()
}

fn join(name: &str) -> ClientMessage {
    ClientMessage::Join {
        username: name.to_string(),
    }
}

#[test]
fn join_broadcasts_user_joined() {
    let (mut users, mut usernames) = create_user_stores();
    let mut out = Vec::new();
    let r = handle_message(&mut users, &mut usernames, &mut out, None, join("amy"));
    let id = match r {
        Some(ServerMessage::JoinSuccess { user_id }) => user_id,
        other => panic!("unexpected {other:?}"),
    };
    assert_eq!(
        msgs(&out),
        vec![ServerMessage::UserJoined {
            username: "amy".to_string()
        }]
    );
    assert_eq!(users.get(&id).unwrap().username, "amy");
}

#[test]
fn join_then_leave_restores_registry() {
    let (mut users, mut usernames) = create_user_stores();
    let mut out = Vec::new();
    let id = match handle_message(&mut users, &mut usernames, &mut out, None, join("leo")) {
        Some(ServerMessage::JoinSuccess { user_id }) => user_id,
        other => panic!("unexpected {other:?}"),
    };
    let r = handle_message(&mut users, &mut usernames, &mut out, Some(id), ClientMessage::Leave);
    assert_eq!(r, None);
    assert!(users.is_empty());
    assert!(usernames.is_empty());
    assert_eq!(
        msgs(&out),
        vec![
            ServerMessage::UserJoined {
                username: "leo".to_string()
            },
            ServerMessage::UserLeft {
                username: "leo".to_string()
            }
        ]
    );
}

#[test]
fn leave_without_join_is_an_error() {
    let (mut users, mut usernames) = create_user_stores();
    let mut out = Vec::new();
    let r = handle_message(&mut users, &mut usernames, &mut out, None, ClientMessage::Leave);
    assert_eq!(
        r,
        Some(ServerMessage::Error {
            error: "Not joined to a chat room".to_string()
        })
    );
    assert!(out.is_empty());
}

#[test]
fn leave_of_unknown_id_is_silent() {
    let (mut users, mut usernames) = create_user_stores();
    let mut out = Vec::new();
    let r = handle_message(&mut users, &mut usernames, &mut out, Some(7), ClientMessage::Leave);
    assert_eq!(r, None);
    assert!(out.is_empty());
}

#[test]
fn send_under_unknown_id_is_user_not_found() {
    let (mut users, mut usernames) = create_user_stores();
    let mut out = Vec::new();
    let msg = ClientMessage::SendMessage {
        content: "hi".to_string(),
    };
    let r = handle_message(&mut users, &mut usernames, &mut out, Some(99), msg);
    assert_eq!(
        r,
        Some(ServerMessage::Error {
            error: "User not found".to_string()
        })
    );
    assert!(out.is_empty());
}

#[test]
fn refused_join_answers_join_error_without_broadcast() {
    let (mut users, mut usernames) = create_user_stores();
    let mut out = Vec::new();
    handle_message(&mut users, &mut usernames, &mut out, None, join("dup"));
    out.clear();
    let r = handle_message(&mut users, &mut usernames, &mut out, None, join("dup"));
    assert_eq!(
        r,
        Some(ServerMessage::JoinError {
            error: "Username 'dup' is already taken".to_string()
        })
    );
    assert!(out.is_empty());
    assert_eq!(users.len(), 1);
}

#[test]
fn text_frame_join_sets_session_and_bad_frame_is_rejected() {
    let (mut users, mut usernames) = create_user_stores();
    let mut out = Vec::new();
    let mut session = None;
    let r = handle_text_frame(&mut users, &mut usernames, &mut out, &mut session, None);
    assert_eq!(
        r,
        Some(ServerMessage::Error {
            error: "Invalid message format".to_string()
        })
    );
    assert_eq!(session, None);
    let r = handle_text_frame(&mut users, &mut usernames, &mut out, &mut session, Some(join("kim")));
    match r {
        Some(ServerMessage::JoinSuccess { user_id }) => assert_eq!(session, Some(user_id)),
        other => panic!("unexpected {other:?}"),
    }
    // A refused join, on another session, leaves that session as it was.
    let mut other = None;
    let r = handle_text_frame(&mut users, &mut usernames, &mut out, &mut other, Some(join("kim")));
    assert!(matches!(r, Some(ServerMessage::JoinError { .. })));
    assert_eq!(other, None);
}

#[test]
fn disconnect_leaves_for_the_session() {
    let (mut users, mut usernames) = create_user_stores();
    let mut out = Vec::new();
    let mut session = None;
    handle_text_frame(&mut users, &mut usernames, &mut out, &mut session, Some(join("zed")));
    out.clear();
    handle_disconnect(&mut users, &mut usernames, &mut out, session);
    assert!(users.is_empty());
    assert!(usernames.is_empty());
    assert_eq!(
        msgs(&out),
        vec![ServerMessage::UserLeft {
            username: "zed".to_string()
        }]
    );
    out.clear();
    handle_disconnect(&mut users, &mut usernames, &mut out, None);
    assert!(out.is_empty());
}

#[test]
fn double_join_in_one_session_replaces_user_and_disconnect_cleans_up() {
    let (mut users, mut usernames) = create_user_stores();
    let mut out = Vec::new();
    let mut session = None;
    let r = handle_text_frame(&mut users, &mut usernames, &mut out, &mut session, Some(join("a")));
    assert!(matches!(r, Some(ServerMessage::JoinSuccess { .. })));
    let first = session.unwrap();
    out.clear();
    let r = handle_text_frame(&mut users, &mut usernames, &mut out, &mut session, Some(join("b")));
    let second = match r {
        Some(ServerMessage::JoinSuccess { user_id }) => user_id,
        other => panic!("unexpected {other:?}"),
    };
    assert_eq!(session, Some(second));
    assert_eq!(
        out,
        vec![
            Broadcast {
                sender: first,
                message: ServerMessage::UserLeft {
                    username: "a".to_string()
                }
            },
            Broadcast {
                sender: second,
                message: ServerMessage::UserJoined {
                    username: "b".to_string()
                }
            },
        ]
    );
    assert!(!usernames.contains_key("a"));
    assert!(!users.contains_key(&first));
    handle_disconnect(&mut users, &mut usernames, &mut out, session);
    assert!(users.is_empty());
    assert!(!usernames.contains_key("a"));
    assert!(!usernames.contains_key("b"));
}

#[test]
fn joined_session_asking_for_taken_name_gets_join_error() {
    let (mut users, mut usernames) = create_user_stores();
    let mut out = Vec::new();
    let mut mine = None;
    let mut theirs = None;
    handle_text_frame(&mut users, &mut usernames, &mut out, &mut theirs, Some(join("x")));
    handle_text_frame(&mut users, &mut usernames, &mut out, &mut mine, Some(join("y")));
    let before = mine;
    out.clear();
    let r = handle_text_frame(&mut users, &mut usernames, &mut out, &mut mine, Some(join("x")));
    assert_eq!(
        r,
        Some(ServerMessage::JoinError {
            error: "Username 'x' is already taken".to_string()
        })
    );
    assert_eq!(mine, before);
    assert!(out.is_empty());
    assert_eq!(users.len(), 2);
}

#[test]
fn session_may_join_again_after_leaving() {
    let (mut users, mut usernames) = create_user_stores();
    let mut out = Vec::new();
    let mut session = None;
    handle_text_frame(&mut users, &mut usernames, &mut out, &mut session, Some(join("a")));
    handle_text_frame(
        &mut users,
        &mut usernames,
        &mut out,
        &mut session,
        Some(ClientMessage::Leave),
    );
    let r = handle_text_frame(&mut users, &mut usernames, &mut out, &mut session, Some(join("b")));
    assert!(matches!(r, Some(ServerMessage::JoinSuccess { .. })));
    handle_disconnect(&mut users, &mut usernames, &mut out, session);
    assert!(users.is_empty());
    assert!(usernames.is_empty());
}

#[test]
fn chat_message_skips_its_sender() {
    let (mut users, mut usernames) = create_user_stores();
    let mut out = Vec::new();
    let mut alice = None;
    let mut bob = None;
    handle_text_frame(&mut users, &mut usernames, &mut out, &mut alice, Some(join("alice")));
    handle_text_frame(&mut users, &mut usernames, &mut out, &mut bob, Some(join("bob")));
    out.clear();
    let send = ClientMessage::SendMessage {
        content: "hi".to_string(),
    };
    handle_text_frame(&mut users, &mut usernames, &mut out, &mut alice, Some(send));
    assert_eq!(out.len(), 1);
    assert_eq!(out[0].sender, alice.unwrap());
    assert!(!delivers_to(&out[0], alice));
    assert!(delivers_to(&out[0], bob));
    assert!(delivers_to(&out[0], None));
    // Notices of joining and leaving go to everyone, the user's own
    // connection included.
    let notice = Broadcast {
        sender: alice.unwrap(),
        message: ServerMessage::UserJoined {
            username: "alice".to_string(),
        },
    };
    assert!(delivers_to(&notice, alice));
}
