use chat::messages::handle_message;
use chat::protocol::{Broadcast, ClientMessage, ServerMessage};
use chat::users::{add_user, create_user_stores, remove_user};

#[test]
fn test_message_handling_functional() {
    let (mut users, mut usernames) = create_user_stores();
    let mut broadcast_tx: Vec<Broadcast> = Vec::new();

    let join_msg = ClientMessage::Join {
        username: "test_user".to_string(),
    };

    let response = handle_message(&mut users, &mut usernames, &mut broadcast_tx, None, join_msg);

    match response {
        Some(ServerMessage::JoinSuccess { .. }) => {}
        _ => panic!("Expected JoinSuccess response"),
    }
}

#[test]
fn test_user_operations_functional() {
    let (mut users, mut usernames) = create_user_stores();

    let user_id = add_user(&mut users, &mut usernames, "alice".to_string()).unwrap();

    assert!(users.contains_key(&user_id));
    assert!(usernames.contains_key("alice"));

    let removed_username = remove_user(&mut users, &mut usernames, user_id);
    assert_eq!(removed_username, Some("alice".to_string()));

    assert!(!users.contains_key(&user_id));
    assert!(!usernames.contains_key("alice"));
}

#[test]
fn test_send_message_functional() {
    let (mut users, mut usernames) = create_user_stores();
    let mut broadcast_tx: Vec<Broadcast> = Vec::new();

    let user_id = add_user(&mut users, &mut usernames, "sender".to_string()).unwrap();

    let send_msg = ClientMessage::SendMessage {
        content: "Hello world!".to_string(),
    };

    let response = handle_message(
        &mut users,
        &mut usernames,
        &mut broadcast_tx,
        Some(user_id),
        send_msg,
    );

    assert!(response.is_none());

    let broadcast_msg = broadcast_tx.remove(0).message;
    match broadcast_msg {
        ServerMessage::Message { username, content } => {
            assert_eq!(username, "sender");
            assert_eq!(content, "Hello world!");
        }
        _ => panic!("Expected Message broadcast"),
    }
}

#[test]
fn test_error_handling_functional() {
    let (mut users, mut usernames) = create_user_stores();
    let mut broadcast_tx: Vec<Broadcast> = Vec::new();

    let send_msg = ClientMessage::SendMessage {
        content: "Should fail".to_string(),
    };

    let response = handle_message(&mut users, &mut usernames, &mut broadcast_tx, None, send_msg);

    match response {
        Some(ServerMessage::Error { error }) => {
            assert!(error.contains("Must join"));
        }
        _ => panic!("Expected Error response"),
    }

    add_user(&mut users, &mut usernames, "duplicate".to_string()).unwrap();

    let join_msg = ClientMessage::Join {
        username: "duplicate".to_string(),
    };

    let response = handle_message(&mut users, &mut usernames, &mut broadcast_tx, None, join_msg);

    match response {
        Some(ServerMessage::JoinError { error }) => {
            assert!(error.contains("already taken"));
        }
        _ => panic!("Expected JoinError response"),
    }
}
