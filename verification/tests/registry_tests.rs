use chat::users::{add_user, create_user_stores, get_user, remove_user};

#[test]
fn refused_name_gets_exact_message_and_changes_nothing() {
    let (mut users, mut usernames) = create_user_stores();
    let id = add_user(&mut users, &mut usernames, "bob".to_string()).unwrap();
    let err = add_user(&mut users, &mut usernames, "bob".to_string()).unwrap_err();
    assert_eq!(err, "Username 'bob' is already taken");
    assert_eq!(users.len(), 1);
    assert_eq!(usernames.len(), 1);
    assert_eq!(*usernames.get("bob").unwrap(), id);
}

#[test]
fn ids_are_version_four_uuids() {
    let (mut users, mut usernames) = create_user_stores();
    let a = add_user(&mut users, &mut usernames, "a".to_string()).unwrap();
    let b = add_user(&mut users, &mut usernames, "b".to_string()).unwrap();
    assert_ne!(a, b);
    assert_eq!((a >> 76) & 0xf, 4);
    assert_eq!((a >> 62) & 0x3, 2);
    assert_eq!(uuid::Uuid::from_u128(b).get_version_num(), 4);
}

#[test]
fn names_and_ids_point_at_each_other() {
    let (mut users, mut usernames) = create_user_stores();
    let a = add_user(&mut users, &mut usernames, "ann".to_string()).unwrap();
    let b = add_user(&mut users, &mut usernames, "ben".to_string()).unwrap();
    assert_eq!(*usernames.get("ann").unwrap(), a);
    assert_eq!(*usernames.get("ben").unwrap(), b);
    assert_eq!(get_user(&users, a).unwrap().username, "ann");
    assert_eq!(get_user(&users, b).unwrap().username, "ben");
}

#[test]
fn register_then_unregister_restores_and_frees_name() {
    let (mut users, mut usernames) = create_user_stores();
    let keep = add_user(&mut users, &mut usernames, "keep".to_string()).unwrap();
    let id = add_user(&mut users, &mut usernames, "temp".to_string()).unwrap();
    assert_eq!(remove_user(&mut users, &mut usernames, id), Some("temp".to_string()));
    assert_eq!(users.len(), 1);
    assert_eq!(usernames.len(), 1);
    assert!(users.contains_key(&keep));
    assert!(get_user(&users, id).is_none());
    // The freed name can be taken again.
    assert!(add_user(&mut users, &mut usernames, "temp".to_string()).is_ok());
}

#[test]
fn removing_unknown_id_changes_nothing() {
    let (mut users, mut usernames) = create_user_stores();
    add_user(&mut users, &mut usernames, "x".to_string()).unwrap();
    assert_eq!(remove_user(&mut users, &mut usernames, 12345), None);
    assert_eq!(users.len(), 1);
    assert_eq!(usernames.len(), 1);
}

#[test]
fn stores_start_empty() {
    let (users, usernames) = create_user_stores();
    assert!(users.is_empty());
    assert!(usernames.is_empty());
    assert!(get_user(&users, 0).is_none());
}
