use chat::users::{add_user, create_user_stores, get_user};

#[test]
fn test_functional_approach() {
    let (mut users, mut usernames) = create_user_stores();

    let user_id = add_user(&mut users, &mut usernames, "test_user".to_string()).unwrap();

    let user = get_user(&users, user_id).unwrap();
    assert_eq!(user.username, "test_user");
}

#[test]
fn test_duplicate_username() {
    let (mut users, mut usernames) = create_user_stores();

    add_user(&mut users, &mut usernames, "duplicate".to_string()).unwrap();

    let result = add_user(&mut users, &mut usernames, "duplicate".to_string());
    assert!(result.is_err());
    assert!(result.unwrap_err().contains("already taken"));
}
