use blog::db::user::{new_user_from_hash, user_unless_taken};
use blog::db::user::{authenticate_user, create_user, verify_password, UserRecord};

#[test]
fn created_account_logs_in_with_its_password() {
    let new_user = create_user("alice", "s3cret").expect("hashing works");
    assert_eq!(new_user.username, "alice");
    assert_ne!(new_user.password_hash, "s3cret");
    assert_eq!(new_user.password_hash.len(), 60);
    assert!(new_user.password_hash.starts_with("$2b$12$"));
    assert!(verify_password("s3cret", &new_user.password_hash));
    let record = UserRecord { id: 5, username: new_user.username.clone(), password_hash: new_user.password_hash.clone() };
    let user = authenticate_user(Some(record), "s3cret").expect("logs in");
    assert_eq!(user.id, 5);
    assert_eq!(user.username, "alice");
}

#[test]
fn wrong_password_does_not_log_in() {
    let new_user = create_user("bob", "right").unwrap();
    assert!(!verify_password("wrong", &new_user.password_hash));
    let record = UserRecord { id: 6, username: "bob".to_string(), password_hash: new_user.password_hash };
    assert!(authenticate_user(Some(record), "wrong").is_none());
}

#[test]
fn unknown_user_does_not_log_in() {
    assert!(authenticate_user(None, "anything").is_none());
}

#[test]
fn malformed_hash_matches_nothing() {
    assert!(!verify_password("pw", "not a hash"));
    let record = UserRecord { id: 1, username: "x".to_string(), password_hash: "$2b$12$short".to_string() };
    assert!(authenticate_user(Some(record), "pw").is_none());
}

#[test]
fn hashes_of_one_password_differ_by_salt() {
    let a = create_user("c", "same").unwrap();
    let b = create_user("c", "same").unwrap();
    assert_ne!(a.password_hash, b.password_hash);
    assert!(verify_password("same", &a.password_hash));
    assert!(verify_password("same", &b.password_hash));
}

#[test]
fn hasher_answer_decides_the_new_account() {
    let made = new_user_from_hash("ann", Ok("$2b$12$abc".to_string())).ok().unwrap();
    assert_eq!(made.username, "ann");
    assert_eq!(made.password_hash, "$2b$12$abc");
    match new_user_from_hash("ann", Err(bcrypt::BcryptError::CostNotAllowed(3))) {
        Err(m) => assert_eq!(m, "failed to hash password"),
        Ok(_) => panic!("expected no account"),
    }
}

#[test]
fn name_clash_means_no_account() {
    let made = user_unless_taken(Ok(blog::model::User { id: 4, username: "d".to_string() }), false);
    assert_eq!(made.ok().flatten().map(|u| u.id), Some(4));
    assert!(matches!(user_unless_taken(Err(sqlx::Error::RowNotFound), true), Ok(None)));
    assert!(matches!(user_unless_taken(Err(sqlx::Error::RowNotFound), false), Err(sqlx::Error::RowNotFound)));
}
