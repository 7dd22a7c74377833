use blog::handler::auth::stored_password;
use blog::db::user::create_user;
use blog::error::ApiError;
use blog::handler::auth::{hash_password, login, register, session_token, SessionToken};
use blog::handler::post::{create_post, get_post, post_from_row, summary_from_row};
use blog::model::CreatePost;

#[test]
fn taken_name_blocks_registration() {
    match register(Ok(4)) {
        Err(ApiError::BadRequest(m)) => assert_eq!(m, "Username already exists"),
        _ => panic!("expected a bad request"),
    }
    assert!(register(Err(sqlx::Error::RowNotFound)).is_ok());
}

#[test]
fn stored_password_form_verifies() {
    let h = hash_password("pw");
    assert!(h.starts_with("$2b$12$") || h == "hashed_pw");
    assert_ne!(h, "pw");
    assert!(login(Ok((3, h)), "pw").ok() == Some(3));
}

#[test]
fn refused_logins_share_one_message() {
    let stored = create_user("u", "good").unwrap().password_hash;
    for outcome in [login(Ok((3, stored)), "bad"), login(Err(sqlx::Error::RowNotFound), "good")] {
        match outcome {
            Err(ApiError::BadRequest(m)) => assert_eq!(m, "Username or password is incorrect"),
            _ => panic!("expected a bad request"),
        }
    }
}

#[test]
fn login_token_is_reused_or_fresh() {
    match session_token(Some("old".to_string())) {
        SessionToken::Existing(t) => assert_eq!(t, "old"),
        _ => panic!("expected the existing token"),
    }
    match session_token(None) {
        SessionToken::Fresh(t, life) => {
            assert_eq!(life, 604_800_000_000);
            assert_eq!(t.len(), 32);
            assert!(t.chars().all(|c| c.is_ascii_alphanumeric()));
        },
        _ => panic!("expected a fresh token"),
    }
}

#[test]
fn simple_post_routes_map_rows() {
    let (title, content) = create_post(&CreatePost { title: None, content: None, summary: None });
    assert_eq!((title.as_str(), content.as_str()), ("Untitled", ""));
    let p = post_from_row(-1, "t".to_string(), "c".to_string());
    assert_eq!(p.id, u64::MAX);
    assert_eq!(get_post(Ok((5, "t".to_string(), "c".to_string()))).ok().map(|p| p.id), Some(5));
    assert!(matches!(get_post(Err(sqlx::Error::RowNotFound)), Err(ApiError::NotFound)));
    let s = summary_from_row(2, "t".to_string(), None);
    assert_eq!((s.id, s.summary.as_str()), (2, ""));
    assert_eq!(summary_from_row(2, "t".to_string(), Some("s".to_string())).summary, "s");
}

#[test]
fn stored_password_is_the_hash_or_the_fallback() {
    assert_eq!(stored_password("pw", Ok("$2b$12$xyz".to_string())), "$2b$12$xyz");
    assert_eq!(stored_password("pw", Err(bcrypt::BcryptError::CostNotAllowed(3))), "hashed_pw");
}
