use blog::error::{ApiError, PageError};
use blog::handler::api::auth as api_auth;
use blog::handler::api::post as api_post;
use blog::handler::page::auth as page_auth;
use blog::middleware::auth::{auth_middleware, bearer_token, ActiveSession};
use blog::model::{Post, User};

fn user() -> User {
    User { id: 2, username: "zoe".to_string() }
}

#[test]
fn api_errors_answer_with_status_and_message() {
    assert_eq!(ApiError::NotFound.into_response_parts(), (404, "not found".to_string()));
    assert_eq!(ApiError::BadRequest("bad".to_string()).into_response_parts(), (400, "bad".to_string()));
    assert_eq!(ApiError::Unauthorized.into_response_parts(), (401, "unauthorized".to_string()));
    assert_eq!(ApiError::Internal.into_response_parts(), (500, "internal error".to_string()));
}

#[test]
fn page_errors_answer_with_status_and_message() {
    assert_eq!(PageError::NotFound.into_response_parts(), (404, "Page not found".to_string()));
    assert_eq!(PageError::BadRequest("oops".to_string()).into_response_parts(), (400, "oops".to_string()));
    assert_eq!(PageError::Unauthorized.into_response_parts(), (401, "Unauthorized".to_string()));
    assert_eq!(PageError::Internal.into_response_parts(), (500, "Internal server error".to_string()));
}

#[test]
fn database_and_template_failures_are_internal() {
    assert!(matches!(ApiError::from(sqlx::Error::RowNotFound), ApiError::Internal));
    assert!(matches!(PageError::from(sqlx::Error::PoolTimedOut), PageError::Internal));
    assert!(matches!(PageError::from(askama::Error::Fmt(std::fmt::Error)), PageError::Internal));
}

#[test]
fn bearer_token_is_what_follows_the_scheme() {
    assert_eq!(bearer_token(Some("Bearer abc123")).ok(), Some("abc123".to_string()));
    assert_eq!(bearer_token(Some("Bearer ")).ok(), Some("".to_string()));
    assert_eq!(bearer_token(Some("Bearer é ü")).ok(), Some("é ü".to_string()));
    assert!(matches!(bearer_token(Some("Basic abc")), Err(ApiError::Unauthorized)));
    assert!(matches!(bearer_token(Some("bearer abc")), Err(ApiError::Unauthorized)));
    assert!(matches!(bearer_token(Some("Bearer")), Err(ApiError::Unauthorized)));
    assert!(matches!(bearer_token(None), Err(ApiError::Unauthorized)));
}

#[test]
fn session_lookup_decides_the_request() {
    let ok = auth_middleware(Ok(Some(ActiveSession { id: 8, user_id: 3 }))).ok().unwrap();
    assert_eq!((ok.user_id, ok.session_id), (3, 8));
    assert!(matches!(auth_middleware(Ok(None)), Err(ApiError::Unauthorized)));
    assert!(matches!(auth_middleware(Err(sqlx::Error::PoolClosed)), Err(ApiError::Internal)));
}

#[test]
fn api_login_and_register_outcomes() {
    assert_eq!(api_auth::login(Some(user())).ok().map(|u| u.id), Some(2));
    assert!(matches!(api_auth::login(None), Err(ApiError::Unauthorized)));
    assert_eq!(api_auth::register(Some(user())).ok().map(|u| u.username), Some("zoe".to_string()));
    match api_auth::register(None) {
        Err(ApiError::BadRequest(m)) => assert_eq!(m, "Username already exists"),
        _ => panic!("expected a bad request"),
    }
}

#[test]
fn api_missing_post_is_not_found() {
    let p = Post { id: 1, title: "t".to_string(), author: "a".to_string(), created_at: 0, content: "c".to_string() };
    assert_eq!(api_post::get_post(Some(p)).ok().map(|p| p.id), Some(1));
    assert!(matches!(api_post::get_post(None), Err(ApiError::NotFound)));
}

#[test]
fn session_cookie_is_http_only_and_site_wide() {
    assert_eq!(page_auth::session_cookie("tok"), "session=tok; HttpOnly; SameSite=Strict; Path=/");
}

#[test]
fn page_login_register_and_logout() {
    assert_eq!(page_auth::login(Some(user())).ok().map(|u| u.id), Some(2));
    match page_auth::login(None) {
        Err(PageError::BadRequest(m)) => assert_eq!(m, "Username or password is incorrect"),
        _ => panic!("expected a bad request"),
    }
    match page_auth::register(None) {
        Err(PageError::BadRequest(m)) => assert_eq!(m, "Username already exists"),
        _ => panic!("expected a bad request"),
    }
    assert!(page_auth::register(Some(user())).is_ok());
    assert_eq!(page_auth::logout(), "<p>You have been logged out. <a href=\"/login\">Login again</a></p>");
}

#[test]
fn bearer_header_hands_back_the_session_token() {
    let token = blog::db::session::random_token(blog::db::session::TOKEN_LEN);
    let header = format!("Bearer {}", token);
    assert_eq!(bearer_token(Some(&header)).ok(), Some(token));
}

#[test]
fn cookie_value_reads_back_as_the_token() {
    let token = blog::db::session::random_token(blog::db::session::TOKEN_LEN);
    let cookie = page_auth::session_cookie(&token);
    let value = cookie.strip_prefix("session=").unwrap().split(';').next().unwrap();
    assert_eq!(value, token);
}
