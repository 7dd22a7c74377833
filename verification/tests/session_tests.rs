use blog::db::session::{create_session, random_token, SessionAction, SessionEvent, SESSION_LIFETIME_MICROS, TOKEN_LEN};
use blog::model::Session;

fn session(id: i32, token: &str, user_id: i32) -> Session {
    Session { id, token: token.to_string(), expires_at: 0, user_id }
}

fn is_token(t: &str, len: usize) -> bool {
    t.chars().count() == len && t.chars().all(|c| c.is_ascii_alphanumeric())
}

#[test]
fn random_tokens_are_alphanumeric_of_the_asked_length() {
    let a = random_token(TOKEN_LEN);
    let b = random_token(TOKEN_LEN);
    assert!(is_token(&a, 64));
    assert!(is_token(&b, 64));
    assert_ne!(a, b);
    assert_eq!(random_token(0), "");
}

#[test]
fn an_active_session_is_handed_out_again() {
    let (mut c, first) = create_session(9);
    assert!(matches!(first, SessionAction::FindActive(9)));
    let event = SessionEvent::Active(Some(session(4, "existing", 9)));
    assert!(c.accepts(&event));
    match c.step(event) {
        SessionAction::Done(s) => {
            assert_eq!(s.id, 4);
            assert_eq!(s.token, "existing");
        },
        _ => panic!("expected the existing session"),
    }
}

#[test]
fn a_new_session_gets_a_free_token() {
    let (mut c, _) = create_session(9);
    let first = match c.step(SessionEvent::Active(None)) {
        SessionAction::FindByToken(t) => t,
        _ => panic!("expected a token look-up"),
    };
    assert!(is_token(&first, 64));
    // The first token is taken: another one is drawn.
    let second = match c.step(SessionEvent::ByToken(Some(session(1, &first, 2)))) {
        SessionAction::FindByToken(t) => t,
        _ => panic!("expected another token look-up"),
    };
    assert!(is_token(&second, 64));
    assert_ne!(first, second);
    // The second is free: it is stored for the user.
    match c.step(SessionEvent::ByToken(None)) {
        SessionAction::Insert(uid, t, life) => {
            assert_eq!(uid, 9);
            assert_eq!(life, 7 * 24 * 60 * 60 * 1_000_000);
            assert_eq!(life, SESSION_LIFETIME_MICROS);
            assert_eq!(t, second);
        },
        _ => panic!("expected an insert"),
    }
    assert!(!c.accepts(&SessionEvent::Active(None)));
    match c.step(SessionEvent::Inserted(session(11, &second, 9))) {
        SessionAction::Done(s) => {
            assert_eq!(s.id, 11);
            assert_eq!(s.token, second);
        },
        _ => panic!("expected the stored session"),
    }
}

#[test]
fn events_out_of_turn_are_not_accepted() {
    let (c, _) = create_session(1);
    assert!(!c.accepts(&SessionEvent::ByToken(None)));
    assert!(!c.accepts(&SessionEvent::Inserted(session(1, "t", 1))));
    assert!(c.accepts(&SessionEvent::Active(None)));
}

/// Drives a creation against an in-memory table of unexpired sessions.
fn create_in(table: &mut Vec<Session>, user_id: i32) -> Session {
    let (mut c, mut action) = create_session(user_id);
    loop {
        let event = match action {
            SessionAction::FindActive(u) => SessionEvent::Active(table.iter().find(|s| s.user_id == u).map(|s| session(s.id, &s.token, s.user_id))),
            SessionAction::FindByToken(t) => SessionEvent::ByToken(table.iter().find(|s| s.token == t).map(|s| session(s.id, &s.token, s.user_id))),
            SessionAction::Insert(u, t, life) => {
                let mut row = session(table.len() as i32 + 1, &t, u);
                row.expires_at = life;
                table.push(Session { id: row.id, token: row.token.clone(), expires_at: row.expires_at, user_id: row.user_id });
                SessionEvent::Inserted(row)
            },
            SessionAction::Done(s) => return s,
        };
        assert!(c.accepts(&event));
        action = c.step(event);
    }
}

#[test]
fn creations_keep_one_session_per_user_and_distinct_tokens() {
    let mut table = vec![session(1, "taken", 5)];
    let a = create_in(&mut table, 7);
    let b = create_in(&mut table, 8);
    let again = create_in(&mut table, 7);
    let old = create_in(&mut table, 5);
    assert_eq!(table.len(), 3);
    assert_eq!((again.id, again.token.clone()), (a.id, a.token.clone()));
    assert_eq!((old.id, old.token.as_str()), (1, "taken"));
    assert_ne!(a.token, b.token);
    let mut users: Vec<i32> = table.iter().map(|s| s.user_id).collect();
    users.sort();
    users.dedup();
    assert_eq!(users.len(), table.len());
}
