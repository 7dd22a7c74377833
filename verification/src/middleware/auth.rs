//! Bearer authentication of API requests: the token is read from the
//! `Authorization` header and must name an unexpired session.

use vstd::prelude::*;
use crate::db::session::holds_token;
use crate::error::ApiError;
use crate::model::Session;

verus! {

/// The user on whose behalf a request runs, and the session it presented.
#[derive(Clone)]
pub struct AuthUser {
    pub user_id: i32,
    pub session_id: i32,
}

/// An unexpired session found under a presented token.
pub struct ActiveSession {
    pub id: i32,
    pub user_id: i32,
}

/// The rest of `s` after `prefix`, when `s` starts with `prefix`.
pub open spec fn strip_prefix(s: Seq<char>, prefix: Seq<char>) -> Option<Seq<char>> {
    if prefix.len() <= s.len() && s.subrange(0, prefix.len() as int) == prefix {
        Some(s.subrange(prefix.len() as int, s.len() as int))
    } else {
        None
    }
}

/// The scheme that an `Authorization` header names before its token.
pub open spec fn bearer_prefix() -> Seq<char> {
    "Bearer "@
}

/// The text of an `Authorization` header, if the request has one.
pub open spec fn header_text(header: Option<&str>) -> Option<Seq<char>> {
    match header {
        Some(v) => Some(v@),
        None => None,
    }
}

/// The token a request presents: what follows "Bearer " in its
/// `Authorization` header; none when the header is absent or names another
/// scheme.
pub open spec fn presented_token(header: Option<Seq<char>>) -> Option<Seq<char>> {
    match header {
        Some(v) => strip_prefix(v, bearer_prefix()),
        None => None,
    }
}

/// The user and session a request runs as, given what the look-up of its
/// token found: those of the session found; none otherwise.
pub open spec fn admitted(lookup: Result<Option<ActiveSession>, sqlx::Error>) -> Option<(i32, i32)> {
    match lookup {
        Ok(Some(s)) => Some((s.user_id, s.id)),
        _ => None,
    }
}

/// The token of a request whose `Authorization` header reads
/// `header` (absent when the request has none, or when it is not visible
/// ASCII): what follows "Bearer ". A request without such a header is
/// unauthorized.
pub fn bearer_token(header: Option<&str>) -> (res: Result<String, ApiError>)
    ensures
        match presented_token(header_text(header)) {
            Some(t) => res matches Ok(r) && r@ == t,
            None => res matches Err(ApiError::Unauthorized),
        },
{
    match header {
        None => Err(ApiError::Unauthorized),
        Some(v) => {
            let prefix: &str = "Bearer ";
            proof {
                reveal_strlit("Bearer ");
            }
            let n = v.unicode_len();
            if n < 7 {
                return Err(ApiError::Unauthorized);
            }
            let head = String::from_str(v.substring_char(0, 7));
            let expected = String::from_str(prefix);
            if head == expected {
                Ok(String::from_str(v.substring_char(7, n)))
            } else {
                Err(ApiError::Unauthorized)
            }
        },
    }
}

/// The header that a client builds from its token hands back that token:
/// "Bearer " followed by a token is read as exactly that token.
pub proof fn lemma_bearer_header_gives_back_token(token: Seq<char>)
    ensures
        strip_prefix(bearer_prefix() + token, bearer_prefix()) == Some(token),
{
    let p = bearer_prefix();
    assert((p + token).subrange(0, p.len() as int) =~= p);
    assert((p + token).subrange(p.len() as int, (p + token).len() as int) =~= token);
}

/// A header of "Bearer " and a token presents that token; a header that does
/// not start with "Bearer " presents none, and neither does an absent one.
pub proof fn lemma_bearer_scheme_presents_token(token: Seq<char>, other: Seq<char>)
    ensures
        presented_token(Some("Bearer "@ + token)) == Some(token),
        !(other.len() >= 7 && other.subrange(0, 7) == "Bearer "@) ==> presented_token(Some(other)) is None,
        presented_token(None) is None,
{
    reveal_strlit("Bearer ");
    lemma_bearer_header_gives_back_token(token);
}

/// The user a request runs for, given what the look-up of its token found:
/// a failed look-up is an internal error, a token that names no unexpired
/// session is unauthorized, and a session's user is the request's user.
pub fn auth_middleware(lookup: Result<Option<ActiveSession>, sqlx::Error>) -> (res: Result<AuthUser, ApiError>)
    ensures
        match lookup {
            Err(_) => res matches Err(ApiError::Internal),
            Ok(None) => res matches Err(ApiError::Unauthorized),
            Ok(Some(s)) => res matches Ok(u) && u.user_id == s.user_id && u.session_id == s.id,
        },
        res is Ok <==> admitted(lookup) is Some,
{
    match lookup {
        Err(_) => Err(ApiError::Internal),
        Ok(None) => Err(ApiError::Unauthorized),
        Ok(Some(s)) => Ok(AuthUser { user_id: s.user_id, session_id: s.id }),
    }
}

/// `lookup` is what the look-up of `token` answers against a sessions table
/// whose unexpired rows at the instant `now` are `table`: the unexpired
/// session holding the token, or none when no unexpired session holds it.
/// A failed look-up tells nothing.
pub open spec fn token_lookup_answers(
    table: Seq<Session>,
    now: i64,
    token: Seq<char>,
    lookup: Result<Option<ActiveSession>, sqlx::Error>,
) -> bool {
    match lookup {
        Ok(None) => !holds_token(table, token),
        Ok(Some(a)) => exists|i: int|
            0 <= i < table.len() && #[trigger] table[i].token@ == token && table[i].id == a.id
                && table[i].user_id == a.user_id && table[i].expires_at > now,
        Err(_) => true,
    }
}

/// A protected request runs exactly when its `Authorization` header is
/// "Bearer " followed by the token of an unexpired session, and then it runs
/// as that session's user. This holds whenever the look-up of a presented
/// token answers from the sessions table; the check itself writes nothing.
pub proof fn lemma_request_runs_iff_token_is_live(
    header: Option<Seq<char>>,
    table: Seq<Session>,
    now: i64,
    lookup: Result<Option<ActiveSession>, sqlx::Error>,
)
    requires
        match presented_token(header) {
            Some(t) => lookup is Ok && token_lookup_answers(table, now, t, lookup),
            None => true,
        },
    ensures
        (presented_token(header) is Some && admitted(lookup) is Some) <==> match presented_token(header) {
            Some(t) => holds_token(table, t),
            None => false,
        },
        match (presented_token(header), admitted(lookup)) {
            (Some(t), Some((uid, sid))) => exists|i: int|
                0 <= i < table.len() && #[trigger] table[i].token@ == t && table[i].user_id == uid
                    && table[i].id == sid && table[i].expires_at > now,
            _ => true,
        },
{
    if let Some(t) = presented_token(header) {
        if let Ok(Some(a)) = lookup {
            let i = choose|i: int|
                0 <= i < table.len() && #[trigger] table[i].token@ == t && table[i].id == a.id
                    && table[i].user_id == a.user_id && table[i].expires_at > now;
            assert(table[i].token@ == t && table[i].user_id == a.user_id && table[i].id == a.id);
        }
    }
}

} // verus!
