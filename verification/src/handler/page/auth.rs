//! Log-in, registration and log-out through the HTML forms, where the
//! session travels in a cookie.

use vstd::prelude::*;
use crate::db::session::is_session_token;
use crate::error::PageError;
use crate::model::User;

verus! {

/// The `Set-Cookie` value that hands a browser the session `token`: an
/// HTTP-only, same-site cookie named `session` for the whole site.
pub open spec fn session_cookie_of(token: Seq<char>) -> Seq<char> {
    "session="@ + token + "; HttpOnly; SameSite=Strict; Path=/"@
}

/// The `Set-Cookie` value that hands a browser the session `token`.
pub fn session_cookie(token: &str) -> (res: String)
    ensures
        res@ == session_cookie_of(token@),
        res@ == "session="@ + token@ + "; HttpOnly; SameSite=Strict; Path=/"@,
{
    let mut cookie = String::from_str("session=");
    cookie.append(token);
    cookie.append("; HttpOnly; SameSite=Strict; Path=/");
    cookie
}

/// The attributes of the session cookie.
pub open spec fn cookie_attributes() -> Seq<char> {
    "; HttpOnly; SameSite=Strict; Path=/"@
}

/// Every session cookie is "session=", then the token, then the same
/// attributes whatever the token: HTTP-only, same-site only, and for the
/// whole site (it ends with "Path=/").
pub proof fn lemma_cookie_attributes_do_not_depend_on_token(t1: Seq<char>, t2: Seq<char>)
    ensures
        session_cookie_of(t1).len() == 8 + t1.len() + 35,
        session_cookie_of(t1).subrange(0, 8) == "session="@,
        session_cookie_of(t1).subrange(8, 8 + t1.len() as int) == t1,
        session_cookie_of(t1).subrange(8 + t1.len() as int, session_cookie_of(t1).len() as int) == cookie_attributes(),
        session_cookie_of(t1).subrange(8 + t1.len() as int, session_cookie_of(t1).len() as int)
            == session_cookie_of(t2).subrange(8 + t2.len() as int, session_cookie_of(t2).len() as int),
        session_cookie_of(t1).subrange(session_cookie_of(t1).len() - 6, session_cookie_of(t1).len() as int)
            == "Path=/"@,
        cookie_attributes().subrange(0, 11) == "; HttpOnly;"@,
        cookie_attributes().subrange(11, 28) == " SameSite=Strict;"@,
{
    reveal_strlit("session=");
    reveal_strlit("; HttpOnly; SameSite=Strict; Path=/");
    reveal_strlit("Path=/");
    reveal_strlit("; HttpOnly;");
    reveal_strlit(" SameSite=Strict;");
    let c1 = session_cookie_of(t1);
    let c2 = session_cookie_of(t2);
    assert(c1.subrange(0, 8) =~= "session="@);
    assert(c1.subrange(8, 8 + t1.len() as int) =~= t1);
    assert(c1.subrange(8 + t1.len() as int, c1.len() as int) =~= cookie_attributes());
    assert(c2.subrange(8 + t2.len() as int, c2.len() as int) =~= cookie_attributes());
    assert(c1.subrange(c1.len() - 6, c1.len() as int) =~= "Path=/"@);
    assert(cookie_attributes().subrange(0, 11) =~= "; HttpOnly;"@);
    assert(cookie_attributes().subrange(11, 28) =~= " SameSite=Strict;"@);
}

/// A browser reads back the session token from the cookie: the cookie's
/// value, from after "session=" up to the first ';', is exactly the token,
/// since a session token holds only letters and digits.
pub proof fn lemma_cookie_value_is_token(token: Seq<char>)
    requires
        is_session_token(token),
    ensures
        ({
            let cookie = session_cookie_of(token);
            let start = "session="@.len() as int;
            let end = start + token.len();
            &&& cookie.subrange(start, end) == token
            &&& cookie[end] == ';'
            &&& forall|i: int| start <= i < end ==> cookie[i] != ';'
        }),
{
    reveal_strlit("session=");
    reveal_strlit("; HttpOnly; SameSite=Strict; Path=/");
    let cookie = session_cookie_of(token);
    let start = "session="@.len() as int;
    let end = start + token.len();
    assert(cookie.subrange(start, end) =~= token);
    assert forall|i: int| start <= i < end implies cookie[i] != ';' by {
        assert(cookie[i] == token[i - start]);
    }
}

/// The message a log-in with a wrong name or password fails with.
pub open spec fn bad_credentials_message() -> Seq<char> {
    "Username or password is incorrect"@
}

/// The message a registration under a taken name fails with.
pub open spec fn username_taken_message() -> Seq<char> {
    "Username already exists"@
}

/// The user a log-in form proceeds with: the authenticated one; a log-in
/// that authenticated nobody is a bad request, which does not say whether
/// the name or the password was wrong.
pub fn login(user: Option<User>) -> (res: Result<User, PageError>)
    ensures
        match user {
            Some(u) => res == Ok::<User, PageError>(u),
            None => res matches Err(PageError::BadRequest(m)) && m@ == bad_credentials_message(),
        },
{
    match user {
        Some(u) => Ok(u),
        None => Err(PageError::BadRequest(String::from_str("Username or password is incorrect"))),
    }
}

/// The user a registration form proceeds with: the account just made; when
/// none was made the name was taken, which is a bad request.
pub fn register(user: Option<User>) -> (res: Result<User, PageError>)
    ensures
        match user {
            Some(u) => res == Ok::<User, PageError>(u),
            None => res matches Err(PageError::BadRequest(m)) && m@ == username_taken_message(),
        },
{
    match user {
        Some(u) => Ok(u),
        None => Err(PageError::BadRequest(String::from_str("Username already exists"))),
    }
}

/// The page shown after logging out.
pub open spec fn logged_out_page() -> Seq<char> {
    "<p>You have been logged out. <a href=\"/login\">Login again</a></p>"@
}

/// The page shown after logging out.
pub fn logout() -> (res: String)
    ensures
        res@ == logged_out_page(),
{
    String::from_str("<p>You have been logged out. <a href=\"/login\">Login again</a></p>")
}

} // verus!
