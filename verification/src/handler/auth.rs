//! A simpler form of the JSON log-in and registration, which hands out the
//! bare session token and keeps no separate session module.

use vstd::prelude::*;
use crate::db::session::{is_token_of_len, random_token, SESSION_LIFETIME_MICROS};
use crate::db::user::{hash_password as bcrypt_hash, password_matches, verify_password};
use crate::error::ApiError;

verus! {

/// The number of characters in a token of this form.
pub const SHORT_TOKEN_LEN: usize = 32;

/// The message of every refused log-in.
pub open spec fn bad_credentials_message() -> Seq<char> {
    "Username or password is incorrect"@
}

/// The message a registration under a taken name fails with.
pub open spec fn username_taken_message() -> Seq<char> {
    "Username already exists"@
}

/// Whether a registration may go on, given the look-up of an account under
/// the requested name: a name that was found is taken; when the look-up
/// fails the name counts as free.
pub fn register(existing: Result<i32, sqlx::Error>) -> (res: Result<(), ApiError>)
    ensures
        match existing {
            Ok(_) => res matches Err(ApiError::BadRequest(m)) && m@ == username_taken_message(),
            Err(_) => res is Ok,
        },
{
    match existing {
        Ok(_) => Err(ApiError::BadRequest(String::from_str("Username already exists"))),
        Err(_) => Ok(()),
    }
}

/// The text stored when hashing fails: the password behind "hashed_".
pub open spec fn fallback_hash(password: Seq<char>) -> Seq<char> {
    "hashed_"@ + password
}

/// The stored form of a new password, given what the hasher answered for
/// it: the hash itself; when hashing failed, the password behind "hashed_".
pub fn stored_password(password: &str, hashed: Result<String, bcrypt::BcryptError>) -> (res: String)
    ensures
        match hashed {
            Ok(h) => res == h,
            Err(_) => res@ == fallback_hash(password@),
        },
{
    match hashed {
        Ok(h) => h,
        Err(_) => {
            let mut s = String::from_str("hashed_");
            s.append(password);
            s
        },
    }
}

/// The stored form of a new password: a bcrypt hash of it, which matches it;
/// when hashing fails, the password behind "hashed_".
pub fn hash_password(password: &str) -> (res: String)
    ensures
        res@ == fallback_hash(password@) || (res@.len() == 60 && password_matches(password@, res@)),
{
    stored_password(password, bcrypt_hash(password))
}

/// The account a log-in proceeds with, given the look-up of the id and hash
/// stored under the requested name: a failed look-up and a wrong password
/// are both refused with the same message.
pub fn login(row: Result<(i32, String), sqlx::Error>, password: &str) -> (res: Result<i32, ApiError>)
    ensures
        match row {
            Ok((id, hash)) => if password_matches(password@, hash@) {
                res == Ok::<i32, ApiError>(id)
            } else {
                res matches Err(ApiError::BadRequest(m)) && m@ == bad_credentials_message()
            },
            Err(_) => res matches Err(ApiError::BadRequest(m)) && m@ == bad_credentials_message(),
        },
{
    match row {
        Ok((id, hash)) => {
            if verify_password(password, hash.as_str()) {
                Ok(id)
            } else {
                Err(ApiError::BadRequest(String::from_str("Username or password is incorrect")))
            }
        },
        Err(_) => Err(ApiError::BadRequest(String::from_str("Username or password is incorrect"))),
    }
}

/// The token handed out at log-in.
pub enum SessionToken {
    /// The token of the user's unexpired session, handed out again.
    Existing(String),
    /// A fresh token, to be stored as a session expiring the given number of
    /// microseconds from now.
    Fresh(String, i64),
}

/// The token handed out at log-in, given the token of the user's unexpired
/// session if there is one: that token again, so that one user holds one
/// session; else a fresh random token of `SHORT_TOKEN_LEN` ASCII letters
/// and digits, to be stored as a session lasting seven days.
pub fn session_token(existing: Option<String>) -> (res: SessionToken)
    ensures
        match existing {
            Some(t) => res == SessionToken::Existing(t),
            None => res matches SessionToken::Fresh(t, life) && is_token_of_len(t@, SHORT_TOKEN_LEN as nat)
                && life == SESSION_LIFETIME_MICROS,
        },
{
    match existing {
        Some(t) => SessionToken::Existing(t),
        None => SessionToken::Fresh(random_token(SHORT_TOKEN_LEN), SESSION_LIFETIME_MICROS),
    }
}

} // verus!
