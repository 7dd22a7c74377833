//! Log-in and registration through the JSON API.

use vstd::prelude::*;
use crate::error::ApiError;
use crate::model::User;

verus! {

/// The message a registration under a taken name fails with.
pub open spec fn username_taken_message() -> Seq<char> {
    "Username already exists"@
}

/// The user a log-in proceeds with: the authenticated one; a log-in that
/// authenticated nobody is unauthorized.
pub fn login(user: Option<User>) -> (res: Result<User, ApiError>)
    ensures
        match user {
            Some(u) => res == Ok::<User, ApiError>(u),
            None => res matches Err(ApiError::Unauthorized),
        },
{
    match user {
        Some(u) => Ok(u),
        None => Err(ApiError::Unauthorized),
    }
}

/// The user a registration proceeds with: the account just made; when none
/// was made the name was taken, which is a bad request.
pub fn register(user: Option<User>) -> (res: Result<User, ApiError>)
    ensures
        match user {
            Some(u) => res == Ok::<User, ApiError>(u),
            None => res matches Err(ApiError::BadRequest(m)) && m@ == username_taken_message(),
        },
{
    match user {
        Some(u) => Ok(u),
        None => Err(ApiError::BadRequest(String::from_str("Username already exists"))),
    }
}

} // verus!
