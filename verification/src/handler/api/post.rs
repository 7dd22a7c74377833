//! Reading posts through the JSON API.

use vstd::prelude::*;
use crate::error::ApiError;
use crate::model::Post;

verus! {

/// The answer to a request for one post: the post found, or not found.
pub fn get_post(found: Option<Post>) -> (res: Result<Post, ApiError>)
    ensures
        match found {
            Some(p) => res == Ok::<Post, ApiError>(p),
            None => res matches Err(ApiError::NotFound),
        },
{
    match found {
        Some(p) => Ok(p),
        None => Err(ApiError::NotFound),
    }
}

} // verus!
