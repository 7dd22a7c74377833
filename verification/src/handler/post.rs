//! A simpler form of the JSON post routes, whose posts carry no author and
//! whose ids are unsigned.

use vstd::prelude::*;
use crate::db::post::default_title;
use crate::error::ApiError;
use crate::model::CreatePost;

pub use crate::model::PostQuery;

verus! {

/// A post as this form of the API answers it.
pub struct Post {
    pub id: u64,
    pub title: String,
    pub content: String,
}

/// A listed post as this form of the API answers it.
pub struct PostSummary {
    pub id: u64,
    pub title: String,
    pub summary: String,
}

/// The title and text a request to create a post is stored with: a missing
/// title becomes "Untitled", a missing text the empty text.
pub fn create_post(payload: &CreatePost) -> (res: (String, String))
    ensures
        res.0@ == (match payload.title {
            Some(t) => t@,
            None => default_title(),
        }),
        res.1@ == (match payload.content {
            Some(c) => c@,
            None => Seq::<char>::empty(),
        }),
{
    let title = match &payload.title {
        Some(t) => t.clone(),
        None => String::from_str("Untitled"),
    };
    let content = match &payload.content {
        Some(c) => c.clone(),
        None => String::new(),
    };
    (title, content)
}

/// A stored post's row as this form answers it; the id is read as unsigned.
pub fn post_from_row(id: i32, title: String, content: String) -> (res: Post)
    ensures
        res.id == id as u64,
        res.title == title,
        res.content == content,
{
    Post { id: id as u64, title, content }
}

/// The answer to a request for one post: the post whose row was fetched;
/// a fetch that failed, for whatever reason, is not found.
pub fn get_post(row: Result<(i32, String, String), sqlx::Error>) -> (res: Result<Post, ApiError>)
    ensures
        match row {
            Ok((id, title, content)) => res matches Ok(p) && p.id == id as u64 && p.title == title
                && p.content == content,
            Err(_) => res matches Err(ApiError::NotFound),
        },
{
    match row {
        Ok((id, title, content)) => Ok(post_from_row(id, title, content)),
        Err(_) => Err(ApiError::NotFound),
    }
}

/// A listed row as this form answers it: the id read as unsigned, and a
/// missing summary shown as the empty text.
pub fn summary_from_row(id: i32, title: String, summary: Option<String>) -> (res: PostSummary)
    ensures
        res.id == id as u64,
        res.title == title,
        res.summary@ == (match summary {
            Some(s) => s@,
            None => Seq::<char>::empty(),
        }),
{
    let summary = match summary {
        Some(s) => s,
        None => String::new(),
    };
    PostSummary { id: id as u64, title, summary }
}

} // verus!
