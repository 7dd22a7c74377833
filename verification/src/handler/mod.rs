//! What the request handlers decide between their database calls.

pub mod api;
pub mod auth;
pub mod page;
pub mod post;
