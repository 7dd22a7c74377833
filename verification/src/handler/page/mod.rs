//! The HTML pages.

pub mod auth;
pub mod post;
pub mod root;
