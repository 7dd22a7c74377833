//! The JSON API under `/api`.

pub mod auth;
pub mod post;
