//! What the service decides around its database: which row to write, which
//! rows to ask for, and what a fetched row means.

pub mod post;
pub mod session;
pub mod user;
