//! What is checked before a protected route runs.

pub mod auth;
