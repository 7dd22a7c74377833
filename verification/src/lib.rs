//! A small blogging service: posts with pagination and search, user accounts
//! with bcrypt passwords, and bearer/cookie sessions.
//!
//! This crate holds the service's rules, each with a contract checked by
//! Verus: how a post is summarised, how a listing request becomes a window
//! of rows, how a session is found or created, how a password is checked,
//! how a request is authorised and which error answers it.

pub mod error;
pub mod model;
pub mod db;
pub mod handler;
pub mod middleware;
