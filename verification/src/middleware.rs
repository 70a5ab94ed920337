//! Request authentication.

pub mod auth;
