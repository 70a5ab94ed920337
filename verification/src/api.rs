//! Request and response bodies of the HTTP API, and the decisions of its handlers.

pub mod handlers;
pub mod login;
