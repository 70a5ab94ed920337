//! Verified core of a chat backend: the rules behind registration, login,
//! tokens, chats, messages and error responses.

pub mod api;
pub mod domain;
pub mod error;
pub mod ids;
pub mod infrastructure;
pub mod jwt;
pub mod middleware;
pub mod services;
pub mod text;
pub mod validation;
