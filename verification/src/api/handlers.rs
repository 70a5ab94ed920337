//! The decisions that the HTTP handlers take.

pub mod auth;
pub mod chats;
pub mod messages;
pub mod users;
pub mod websocket;
