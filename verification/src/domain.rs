//! The chat domain: its data and the rules on it.

pub mod membership;
pub mod models;
pub mod password;
