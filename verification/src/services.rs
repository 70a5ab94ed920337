//! Services that combine storage and cache.

pub mod user;
