//! Configuration of the server.

pub mod config;
