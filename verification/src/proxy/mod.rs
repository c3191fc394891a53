//! The gateway's own protocol and what it brings back from upstream.

pub mod chat;
pub mod collector;
pub mod config;
pub mod models;
