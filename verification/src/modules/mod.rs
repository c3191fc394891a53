//! Records of the persistence layer.

pub mod chat_db;
