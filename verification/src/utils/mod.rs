//! Helpers shared by the other modules.

pub mod ambient;
pub mod json;
pub mod order;
pub mod path;
pub mod text;
