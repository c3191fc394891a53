//! Workflow commands, the widget security gate and skill selection.

pub mod skills;
pub mod workflows;
