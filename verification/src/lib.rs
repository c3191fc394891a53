//! Control plane of a gateway between a client UI and upstream model
//! providers: workflow routing, the widget security gate, the staged
//! per-message session flow, and the collector that folds a streamed
//! completion into one response.

pub mod commands;
pub mod modules;
pub mod proxy;
pub mod utils;
pub mod workflows;
