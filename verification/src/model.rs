//! The webhook-driven variant's view of the world: what is known about each
//! commit, and how a request to build changes it.

pub mod commands;
pub mod state;
pub mod values;
