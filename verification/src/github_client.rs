//! What the webhook-driven variant asks of the hosting platform.

pub mod commands;
