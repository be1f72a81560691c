//! Requests to the hosting platform.

pub mod create_check;
