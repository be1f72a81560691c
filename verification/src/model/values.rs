//! Values that identify things.

pub mod sha;
