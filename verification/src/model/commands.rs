//! Requests that change what is known about a commit.

pub mod start_build;
