//! Building blocks of a polling continuous-integration agent: it watches one
//! branch of one repository, builds each new head commit once and reports the
//! outcome as a commit status.
//!
//! Nothing here reads or writes anything. The library decides: what to ask of
//! the hosting platform, whether a commit needs a build, where its logs go,
//! what the final status says, when the next attempt is due. The surrounding
//! program performs the network, filesystem and subprocess work that these
//! decisions ask for, and reports back what came of it.

pub mod args;
pub mod control;
pub mod crane_error;
pub mod engine;
pub mod error;
pub mod github_client;
pub mod github_events;
pub mod hub;
pub mod local;
pub mod model;
pub mod s3;
pub mod text;
pub mod timer;
pub mod ui;
