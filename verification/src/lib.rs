//! Commit messages from diffs, written by a local language model.
//!
//! The crate holds the two parts of that job that are plain logic: the prompt
//! that wraps a diff, and the lifecycle of one generation session. The model
//! itself runs outside; a driver performs each engine call and tells the
//! session what came back.

pub mod config;
pub mod error;
pub mod laws;
pub mod model;
pub mod prompt;
pub mod session;
