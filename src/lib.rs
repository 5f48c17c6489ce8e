//! Request orchestration for a proving worker: the error taxonomy, the
//! configuration outcome, path resolution, and the decisions that the prove
//! and verify handlers take between their calls to the outside world.

pub mod error;
pub mod config;
pub mod server;
pub mod path;
pub mod tool;
pub mod handler;
pub mod verify;
