//! The echo shell, also reachable from the command module.

pub use crate::sample::echosh::{Context, Executor};
