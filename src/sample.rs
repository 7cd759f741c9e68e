//! Sample executors.

pub mod echosh;
