//! A framework for interactive line-oriented shells: a pluggable command
//! contract, a key-driven input engine and a projection of its state into
//! display lines.

pub mod command;
pub mod display;
pub mod keys;
pub mod laws;
pub mod renderer;
pub mod sample;
pub mod text;

pub use command::{CommandInput, CommandOutput, Execute, New, OutputAction, Prepare};
pub use renderer::App;
