//! What the command line asked for, and whether it can be done.

pub mod args;
pub mod commands;

pub use args::CliArgs;
pub use commands::{determine_target_type, ProcessingSettings, TargetType};
