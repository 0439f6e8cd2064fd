//! Decides which tracks of a Matroska file to keep, whether a remux is needed
//! at all, and what the external merge tool has to be told.
//!
//! The library decides and describes; reading files and running programs is
//! left to its caller.

pub mod cli;
pub mod config;
pub mod display;
pub mod engine;
pub mod error;
pub mod models;
pub mod text;
pub mod utils;
