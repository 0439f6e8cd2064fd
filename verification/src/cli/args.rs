//! The arguments of the command line.

use vstd::prelude::*;
use crate::models::path::FilePath;

verus! {

/// The arguments, as they were given.
#[derive(Debug, Clone)]
pub struct CliArgs {
    /// The file or directory to work on.
    pub input_path: FilePath,
    /// The file or directory for the result.
    pub target_path: FilePath,
    /// The settings file.
    pub config_path: FilePath,
    /// Say what would be done, and change nothing.
    pub dry_run: bool,
    /// Read subdirectories too.
    pub recursive: bool,
    /// The glob pattern that a file has to match.
    pub filter_pattern: Option<String>,
    /// Audio languages that override those of the settings.
    pub audio_languages: Option<Vec<String>>,
    /// Subtitle preferences that override those of the settings.
    pub subtitle_languages: Option<Vec<String>>,
}

} // verus!
