//! Checks on files and paths, and small helpers.

pub mod dependencies;
pub mod format;
pub mod sonarr;
pub mod validation;

pub use dependencies::check_dependencies;
pub use format::format_size;
pub use sonarr::collect_sonarr_environment;
pub use validation::{is_valid_mkv_file, validate_mkv_file, validate_source_target_paths};
