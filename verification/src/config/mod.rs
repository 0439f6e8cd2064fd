//! Language preferences and processing options.

pub mod preferences;
pub mod settings;

pub use preferences::{AudioConfig, ProcessingConfig, SubtitleConfig, SubtitlePreference};
pub use settings::Config;
