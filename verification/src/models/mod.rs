//! The data the decisions are made on.

pub mod ffprobe;
pub mod order;
pub mod path;
pub mod sonarr;
pub mod stream;
pub mod task;

pub use ffprobe::{FFProbeDisposition, FFProbeOutput, FFProbeStream, FFProbeTags};
pub use path::FilePath;
pub use sonarr::SonarrContext;
pub use stream::{StreamInfo, StreamType};
pub use task::ProcessingTask;
