//! What the user is shown of the tracks.

pub mod status;

pub use status::{stream_status, StreamStatus};
