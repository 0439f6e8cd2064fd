//! What the probe reports of a file, as plain values.
//!
//! Durations are held in whole seconds: reading the probe's decimal numbers
//! is left to the caller.

use vstd::prelude::*;

verus! {

/// The report of the probe on a file.
#[derive(Debug, Clone)]
pub struct FFProbeOutput {
    /// The tracks, where the report has any.
    pub streams: Option<Vec<FFProbeStream>>,
}

/// What the probe reports of one track.
#[derive(Debug, Clone)]
pub struct FFProbeStream {
    /// `video`, `audio`, `subtitle`, `attachment` or something else.
    pub codec_type: Option<String>,
    /// Short name of the codec.
    pub codec_name: Option<String>,
    /// Long name of the codec.
    pub codec_long_name: Option<String>,
    /// Width of the picture.
    pub width: Option<i64>,
    /// Height of the picture.
    pub height: Option<i64>,
    /// Frame rate, as `num/den` or a decimal number.
    pub r_frame_rate: Option<String>,
    /// Name of the colour space.
    pub color_space: Option<String>,
    /// Number of audio channels.
    pub channels: Option<i64>,
    /// Sample rate in Hz, in decimal.
    pub sample_rate: Option<String>,
    /// Bit rate in bits per second, in decimal.
    pub bit_rate: Option<String>,
    /// Duration in whole seconds, where the report has a readable one.
    pub duration_seconds: Option<u64>,
    /// The tags of the track.
    pub tags: Option<FFProbeTags>,
    /// The flags of the track.
    pub disposition: Option<FFProbeDisposition>,
}

/// The tags of a track.
#[derive(Debug, Clone)]
pub struct FFProbeTags {
    /// Language code.
    pub language: Option<String>,
    /// Title.
    pub title: Option<String>,
    /// The `DURATION` tag in whole seconds, where it is readable.
    pub duration_seconds: Option<u64>,
    /// The `NUMBER_OF_BYTES` tag, in decimal.
    pub number_of_bytes: Option<String>,
}

/// The flags of a track, 1 for a flag that is set.
#[derive(Debug, Clone)]
pub struct FFProbeDisposition {
    /// The default flag.
    pub default: Option<i64>,
    /// The forced flag.
    pub forced: Option<i64>,
}

} // verus!
