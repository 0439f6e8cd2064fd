//! One track of a container file, as the probe reported it.

use vstd::prelude::*;

verus! {

/// The kind of a track.
#[derive(Debug, Clone, Copy, PartialEq, Eq, Hash, Structural)]
pub enum StreamType {
    /// Visual content.
    Video,
    /// A sound track.
    Audio,
    /// A text overlay.
    Subtitle,
    /// A font, cover art or another embedded file.
    Attachment,
    /// Anything the probe could not classify.
    Unknown,
}

impl StreamType {
    /// The name of the kind, as it is shown to the user.
    pub open spec fn label(self) -> Seq<char> {
        match self {
            StreamType::Video => "Video"@,
            StreamType::Audio => "Audio"@,
            StreamType::Subtitle => "Subtitle"@,
            StreamType::Attachment => "Attachment"@,
            StreamType::Unknown => "Unknown"@,
        }
    }

    /// The name of the kind, as it is shown to the user.
    pub fn name(&self) -> (name: &'static str)
        ensures
            name@ == self.label(),
    {
        match self {
            StreamType::Video => "Video",
            StreamType::Audio => "Audio",
            StreamType::Subtitle => "Subtitle",
            StreamType::Attachment => "Attachment",
            StreamType::Unknown => "Unknown",
        }
    }
}

/// What is known of one track.
///
/// `duration_seconds` holds whole seconds and `framerate` the rate as the
/// probe wrote it (`"24000/1001"` or a decimal number).
#[derive(Debug, Clone)]
pub struct StreamInfo {
    /// Zero-based index of the track within the file.
    pub index: u32,
    /// The kind of the track.
    pub stream_type: StreamType,
    /// Codec name, such as `h264` or `aac`.
    pub codec: String,
    /// Language code, such as `eng`.
    pub language: Option<String>,
    /// Title of the track.
    pub title: Option<String>,
    /// Whether the track is flagged as the default of its kind.
    pub default: bool,
    /// Whether the track is flagged as forced.
    pub forced: bool,
    /// Size of the track in bytes.
    pub size_bytes: Option<u64>,
    /// Duration of the track in whole seconds.
    pub duration_seconds: Option<u64>,
    /// Resolution of a video track, such as `1920x1080`.
    pub resolution: Option<String>,
    /// Frame rate of a video track, as the probe wrote it.
    pub framerate: Option<String>,
    /// Whether a video track uses an HDR colour space.
    pub hdr: Option<bool>,
    /// Number of channels of an audio track.
    pub channels: Option<u32>,
    /// Sample rate of an audio track in Hz.
    pub sample_rate: Option<u32>,
    /// Bit rate in bits per second.
    pub bitrate: Option<u64>,
    /// Format of a subtitle track.
    pub subtitle_format: Option<String>,
}

impl StreamInfo {
    /// A track of which only the index and the kind are known.
    pub fn new(index: u32, stream_type: StreamType) -> (info: Self)
        ensures
            info.is_bare(index, stream_type),
    {
        Self {
            index,
            stream_type,
            codec: "unknown".to_string(),
            language: None,
            title: None,
            default: false,
            forced: false,
            size_bytes: None,
            duration_seconds: None,
            resolution: None,
            framerate: None,
            hdr: None,
            channels: None,
            sample_rate: None,
            bitrate: None,
            subtitle_format: None,
        }
    }

    /// A track of which only the index and the kind are known: its codec is
    /// `unknown`, its flags are clear, and the rest is missing.
    pub open spec fn is_bare(self, index: u32, stream_type: StreamType) -> bool {
        &&& self.index == index
        &&& self.stream_type == stream_type
        &&& self.codec@ == "unknown"@
        &&& self.language is None
        &&& self.title is None
        &&& !self.default
        &&& !self.forced
        &&& self.size_bytes is None
        &&& self.duration_seconds is None
        &&& self.resolution is None
        &&& self.framerate is None
        &&& self.hdr is None
        &&& self.channels is None
        &&& self.sample_rate is None
        &&& self.bitrate is None
        &&& self.subtitle_format is None
    }

    /// Whether the track carries the language `lang`.
    pub open spec fn speaks(self, lang: Seq<char>) -> bool {
        self.language matches Some(l) && l@ == lang
    }
}

} // verus!
