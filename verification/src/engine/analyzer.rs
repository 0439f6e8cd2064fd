//! One file from probe to plan: its tracks, the decision on them, and what
//! is to be done with the file.

use vstd::prelude::*;
use crate::config::Config;
use crate::display::status::{status_of, stream_status, StreamStatus};
use crate::engine::command::{build, command_args, ExternalCommand};
use crate::engine::necessity::{is_necessary, necessary};
use crate::engine::retention::{
    default_audio,
    default_subtitle,
    indices,
    kept,
    select,
    RetentionDecision,
};
use crate::engine::transfer::{mode_of, parse_transfer_mode, TransferMode};
use crate::error::{ErrorKind, SlimmerError};
use crate::models::ffprobe::{FFProbeOutput, FFProbeStream};
use crate::models::path::{extension, extension_of, last_name, path_text, FilePath};
use crate::models::sonarr::SonarrContext;
use crate::models::stream::{StreamInfo, StreamType};
use crate::text::{
    contains,
    decimal,
    lowercase_of,
    occurs_in,
    opt_view,
    parse_decimal,
    parse_unsigned,
    push_decimal,
    push_signed_decimal,
    signed_decimal,
    text_eq,
    to_lowercase,
    views,
};

verus! {

/// The work on one file.
#[derive(Debug, Clone)]
pub struct MkvAnalyzer {
    /// The file to read.
    pub file_path: FilePath,
    /// The directory for the result.
    pub target_directory: FilePath,
    /// The settings.
    pub config: Config,
    /// The tracks of the file, once `analyze` has run.
    pub streams: Vec<StreamInfo>,
    /// The name for the result, where it is not the name of the source.
    pub output_filename: Option<String>,
    /// What Sonarr said, where it called.
    pub sonarr_context: Option<SonarrContext>,
}

/// What is to be done with a file.
#[derive(Debug, Clone, Copy, PartialEq, Eq, Structural)]
pub enum PlannedAction {
    /// Nothing has to change and this is a dry run: say that the file would
    /// be transferred.
    WouldTransfer,
    /// Nothing has to change: transfer the file as it is.
    Transfer(TransferMode),
    /// A remux is needed and this is a dry run: say that it would be done.
    WouldMerge,
    /// A remux is needed: run the merge tool.
    Merge,
}

/// The decision on a file and what follows from it.
#[derive(Debug, Clone)]
pub struct ProcessingPlan {
    /// What is kept.
    pub decision: RetentionDecision,
    /// What is to be done.
    pub action: PlannedAction,
}

/// The tracks of a report: none where there is no report, and none in a
/// report without a list of tracks.
pub open spec fn probed_tracks(report: Option<FFProbeOutput>) -> Option<Option<Vec<FFProbeStream>>> {
    match report {
        Some(output) => Some(output.streams),
        None => None,
    }
}

/// The kind that the probe's name of a kind stands for.
pub open spec fn probed_kind(p: FFProbeStream) -> StreamType {
    match p.codec_type {
        Some(t) => if t@ == "video"@ {
            StreamType::Video
        } else if t@ == "audio"@ {
            StreamType::Audio
        } else if t@ == "subtitle"@ {
            StreamType::Subtitle
        } else if t@ == "attachment"@ {
            StreamType::Attachment
        } else {
            StreamType::Unknown
        },
        None => StreamType::Unknown,
    }
}

/// The codec: its short name, else its long name, else `unknown`.
pub open spec fn probed_codec(p: FFProbeStream) -> Seq<char> {
    match p.codec_name {
        Some(n) => n@,
        None => match p.codec_long_name {
            Some(n) => n@,
            None => "unknown"@,
        },
    }
}

/// The number that an optional text writes in decimal, if it is at most
/// `max`.
pub open spec fn decimal_in(text: Option<String>, max: nat) -> Option<nat> {
    match text {
        Some(t) => parse_decimal(t@, max),
        None => None,
    }
}

/// The bit rate, where the report has a readable one.
pub open spec fn probed_bitrate(p: FFProbeStream) -> Option<nat> {
    decimal_in(p.bit_rate, u64::MAX as nat)
}

/// The duration from the tags.
pub open spec fn tagged_duration(p: FFProbeStream) -> Option<u64> {
    match p.tags {
        Some(t) => t.duration_seconds,
        None => None,
    }
}

/// The size from the tags, where it is readable.
pub open spec fn tagged_size(p: FFProbeStream) -> Option<nat> {
    match p.tags {
        Some(t) => decimal_in(t.number_of_bytes, u64::MAX as nat),
        None => None,
    }
}

/// The duration: that of the tags, and else, for a track with a bit rate,
/// that of the report itself.
pub open spec fn probed_duration(p: FFProbeStream) -> Option<u64> {
    match tagged_duration(p) {
        Some(d) => Some(d),
        None => if probed_bitrate(p) is Some {
            p.duration_seconds
        } else {
            None
        },
    }
}

/// The size: that of the tags, and else bit rate times duration over 8,
/// for a track that has both and where that number fits 64 bits.
pub open spec fn probed_size(p: FFProbeStream) -> Option<nat> {
    match tagged_size(p) {
        Some(s) => Some(s),
        None => match (probed_bitrate(p), probed_duration(p)) {
            (Some(b), Some(d)) => if b * d / 8 <= u64::MAX {
                Some((b * d / 8) as nat)
            } else {
                None
            },
            _ => None,
        },
    }
}

/// Whether a flag of the report is set.
pub open spec fn flag_set(flag: Option<i64>) -> bool {
    flag == Some(1i64)
}

/// A number of channels in 32 bits: the number itself where it fits, and
/// else its remainder modulo 2^32.
pub open spec fn channel_count(channels: i64) -> nat {
    (channels as int % 0x1_0000_0000) as nat
}

/// Whether a colour space is an HDR one: its name, in lowercase, mentions
/// `bt2020`.
pub open spec fn is_hdr(color_space: Option<String>) -> bool {
    match color_space {
        Some(c) => occurs_in("bt2020"@, lowercase_of(c@)),
        None => false,
    }
}

/// A side of the picture, 0 where the report has none.
pub open spec fn side(length: Option<i64>) -> int {
    match length {
        Some(l) => l as int,
        None => 0,
    }
}

/// The number of channels of an audio track.
pub open spec fn probed_channels(p: FFProbeStream) -> Option<nat> {
    if probed_kind(p) == StreamType::Audio {
        match p.channels {
            Some(n) => Some(channel_count(n)),
            None => None,
        }
    } else {
        None
    }
}

/// The sample rate of an audio track, where the report has a readable one
/// that fits 32 bits.
pub open spec fn probed_sample_rate(p: FFProbeStream) -> Option<nat> {
    if probed_kind(p) == StreamType::Audio {
        decimal_in(p.sample_rate, u32::MAX as nat)
    } else {
        None
    }
}

/// `info` is the track with the index `index` that the report `p` describes.
pub open spec fn describes(index: u32, p: FFProbeStream, info: StreamInfo) -> bool {
    &&& info.index == index
    &&& info.stream_type == probed_kind(p)
    &&& info.codec@ == probed_codec(p)
    &&& opt_view(info.language) == match p.tags {
        Some(t) => opt_view(t.language),
        None => None,
    }
    &&& opt_view(info.title) == match p.tags {
        Some(t) => opt_view(t.title),
        None => None,
    }
    &&& info.default == match p.disposition {
        Some(d) => flag_set(d.default),
        None => false,
    }
    &&& info.forced == match p.disposition {
        Some(d) => flag_set(d.forced),
        None => false,
    }
    &&& info.duration_seconds == probed_duration(p)
    &&& match info.size_bytes {
        Some(s) => probed_size(p) == Some(s as nat),
        None => probed_size(p) is None,
    }
    &&& match info.bitrate {
        Some(b) => probed_bitrate(p) == Some(b as nat),
        None => probed_bitrate(p) is None,
    }
    &&& opt_view(info.resolution) == if probed_kind(p) == StreamType::Video {
        Some(signed_decimal(side(p.width)) + "x"@ + signed_decimal(side(p.height)))
    } else {
        None
    }
    &&& opt_view(info.framerate) == if probed_kind(p) == StreamType::Video {
        opt_view(p.r_frame_rate)
    } else {
        None
    }
    &&& info.hdr == if probed_kind(p) == StreamType::Video {
        Some(is_hdr(p.color_space))
    } else {
        None
    }
    &&& match info.channels {
        Some(c) => probed_channels(p) == Some(c as nat),
        None => probed_channels(p) is None,
    }
    &&& match info.sample_rate {
        Some(r) => probed_sample_rate(p) == Some(r as nat),
        None => probed_sample_rate(p) is None,
    }
    &&& opt_view(info.subtitle_format) == if probed_kind(p) == StreamType::Subtitle {
        Some(probed_codec(p))
    } else {
        None
    }
}

/// Whether a colour space name in lowercase mentions `bt2020`.
pub fn mentions_bt2020(lowered: &str) -> (r: bool)
    ensures
        r == occurs_in("bt2020"@, lowered@),
{
    contains(lowered, "bt2020")
}

/// A copy of an optional text.

fn copy_of(text: &Option<String>) -> (copy: Option<String>)
    ensures
        opt_view(copy) == opt_view(*text),
{
    match text {
        Some(t) => Some(t.clone()),
        None => None,
    }
}

/// The kind that the probe's name of a kind stands for.

fn kind_from(codec_type: &Option<String>) -> (kind: StreamType)
    ensures
        kind == match *codec_type {
            Some(t) => if t@ == "video"@ {
                StreamType::Video
            } else if t@ == "audio"@ {
                StreamType::Audio
            } else if t@ == "subtitle"@ {
                StreamType::Subtitle
            } else if t@ == "attachment"@ {
                StreamType::Attachment
            } else {
                StreamType::Unknown
            },
            None => StreamType::Unknown,
        },
{
    match codec_type {
        Some(t) => if text_eq(t.as_str(), "video") {
            StreamType::Video
        } else if text_eq(t.as_str(), "audio") {
            StreamType::Audio
        } else if text_eq(t.as_str(), "subtitle") {
            StreamType::Subtitle
        } else if text_eq(t.as_str(), "attachment") {
            StreamType::Attachment
        } else {
            StreamType::Unknown
        },
        None => StreamType::Unknown,
    }
}

/// The codec of a track: its short name, else its long name, else `unknown`.

fn codec_from(stream: &FFProbeStream) -> (codec: String)
    ensures
        codec@ == probed_codec(*stream),
{
    match &stream.codec_name {
        Some(n) => n.clone(),
        None => match &stream.codec_long_name {
            Some(n) => n.clone(),
            None => "unknown".to_string(),
        },
    }
}

/// Whether a flag of the report is set.

fn is_set(flag: Option<i64>) -> (r: bool)
    ensures
        r == flag_set(flag),
{
    match flag {
        Some(f) => f == 1,
        None => false,
    }
}

/// Width and height of the picture, as `1920x1080`.

fn resolution_from(stream: &FFProbeStream) -> (resolution: String)
    ensures
        resolution@ == signed_decimal(side(stream.width)) + "x"@ + signed_decimal(
            side(stream.height),
        ),
{
    let mut resolution = String::new();
    let width: i64 = match stream.width {
        Some(w) => w,
        None => 0,
    };
    let height: i64 = match stream.height {
        Some(h) => h,
        None => 0,
    };
    push_signed_decimal(&mut resolution, width);
    resolution.append("x");
    push_signed_decimal(&mut resolution, height);
    assert(resolution@ =~= signed_decimal(side(stream.width)) + "x"@ + signed_decimal(
        side(stream.height),
    ));
    resolution
}

/// Whether a colour space is an HDR one.

fn hdr_from(color_space: &Option<String>) -> (hdr: bool)
    ensures
        hdr == is_hdr(*color_space),
{
    match color_space {
        Some(c) => {
            let lowered = to_lowercase(c.as_str());
            mentions_bt2020(lowered.as_str())
        },
        None => false,
    }
}

/// The number that an optional text writes in decimal.

fn number_from(text: &Option<String>, max: u64) -> (value: Option<u64>)
    ensures
        match value {
            Some(v) => decimal_in(*text, max as nat) == Some(v as nat),
            None => decimal_in(*text, max as nat) is None,
        },
{
    match text {
        Some(t) => parse_unsigned(t.as_str(), max),
        None => None,
    }
}

/// A number of channels, brought into 32 bits.

fn wrap_channels(channels: i64) -> (count: u32)
    ensures
        count == channel_count(channels),
{
    if channels >= 0 {
        (channels % 0x1_0000_0000) as u32
    } else {
        let below: i64 = -(channels + 1);
        (0xffff_ffffi64 - below % 0x1_0000_0000) as u32
    }
}

/// Bit rate times duration over 8, where that fits 64 bits.

fn derived_size(bit_rate: u64, duration: u64) -> (size: Option<u64>)
    ensures
        match size {
            Some(s) => s == bit_rate as nat * duration as nat / 8,
            None => bit_rate as nat * duration as nat / 8 > u64::MAX,
        },
{
    assert(bit_rate as int * duration as int <= 0xffff_ffff_ffff_ffff * 0xffff_ffff_ffff_ffff)
        by (nonlinear_arith)
        requires
            0 <= bit_rate as int <= 0xffff_ffff_ffff_ffff,
            0 <= duration as int <= 0xffff_ffff_ffff_ffff,
    ;
    let product: u128 = bit_rate as u128 * duration as u128;
    let bytes: u128 = product / 8;
    if bytes > u64::MAX as u128 {
        None
    } else {
        Some(bytes as u64)
    }
}

/// The advice for a merge that failed for a known cause, by what the merge
/// tool wrote to its error output.
pub open spec fn merge_failure_cause(stderr: Seq<char>) -> Option<Seq<char>> {
    if occurs_in("No space left on device"@, stderr) {
        Some("Insufficient disk space to create output file"@)
    } else if occurs_in("Permission denied"@, stderr) {
        Some("Permission denied - check file and directory permissions"@)
    } else if occurs_in("No such file or directory"@, stderr) {
        Some("Input file not found or became unavailable during processing"@)
    } else {
        None
    }
}

/// The exit code as it is shown: -1 where the merge tool left none.
pub open spec fn shown_exit_code(exit_code: Option<i32>) -> int {
    match exit_code {
        Some(c) => c as int,
        None => -1,
    }
}

/// The text of the error for a merge that failed.
pub open spec fn merge_failure_message(
    stderr: Seq<char>,
    stdout: Seq<char>,
    exit_code: Option<i32>,
) -> Seq<char> {
    (match merge_failure_cause(stderr) {
        Some(cause) => cause,
        None => "mkvmerge failed with exit code "@ + signed_decimal(shown_exit_code(exit_code)),
    }) + "\n\nStderr: "@ + stderr + "\nStdout: "@ + stdout
}

/// The error for a merge tool that ended with a failure: a known cause
/// where its error output names one, and else its exit code, followed by
/// what it wrote.
pub fn merge_failure(stderr: &str, stdout: &str, exit_code: Option<i32>) -> (e: SlimmerError)
    ensures
        e.kind == ErrorKind::MergeExecution,
        e.message@ == merge_failure_message(stderr@, stdout@, exit_code),
{
    let mut message = String::new();
    if contains(stderr, "No space left on device") {
        message.append("Insufficient disk space to create output file");
    } else if contains(stderr, "Permission denied") {
        message.append("Permission denied - check file and directory permissions");
    } else if contains(stderr, "No such file or directory") {
        message.append("Input file not found or became unavailable during processing");
    } else {
        message.append("mkvmerge failed with exit code ");
        let code: i64 = match exit_code {
            Some(c) => c as i64,
            None => -1,
        };
        push_signed_decimal(&mut message, code);
    }
    message.append("\n\nStderr: ");
    message.append(stderr);
    message.append("\nStdout: ");
    message.append(stdout);
    assert(message@ =~= merge_failure_message(stderr@, stdout@, exit_code));
    SlimmerError { kind: ErrorKind::MergeExecution, message }
}

/// The bytes that a remux saved: none where the result is not smaller.
pub fn space_saved(original_size: u64, new_size: u64) -> (saved: u64)
    ensures
        saved == if original_size > new_size {
            original_size - new_size
        } else {
            0
        },
{
    if original_size > new_size {
        original_size - new_size
    } else {
        0
    }
}

/// The signal for the pipeline after a success: one for a file that was
/// rewritten, another for a file that was transferred as it is, none where
/// no pipeline called.
pub fn move_status(pipeline_present: bool, rewritten: bool) -> (signal: Option<&'static str>)
    ensures
        signal is Some <==> pipeline_present,
        signal matches Some(s) ==> s@ == if rewritten {
            "[MoveStatus] RenameRequested"@
        } else {
            "[MoveStatus] MoveComplete"@
        },
{
    if !pipeline_present {
        None
    } else if rewritten {
        Some("[MoveStatus] RenameRequested")
    } else {
        Some("[MoveStatus] MoveComplete")
    }
}

/// The indices written as `#0, #1, #2`.
pub open spec fn hash_list(ids: Seq<u32>) -> Seq<char>
    decreases ids.len(),
{
    if ids.len() == 0 {
        Seq::empty()
    } else if ids.len() == 1 {
        "#"@ + decimal(ids[0] as nat)
    } else {
        hash_list(ids.drop_last()) + ", #"@ + decimal(ids.last() as nat)
    }
}

/// The line that tells which tracks are kept.
pub open spec fn keeping_notice(ids: Seq<u32>) -> Seq<char> {
    "🎯 Keeping "@ + decimal(ids.len()) + " stream(s): "@ + hash_list(ids)
}

/// The line that tells which tracks are kept.
pub fn describe_kept(retained: &Vec<u32>) -> (notice: String)
    ensures
        notice@ == keeping_notice(retained@),
{
    let mut list = String::new();
    let mut i: usize = 0;
    while i < retained.len()
        invariant
            i <= retained.len(),
            list@ == hash_list(retained@.take(i as int)),
        decreases retained.len() - i,
    {
        let ghost before = retained@.take(i as int);
        let ghost after = retained@.take(i + 1);
        proof {
            assert(after.drop_last() =~= before);
            assert(after.last() == retained@[i as int]);
        }
        if i > 0 {
            list.append(", #");
        } else {
            list.append("#");
        }
        push_decimal(&mut list, retained[i] as u64);
        assert(list@ =~= hash_list(after));
        i += 1;
    }
    assert(retained@.take(i as int) =~= retained@);
    let mut notice = "🎯 Keeping ".to_string();
    push_decimal(&mut notice, retained.len() as u64);
    notice.append(" stream(s): ");
    notice.append(list.as_str());
    assert(notice@ =~= keeping_notice(retained@));
    notice
}

/// The action for a file, by whether a remux is needed, whether this is a
/// dry run, and the transfer mode that was asked for.
pub open spec fn planned(remux: bool, dry_run: bool, mode: TransferMode) -> PlannedAction {
    if remux {
        if dry_run {
            PlannedAction::WouldMerge
        } else {
            PlannedAction::Merge
        }
    } else {
        if dry_run {
            PlannedAction::WouldTransfer
        } else {
            PlannedAction::Transfer(mode)
        }
    }
}

/// The transfer mode that a Sonarr context asks for.
pub open spec fn wanted_mode(context: Option<SonarrContext>) -> TransferMode {
    match context {
        Some(c) => mode_of(opt_view(c.transfer_mode)),
        None => TransferMode::HardLinkOrCopy,
    }
}

impl MkvAnalyzer {
    /// The work on a file whose tracks are not known yet.
    pub fn new(
        file_path: FilePath,
        target_directory: FilePath,
        config: Config,
        output_filename: Option<String>,
        sonarr_context: Option<SonarrContext>,
    ) -> (analyzer: Self)
        ensures
            analyzer.file_path == file_path,
            analyzer.target_directory == target_directory,
            analyzer.config == config,
            analyzer.streams@.len() == 0,
            analyzer.output_filename == output_filename,
            analyzer.sonarr_context == sonarr_context,
    {
        Self {
            file_path,
            target_directory,
            config,
            streams: Vec::new(),
            output_filename,
            sonarr_context,
        }
    }

    /// The track that a report of the probe describes.
    pub fn create_stream_info_from_ffprobe(index: u32, stream: &FFProbeStream) -> (info:
        StreamInfo)
        ensures
            describes(index, *stream, info),
    {
        let kind = kind_from(&stream.codec_type);
        let codec = codec_from(stream);
        let (language, title, tagged_seconds, tagged_bytes) = match &stream.tags {
            Some(tags) => (
                copy_of(&tags.language),
                copy_of(&tags.title),
                tags.duration_seconds,
                number_from(&tags.number_of_bytes, u64::MAX),
            ),
            None => (None, None, None, None),
        };
        let (default, forced) = match &stream.disposition {
            Some(flags) => (is_set(flags.default), is_set(flags.forced)),
            None => (false, false),
        };
        let bitrate = number_from(&stream.bit_rate, u64::MAX);
        let duration_seconds = match tagged_seconds {
            Some(d) => Some(d),
            None => match bitrate {
                Some(_) => stream.duration_seconds,
                None => None,
            },
        };
        let size_bytes = match tagged_bytes {
            Some(s) => Some(s),
            None => match (bitrate, duration_seconds) {
                (Some(b), Some(d)) => derived_size(b, d),
                _ => None,
            },
        };
        let (resolution, framerate, hdr) = match kind {
            StreamType::Video => (
                Some(resolution_from(stream)),
                copy_of(&stream.r_frame_rate),
                Some(hdr_from(&stream.color_space)),
            ),
            _ => (None, None, None),
        };
        let (channels, sample_rate) = match kind {
            StreamType::Audio => (
                match stream.channels {
                    Some(c) => Some(wrap_channels(c)),
                    None => None,
                },
                match number_from(&stream.sample_rate, 0xffff_ffff) {
                    Some(r) => Some(r as u32),
                    None => None,
                },
            ),
            _ => (None, None),
        };
        let subtitle_format = match kind {
            StreamType::Subtitle => Some(codec.clone()),
            _ => None,
        };
        StreamInfo {
            index,
            stream_type: kind,
            codec,
            language,
            title,
            default,
            forced,
            size_bytes,
            duration_seconds,
            resolution,
            framerate,
            hdr,
            channels,
            sample_rate,
            bitrate,
            subtitle_format,
        }
    }

    /// Takes the tracks from what the probe reported. A report without a
    /// list of tracks adds none; where there is no report at all, the file
    /// is taken to hold one track of unknown kind.
    pub fn analyze(&mut self, report: Option<FFProbeOutput>)
        requires
            probed_tracks(report) matches Some(Some(list)) ==> list@.len() <= u32::MAX,
        ensures
            final(self).file_path == old(self).file_path,
            final(self).target_directory == old(self).target_directory,
            final(self).config == old(self).config,
            final(self).output_filename == old(self).output_filename,
            final(self).sonarr_context == old(self).sonarr_context,
            match probed_tracks(report) {
                Some(Some(list)) => final(self).streams@.len() == old(self).streams@.len()
                    + list@.len() && final(self).streams@.take(old(self).streams@.len() as int)
                    == old(self).streams@ && forall|i: int|
                    0 <= i < list@.len() ==> describes(
                        i as u32,
                        #[trigger] list@[i],
                        final(self).streams@[old(self).streams@.len() + i],
                    ),
                Some(None) => final(self).streams@ == old(self).streams@,
                None => ({
                    let after = final(self).streams@;
                    &&& after.len() == old(self).streams@.len() + 1
                    &&& after.take(old(self).streams@.len() as int) == old(self).streams@
                    &&& after.last().is_bare(0, StreamType::Unknown)
                }),
            },
    {
        let ghost before = self.streams@;
        let tracks = match report {
            Some(output) => Some(output.streams),
            None => None,
        };
        match tracks {
            Some(Some(list)) => {
                let mut i: usize = 0;
                while i < list.len()
                    invariant
                        i <= list.len(),
                        list@.len() <= u32::MAX,
                        self.file_path == old(self).file_path,
                        self.target_directory == old(self).target_directory,
                        self.config == old(self).config,
                        self.output_filename == old(self).output_filename,
                        self.sonarr_context == old(self).sonarr_context,
                        before == old(self).streams@,
                        self.streams@.len() == before.len() + i,
                        self.streams@.take(before.len() as int) == before,
                        forall|k: int|
                            0 <= k < i ==> describes(
                                k as u32,
                                #[trigger] list@[k],
                                self.streams@[before.len() + k],
                            ),
                    decreases list.len() - i,
                {
                    let info = Self::create_stream_info_from_ffprobe(i as u32, &list[i]);
                    let ghost so_far = self.streams@;
                    self.streams.push(info);
                    assert(self.streams@.take(before.len() as int) =~= so_far.take(
                        before.len() as int,
                    ));
                    i += 1;
                }
            },
            Some(None) => {},
            None => {
                self.streams.push(StreamInfo::new(0, StreamType::Unknown));
                assert(self.streams@.take(before.len() as int) =~= before);
            },
        }
    }

    /// The status to show beside every track, in the order of the tracks.
    pub fn display_streams(&self) -> (shown: Vec<StreamStatus>)
        ensures
            shown@.len() == self.streams@.len(),
            forall|i: int|
                0 <= i < shown@.len() ==> #[trigger] shown@[i] == status_of(
                    self.streams@,
                    self.streams@[i],
                    self.config.audio.keep_languages@,
                    self.config.subtitles.keep_languages@,
                ),
    {
        let mut shown: Vec<StreamStatus> = Vec::new();
        let mut i: usize = 0;
        while i < self.streams.len()
            invariant
                i <= self.streams.len(),
                shown@.len() == i,
                forall|k: int|
                    0 <= k < i ==> #[trigger] shown@[k] == status_of(
                        self.streams@,
                        self.streams@[k],
                        self.config.audio.keep_languages@,
                        self.config.subtitles.keep_languages@,
                    ),
            decreases self.streams.len() - i,
        {
            shown.push(stream_status(&self.streams, &self.streams[i], &self.config));
            i += 1;
        }
        shown
    }

    /// Decides which tracks to keep, and which to flag as default.
    pub fn get_streams_to_keep(&self) -> (decision: RetentionDecision)
        ensures
            decision.retained@ == indices(
                kept(
                    self.streams@,
                    self.config.audio.keep_languages@,
                    self.config.subtitles.keep_languages@,
                ),
            ),
            decision.default_audio == default_audio(
                self.streams@,
                self.config.audio.keep_languages@,
                self.config.subtitles.keep_languages@,
            ),
            decision.default_subtitle == default_subtitle(
                self.streams@,
                self.config.audio.keep_languages@,
                self.config.subtitles.keep_languages@,
            ),
    {
        select(
            &self.streams,
            &self.config.audio.keep_languages,
            &self.config.subtitles.keep_languages,
        )
    }

    /// Whether the file has to be remuxed to carry out the decision.
    pub fn is_mkvmerge_necessary(&self, decision: &RetentionDecision) -> (r: bool)
        ensures
            r == necessary(
                self.streams@,
                decision.retained@,
                decision.default_audio,
                decision.default_subtitle,
            ),
    {
        is_necessary(&self.streams, decision)
    }

    /// The call of the merge tool that carries out the decision and writes
    /// to `output_path`.
    pub fn build_mkvmerge_command(
        &self,
        decision: &RetentionDecision,
        output_path: &FilePath,
    ) -> (command: ExternalCommand)
        ensures
            command.program@ == "mkvmerge"@,
            views(command.args@) == command_args(
                self.streams@,
                decision.retained@,
                decision.default_audio,
                decision.default_subtitle,
                path_text(output_path@),
                path_text(self.file_path@),
            ),
    {
        let output = output_path.to_text();
        let source = self.file_path.to_text();
        build(&self.streams, decision, output.as_str(), source.as_str())
    }

    /// The path of the result: the given name, or else the name of the
    /// source, in the target directory. A source whose path ends in no file
    /// name, or in one without an extension, is an error where no name is
    /// given.
    pub fn generate_output_path(&self) -> (path: Result<FilePath, SlimmerError>)
        ensures
            path is Ok <==> self.output_filename is Some || (last_name(self.file_path@)
                matches Some(name) && extension_of(name) is Some),
            path matches Ok(p) ==> p@ == self.target_directory@.push(
                match self.output_filename {
                    Some(name) => name@,
                    None => last_name(self.file_path@).unwrap(),
                },
            ),
            path matches Err(e) ==> e.kind == ErrorKind::Processing && e.message@ == if last_name(
                self.file_path@,
            ) is None {
                "Could not get file stem from input path"@
            } else {
                "Could not get file extension from input path"@
            },
    {
        match &self.output_filename {
            Some(name) => Ok(self.target_directory.child(name.as_str())),
            None => match self.file_path.file_name() {
                None => Err(
                    SlimmerError {
                        kind: ErrorKind::Processing,
                        message: "Could not get file stem from input path".to_string(),
                    },
                ),
                Some(name) => match extension(name.as_str()) {
                    None => Err(
                        SlimmerError {
                            kind: ErrorKind::Processing,
                            message: "Could not get file extension from input path".to_string(),
                        },
                    ),
                    Some(_) => Ok(self.target_directory.child(name.as_str())),
                },
            },
        }
    }

    /// Decides on the tracks and plans the work: a file of which nothing
    /// would be kept is refused; a file that needs no remux is transferred
    /// as it is, in the mode that Sonarr asked for; every other file is
    /// remuxed. In a dry run the plan only says what would be done.
    pub fn process_streams(&self) -> (plan: Result<ProcessingPlan, SlimmerError>)
        ensures
            ({
                let audio = self.config.audio.keep_languages@;
                let subtitles = self.config.subtitles.keep_languages@;
                let retained = indices(kept(self.streams@, audio, subtitles));
                let chosen_audio = default_audio(self.streams@, audio, subtitles);
                let chosen_subtitle = default_subtitle(self.streams@, audio, subtitles);
                &&& plan is Err <==> retained.len() == 0
                &&& plan matches Err(e) ==> e.kind == ErrorKind::Processing && e.message@
                    == "No streams would be kept - refusing to process"@
                &&& plan matches Ok(p) ==> p.decision.retained@ == retained
                    && p.decision.default_audio == chosen_audio && p.decision.default_subtitle
                    == chosen_subtitle && p.action == planned(
                    necessary(self.streams@, retained, chosen_audio, chosen_subtitle),
                    self.config.processing.dry_run,
                    wanted_mode(self.sonarr_context),
                )
            }),
    {
        let decision = self.get_streams_to_keep();
        if decision.retained.len() == 0 {
            return Err(
                SlimmerError {
                    kind: ErrorKind::Processing,
                    message: "No streams would be kept - refusing to process".to_string(),
                },
            );
        }
        let remux = self.is_mkvmerge_necessary(&decision);
        let action = if remux {
            if self.config.processing.dry_run {
                PlannedAction::WouldMerge
            } else {
                PlannedAction::Merge
            }
        } else {
            if self.config.processing.dry_run {
                PlannedAction::WouldTransfer
            } else {
                let mode = match &self.sonarr_context {
                    Some(context) => match &context.transfer_mode {
                        Some(text) => parse_transfer_mode(Some(text.as_str())),
                        None => parse_transfer_mode(None),
                    },
                    None => TransferMode::HardLinkOrCopy,
                };
                PlannedAction::Transfer(mode)
            }
        };
        Ok(ProcessingPlan { decision, action })
    }
}

} // verus!
