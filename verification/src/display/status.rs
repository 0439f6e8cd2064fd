//! The verdict that is shown beside every track, and the sizes that are
//! shown below the tables.
//!
//! The tables show a simpler picture than the decision that is carried out:
//! an audio track without a language is shown as removed, and the default
//! track is looked for among all tracks of a kind.

use vstd::prelude::*;
use crate::config::{Config, SubtitlePreference};
use crate::engine::command::of_kind;
use crate::engine::retention::{
    accepts,
    chosen_subtitle,
    first_accepted,
    first_speaking,
    is_listed,
    picked,
    subtitle_wanted,
    title_has_prefix,
};
use crate::models::stream::{StreamInfo, StreamType};
use crate::text::{lowercase_of, text_eq, to_lowercase, to_uppercase, uppercase_of, views};

verus! {

/// What is shown of a track's fate.
#[derive(Debug, Clone, Copy, PartialEq, Eq, Structural)]
pub enum StreamStatus {
    /// The track is kept. `default` marks the track that would become the
    /// default of its kind, `title_match` a subtitle whose title a
    /// preference asked for.
    Keep { default: bool, title_match: bool },
    /// The track is removed.
    Remove,
    /// The fate of the track is not known.
    Unknown,
}

impl StreamStatus {
    /// The text of the status.
    pub open spec fn label(self) -> Seq<char> {
        match self {
            StreamStatus::Keep { default: false, title_match: false } => "KEEP"@,
            StreamStatus::Keep { default: true, title_match: false } => "KEEP (default)"@,
            StreamStatus::Keep { default: false, title_match: true } => "KEEP (title match)"@,
            StreamStatus::Keep { default: true, title_match: true } => "KEEP (default, title match)"@,
            StreamStatus::Remove => "REMOVE"@,
            StreamStatus::Unknown => "UNKNOWN"@,
        }
    }

    /// The text of the status.
    pub fn text(&self) -> (text: &'static str)
        ensures
            text@ == self.label(),
    {
        match self {
            StreamStatus::Keep { default: false, title_match: false } => "KEEP",
            StreamStatus::Keep { default: true, title_match: false } => "KEEP (default)",
            StreamStatus::Keep { default: false, title_match: true } => "KEEP (title match)",
            StreamStatus::Keep { default: true, title_match: true } => "KEEP (default, title match)",
            StreamStatus::Remove => "REMOVE",
            StreamStatus::Unknown => "UNKNOWN",
        }
    }

    /// Whether the status is set off from the plain ones: a kept track with
    /// a remark.
    pub fn is_highlighted(&self) -> (r: bool)
        ensures
            r == (*self matches StreamStatus::Keep { default, title_match } && (default
                || title_match)),
    {
        match self {
            StreamStatus::Keep { default, title_match } => *default || *title_match,
            _ => false,
        }
    }
}

/// The position among `tracks` of the first track in the first language,
/// from `audio[from]` on, that any of them is in; none when no track is in
/// any of these languages.
pub open spec fn preferred_audio(tracks: Seq<StreamInfo>, audio: Seq<String>, from: int) -> Option<
    int,
>
    decreases audio.len() - from,
{
    if from < 0 || from >= audio.len() {
        None
    } else {
        let at = first_speaking(tracks, audio[from]@, 0);
        if at < tracks.len() {
            Some(at)
        } else {
            preferred_audio(tracks, audio, from + 1)
        }
    }
}

/// The index of the audio track that is shown as the coming default.
pub open spec fn shown_default_audio(streams: Seq<StreamInfo>, audio: Seq<String>) -> Option<u32> {
    let tracks = streams.filter(of_kind(StreamType::Audio));
    match preferred_audio(tracks, audio, 0) {
        Some(at) => Some(tracks[at].index),
        None => None,
    }
}

/// The index of the subtitle track that is shown as the coming default.
pub open spec fn shown_default_subtitle(
    streams: Seq<StreamInfo>,
    subtitles: Seq<SubtitlePreference>,
) -> Option<u32> {
    let tracks = streams.filter(of_kind(StreamType::Subtitle));
    match chosen_subtitle(tracks, subtitles, 0) {
        Some(at) => Some(tracks[at].index),
        None => None,
    }
}

/// A preference of the track's language asks for a title, and the track
/// has it.
pub open spec fn asked_title(pref: SubtitlePreference, s: StreamInfo) -> bool {
    s.speaks(pref.language@) && (pref.title_prefix matches Some(p) && (s.title matches Some(t)
        && lowercase_of(p@).is_prefix_of(lowercase_of(t@))))
}

/// Some preference asks for the title of the track.
pub open spec fn title_asked_for(s: StreamInfo, subtitles: Seq<SubtitlePreference>) -> bool {
    exists|j: int| 0 <= j < subtitles.len() && asked_title(#[trigger] subtitles[j], s)
}

/// The status that is shown beside the track `s` of the file `streams`.
pub open spec fn status_of(
    streams: Seq<StreamInfo>,
    s: StreamInfo,
    audio: Seq<String>,
    subtitles: Seq<SubtitlePreference>,
) -> StreamStatus {
    match s.stream_type {
        StreamType::Video => StreamStatus::Keep { default: false, title_match: false },
        StreamType::Attachment => StreamStatus::Keep { default: false, title_match: false },
        StreamType::Unknown => StreamStatus::Unknown,
        StreamType::Audio => match s.language {
            Some(l) => if views(audio).contains(l@) {
                StreamStatus::Keep {
                    default: shown_default_audio(streams, audio) == Some(s.index),
                    title_match: false,
                }
            } else {
                StreamStatus::Remove
            },
            None => StreamStatus::Remove,
        },
        StreamType::Subtitle => if subtitle_wanted(s, subtitles) {
            StreamStatus::Keep {
                default: shown_default_subtitle(streams, subtitles) == Some(s.index),
                title_match: title_asked_for(s, subtitles),
            }
        } else {
            StreamStatus::Remove
        },
    }
}

/// Whether the track is in one of the preferred languages.

fn speaks_listed(s: &StreamInfo, audio: &Vec<String>) -> (r: bool)
    ensures
        r == (s.language matches Some(l) && views(audio@).contains(l@)),
{
    match &s.language {
        Some(l) => is_listed(audio, l),
        None => false,
    }
}

/// Whether a preference accepts the track, and whether it does so by a title it

/// asked for.

fn accepted_by(pref: &SubtitlePreference, s: &StreamInfo) -> (r: (bool, bool))
    ensures
        r.0 == accepts(*pref, *s),
        r.1 == asked_title(*pref, *s),
{
    match &s.language {
        Some(l) => {
            if *l != pref.language {
                return (false, false);
            }
            match &pref.title_prefix {
                None => (true, false),
                Some(p) => match &s.title {
                    Some(t) => {
                        let lowered_title = to_lowercase(t.as_str());
                        let lowered_prefix = to_lowercase(p.as_str());
                        let has = title_has_prefix(
                            lowered_title.as_str(),
                            lowered_prefix.as_str(),
                        );
                        (has, has)
                    },
                    None => (false, false),
                },
            }
        },
        None => (false, false),
    }
}

/// Whether some preference accepts the track, and whether some preference asked

/// for its title.

fn wanted_and_asked(s: &StreamInfo, subtitles: &Vec<SubtitlePreference>) -> (r: (bool, bool))
    ensures
        r.0 == subtitle_wanted(*s, subtitles@),
        r.1 == title_asked_for(*s, subtitles@),
{
    let mut wanted = false;
    let mut asked = false;
    let mut j: usize = 0;
    while j < subtitles.len()
        invariant
            j <= subtitles.len(),
            wanted == exists|k: int| 0 <= k < j && accepts(#[trigger] subtitles@[k], *s),
            asked == exists|k: int| 0 <= k < j && asked_title(#[trigger] subtitles@[k], *s),
        decreases subtitles.len() - j,
    {
        let (accepted, title) = accepted_by(&subtitles[j], s);
        if accepted {
            wanted = true;
        }
        if title {
            asked = true;
        }
        j += 1;
    }
    (wanted, asked)
}

/// The positions of the tracks of one kind.
fn positions_of_kind(streams: &Vec<StreamInfo>, kind: StreamType) -> (at: Vec<usize>)
    ensures
        picked(streams@, at@) == streams@.filter(of_kind(kind)),
        forall|k: int| 0 <= k < at.len() ==> at[k] < streams.len(),
{
    let mut at: Vec<usize> = Vec::new();
    let ghost wanted = of_kind(kind);
    proof {
        reveal(Seq::filter);
        assert(streams@.take(0) =~= Seq::<StreamInfo>::empty());
        assert(picked(streams@, at@) =~= streams@.take(0).filter(
            wanted,
        ));
    }
    let mut i: usize = 0;
    while i < streams.len()
        invariant
            i <= streams.len(),
            wanted == of_kind(kind),
            picked(streams@, at@) == streams@.take(i as int).filter(
                wanted,
            ),
            forall|k: int| 0 <= k < at.len() ==> at[k] < streams.len(),
        decreases streams.len() - i,
    {
        let ghost before = streams@.take(i as int);
        let ghost at_before = at@;
        proof {
            assert(streams@.take(i + 1) =~= before.push(streams@[i as int]));
            before.lemma_filter_push(streams@[i as int], wanted);
        }
        if streams[i].stream_type == kind {
            at.push(i);
            assert(picked(streams@, at@)
                =~= picked(streams@, at_before).push(
                streams@[i as int],
            ));
        }
        i += 1;
    }
    assert(streams@.take(i as int) =~= streams@);
    at
}

/// The index of the audio track that is shown as the coming default: the
/// first audio track in the first preferred language that any audio track
/// is in.
pub fn get_preferred_default_audio_stream(
    streams: &Vec<StreamInfo>,
    audio: &Vec<String>,
) -> (chosen: Option<u32>)
    ensures
        chosen == shown_default_audio(streams@, audio@),
{
    let at = positions_of_kind(streams, StreamType::Audio);
    let ghost tracks = streams@.filter(of_kind(StreamType::Audio));
    let mut j: usize = 0;
    while j < audio.len()
        invariant
            j <= audio.len(),
            tracks == picked(streams@, at@),
            tracks == streams@.filter(of_kind(StreamType::Audio)),
            forall|k: int| 0 <= k < at.len() ==> at[k] < streams.len(),
            preferred_audio(tracks, audio@, 0) == preferred_audio(tracks, audio@, j as int),
        decreases audio.len() - j,
    {
        let mut k: usize = 0;
        while k < at.len()
            invariant
                k <= at.len(),
                j < audio.len(),
                tracks == picked(streams@, at@),
                tracks == streams@.filter(of_kind(StreamType::Audio)),
                forall|k: int| 0 <= k < at.len() ==> at[k] < streams.len(),
                preferred_audio(tracks, audio@, 0) == preferred_audio(tracks, audio@, j as int),
                first_speaking(tracks, audio@[j as int]@, 0) == first_speaking(
                    tracks,
                    audio@[j as int]@,
                    k as int,
                ),
            decreases at.len() - k,
        {
            let s = &streams[at[k]];
            let speaks = match &s.language {
                Some(l) => *l == audio[j],
                None => false,
            };
            assert(speaks == tracks[k as int].speaks(audio@[j as int]@));
            if speaks {
                return Some(s.index);
            }
            k += 1;
        }
        j += 1;
    }
    None
}

/// The index of the subtitle track that is shown as the coming default: the
/// first subtitle track that the first preference with any accepted track
/// accepts.
pub fn get_preferred_default_subtitle_stream(
    streams: &Vec<StreamInfo>,
    subtitles: &Vec<SubtitlePreference>,
) -> (chosen: Option<u32>)
    ensures
        chosen == shown_default_subtitle(streams@, subtitles@),
{
    let at = positions_of_kind(streams, StreamType::Subtitle);
    let ghost tracks = streams@.filter(of_kind(StreamType::Subtitle));
    let mut j: usize = 0;
    while j < subtitles.len()
        invariant
            j <= subtitles.len(),
            tracks == picked(streams@, at@),
            tracks == streams@.filter(of_kind(StreamType::Subtitle)),
            forall|k: int| 0 <= k < at.len() ==> at[k] < streams.len(),
            chosen_subtitle(tracks, subtitles@, 0) == chosen_subtitle(tracks, subtitles@, j as int),
        decreases subtitles.len() - j,
    {
        let mut k: usize = 0;
        while k < at.len()
            invariant
                k <= at.len(),
                j < subtitles.len(),
                tracks == picked(streams@, at@),
                tracks == streams@.filter(of_kind(StreamType::Subtitle)),
                forall|k: int| 0 <= k < at.len() ==> at[k] < streams.len(),
                chosen_subtitle(tracks, subtitles@, 0) == chosen_subtitle(
                    tracks,
                    subtitles@,
                    j as int,
                ),
                first_accepted(tracks, subtitles@[j as int], 0) == first_accepted(
                    tracks,
                    subtitles@[j as int],
                    k as int,
                ),
            decreases at.len() - k,
        {
            let s = &streams[at[k]];
            let (accepted, _) = accepted_by(&subtitles[j], s);
            if accepted {
                return Some(s.index);
            }
            k += 1;
        }
        j += 1;
    }
    None
}

/// Whether `index` is the chosen one.

fn is_choice(chosen: &Option<u32>, index: u32) -> (r: bool)
    ensures
        r == (*chosen == Some(index)),
{
    match chosen {
        Some(c) => *c == index,
        None => false,
    }
}

/// The status that is shown beside a track of the file `streams`.
pub fn stream_status(streams: &Vec<StreamInfo>, stream: &StreamInfo, config: &Config) -> (status:
    StreamStatus)
    ensures
        status == status_of(
            streams@,
            *stream,
            config.audio.keep_languages@,
            config.subtitles.keep_languages@,
        ),
{
    match stream.stream_type {
        StreamType::Video => StreamStatus::Keep { default: false, title_match: false },
        StreamType::Attachment => StreamStatus::Keep { default: false, title_match: false },
        StreamType::Unknown => StreamStatus::Unknown,
        StreamType::Audio => {
            if speaks_listed(stream, &config.audio.keep_languages) {
                let chosen = get_preferred_default_audio_stream(
                    streams,
                    &config.audio.keep_languages,
                );
                StreamStatus::Keep { default: is_choice(&chosen, stream.index), title_match: false }
            } else {
                StreamStatus::Remove
            }
        },
        StreamType::Subtitle => {
            let (wanted, asked) = wanted_and_asked(stream, &config.subtitles.keep_languages);
            if wanted {
                let chosen = get_preferred_default_subtitle_stream(
                    streams,
                    &config.subtitles.keep_languages,
                );
                StreamStatus::Keep { default: is_choice(&chosen, stream.index), title_match: asked }
            } else {
                StreamStatus::Remove
            }
        },
    }
}

/// The sizes that are shown below the tables.
#[derive(Debug, Clone, Copy, PartialEq, Eq, Structural)]
pub struct SizeSummary {
    /// The bytes of all tracks whose size is known.
    pub total_size: u128,
    /// The bytes of the tracks that are not shown as removed.
    pub keep_size: u128,
    /// The number of tracks that are shown as removed.
    pub remove_count: usize,
}

/// The known size of a track, 0 for a track of unknown size.
pub open spec fn known_size(s: StreamInfo) -> nat {
    match s.size_bytes {
        Some(b) => b as nat,
        None => 0,
    }
}

/// The bytes of the first `upto` tracks; with `kept_only`, of those among
/// them that are not shown as removed.
pub open spec fn size_sum(
    streams: Seq<StreamInfo>,
    audio: Seq<String>,
    subtitles: Seq<SubtitlePreference>,
    kept_only: bool,
    upto: int,
) -> nat
    decreases upto,
{
    if upto <= 0 || upto > streams.len() {
        0
    } else {
        let s = streams[upto - 1];
        size_sum(streams, audio, subtitles, kept_only, upto - 1) + if kept_only && status_of(
            streams,
            s,
            audio,
            subtitles,
        ) == StreamStatus::Remove {
            0
        } else {
            known_size(s)
        }
    }
}

/// The number of tracks among the first `upto` that are shown as removed.
pub open spec fn removed_count(
    streams: Seq<StreamInfo>,
    audio: Seq<String>,
    subtitles: Seq<SubtitlePreference>,
    upto: int,
) -> nat
    decreases upto,
{
    if upto <= 0 || upto > streams.len() {
        0
    } else {
        removed_count(streams, audio, subtitles, upto - 1) + if status_of(
            streams,
            streams[upto - 1],
            audio,
            subtitles,
        ) == StreamStatus::Remove {
            1nat
        } else {
            0nat
        }
    }
}

/// Adds up the sizes of the tracks: of all of them, and of those that are
/// not shown as removed, and counts the others.
pub fn summarize(streams: &Vec<StreamInfo>, config: &Config) -> (summary: SizeSummary)
    ensures
        summary.total_size == size_sum(
            streams@,
            config.audio.keep_languages@,
            config.subtitles.keep_languages@,
            false,
            streams@.len() as int,
        ),
        summary.keep_size == size_sum(
            streams@,
            config.audio.keep_languages@,
            config.subtitles.keep_languages@,
            true,
            streams@.len() as int,
        ),
        summary.remove_count == removed_count(
            streams@,
            config.audio.keep_languages@,
            config.subtitles.keep_languages@,
            streams@.len() as int,
        ),
        summary.keep_size <= summary.total_size,
{
    let ghost audio = config.audio.keep_languages@;
    let ghost subtitles = config.subtitles.keep_languages@;
    let mut total_size: u128 = 0;
    let mut keep_size: u128 = 0;
    let mut remove_count: usize = 0;
    let mut i: usize = 0;
    while i < streams.len()
        invariant
            i <= streams.len(),
            audio == config.audio.keep_languages@,
            subtitles == config.subtitles.keep_languages@,
            total_size == size_sum(streams@, audio, subtitles, false, i as int),
            keep_size == size_sum(streams@, audio, subtitles, true, i as int),
            remove_count == removed_count(streams@, audio, subtitles, i as int),
            keep_size <= total_size <= i * 0xffff_ffff_ffff_ffff,
            remove_count <= i,
        decreases streams.len() - i,
    {
        let s = &streams[i];
        let size: u128 = match s.size_bytes {
            Some(b) => b as u128,
            None => 0,
        };
        let status = stream_status(streams, s, config);
        total_size = total_size + size;
        match status {
            StreamStatus::Remove => {
                remove_count += 1;
            },
            _ => {
                keep_size = keep_size + size;
            },
        }
        i += 1;
    }
    SizeSummary { total_size, keep_size, remove_count }
}

/// The kind of file that an attachment's codec stands for, for the codecs
/// that have a name of their own.
pub open spec fn known_attachment(lowered: Seq<char>) -> Option<Seq<char>> {
    if lowered == "ttf"@ {
        Some("TrueType Font"@)
    } else if lowered == "otf"@ {
        Some("OpenType Font"@)
    } else if lowered == "woff"@ || lowered == "woff2"@ {
        Some("Web Font"@)
    } else if lowered == "jpg"@ || lowered == "jpeg"@ {
        Some("JPEG Image"@)
    } else if lowered == "png"@ {
        Some("PNG Image"@)
    } else if lowered == "gif"@ {
        Some("GIF Image"@)
    } else if lowered == "webp"@ {
        Some("WebP Image"@)
    } else if lowered == "pdf"@ {
        Some("PDF Document"@)
    } else if lowered == "txt"@ {
        Some("Text File"@)
    } else {
        None
    }
}

/// The kind of file that an attachment is shown as: the name of its codec,
/// where the codec has one; `Unknown File` for the codec `unknown`; and
/// else the codec in uppercase.
pub open spec fn attachment_type(codec: Seq<char>) -> Seq<char> {
    match known_attachment(lowercase_of(codec)) {
        Some(name) => name,
        None => if codec == "unknown"@ {
            "Unknown File"@
        } else {
            uppercase_of(codec)
        },
    }
}

/// The name of the kind of file that a lowercase codec stands for.
pub fn attachment_name(lowered: &str) -> (name: Option<&'static str>)
    ensures
        match name {
            Some(n) => known_attachment(lowered@) == Some(n@),
            None => known_attachment(lowered@) is None,
        },
{
    if text_eq(lowered, "ttf") {
        Some("TrueType Font")
    } else if text_eq(lowered, "otf") {
        Some("OpenType Font")
    } else if text_eq(lowered, "woff") || text_eq(lowered, "woff2") {
        Some("Web Font")
    } else if text_eq(lowered, "jpg") || text_eq(lowered, "jpeg") {
        Some("JPEG Image")
    } else if text_eq(lowered, "png") {
        Some("PNG Image")
    } else if text_eq(lowered, "gif") {
        Some("GIF Image")
    } else if text_eq(lowered, "webp") {
        Some("WebP Image")
    } else if text_eq(lowered, "pdf") {
        Some("PDF Document")
    } else if text_eq(lowered, "txt") {
        Some("Text File")
    } else {
        None
    }
}

/// The kind of file that an attachment is shown as.
pub fn get_attachment_type(codec: &str) -> (shown: String)
    ensures
        shown@ == attachment_type(codec@),
{
    let lowered = to_lowercase(codec);
    match attachment_name(lowered.as_str()) {
        Some(name) => name.to_string(),
        None => if text_eq(codec, "unknown") {
            "Unknown File".to_string()
        } else {
            to_uppercase(codec)
        },
    }
}

} // verus!
