//! Which tracks to keep, and which of them to flag as default.

use vstd::prelude::*;
use crate::config::SubtitlePreference;
use crate::models::{StreamInfo, StreamType};
use crate::text::{lowercase_of, starts_with, to_lowercase, views};

verus! {

/// What is kept of one file: the indices of the retained tracks, in the
/// order of the tracks, and the track of each kind that is to be the default.
#[derive(Debug, Clone)]
pub struct RetentionDecision {
    /// Indices of the tracks to keep.
    pub retained: Vec<u32>,
    /// Index of the audio track to flag as default, if any audio is kept.
    pub default_audio: Option<u32>,
    /// Index of the subtitle track to flag as default, if a kept one matches
    /// a preference.
    pub default_subtitle: Option<u32>,
}

/// An audio track in one of the preferred languages.
pub open spec fn audio_preferred(s: StreamInfo, audio: Seq<String>) -> bool {
    s.stream_type == StreamType::Audio && (s.language matches Some(l) && views(audio).contains(l@))
}

/// Some audio track of the file is in a preferred language.
pub open spec fn any_audio_preferred(streams: Seq<StreamInfo>, audio: Seq<String>) -> bool {
    exists|i: int| 0 <= i < streams.len() && audio_preferred(#[trigger] streams[i], audio)
}

/// A title meets a required beginning when, both in lowercase, it starts with
/// it. No requirement is met by every track, a requirement by no track
/// without a title.
pub open spec fn title_accepted(prefix: Option<String>, title: Option<String>) -> bool {
    match prefix {
        None => true,
        Some(p) => match title {
            Some(t) => lowercase_of(p@).is_prefix_of(lowercase_of(t@)),
            None => false,
        },
    }
}

/// A preference accepts a track of its language whose title meets its
/// requirement.
pub open spec fn accepts(pref: SubtitlePreference, s: StreamInfo) -> bool {
    s.speaks(pref.language@) && title_accepted(pref.title_prefix, s.title)
}

/// Some preference accepts the track.
pub open spec fn subtitle_wanted(s: StreamInfo, subtitles: Seq<SubtitlePreference>) -> bool {
    exists|j: int| 0 <= j < subtitles.len() && accepts(#[trigger] subtitles[j], s)
}

/// Whether a track of the file `all` is kept.
///
/// Video, attachments and tracks of unknown kind always are. Audio in a
/// preferred language is; audio without a language only while no audio of
/// the file is in a preferred language. A subtitle is kept when a preference
/// accepts it.
pub open spec fn retained(
    all: Seq<StreamInfo>,
    s: StreamInfo,
    audio: Seq<String>,
    subtitles: Seq<SubtitlePreference>,
) -> bool {
    match s.stream_type {
        StreamType::Video => true,
        StreamType::Attachment => true,
        StreamType::Unknown => true,
        StreamType::Audio => match s.language {
            Some(l) => views(audio).contains(l@),
            None => !any_audio_preferred(all, audio),
        },
        StreamType::Subtitle => subtitle_wanted(s, subtitles),
    }
}

/// The test "is kept", for the tracks of the file `all`.
pub open spec fn keeps(
    all: Seq<StreamInfo>,
    audio: Seq<String>,
    subtitles: Seq<SubtitlePreference>,
) -> spec_fn(StreamInfo) -> bool {
    |s: StreamInfo| retained(all, s, audio, subtitles)
}

/// The test "is kept and of this kind", for the tracks of the file `all`.
pub open spec fn keeps_kind(
    all: Seq<StreamInfo>,
    audio: Seq<String>,
    subtitles: Seq<SubtitlePreference>,
    kind: StreamType,
) -> spec_fn(StreamInfo) -> bool {
    |s: StreamInfo| s.stream_type == kind && retained(all, s, audio, subtitles)
}

/// The kept tracks of a file, in their order.
pub open spec fn kept(
    streams: Seq<StreamInfo>,
    audio: Seq<String>,
    subtitles: Seq<SubtitlePreference>,
) -> Seq<StreamInfo> {
    streams.filter(keeps(streams, audio, subtitles))
}

/// The kept tracks of one kind, in their order.
pub open spec fn kept_of_kind(
    streams: Seq<StreamInfo>,
    audio: Seq<String>,
    subtitles: Seq<SubtitlePreference>,
    kind: StreamType,
) -> Seq<StreamInfo> {
    streams.filter(keeps_kind(streams, audio, subtitles, kind))
}

/// The indices of a run of tracks.
pub open spec fn indices(streams: Seq<StreamInfo>) -> Seq<u32> {
    streams.map_values(|s: StreamInfo| s.index)
}

/// The first position at or after `from` of a track in the language `lang`,
/// or the number of tracks when there is none.
pub open spec fn first_speaking(streams: Seq<StreamInfo>, lang: Seq<char>, from: int) -> int
    decreases streams.len() - from,
{
    if from < 0 || from >= streams.len() {
        streams.len() as int
    } else if streams[from].speaks(lang) {
        from
    } else {
        first_speaking(streams, lang, from + 1)
    }
}

/// The position of the default among the kept audio tracks `tracks`: the
/// first track in the first language, from `audio[from]` on, that any of
/// them is in; the first track when none is in any of these languages; none
/// when there is no track.
pub open spec fn chosen_audio(tracks: Seq<StreamInfo>, audio: Seq<String>, from: int) -> Option<
    int,
>
    decreases audio.len() - from,
{
    if from < 0 || from >= audio.len() {
        if tracks.len() > 0 {
            Some(0)
        } else {
            None
        }
    } else {
        let at = first_speaking(tracks, audio[from]@, 0);
        if at < tracks.len() {
            Some(at)
        } else {
            chosen_audio(tracks, audio, from + 1)
        }
    }
}

/// The first position at or after `from` of a track that `pref` accepts, or
/// the number of tracks when there is none.
pub open spec fn first_accepted(streams: Seq<StreamInfo>, pref: SubtitlePreference, from: int) -> int
    decreases streams.len() - from,
{
    if from < 0 || from >= streams.len() {
        streams.len() as int
    } else if accepts(pref, streams[from]) {
        from
    } else {
        first_accepted(streams, pref, from + 1)
    }
}

/// The position of the default among the kept subtitle tracks `tracks`: the
/// first track that the first preference, from `subtitles[from]` on, with
/// any accepted track accepts; none when no preference accepts a track.
pub open spec fn chosen_subtitle(
    tracks: Seq<StreamInfo>,
    subtitles: Seq<SubtitlePreference>,
    from: int,
) -> Option<int>
    decreases subtitles.len() - from,
{
    if from < 0 || from >= subtitles.len() {
        None
    } else {
        let at = first_accepted(tracks, subtitles[from], 0);
        if at < tracks.len() {
            Some(at)
        } else {
            chosen_subtitle(tracks, subtitles, from + 1)
        }
    }
}

/// The index of the track at a chosen position.
pub open spec fn index_at(tracks: Seq<StreamInfo>, at: Option<int>) -> Option<u32> {
    match at {
        Some(k) => Some(tracks[k].index),
        None => None,
    }
}

/// The index of the audio track that is to be the default.
pub open spec fn default_audio(
    streams: Seq<StreamInfo>,
    audio: Seq<String>,
    subtitles: Seq<SubtitlePreference>,
) -> Option<u32> {
    let tracks = kept_of_kind(streams, audio, subtitles, StreamType::Audio);
    index_at(tracks, chosen_audio(tracks, audio, 0))
}

/// The index of the subtitle track that is to be the default.
pub open spec fn default_subtitle(
    streams: Seq<StreamInfo>,
    audio: Seq<String>,
    subtitles: Seq<SubtitlePreference>,
) -> Option<u32> {
    let tracks = kept_of_kind(streams, audio, subtitles, StreamType::Subtitle);
    index_at(tracks, chosen_subtitle(tracks, subtitles, 0))
}

/// Whether a language is one of the preferred ones.
pub fn is_listed(audio: &Vec<String>, lang: &String) -> (r: bool)
    ensures
        r == views(audio@).contains(lang@),
{
    let mut j: usize = 0;
    while j < audio.len()
        invariant
            j <= audio.len(),
            forall|k: int| 0 <= k < j ==> views(audio@)[k] != lang@,
        decreases audio.len() - j,
    {
        if audio[j] == *lang {
            assert(views(audio@)[j as int] == lang@);
            return true;
        }
        j += 1;
    }
    false
}

/// Whether a title begins with a required text, both already in lowercase.
pub fn title_has_prefix(lowered_title: &str, lowered_prefix: &str) -> (r: bool)
    ensures
        r == lowered_prefix@.is_prefix_of(lowered_title@),
{
    starts_with(lowered_title, lowered_prefix)
}

/// Whether a title meets a required beginning.

fn title_meets(prefix: &Option<String>, title: &Option<String>) -> (r: bool)
    ensures
        r == title_accepted(*prefix, *title),
{
    match prefix {
        None => true,
        Some(p) => match title {
            Some(t) => {
                let lowered_title = to_lowercase(t.as_str());
                let lowered_prefix = to_lowercase(p.as_str());
                title_has_prefix(lowered_title.as_str(), lowered_prefix.as_str())
            },
            None => false,
        },
    }
}

/// Whether a preference accepts a track.

fn preference_accepts(pref: &SubtitlePreference, s: &StreamInfo) -> (r: bool)
    ensures
        r == accepts(*pref, *s),
{
    match &s.language {
        Some(l) => *l == pref.language && title_meets(&pref.title_prefix, &s.title),
        None => false,
    }
}

/// Whether some preference accepts a track.

fn is_wanted(s: &StreamInfo, subtitles: &Vec<SubtitlePreference>) -> (r: bool)
    ensures
        r == subtitle_wanted(*s, subtitles@),
{
    let mut j: usize = 0;
    while j < subtitles.len()
        invariant
            j <= subtitles.len(),
            forall|k: int| 0 <= k < j ==> !accepts(#[trigger] subtitles@[k], *s),
        decreases subtitles.len() - j,
    {
        if preference_accepts(&subtitles[j], s) {
            return true;
        }
        j += 1;
    }
    false
}

/// Whether some audio track of the file is in a preferred language.

fn has_preferred_audio(streams: &Vec<StreamInfo>, audio: &Vec<String>) -> (r: bool)
    ensures
        r == any_audio_preferred(streams@, audio@),
{
    let mut i: usize = 0;
    while i < streams.len()
        invariant
            i <= streams.len(),
            forall|k: int| 0 <= k < i ==> !audio_preferred(#[trigger] streams@[k], audio@),
        decreases streams.len() - i,
    {
        let s = &streams[i];
        let preferred = match s.stream_type {
            StreamType::Audio => match &s.language {
                Some(l) => is_listed(audio, l),
                None => false,
            },
            _ => false,
        };
        if preferred {
            return true;
        }
        i += 1;
    }
    false
}

/// The tracks at the positions `at`.
pub open spec fn picked(streams: Seq<StreamInfo>, at: Seq<usize>) -> Seq<StreamInfo> {
    Seq::new(at.len(), |k: int| streams[at[k] as int])
}

/// The index of the default among the audio tracks at the positions `at`.

fn choose_audio(streams: &Vec<StreamInfo>, at: &Vec<usize>, audio: &Vec<String>) -> (chosen: Option<
    u32,
>)
    requires
        forall|k: int| 0 <= k < at.len() ==> at[k] < streams.len(),
    ensures
        chosen == index_at(
            picked(streams@, at@),
            chosen_audio(picked(streams@, at@), audio@, 0),
        ),
{
    let ghost tracks = picked(streams@, at@);
    let mut j: usize = 0;
    while j < audio.len()
        invariant
            j <= audio.len(),
            tracks == picked(streams@, at@),
            forall|k: int| 0 <= k < at.len() ==> at[k] < streams.len(),
            chosen_audio(tracks, audio@, 0) == chosen_audio(tracks, audio@, j as int),
        decreases audio.len() - j,
    {
        let mut k: usize = 0;
        while k < at.len()
            invariant
                k <= at.len(),
                j < audio.len(),
                tracks == picked(streams@, at@),
                forall|k: int| 0 <= k < at.len() ==> at[k] < streams.len(),
                chosen_audio(tracks, audio@, 0) == chosen_audio(tracks, audio@, j as int),
                first_speaking(tracks, audio@[j as int]@, 0) == first_speaking(
                    tracks,
                    audio@[j as int]@,
                    k as int,
                ),
            decreases at.len() - k,
        {
            let s = &streams[at[k]];
            let speaks = match &s.language {
                Some(l) => *l == audio[j],
                None => false,
            };
            assert(speaks == tracks[k as int].speaks(audio@[j as int]@));
            if speaks {
                return Some(s.index);
            }
            k += 1;
        }
        j += 1;
    }
    if at.len() > 0 {
        Some(streams[at[0]].index)
    } else {
        None
    }
}

/// The index of the default among the subtitle tracks at the positions `at`.

fn choose_subtitle(
    streams: &Vec<StreamInfo>,
    at: &Vec<usize>,
    subtitles: &Vec<SubtitlePreference>,
) -> (chosen: Option<u32>)
    requires
        forall|k: int| 0 <= k < at.len() ==> at[k] < streams.len(),
    ensures
        chosen == index_at(
            picked(streams@, at@),
            chosen_subtitle(picked(streams@, at@), subtitles@, 0),
        ),
{
    let ghost tracks = picked(streams@, at@);
    let mut j: usize = 0;
    while j < subtitles.len()
        invariant
            j <= subtitles.len(),
            tracks == picked(streams@, at@),
            forall|k: int| 0 <= k < at.len() ==> at[k] < streams.len(),
            chosen_subtitle(tracks, subtitles@, 0) == chosen_subtitle(tracks, subtitles@, j as int),
        decreases subtitles.len() - j,
    {
        let mut k: usize = 0;
        while k < at.len()
            invariant
                k <= at.len(),
                j < subtitles.len(),
                tracks == picked(streams@, at@),
                forall|k: int| 0 <= k < at.len() ==> at[k] < streams.len(),
                chosen_subtitle(tracks, subtitles@, 0) == chosen_subtitle(
                    tracks,
                    subtitles@,
                    j as int,
                ),
                first_accepted(tracks, subtitles@[j as int], 0) == first_accepted(
                    tracks,
                    subtitles@[j as int],
                    k as int,
                ),
            decreases at.len() - k,
        {
            let s = &streams[at[k]];
            if preference_accepts(&subtitles[j], s) {
                return Some(s.index);
            }
            k += 1;
        }
        j += 1;
    }
    None
}

/// Decides what to keep of a file, and which kept track of each kind is to
/// be the default.
pub fn select(
    streams: &Vec<StreamInfo>,
    audio_prefs: &Vec<String>,
    subtitle_prefs: &Vec<SubtitlePreference>,
) -> (decision: RetentionDecision)
    ensures
        decision.retained@ == indices(kept(streams@, audio_prefs@, subtitle_prefs@)),
        decision.default_audio == default_audio(streams@, audio_prefs@, subtitle_prefs@),
        decision.default_subtitle == default_subtitle(streams@, audio_prefs@, subtitle_prefs@),
{
    let any_preferred = has_preferred_audio(streams, audio_prefs);
    let mut retained_list: Vec<u32> = Vec::new();
    let mut audio_at: Vec<usize> = Vec::new();
    let mut subtitle_at: Vec<usize> = Vec::new();
    let ghost keep = keeps(streams@, audio_prefs@, subtitle_prefs@);
    let ghost keep_audio = keeps_kind(streams@, audio_prefs@, subtitle_prefs@, StreamType::Audio);
    let ghost keep_subtitle = keeps_kind(
        streams@,
        audio_prefs@,
        subtitle_prefs@,
        StreamType::Subtitle,
    );
    proof {
        reveal(Seq::filter);
        assert(streams@.take(0) =~= Seq::<StreamInfo>::empty());
        assert(indices(streams@.take(0).filter(keep)) =~= retained_list@);
        assert(picked(streams@, audio_at@) =~= streams@.take(0).filter(keep_audio));
        assert(picked(streams@, subtitle_at@) =~= streams@.take(0).filter(keep_subtitle));
    }
    let mut i: usize = 0;
    while i < streams.len()
        invariant
            i <= streams.len(),
            any_preferred == any_audio_preferred(streams@, audio_prefs@),
            keep == keeps(streams@, audio_prefs@, subtitle_prefs@),
            keep_audio == keeps_kind(streams@, audio_prefs@, subtitle_prefs@, StreamType::Audio),
            keep_subtitle == keeps_kind(
                streams@,
                audio_prefs@,
                subtitle_prefs@,
                StreamType::Subtitle,
            ),
            retained_list@ == indices(streams@.take(i as int).filter(keep)),
            picked(streams@, audio_at@) == streams@.take(i as int).filter(keep_audio),
            picked(streams@, subtitle_at@) == streams@.take(i as int).filter(keep_subtitle),
            forall|k: int| 0 <= k < audio_at.len() ==> audio_at[k] < streams.len(),
            forall|k: int| 0 <= k < subtitle_at.len() ==> subtitle_at[k] < streams.len(),
        decreases streams.len() - i,
    {
        let s = &streams[i];
        let keep_it = match s.stream_type {
            StreamType::Video => true,
            StreamType::Attachment => true,
            StreamType::Unknown => true,
            StreamType::Audio => match &s.language {
                Some(l) => is_listed(audio_prefs, l),
                None => !any_preferred,
            },
            StreamType::Subtitle => is_wanted(s, subtitle_prefs),
        };
        let ghost before = streams@.take(i as int);
        let ghost audio_before = audio_at@;
        let ghost subtitle_before = subtitle_at@;
        proof {
            assert(streams@.take(i + 1) =~= before.push(streams@[i as int]));
            before.lemma_filter_push(streams@[i as int], keep);
            before.lemma_filter_push(streams@[i as int], keep_audio);
            before.lemma_filter_push(streams@[i as int], keep_subtitle);
            before.filter(keep).lemma_push_map_commute(
                |s: StreamInfo| s.index,
                streams@[i as int],
            );
            assert(keep_it == keep(streams@[i as int]));
        }
        if keep_it {
            retained_list.push(s.index);
            match s.stream_type {
                StreamType::Audio => {
                    audio_at.push(i);
                    assert(picked(streams@, audio_at@) =~= picked(streams@, audio_before).push(
                        streams@[i as int],
                    ));
                },
                StreamType::Subtitle => {
                    subtitle_at.push(i);
                    assert(picked(streams@, subtitle_at@) =~= picked(
                        streams@,
                        subtitle_before,
                    ).push(streams@[i as int]));
                },
                _ => {},
            }
        }
        i += 1;
    }
    assert(streams@.take(i as int) =~= streams@);
    let default_audio = choose_audio(streams, &audio_at, audio_prefs);
    let default_subtitle = choose_subtitle(streams, &subtitle_at, subtitle_prefs);
    RetentionDecision { retained: retained_list, default_audio, default_subtitle }
}

} // verus!
