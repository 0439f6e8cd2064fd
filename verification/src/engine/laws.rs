//! What holds of every decision.

use vstd::prelude::*;
use crate::config::SubtitlePreference;
use crate::engine::command::{cleared_ids, not_chosen, of_kind, retained_ids, retained_of_kind};
use crate::engine::filtering::{
    lemma_filter_agree,
    lemma_filter_all,
    lemma_filter_full_length,
    lemma_positions,
    lemma_positions_agree,
    lemma_positions_compose,
    positions,
};
use crate::engine::necessity::{flag_to_change, necessary, wanted_flag};
use crate::engine::retention::{
    accepts,
    any_audio_preferred,
    audio_preferred,
    chosen_audio,
    chosen_subtitle,
    first_accepted,
    default_audio,
    default_subtitle,
    first_speaking,
    indices,
    keeps,
    keeps_kind,
    kept,
    kept_of_kind,
    retained,
};
use crate::models::{StreamInfo, StreamType};
use crate::text::opt_view;

verus! {

/// Every video track, every attachment and every track of unknown kind is
/// among the retained tracks.
pub proof fn lemma_fail_safe_kinds_are_retained(
    streams: Seq<StreamInfo>,
    audio: Seq<String>,
    subtitles: Seq<SubtitlePreference>,
    i: int,
)
    requires
        0 <= i < streams.len(),
        streams[i].stream_type == StreamType::Video || streams[i].stream_type
            == StreamType::Attachment || streams[i].stream_type == StreamType::Unknown,
    ensures
        kept(streams, audio, subtitles).contains(streams[i]),
        indices(kept(streams, audio, subtitles)).contains(streams[i].index),
{
    let keep = keeps(streams, audio, subtitles);
    let k = kept(streams, audio, subtitles);
    assert(keep(streams[i]));
    streams.lemma_filter_contains(keep, i);
    let j = choose|j: int| 0 <= j < k.len() && k[j] == streams[i];
    assert(indices(k)[j] == streams[i].index);
}

/// When some audio track is in a preferred language, no audio track without
/// a language is retained.
pub proof fn lemma_no_fallback_beside_preferred_audio(
    streams: Seq<StreamInfo>,
    audio: Seq<String>,
    subtitles: Seq<SubtitlePreference>,
)
    requires
        any_audio_preferred(streams, audio),
    ensures
        forall|j: int|
            0 <= j < kept(streams, audio, subtitles).len() ==> !((#[trigger] kept(
                streams,
                audio,
                subtitles,
            )[j]).stream_type == StreamType::Audio && kept(streams, audio, subtitles)[j].language
                is None),
{
    let keep = keeps(streams, audio, subtitles);
    let k = kept(streams, audio, subtitles);
    assert forall|j: int| 0 <= j < k.len() implies !((#[trigger] k[j]).stream_type
        == StreamType::Audio && k[j].language is None) by {
        streams.lemma_filter_pred(keep, j);
    }
}

/// The test "is an audio track without a language".
pub open spec fn unlabelled_audio() -> spec_fn(StreamInfo) -> bool {
    |s: StreamInfo| s.stream_type == StreamType::Audio && s.language is None
}

/// When no audio track is in a preferred language, the retained audio tracks
/// are exactly the audio tracks without a language; where there is none of
/// these, no audio track is retained.
pub proof fn lemma_only_fallback_audio_without_preferred(
    streams: Seq<StreamInfo>,
    audio: Seq<String>,
    subtitles: Seq<SubtitlePreference>,
)
    requires
        !any_audio_preferred(streams, audio),
    ensures
        kept_of_kind(streams, audio, subtitles, StreamType::Audio) == streams.filter(
            unlabelled_audio(),
        ),
        (forall|i: int| 0 <= i < streams.len() ==> !unlabelled_audio()(#[trigger] streams[i]))
            ==> kept_of_kind(streams, audio, subtitles, StreamType::Audio).len() == 0,
{
    let p = keeps_kind(streams, audio, subtitles, StreamType::Audio);
    let q = unlabelled_audio();
    assert forall|i: int| 0 <= i < streams.len() implies p(#[trigger] streams[i]) == q(
        streams[i],
    ) by {
        if streams[i].stream_type == StreamType::Audio && streams[i].language is Some {
            assert(!audio_preferred(streams[i], audio));
        }
    }
    lemma_filter_agree(streams, p, q);
    if forall|i: int| 0 <= i < streams.len() ==> !q(#[trigger] streams[i]) {
        lemma_positions(streams, q);
        if streams.filter(q).len() > 0 {
            let at = positions(streams, q)[0];
            assert(q(streams[at]));
        }
    }
}

/// Some track is in the language `lang`.
pub open spec fn spoken(tracks: Seq<StreamInfo>, lang: Seq<char>) -> bool {
    exists|p: int| 0 <= p < tracks.len() && (#[trigger] tracks[p]).speaks(lang)
}

/// `audio[rank]` is the first of the preferred languages that a track is in.
pub open spec fn top_language(tracks: Seq<StreamInfo>, audio: Seq<String>, rank: int) -> bool {
    0 <= rank < audio.len() && spoken(tracks, audio[rank]@) && forall|r: int|
        0 <= r < rank ==> !spoken(tracks, (#[trigger] audio[r])@)
}

/// The track at `at` is the first that is in the language `lang`.
pub open spec fn first_in_language(tracks: Seq<StreamInfo>, lang: Seq<char>, at: int) -> bool {
    0 <= at < tracks.len() && tracks[at].speaks(lang) && forall|p: int|
        0 <= p < at ==> !(#[trigger] tracks[p]).speaks(lang)
}

/// `first_speaking` finds the first track in a language, if there is one.
pub proof fn lemma_first_speaking(tracks: Seq<StreamInfo>, lang: Seq<char>, from: int)
    requires
        0 <= from <= tracks.len(),
    ensures
        from <= first_speaking(tracks, lang, from) <= tracks.len(),
        first_speaking(tracks, lang, from) < tracks.len() ==> tracks[first_speaking(
            tracks,
            lang,
            from,
        )].speaks(lang),
        forall|p: int|
            from <= p < first_speaking(tracks, lang, from) ==> !(#[trigger] tracks[p]).speaks(lang),
    decreases tracks.len() - from,
{
    if from < tracks.len() && !tracks[from].speaks(lang) {
        lemma_first_speaking(tracks, lang, from + 1);
    }
}

/// What `chosen_audio` chooses among the tracks `tracks`, looking at the
/// preferred languages from `audio[from]` on.
pub proof fn lemma_chosen_audio(tracks: Seq<StreamInfo>, audio: Seq<String>, from: int)
    requires
        0 <= from <= audio.len(),
        forall|r: int| 0 <= r < from ==> !spoken(tracks, (#[trigger] audio[r])@),
    ensures
        chosen_audio(tracks, audio, from) is None <==> tracks.len() == 0,
        chosen_audio(tracks, audio, from) matches Some(at) ==> 0 <= at < tracks.len() && ((
        exists|rank: int|
            top_language(tracks, audio, rank) && first_in_language(
                tracks,
                (#[trigger] audio[rank])@,
                at,
            )) || (at == 0 && forall|r: int|
            0 <= r < audio.len() ==> !spoken(tracks, (#[trigger] audio[r])@))),
    decreases audio.len() - from,
{
    if from < audio.len() {
        let lang = audio[from]@;
        lemma_first_speaking(tracks, lang, 0);
        let at = first_speaking(tracks, lang, 0);
        if at < tracks.len() {
            assert(spoken(tracks, lang));
            assert(top_language(tracks, audio, from));
            assert(first_in_language(tracks, audio[from]@, at));
        } else {
            assert(!spoken(tracks, lang));
            assert forall|r: int| 0 <= r < from + 1 implies !spoken(
                tracks,
                (#[trigger] audio[r])@,
            ) by {
                if r == from {
                } else {
                }
            }
            lemma_chosen_audio(tracks, audio, from + 1);
        }
    }
}

/// The default audio track, when there is one, is a retained track: the
/// first retained audio track in the first preferred language that any
/// retained audio track is in, and the first retained audio track when none
/// is in a preferred language. There is a default audio track exactly when
/// an audio track is retained.
pub proof fn lemma_default_audio_is_first_of_top_language(
    streams: Seq<StreamInfo>,
    audio: Seq<String>,
    subtitles: Seq<SubtitlePreference>,
)
    ensures
        ({
            let tracks = kept_of_kind(streams, audio, subtitles, StreamType::Audio);
            &&& default_audio(streams, audio, subtitles) is None <==> tracks.len() == 0
            &&& chosen_audio(tracks, audio, 0) matches Some(at) ==> {
                &&& 0 <= at < tracks.len()
                &&& default_audio(streams, audio, subtitles) == Some(tracks[at].index)
                &&& kept(streams, audio, subtitles).contains(tracks[at])
                &&& indices(kept(streams, audio, subtitles)).contains(tracks[at].index)
                &&& (exists|rank: int|
                    top_language(tracks, audio, rank) && first_in_language(
                        tracks,
                        (#[trigger] audio[rank])@,
                        at,
                    )) || (at == 0 && forall|r: int|
                    0 <= r < audio.len() ==> !spoken(tracks, (#[trigger] audio[r])@))
            }
        }),
{
    let tracks = kept_of_kind(streams, audio, subtitles, StreamType::Audio);
    let k = kept(streams, audio, subtitles);
    lemma_chosen_audio(tracks, audio, 0);
    match chosen_audio(tracks, audio, 0) {
        Some(at) => {
            let p = keeps_kind(streams, audio, subtitles, StreamType::Audio);
            lemma_positions(streams, p);
            let i = positions(streams, p)[at];
            assert(streams[i] == tracks[at]);
            assert(keeps(streams, audio, subtitles)(streams[i]));
            streams.lemma_filter_contains(keeps(streams, audio, subtitles), i);
            let j = choose|j: int| 0 <= j < k.len() && k[j] == streams[i];
            assert(indices(k)[j] == tracks[at].index);
        },
        None => {},
    }
}

/// No remux is needed exactly when every track is retained and every track
/// already carries the default flag that the decision wants.
pub proof fn lemma_unnecessary_means_nothing_changes(
    streams: Seq<StreamInfo>,
    audio: Seq<String>,
    subtitles: Seq<SubtitlePreference>,
)
    ensures
        !necessary(
            streams,
            indices(kept(streams, audio, subtitles)),
            default_audio(streams, audio, subtitles),
            default_subtitle(streams, audio, subtitles),
        ) <==> (kept(streams, audio, subtitles) == streams && forall|i: int|
            0 <= i < streams.len() ==> (#[trigger] streams[i]).default == wanted_flag(
                streams[i],
                default_audio(streams, audio, subtitles),
                default_subtitle(streams, audio, subtitles),
            )),
{
    let keep = keeps(streams, audio, subtitles);
    let k = kept(streams, audio, subtitles);
    let ids = indices(k);
    let da = default_audio(streams, audio, subtitles);
    let ds = default_subtitle(streams, audio, subtitles);
    streams.lemma_filter_len(keep);
    if k.len() == streams.len() {
        lemma_filter_full_length(streams, keep);
        assert forall|i: int| 0 <= i < streams.len() implies ids.contains(
            (#[trigger] streams[i]).index,
        ) by {
            assert(ids[i] == streams[i].index);
        }
        if !necessary(streams, ids, da, ds) {
            assert forall|i: int| 0 <= i < streams.len() implies (#[trigger] streams[i]).default
                == wanted_flag(streams[i], da, ds) by {
                assert(!flag_to_change(streams[i], ids, da, ds));
            }
        }
    }
}

/// No two tracks carry the same index.
pub open spec fn distinct_indices(streams: Seq<StreamInfo>) -> bool {
    forall|i: int, j: int|
        0 <= i < j < streams.len() ==> (#[trigger] streams[i]).index != (#[trigger] streams[j]).index
}

/// Two tracks of the same kind, language and title.
pub open spec fn same_track(a: StreamInfo, b: StreamInfo) -> bool {
    a.stream_type == b.stream_type && opt_view(a.language) == opt_view(b.language) && opt_view(
        a.title,
    ) == opt_view(b.title)
}

/// `out` is what a merge that carries out the decision on `streams` leaves:
/// the retained tracks in their order, each with the default flag that the
/// decision wants.
pub open spec fn faithfully_merged(
    streams: Seq<StreamInfo>,
    audio: Seq<String>,
    subtitles: Seq<SubtitlePreference>,
    out: Seq<StreamInfo>,
) -> bool {
    let k = kept(streams, audio, subtitles);
    out.len() == k.len() && forall|j: int|
        0 <= j < out.len() ==> same_track(k[j], #[trigger] out[j]) && out[j].default
            == wanted_flag(
            k[j],
            default_audio(streams, audio, subtitles),
            default_subtitle(streams, audio, subtitles),
        )
}

/// Whether a preference accepts a track depends on the kind, the language
/// and the title of the track alone.
pub proof fn lemma_accepts_same_track(pref: SubtitlePreference, a: StreamInfo, b: StreamInfo)
    requires
        same_track(a, b),
    ensures
        accepts(pref, a) == accepts(pref, b),
{
}

/// Two runs of tracks that agree track by track have their first track in a
/// language at the same place.
pub proof fn lemma_first_speaking_same_tracks(
    a: Seq<StreamInfo>,
    b: Seq<StreamInfo>,
    lang: Seq<char>,
    from: int,
)
    requires
        a.len() == b.len(),
        forall|m: int| 0 <= m < a.len() ==> same_track(#[trigger] a[m], b[m]),
    ensures
        first_speaking(a, lang, from) == first_speaking(b, lang, from),
    decreases a.len() - from,
{
    if 0 <= from < a.len() {
        assert(same_track(a[from], b[from]));
        if !a[from].speaks(lang) {
            lemma_first_speaking_same_tracks(a, b, lang, from + 1);
        }
    }
}

/// Two runs of tracks that agree track by track have the same default audio
/// position.
pub proof fn lemma_chosen_audio_same_tracks(
    a: Seq<StreamInfo>,
    b: Seq<StreamInfo>,
    audio: Seq<String>,
    from: int,
)
    requires
        a.len() == b.len(),
        forall|m: int| 0 <= m < a.len() ==> same_track(#[trigger] a[m], b[m]),
    ensures
        chosen_audio(a, audio, from) == chosen_audio(b, audio, from),
    decreases audio.len() - from,
{
    if 0 <= from < audio.len() {
        lemma_first_speaking_same_tracks(a, b, audio[from]@, 0);
        lemma_chosen_audio_same_tracks(a, b, audio, from + 1);
    }
}

/// Two runs of tracks that agree track by track have their first track that
/// a preference accepts at the same place.
pub proof fn lemma_first_accepted_same_tracks(
    a: Seq<StreamInfo>,
    b: Seq<StreamInfo>,
    pref: SubtitlePreference,
    from: int,
)
    requires
        a.len() == b.len(),
        forall|m: int| 0 <= m < a.len() ==> same_track(#[trigger] a[m], b[m]),
    ensures
        first_accepted(a, pref, from) == first_accepted(b, pref, from),
    decreases a.len() - from,
{
    if 0 <= from < a.len() {
        assert(same_track(a[from], b[from]));
        lemma_accepts_same_track(pref, a[from], b[from]);
        if !accepts(pref, a[from]) {
            lemma_first_accepted_same_tracks(a, b, pref, from + 1);
        }
    }
}

/// Two runs of tracks that agree track by track have the same default
/// subtitle position.
pub proof fn lemma_chosen_subtitle_same_tracks(
    a: Seq<StreamInfo>,
    b: Seq<StreamInfo>,
    subtitles: Seq<SubtitlePreference>,
    from: int,
)
    requires
        a.len() == b.len(),
        forall|m: int| 0 <= m < a.len() ==> same_track(#[trigger] a[m], b[m]),
    ensures
        chosen_subtitle(a, subtitles, from) == chosen_subtitle(b, subtitles, from),
    decreases subtitles.len() - from,
{
    if 0 <= from < subtitles.len() {
        lemma_first_accepted_same_tracks(a, b, subtitles[from], 0);
        lemma_chosen_subtitle_same_tracks(a, b, subtitles, from + 1);
    }
}

/// `first_accepted` stays within the tracks.
pub proof fn lemma_first_accepted_in_range(
    tracks: Seq<StreamInfo>,
    pref: SubtitlePreference,
    from: int,
)
    requires
        0 <= from <= tracks.len(),
    ensures
        from <= first_accepted(tracks, pref, from) <= tracks.len(),
    decreases tracks.len() - from,
{
    if from < tracks.len() && !accepts(pref, tracks[from]) {
        lemma_first_accepted_in_range(tracks, pref, from + 1);
    }
}

/// The default subtitle position, when there is one, is the position of a
/// track.
pub proof fn lemma_chosen_subtitle_in_range(
    tracks: Seq<StreamInfo>,
    subtitles: Seq<SubtitlePreference>,
    from: int,
)
    requires
        0 <= from,
    ensures
        chosen_subtitle(tracks, subtitles, from) matches Some(at) ==> 0 <= at < tracks.len(),
    decreases subtitles.len() - from,
{
    if from < subtitles.len() {
        lemma_first_accepted_in_range(tracks, subtitles[from], 0);
        lemma_chosen_subtitle_in_range(tracks, subtitles, from + 1);
    }
}

/// The retained tracks of one kind before and after a faithful merge: as
/// many, at the same places among the retained tracks, and the same track by
/// track, each with the default flag that the decision wants.
proof fn lemma_merged_tracks_of_kind(
    streams: Seq<StreamInfo>,
    audio: Seq<String>,
    subtitles: Seq<SubtitlePreference>,
    out: Seq<StreamInfo>,
    kind: StreamType,
)
    requires
        distinct_indices(streams),
        distinct_indices(out),
        faithfully_merged(streams, audio, subtitles, out),
        forall|j: int| 0 <= j < out.len() ==> retained(out, #[trigger] out[j], audio, subtitles),
    ensures
        ({
            let before = kept_of_kind(streams, audio, subtitles, kind);
            let after = kept_of_kind(out, audio, subtitles, kind);
            let k = kept(streams, audio, subtitles);
            let at = positions(out, of_kind(kind));
            &&& before.len() == after.len()
            &&& at.len() == after.len()
            &&& forall|m: int|
                0 <= m < after.len() ==> 0 <= (#[trigger] at[m]) < out.len() && after[m]
                    == out[at[m]] && before[m] == k[at[m]]
            &&& forall|m: int|
                0 <= m < after.len() ==> same_track(#[trigger] before[m], after[m])
            &&& forall|m: int, n: int|
                0 <= m < n < after.len() ==> (#[trigger] before[m]).index != (
                #[trigger] before[n]).index
            &&& forall|m: int, n: int|
                0 <= m < n < after.len() ==> (#[trigger] after[m]).index != (
                #[trigger] after[n]).index
            &&& forall|i: int|
                0 <= i < out.len() && (#[trigger] out[i]).stream_type == kind ==> exists|m: int|
                    0 <= m < at.len() && #[trigger] at[m] == i
        }),
{
    let keep = keeps(streams, audio, subtitles);
    let keep_kind = keeps_kind(streams, audio, subtitles, kind);
    let keep_kind_out = keeps_kind(out, audio, subtitles, kind);
    let kind_only = of_kind(kind);
    let k = kept(streams, audio, subtitles);
    let before = kept_of_kind(streams, audio, subtitles, kind);
    let after = kept_of_kind(out, audio, subtitles, kind);
    // The retained tracks of the kind are the tracks of the kind among the retained ones.
    lemma_positions_compose(streams, keep, keep_kind);
    lemma_positions(streams, keep);
    assert forall|j: int| 0 <= j < k.len() implies keep_kind(#[trigger] k[j]) == kind_only(
        k[j],
    ) by {
        streams.lemma_filter_pred(keep, j);
    }
    lemma_filter_agree(k, keep_kind, kind_only);
    assert(before == k.filter(kind_only));
    assert forall|j: int| 0 <= j < out.len() implies keep_kind_out(#[trigger] out[j])
        == kind_only(out[j]) by {}
    lemma_filter_agree(out, keep_kind_out, kind_only);
    assert(after == out.filter(kind_only));
    assert forall|j: int| 0 <= j < k.len() implies kind_only(#[trigger] k[j]) == kind_only(
        out[j],
    ) by {
        assert(same_track(k[j], out[j]));
    }
    lemma_positions_agree(k, kind_only, out, kind_only);
    lemma_positions(k, kind_only);
    lemma_positions(out, kind_only);
    let at = positions(out, kind_only);
    assert forall|m: int| 0 <= m < after.len() implies same_track(
        #[trigger] before[m],
        after[m],
    ) by {
        assert(before[m] == k[at[m]]);
        assert(after[m] == out[at[m]]);
        assert(same_track(k[at[m]], out[at[m]]));
    }
    let from = positions(streams, keep);
    assert forall|m: int, n: int| 0 <= m < n < after.len() implies (#[trigger] before[m]).index != (
    #[trigger] before[n]).index by {
        assert(before[m] == k[at[m]]);
        assert(before[n] == k[at[n]]);
        assert(at[m] < at[n]);
        assert(k[at[m]] == streams[from[at[m]]]);
        assert(k[at[n]] == streams[from[at[n]]]);
        assert(from[at[m]] < from[at[n]]);
    }
    assert forall|m: int, n: int| 0 <= m < n < after.len() implies (#[trigger] after[m]).index != (
    #[trigger] after[n]).index by {
        assert(after[m] == out[at[m]]);
        assert(after[n] == out[at[n]]);
        assert(at[m] < at[n]);
    }
    assert forall|i: int| 0 <= i < out.len() && (#[trigger] out[i]).stream_type
        == kind implies exists|m: int| 0 <= m < at.len() && #[trigger] at[m] == i by {
        assert(kind_only(out[i]));
    }
}

/// A second pass over the result of a faithful merge finds nothing to do:
/// deciding again on what the merge left, with the same preferences, retains
/// every track and wants every default flag as it is.
pub proof fn lemma_second_pass_needs_no_remux(
    streams: Seq<StreamInfo>,
    audio: Seq<String>,
    subtitles: Seq<SubtitlePreference>,
    out: Seq<StreamInfo>,
)
    requires
        distinct_indices(streams),
        distinct_indices(out),
        faithfully_merged(streams, audio, subtitles, out),
    ensures
        kept(out, audio, subtitles) == out,
        !necessary(
            out,
            indices(kept(out, audio, subtitles)),
            default_audio(out, audio, subtitles),
            default_subtitle(out, audio, subtitles),
        ),
{
    let keep = keeps(streams, audio, subtitles);
    let k = kept(streams, audio, subtitles);
    let da = default_audio(streams, audio, subtitles);
    let ds = default_subtitle(streams, audio, subtitles);
    let da_out = default_audio(out, audio, subtitles);
    let ds_out = default_subtitle(out, audio, subtitles);
    lemma_positions(streams, keep);
    let from = positions(streams, keep);
    // A preferred audio track after the merge was one before it.
    if any_audio_preferred(out, audio) {
        let j = choose|j: int| 0 <= j < out.len() && audio_preferred(#[trigger] out[j], audio);
        assert(same_track(k[j], out[j]));
        assert(k[j] == streams[from[j]]);
        assert(audio_preferred(streams[from[j]], audio));
    }
    // So every track that the merge left is retained again.
    assert forall|j: int| 0 <= j < out.len() implies retained(
        out,
        #[trigger] out[j],
        audio,
        subtitles,
    ) by {
        assert(same_track(k[j], out[j]));
        streams.lemma_filter_pred(keep, j);
        assert(retained(streams, k[j], audio, subtitles));
        if out[j].stream_type == StreamType::Subtitle {
            let r = choose|r: int| 0 <= r < subtitles.len() && accepts(#[trigger] subtitles[r], k[j]);
            lemma_accepts_same_track(subtitles[r], k[j], out[j]);
        }
    }
    lemma_filter_all(out, keeps(out, audio, subtitles));
    let ids = indices(kept(out, audio, subtitles));
    assert(ids.len() == out.len());
    lemma_merged_tracks_of_kind(streams, audio, subtitles, out, StreamType::Audio);
    lemma_merged_tracks_of_kind(streams, audio, subtitles, out, StreamType::Subtitle);
    let audio_before = kept_of_kind(streams, audio, subtitles, StreamType::Audio);
    let audio_after = kept_of_kind(out, audio, subtitles, StreamType::Audio);
    let subtitle_before = kept_of_kind(streams, audio, subtitles, StreamType::Subtitle);
    let subtitle_after = kept_of_kind(out, audio, subtitles, StreamType::Subtitle);
    lemma_chosen_audio_same_tracks(audio_before, audio_after, audio, 0);
    lemma_chosen_subtitle_same_tracks(subtitle_before, subtitle_after, subtitles, 0);
    lemma_chosen_audio(audio_before, audio, 0);
    lemma_chosen_subtitle_in_range(subtitle_before, subtitles, 0);
    assert forall|i: int| 0 <= i < out.len() implies !flag_to_change(
        #[trigger] out[i],
        ids,
        da_out,
        ds_out,
    ) by {
        assert(same_track(k[i], out[i]));
        if out[i].stream_type == StreamType::Audio {
            let at = positions(out, of_kind(StreamType::Audio));
            let m = choose|m: int| 0 <= m < at.len() && #[trigger] at[m] == i;
            assert(audio_after[m] == out[i]);
            assert(audio_before[m] == k[i]);
            match chosen_audio(audio_before, audio, 0) {
                Some(c) => {
                    if c < m {
                        assert(audio_before[c].index != audio_before[m].index);
                        assert(audio_after[c].index != audio_after[m].index);
                    } else if m < c {
                        assert(audio_before[m].index != audio_before[c].index);
                        assert(audio_after[m].index != audio_after[c].index);
                    }
                },
                None => {},
            }
        } else if out[i].stream_type == StreamType::Subtitle {
            let at = positions(out, of_kind(StreamType::Subtitle));
            let m = choose|m: int| 0 <= m < at.len() && #[trigger] at[m] == i;
            assert(subtitle_after[m] == out[i]);
            assert(subtitle_before[m] == k[i]);
            match chosen_subtitle(subtitle_before, subtitles, 0) {
                Some(c) => {
                    if c < m {
                        assert(subtitle_before[c].index != subtitle_before[m].index);
                        assert(subtitle_after[c].index != subtitle_after[m].index);
                    } else if m < c {
                        assert(subtitle_before[m].index != subtitle_before[c].index);
                        assert(subtitle_after[m].index != subtitle_after[c].index);
                    }
                },
                None => {},
            }
        }
    }
}

/// The command of the decision sets the default flag of the track `x`.
pub open spec fn flag_is_set(
    streams: Seq<StreamInfo>,
    audio: Seq<String>,
    subtitles: Seq<SubtitlePreference>,
    x: u32,
) -> bool {
    default_audio(streams, audio, subtitles) == Some(x) || default_subtitle(
        streams,
        audio,
        subtitles,
    ) == Some(x)
}

/// The command of the decision clears the default flag of the track `x`.
pub open spec fn flag_is_cleared(
    streams: Seq<StreamInfo>,
    audio: Seq<String>,
    subtitles: Seq<SubtitlePreference>,
    x: u32,
) -> bool {
    let ids = indices(kept(streams, audio, subtitles));
    cleared_ids(
        retained_ids(streams, ids, StreamType::Audio),
        default_audio(streams, audio, subtitles),
    ).contains(x) || cleared_ids(
        retained_ids(streams, ids, StreamType::Subtitle),
        default_subtitle(streams, audio, subtitles),
    ).contains(x)
}

/// The index `x` is that of a track of the kind `kind`.
pub open spec fn index_of_kind(streams: Seq<StreamInfo>, kind: StreamType, x: u32) -> bool {
    exists|i: int|
        0 <= i < streams.len() && (#[trigger] streams[i]).index == x && streams[i].stream_type
            == kind
}

/// Every index that the command of a decision lists for a kind is that of a
/// track of this kind.
pub proof fn lemma_listed_tracks_are_of_the_file(
    streams: Seq<StreamInfo>,
    retained: Seq<u32>,
    kind: StreamType,
)
    ensures
        forall|x: u32| #[trigger]
            retained_ids(streams, retained, kind).contains(x) ==> index_of_kind(streams, kind, x)
                && retained.contains(x),
{
    let p = retained_of_kind(retained, kind);
    let ids = retained_ids(streams, retained, kind);
    lemma_positions(streams, p);
    assert forall|x: u32| #[trigger] ids.contains(x) implies index_of_kind(streams, kind, x)
        && retained.contains(x) by {
        let m = choose|m: int| 0 <= m < ids.len() && ids[m] == x;
        let i = positions(streams, p)[m];
        assert(streams[i] == streams.filter(p)[m]);
        assert(p(streams[i]));
    }
}

/// The track that a decision chooses as the default of a kind is one of the
/// retained tracks of this kind that the command lists, and no track gets
/// its default flag both set and cleared.
pub proof fn lemma_default_is_listed(
    streams: Seq<StreamInfo>,
    audio: Seq<String>,
    subtitles: Seq<SubtitlePreference>,
)
    requires
        distinct_indices(streams),
    ensures
        forall|x: u32|
            !(flag_is_set(streams, audio, subtitles, x) && flag_is_cleared(
                streams,
                audio,
                subtitles,
                x,
            )),
        default_audio(streams, audio, subtitles) matches Some(d) ==> retained_ids(
            streams,
            indices(kept(streams, audio, subtitles)),
            StreamType::Audio,
        ).contains(d),
        default_subtitle(streams, audio, subtitles) matches Some(d) ==> retained_ids(
            streams,
            indices(kept(streams, audio, subtitles)),
            StreamType::Subtitle,
        ).contains(d),
{
    let ids = indices(kept(streams, audio, subtitles));
    lemma_kept_of_kind_is_listed(streams, audio, subtitles, StreamType::Audio);
    lemma_kept_of_kind_is_listed(streams, audio, subtitles, StreamType::Subtitle);
    let a = kept_of_kind(streams, audio, subtitles, StreamType::Audio);
    let s = kept_of_kind(streams, audio, subtitles, StreamType::Subtitle);
    lemma_chosen_audio(a, audio, 0);
    lemma_chosen_subtitle_in_range(s, subtitles, 0);
    match chosen_audio(a, audio, 0) {
        Some(at) => {
            assert(indices(a)[at] == a[at].index);
        },
        None => {},
    }
    match chosen_subtitle(s, subtitles, 0) {
        Some(at) => {
            assert(indices(s)[at] == s[at].index);
        },
        None => {},
    }
    lemma_listed_tracks_are_of_the_file(streams, ids, StreamType::Audio);
    lemma_listed_tracks_are_of_the_file(streams, ids, StreamType::Subtitle);
    let da = default_audio(streams, audio, subtitles);
    let ds = default_subtitle(streams, audio, subtitles);
    let listed_audio = retained_ids(streams, ids, StreamType::Audio);
    let listed_subtitles = retained_ids(streams, ids, StreamType::Subtitle);
    assert forall|x: u32|
        !(flag_is_set(streams, audio, subtitles, x) && flag_is_cleared(
            streams,
            audio,
            subtitles,
            x,
        )) by {
        if flag_is_set(streams, audio, subtitles, x) && flag_is_cleared(
            streams,
            audio,
            subtitles,
            x,
        ) {
            if cleared_ids(listed_audio, da).contains(x) {
                listed_audio.lemma_filter_contains_rev(not_chosen(da), x);
                let m = choose|m: int|
                    0 <= m < cleared_ids(listed_audio, da).len() && cleared_ids(
                        listed_audio,
                        da,
                    )[m] == x;
                listed_audio.lemma_filter_pred(not_chosen(da), m);
                assert(da != Some(x));
                assert(ds == Some(x));
                assert(listed_subtitles.contains(x));
                lemma_one_kind_per_index(streams, StreamType::Audio, StreamType::Subtitle, x);
            } else {
                listed_subtitles.lemma_filter_contains_rev(not_chosen(ds), x);
                let m = choose|m: int|
                    0 <= m < cleared_ids(listed_subtitles, ds).len() && cleared_ids(
                        listed_subtitles,
                        ds,
                    )[m] == x;
                listed_subtitles.lemma_filter_pred(not_chosen(ds), m);
                assert(ds != Some(x));
                assert(da == Some(x));
                assert(listed_audio.contains(x));
                lemma_one_kind_per_index(streams, StreamType::Audio, StreamType::Subtitle, x);
            }
        }
    }
}

/// Where no two tracks carry the same index, an index belongs to tracks of
/// one kind only.
pub proof fn lemma_one_kind_per_index(
    streams: Seq<StreamInfo>,
    one: StreamType,
    other: StreamType,
    x: u32,
)
    requires
        distinct_indices(streams),
        index_of_kind(streams, one, x),
        index_of_kind(streams, other, x),
    ensures
        one == other,
{
    let i = choose|i: int|
        0 <= i < streams.len() && (#[trigger] streams[i]).index == x && streams[i].stream_type
            == one;
    let j = choose|j: int|
        0 <= j < streams.len() && (#[trigger] streams[j]).index == x && streams[j].stream_type
            == other;
    if i < j {
        assert(streams[i].index != streams[j].index);
    } else if j < i {
        assert(streams[j].index != streams[i].index);
    }
}

/// The tracks of a kind that the command of a decision lists are the
/// retained tracks of this kind.
pub proof fn lemma_kept_of_kind_is_listed(
    streams: Seq<StreamInfo>,
    audio: Seq<String>,
    subtitles: Seq<SubtitlePreference>,
    kind: StreamType,
)
    requires
        distinct_indices(streams),
    ensures
        retained_ids(streams, indices(kept(streams, audio, subtitles)), kind) == indices(
            kept_of_kind(streams, audio, subtitles, kind),
        ),
{
    let keep = keeps(streams, audio, subtitles);
    let k = kept(streams, audio, subtitles);
    let ids = indices(k);
    lemma_positions(streams, keep);
    let p = retained_of_kind(ids, kind);
    let q = keeps_kind(streams, audio, subtitles, kind);
    assert forall|i: int| 0 <= i < streams.len() implies p(#[trigger] streams[i]) == q(
        streams[i],
    ) by {
        if streams[i].stream_type == kind {
            if retained(streams, streams[i], audio, subtitles) {
                assert(keep(streams[i]));
                streams.lemma_filter_contains(keep, i);
                let j = choose|j: int| 0 <= j < k.len() && k[j] == streams[i];
                assert(ids[j] == streams[i].index);
            }
            if ids.contains(streams[i].index) {
                let j = choose|j: int| 0 <= j < ids.len() && ids[j] == streams[i].index;
                let at = positions(streams, keep)[j];
                assert(streams[at] == k[j]);
                assert(keep(streams[at]));
                if at < i {
                    assert(streams[at].index != streams[i].index);
                } else if i < at {
                    assert(streams[i].index != streams[at].index);
                }
            }
        }
    }
    lemma_filter_agree(streams, p, q);
}

} // verus!
