//! Whether a file has to be rewritten at all.

use vstd::prelude::*;
use crate::engine::retention::RetentionDecision;
use crate::models::{StreamInfo, StreamType};

verus! {

/// The default flag that a decision wants on a track: set on the chosen
/// audio and the chosen subtitle track, clear on every other track of these
/// two kinds. Tracks of other kinds keep their flag.
pub open spec fn wanted_flag(s: StreamInfo, audio: Option<u32>, subtitle: Option<u32>) -> bool {
    match s.stream_type {
        StreamType::Audio => audio == Some(s.index),
        StreamType::Subtitle => subtitle == Some(s.index),
        _ => s.default,
    }
}

/// A retained track whose default flag is not the wanted one.
pub open spec fn flag_to_change(
    s: StreamInfo,
    retained: Seq<u32>,
    audio: Option<u32>,
    subtitle: Option<u32>,
) -> bool {
    retained.contains(s.index) && s.default != wanted_flag(s, audio, subtitle)
}

/// A remux is necessary when a track is dropped, or when a retained audio or
/// subtitle track does not carry the default flag that the decision wants.
pub open spec fn necessary(
    streams: Seq<StreamInfo>,
    retained: Seq<u32>,
    audio: Option<u32>,
    subtitle: Option<u32>,
) -> bool {
    retained.len() != streams.len() || exists|i: int|
        0 <= i < streams.len() && flag_to_change(#[trigger] streams[i], retained, audio, subtitle)
}

/// Whether `index` is one of `list`.
pub fn has_index(list: &Vec<u32>, index: u32) -> (r: bool)
    ensures
        r == list@.contains(index),
{
    let mut k: usize = 0;
    while k < list.len()
        invariant
            k <= list.len(),
            forall|j: int| 0 <= j < k ==> list@[j] != index,
        decreases list.len() - k,
    {
        if list[k] == index {
            return true;
        }
        k += 1;
    }
    false
}

/// Whether `index` is the chosen one.

fn same_choice(chosen: &Option<u32>, index: u32) -> (r: bool)
    ensures
        r == (*chosen == Some(index)),
{
    match chosen {
        Some(c) => *c == index,
        None => false,
    }
}

/// Whether the file has to be remuxed to carry out `decision`.
pub fn is_necessary(streams: &Vec<StreamInfo>, decision: &RetentionDecision) -> (r: bool)
    ensures
        r == necessary(
            streams@,
            decision.retained@,
            decision.default_audio,
            decision.default_subtitle,
        ),
{
    if decision.retained.len() != streams.len() {
        return true;
    }
    let mut i: usize = 0;
    while i < streams.len()
        invariant
            i <= streams.len(),
            decision.retained.len() == streams.len(),
            forall|k: int|
                0 <= k < i ==> !flag_to_change(
                    #[trigger] streams@[k],
                    decision.retained@,
                    decision.default_audio,
                    decision.default_subtitle,
                ),
        decreases streams.len() - i,
    {
        let s = &streams[i];
        let wanted = match s.stream_type {
            StreamType::Audio => same_choice(&decision.default_audio, s.index),
            StreamType::Subtitle => same_choice(&decision.default_subtitle, s.index),
            _ => s.default,
        };
        if s.default != wanted && has_index(&decision.retained, s.index) {
            return true;
        }
        i += 1;
    }
    false
}

} // verus!
