//! The arguments for the external merge tool.

use vstd::prelude::*;
use crate::engine::necessity::has_index;
use crate::engine::retention::{indices, RetentionDecision};
use crate::models::{StreamInfo, StreamType};
use crate::text::{decimal, push_decimal, views};

verus! {

/// A call of the merge tool: the program and its arguments, in order.
#[derive(Debug, Clone)]
pub struct ExternalCommand {
    /// Name of the program.
    pub program: String,
    /// The arguments, the source file last.
    pub args: Vec<String>,
}

/// The test "is of this kind".
pub open spec fn of_kind(kind: StreamType) -> spec_fn(StreamInfo) -> bool {
    |s: StreamInfo| s.stream_type == kind
}

/// The test "is of this kind and retained".
pub open spec fn retained_of_kind(retained: Seq<u32>, kind: StreamType) -> spec_fn(
    StreamInfo,
) -> bool {
    |s: StreamInfo| s.stream_type == kind && retained.contains(s.index)
}

/// The indices of the retained tracks of one kind, in the order of the
/// tracks.
pub open spec fn retained_ids(streams: Seq<StreamInfo>, retained: Seq<u32>, kind: StreamType) -> Seq<
    u32,
> {
    indices(streams.filter(retained_of_kind(retained, kind)))
}

/// The number of tracks of one kind.
pub open spec fn count_of_kind(streams: Seq<StreamInfo>, kind: StreamType) -> nat {
    streams.filter(of_kind(kind)).len()
}

/// Track indices in decimal, with commas between them.
pub open spec fn id_list(ids: Seq<u32>) -> Seq<char>
    decreases ids.len(),
{
    if ids.len() == 0 {
        Seq::empty()
    } else if ids.len() == 1 {
        decimal(ids[0] as nat)
    } else {
        id_list(ids.drop_last()) + seq![','] + decimal(ids.last() as nat)
    }
}

/// The arguments that select the tracks of one kind: none when all of them
/// are retained, the kind's "none of these" flag when none is, and else the
/// kind's selecting flag with the list of the retained indices.
pub open spec fn selector(ids: Seq<u32>, total: nat, exclude: Seq<char>, select: Seq<char>) -> Seq<
    Seq<char>,
> {
    if ids.len() == total {
        Seq::empty()
    } else if ids.len() == 0 {
        seq![exclude]
    } else {
        seq![select, id_list(ids)]
    }
}

/// The argument that sets or clears the default flag of a track.
pub open spec fn flag_value(id: u32, set: bool) -> Seq<char> {
    decimal(id as nat) + if set {
        ":1"@
    } else {
        ":0"@
    }
}

/// The test "is not the chosen track".
pub open spec fn not_chosen(chosen: Option<u32>) -> spec_fn(u32) -> bool {
    |id: u32| chosen != Some(id)
}

/// The tracks of `ids` whose default flag is cleared: all but the chosen
/// one.
pub open spec fn cleared_ids(ids: Seq<u32>, chosen: Option<u32>) -> Seq<u32> {
    ids.filter(not_chosen(chosen))
}

/// The arguments that set, or clear, the default flag of every track of
/// `ids`.
pub open spec fn flag_args(ids: Seq<u32>, set: bool) -> Seq<Seq<char>>
    decreases ids.len(),
{
    if ids.len() == 0 {
        Seq::empty()
    } else {
        flag_args(ids.drop_last(), set) + seq![
            "--default-track-flag"@,
            flag_value(ids.last(), set),
        ]
    }
}

/// The arguments that give the tracks `ids` of one kind their default flags:
/// first the flag of the chosen track is set, if one is chosen, then the
/// flag of every other track is cleared.
pub open spec fn default_flags(ids: Seq<u32>, chosen: Option<u32>) -> Seq<Seq<char>> {
    (match chosen {
        Some(id) => flag_args(seq![id], true),
        None => Seq::empty(),
    }) + flag_args(cleared_ids(ids, chosen), false)
}

/// The arguments of the merge tool for a decision on a file: the output
/// path, the selection of each kind of track, the default flags of the
/// retained audio and subtitle tracks, and the source file.
pub open spec fn command_args(
    streams: Seq<StreamInfo>,
    retained: Seq<u32>,
    audio: Option<u32>,
    subtitle: Option<u32>,
    output: Seq<char>,
    source: Seq<char>,
) -> Seq<Seq<char>> {
    seq!["-o"@, output] + selector(
        retained_ids(streams, retained, StreamType::Video),
        count_of_kind(streams, StreamType::Video),
        "--no-video"@,
        "--video-tracks"@,
    ) + selector(
        retained_ids(streams, retained, StreamType::Audio),
        count_of_kind(streams, StreamType::Audio),
        "--no-audio"@,
        "--audio-tracks"@,
    ) + selector(
        retained_ids(streams, retained, StreamType::Subtitle),
        count_of_kind(streams, StreamType::Subtitle),
        "--no-subtitles"@,
        "--subtitle-tracks"@,
    ) + selector(
        retained_ids(streams, retained, StreamType::Attachment),
        count_of_kind(streams, StreamType::Attachment),
        "--no-attachments"@,
        "--attachments"@,
    ) + default_flags(retained_ids(streams, retained, StreamType::Audio), audio) + default_flags(
        retained_ids(streams, retained, StreamType::Subtitle),
        subtitle,
    ) + seq![source]
}

/// Pushing a text onto a list of strings pushes its view onto the views.
pub proof fn lemma_views_push(items: Seq<String>, item: String)
    ensures
        views(items.push(item)) == views(items).push(item@),
{
    assert(views(items.push(item)) =~= views(items).push(item@));
}

/// Appends one argument.

fn push_text(args: &mut Vec<String>, text: &str)
    ensures
        views(final(args)@) == views(old(args)@).push(text@),
{
    let item = text.to_string();
    proof {
        lemma_views_push(args@, item);
    }
    args.push(item);
}

/// The indices of the retained tracks of one kind, and the number of all
/// tracks of that kind.
pub fn tracks_of_kind(streams: &Vec<StreamInfo>, retained: &Vec<u32>, kind: StreamType) -> (found: (
    Vec<u32>,
    usize,
))
    ensures
        found.0@ == retained_ids(streams@, retained@, kind),
        found.1 == count_of_kind(streams@, kind),
{
    let mut ids: Vec<u32> = Vec::new();
    let mut total: usize = 0;
    let ghost wanted = retained_of_kind(retained@, kind);
    let ghost counted = of_kind(kind);
    proof {
        reveal(Seq::filter);
        assert(streams@.take(0) =~= Seq::<StreamInfo>::empty());
        assert(indices(streams@.take(0).filter(wanted)) =~= ids@);
    }
    let mut i: usize = 0;
    while i < streams.len()
        invariant
            i <= streams.len(),
            wanted == retained_of_kind(retained@, kind),
            counted == of_kind(kind),
            ids@ == indices(streams@.take(i as int).filter(wanted)),
            total == streams@.take(i as int).filter(counted).len(),
            total <= i,
        decreases streams.len() - i,
    {
        let s = &streams[i];
        let ghost before = streams@.take(i as int);
        proof {
            assert(streams@.take(i + 1) =~= before.push(streams@[i as int]));
            before.lemma_filter_push(streams@[i as int], wanted);
            before.lemma_filter_push(streams@[i as int], counted);
            before.filter(wanted).lemma_push_map_commute(
                |s: StreamInfo| s.index,
                streams@[i as int],
            );
        }
        if s.stream_type == kind {
            total += 1;
            if has_index(retained, s.index) {
                ids.push(s.index);
            }
        }
        i += 1;
    }
    assert(streams@.take(i as int) =~= streams@);
    (ids, total)
}

/// Track indices in decimal, with commas between them.
pub fn join_ids(ids: &Vec<u32>) -> (list: String)
    ensures
        list@ == id_list(ids@),
{
    let mut list = String::new();
    let mut i: usize = 0;
    while i < ids.len()
        invariant
            i <= ids.len(),
            list@ == id_list(ids@.take(i as int)),
        decreases ids.len() - i,
    {
        let ghost before = ids@.take(i as int);
        let ghost after = ids@.take(i + 1);
        proof {
            reveal_strlit(",");
            assert(after.drop_last() =~= before);
            assert(after.last() == ids@[i as int]);
        }
        if i > 0 {
            list.append(",");
        }
        push_decimal(&mut list, ids[i] as u64);
        assert(list@ =~= id_list(after));
        i += 1;
    }
    assert(ids@.take(i as int) =~= ids@);
    list
}

/// Appends the arguments that select the tracks of one kind.

fn push_selector(args: &mut Vec<String>, ids: &Vec<u32>, total: usize, exclude: &str, select: &str)
    ensures
        views(final(args)@) == views(old(args)@) + selector(
            ids@,
            total as nat,
            exclude@,
            select@,
        ),
{
    if ids.len() == total {
        assert(views(args@) =~= views(old(args)@) + Seq::<Seq<char>>::empty());
    } else if ids.len() == 0 {
        push_text(args, exclude);
        assert(views(args@) =~= views(old(args)@) + seq![exclude@]);
    } else {
        push_text(args, select);
        let list = join_ids(ids);
        push_text(args, list.as_str());
        assert(views(args@) =~= views(old(args)@) + seq![select@, id_list(ids@)]);
    }
}

/// Appends the two arguments that set or clear the default flag of a track.

fn push_flag(args: &mut Vec<String>, id: u32, set: bool)
    ensures
        views(final(args)@) == views(old(args)@) + seq![
            "--default-track-flag"@,
            flag_value(id, set),
        ],
{
    push_text(args, "--default-track-flag");
    let mut value = String::new();
    push_decimal(&mut value, id as u64);
    if set {
        value.append(":1");
    } else {
        value.append(":0");
    }
    assert(value@ =~= flag_value(id, set));
    push_text(args, value.as_str());
    assert(views(args@) =~= views(old(args)@) + seq![
        "--default-track-flag"@,
        flag_value(id, set),
    ]);
}

/// Appends the arguments that give the tracks of one kind their default flags.

fn push_default_flags(args: &mut Vec<String>, ids: &Vec<u32>, chosen: &Option<u32>)
    ensures
        views(final(args)@) == views(old(args)@) + default_flags(ids@, *chosen),
{
    let ghost start = views(args@);
    let ghost others = not_chosen(*chosen);
    match chosen {
        Some(id) => {
            push_flag(args, *id, true);
            proof {
                let one = seq![*id];
                reveal_with_fuel(flag_args, 2);
                assert(one.drop_last() =~= Seq::<u32>::empty());
                assert(one.last() == *id);
                assert(flag_args(one, true) =~= seq![
                    "--default-track-flag"@,
                    flag_value(*id, true),
                ]);
            }
        },
        None => {},
    }
    let ghost head = views(args@);
    let mut i: usize = 0;
    proof {
        reveal(Seq::filter);
        assert(ids@.take(0) =~= Seq::<u32>::empty());
        assert(views(args@) =~= head + flag_args(ids@.take(0).filter(others), false));
    }
    while i < ids.len()
        invariant
            i <= ids.len(),
            others == not_chosen(*chosen),
            views(args@) == head + flag_args(ids@.take(i as int).filter(others), false),
        decreases ids.len() - i,
    {
        let ghost before = ids@.take(i as int);
        proof {
            assert(ids@.take(i + 1) =~= before.push(ids@[i as int]));
            before.lemma_filter_push(ids@[i as int], others);
        }
        let is_chosen = match chosen {
            Some(id) => *id == ids[i],
            None => false,
        };
        if !is_chosen {
            push_flag(args, ids[i], false);
            proof {
                let cleared = before.filter(others).push(ids@[i as int]);
                assert(cleared.drop_last() =~= before.filter(others));
            }
        }
        assert(views(args@) =~= head + flag_args(ids@.take(i + 1).filter(others), false));
        i += 1;
    }
    assert(ids@.take(i as int) =~= ids@);
    assert(views(args@) =~= start + default_flags(ids@, *chosen));
}

/// Builds the call of the merge tool that carries out `decision` on the
/// file `source` and writes the result to `output_path`.
pub fn build(
    streams: &Vec<StreamInfo>,
    decision: &RetentionDecision,
    output_path: &str,
    source: &str,
) -> (command: ExternalCommand)
    ensures
        command.program@ == "mkvmerge"@,
        views(command.args@) == command_args(
            streams@,
            decision.retained@,
            decision.default_audio,
            decision.default_subtitle,
            output_path@,
            source@,
        ),
{
    let mut args: Vec<String> = Vec::new();
    assert(views(args@) =~= Seq::<Seq<char>>::empty());
    push_text(&mut args, "-o");
    push_text(&mut args, output_path);
    assert(views(args@) =~= seq!["-o"@, output_path@]);
    let video = tracks_of_kind(streams, &decision.retained, StreamType::Video);
    let audio = tracks_of_kind(streams, &decision.retained, StreamType::Audio);
    let subtitle = tracks_of_kind(streams, &decision.retained, StreamType::Subtitle);
    let attachment = tracks_of_kind(streams, &decision.retained, StreamType::Attachment);
    push_selector(&mut args, &video.0, video.1, "--no-video", "--video-tracks");
    push_selector(&mut args, &audio.0, audio.1, "--no-audio", "--audio-tracks");
    push_selector(&mut args, &subtitle.0, subtitle.1, "--no-subtitles", "--subtitle-tracks");
    push_selector(&mut args, &attachment.0, attachment.1, "--no-attachments", "--attachments");
    push_default_flags(&mut args, &audio.0, &decision.default_audio);
    push_default_flags(&mut args, &subtitle.0, &decision.default_subtitle);
    push_text(&mut args, source);
    ExternalCommand { program: "mkvmerge".to_string(), args }
}

} // verus!
