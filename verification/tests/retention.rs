use mkv_slimmer::config::SubtitlePreference;
use mkv_slimmer::engine::{build, is_necessary, select, RetentionDecision};
use mkv_slimmer::models::{StreamInfo, StreamType};

fn track(index: u32, kind: StreamType, language: Option<&str>, title: Option<&str>) -> StreamInfo {
    let mut info = StreamInfo::new(index, kind);
    info.language = language.map(|l| l.to_string());
    info.title = title.map(|t| t.to_string());
    info
}

fn sample() -> Vec<StreamInfo> {
    vec![
        track(0, StreamType::Video, None, None),
        track(1, StreamType::Audio, Some("eng"), None),
        track(2, StreamType::Audio, Some("jpn"), None),
        track(3, StreamType::Subtitle, Some("eng"), Some("Full")),
    ]
}

fn langs(list: &[&str]) -> Vec<String> {
    list.iter().map(|l| l.to_string()).collect()
}

fn prefs(list: &[&str]) -> Vec<SubtitlePreference> {
    list.iter().map(|p| SubtitlePreference::parse(p).unwrap()).collect()
}

/// What a merge that carries out the decision leaves behind.
fn merged(streams: &[StreamInfo], decision: &RetentionDecision) -> Vec<StreamInfo> {
    let mut out = Vec::new();
    for s in streams {
        if !decision.retained.contains(&s.index) {
            continue;
        }
        let mut kept = s.clone();
        match s.stream_type {
            StreamType::Audio => kept.default = decision.default_audio == Some(s.index),
            StreamType::Subtitle => kept.default = decision.default_subtitle == Some(s.index),
            _ => {}
        }
        kept.index = out.len() as u32;
        out.push(kept);
    }
    out
}

#[test]
fn keeps_preferred_audio_and_matching_subtitle() {
    let streams = sample();
    let decision = select(&streams, &langs(&["eng"]), &prefs(&["eng, Full"]));
    assert_eq!(decision.retained, vec![0, 1, 3]);
    assert_eq!(decision.default_audio, Some(1));
    assert_eq!(decision.default_subtitle, Some(3));
    assert!(is_necessary(&streams, &decision));
}

#[test]
fn first_preference_wins_the_default_when_both_languages_are_kept() {
    let streams = sample();
    let decision = select(&streams, &langs(&["eng", "jpn"]), &Vec::new());
    assert_eq!(decision.retained, vec![0, 1, 2]);
    assert_eq!(decision.default_audio, Some(1));
    assert_eq!(decision.default_subtitle, None);
}

#[test]
fn preference_order_beats_track_order_for_the_default_audio() {
    let streams = sample();
    let decision = select(&streams, &langs(&["jpn", "eng"]), &Vec::new());
    assert_eq!(decision.retained, vec![0, 1, 2]);
    assert_eq!(decision.default_audio, Some(2));
}

#[test]
fn video_attachments_and_unknown_tracks_are_always_kept() {
    let streams = vec![
        track(0, StreamType::Video, None, None),
        track(1, StreamType::Attachment, None, None),
        track(2, StreamType::Unknown, None, None),
        track(3, StreamType::Audio, Some("fre"), None),
        track(4, StreamType::Subtitle, Some("fre"), None),
        track(5, StreamType::Video, Some("fre"), None),
    ];
    let decision = select(&streams, &Vec::new(), &Vec::new());
    assert_eq!(decision.retained, vec![0, 1, 2, 5]);
    assert_eq!(decision.default_audio, None);
    assert_eq!(decision.default_subtitle, None);
}

#[test]
fn unlabelled_audio_is_dropped_beside_a_preferred_track() {
    let streams = vec![
        track(0, StreamType::Audio, None, None),
        track(1, StreamType::Audio, Some("eng"), None),
        track(2, StreamType::Audio, None, None),
        track(3, StreamType::Audio, Some("ger"), None),
    ];
    let decision = select(&streams, &langs(&["eng"]), &Vec::new());
    assert_eq!(decision.retained, vec![1]);
    assert_eq!(decision.default_audio, Some(1));
}

#[test]
fn unlabelled_audio_is_the_fallback_without_a_preferred_track() {
    let streams = vec![
        track(0, StreamType::Audio, Some("ger"), None),
        track(1, StreamType::Audio, None, None),
        track(2, StreamType::Audio, None, None),
    ];
    let decision = select(&streams, &langs(&["eng"]), &Vec::new());
    assert_eq!(decision.retained, vec![1, 2]);
    assert_eq!(decision.default_audio, Some(1));
}

#[test]
fn no_audio_is_kept_without_preferred_or_unlabelled_tracks() {
    let streams = vec![
        track(0, StreamType::Video, None, None),
        track(1, StreamType::Audio, Some("ger"), None),
        track(2, StreamType::Audio, Some("fre"), None),
    ];
    let decision = select(&streams, &langs(&["eng"]), &Vec::new());
    assert_eq!(decision.retained, vec![0]);
    assert_eq!(decision.default_audio, None);
}

#[test]
fn a_preferred_language_on_a_video_track_does_not_count_as_audio() {
    let streams = vec![
        track(0, StreamType::Video, Some("eng"), None),
        track(1, StreamType::Audio, None, None),
    ];
    let decision = select(&streams, &langs(&["eng"]), &Vec::new());
    assert_eq!(decision.retained, vec![0, 1]);
    assert_eq!(decision.default_audio, Some(1));
}

#[test]
fn subtitle_title_prefix_is_compared_without_case() {
    let streams = vec![
        track(0, StreamType::Subtitle, Some("eng"), Some("FULL subtitles")),
        track(1, StreamType::Subtitle, Some("eng"), Some("Signs")),
        track(2, StreamType::Subtitle, Some("eng"), None),
        track(3, StreamType::Subtitle, None, Some("Full")),
        track(4, StreamType::Subtitle, Some("spa"), Some("full")),
    ];
    let decision = select(&streams, &Vec::new(), &prefs(&["eng, full"]));
    assert_eq!(decision.retained, vec![0]);
    assert_eq!(decision.default_subtitle, Some(0));
}

#[test]
fn subtitle_without_prefix_requirement_accepts_every_title() {
    let streams = vec![
        track(0, StreamType::Subtitle, Some("eng"), Some("Signs")),
        track(1, StreamType::Subtitle, Some("eng"), None),
        track(2, StreamType::Subtitle, None, None),
    ];
    let decision = select(&streams, &Vec::new(), &prefs(&["eng"]));
    assert_eq!(decision.retained, vec![0, 1]);
    assert_eq!(decision.default_subtitle, Some(0));
}

#[test]
fn default_subtitle_follows_preference_order_then_track_order() {
    let streams = vec![
        track(0, StreamType::Subtitle, Some("eng"), Some("Signs")),
        track(1, StreamType::Subtitle, Some("spa"), None),
        track(2, StreamType::Subtitle, Some("eng"), Some("Full")),
        track(3, StreamType::Subtitle, Some("eng"), Some("Full again")),
    ];
    let decision = select(&streams, &Vec::new(), &prefs(&["eng, Full", "spa", "eng"]));
    assert_eq!(decision.retained, vec![0, 1, 2, 3]);
    assert_eq!(decision.default_subtitle, Some(2));
}

#[test]
fn nothing_to_do_when_everything_is_kept_and_flags_are_right() {
    let mut streams = sample();
    streams[1].default = true;
    let decision = select(&streams, &langs(&["eng", "jpn"]), &prefs(&["fre", "eng"]));
    assert_eq!(decision.retained, vec![0, 1, 2, 3]);
    assert_eq!(decision.default_subtitle, Some(3));
    assert!(is_necessary(&streams, &decision));
    streams[3].default = true;
    let decision = select(&streams, &langs(&["eng", "jpn"]), &prefs(&["fre", "eng"]));
    assert!(!is_necessary(&streams, &decision));
}

#[test]
fn a_stale_default_flag_on_another_track_needs_a_remux() {
    let mut streams = sample();
    streams[1].default = true;
    streams[2].default = true;
    streams[3].default = true;
    let decision = select(&streams, &langs(&["eng", "jpn"]), &prefs(&["eng"]));
    assert_eq!(decision.retained.len(), streams.len());
    assert!(is_necessary(&streams, &decision));
}

#[test]
fn a_default_flag_on_a_video_track_never_needs_a_remux() {
    let mut streams = sample();
    streams[0].default = true;
    streams[1].default = true;
    streams[3].default = true;
    let decision = select(&streams, &langs(&["eng", "jpn"]), &prefs(&["eng"]));
    assert!(!is_necessary(&streams, &decision));
}

#[test]
fn a_subtitle_flagged_default_without_a_chosen_default_needs_a_remux() {
    let streams = vec![
        track(0, StreamType::Video, None, None),
        track(1, StreamType::Unknown, None, None),
    ];
    let decision = RetentionDecision {
        retained: vec![0, 1],
        default_audio: None,
        default_subtitle: None,
    };
    assert!(!is_necessary(&streams, &decision));
    let mut flagged = vec![track(0, StreamType::Subtitle, Some("eng"), None)];
    flagged[0].default = true;
    let decision =
        RetentionDecision { retained: vec![0], default_audio: None, default_subtitle: None };
    assert!(is_necessary(&flagged, &decision));
}

#[test]
fn a_second_pass_over_the_merged_file_needs_no_remux() {
    let mut streams = vec![
        track(0, StreamType::Video, None, None),
        track(1, StreamType::Audio, None, None),
        track(2, StreamType::Audio, Some("jpn"), None),
        track(3, StreamType::Audio, Some("eng"), None),
        track(4, StreamType::Subtitle, Some("eng"), Some("Signs")),
        track(5, StreamType::Subtitle, Some("eng"), Some("Full")),
        track(6, StreamType::Subtitle, Some("ger"), None),
        track(7, StreamType::Attachment, None, None),
    ];
    streams[1].default = true;
    streams[6].default = true;
    let audio = langs(&["eng", "jpn"]);
    let subtitles = prefs(&["eng, full", "eng"]);
    let first = select(&streams, &audio, &subtitles);
    assert_eq!(first.retained, vec![0, 2, 3, 4, 5, 7]);
    assert_eq!(first.default_audio, Some(3));
    assert_eq!(first.default_subtitle, Some(5));
    assert!(is_necessary(&streams, &first));
    let out = merged(&streams, &first);
    let second = select(&out, &audio, &subtitles);
    assert_eq!(second.retained, vec![0, 1, 2, 3, 4, 5]);
    assert_eq!(second.default_audio, Some(2));
    assert_eq!(second.default_subtitle, Some(4));
    assert!(!is_necessary(&out, &second));
}

#[test]
fn a_second_pass_needs_no_remux_with_fallback_audio() {
    let mut streams = vec![
        track(0, StreamType::Audio, Some("ger"), None),
        track(1, StreamType::Audio, None, None),
        track(2, StreamType::Audio, None, None),
        track(3, StreamType::Subtitle, Some("eng"), None),
    ];
    streams[2].default = true;
    let audio = langs(&["eng"]);
    let subtitles = prefs(&["eng, Full"]);
    let first = select(&streams, &audio, &subtitles);
    assert_eq!(first.retained, vec![1, 2]);
    assert!(is_necessary(&streams, &first));
    let out = merged(&streams, &first);
    let second = select(&out, &audio, &subtitles);
    assert!(!is_necessary(&out, &second));
}

#[test]
fn command_lists_output_selection_flags_and_source() {
    let streams = sample();
    let decision = select(&streams, &langs(&["eng"]), &prefs(&["eng, Full"]));
    let command = build(&streams, &decision, "/out/a.mkv", "/in/a.mkv");
    assert_eq!(command.program, "mkvmerge");
    assert_eq!(
        command.args,
        vec![
            "-o",
            "/out/a.mkv",
            "--audio-tracks",
            "1",
            "--default-track-flag",
            "1:1",
            "--default-track-flag",
            "3:1",
            "/in/a.mkv",
        ]
    );
}

#[test]
fn command_omits_selectors_for_kinds_that_are_kept_whole() {
    let streams = sample();
    let decision = select(&streams, &langs(&["eng", "jpn"]), &prefs(&["eng"]));
    let command = build(&streams, &decision, "out.mkv", "in.mkv");
    assert_eq!(
        command.args,
        vec![
            "-o",
            "out.mkv",
            "--default-track-flag",
            "1:1",
            "--default-track-flag",
            "2:0",
            "--default-track-flag",
            "3:1",
            "in.mkv",
        ]
    );
}

#[test]
fn command_excludes_a_kind_of_which_nothing_is_kept() {
    let streams = sample();
    let decision = select(&streams, &langs(&["fre"]), &Vec::new());
    assert_eq!(decision.retained, vec![0]);
    let command = build(&streams, &decision, "out.mkv", "in.mkv");
    assert_eq!(command.args, vec!["-o", "out.mkv", "--no-audio", "--no-subtitles", "in.mkv"]);
}

#[test]
fn command_lists_several_tracks_with_commas_and_clears_other_subtitles() {
    let streams = vec![
        track(0, StreamType::Video, None, None),
        track(1, StreamType::Audio, Some("eng"), None),
        track(2, StreamType::Audio, Some("ger"), None),
        track(3, StreamType::Audio, Some("jpn"), None),
        track(4, StreamType::Subtitle, Some("eng"), None),
        track(5, StreamType::Subtitle, Some("jpn"), None),
        track(6, StreamType::Subtitle, Some("ger"), None),
        track(10, StreamType::Attachment, None, None),
        track(11, StreamType::Attachment, None, None),
    ];
    let decision = select(&streams, &langs(&["jpn", "eng"]), &prefs(&["eng", "jpn"]));
    let command = build(&streams, &decision, "o", "i");
    assert_eq!(
        command.args,
        vec![
            "-o",
            "o",
            "--audio-tracks",
            "1,3",
            "--subtitle-tracks",
            "4,5",
            "--default-track-flag",
            "3:1",
            "--default-track-flag",
            "1:0",
            "--default-track-flag",
            "4:1",
            "--default-track-flag",
            "5:0",
            "i",
        ]
    );
    let partial = RetentionDecision {
        retained: vec![0, 4, 5, 11],
        default_audio: None,
        default_subtitle: None,
    };
    let command = build(&streams, &partial, "o", "i");
    assert_eq!(
        command.args,
        vec![
            "-o",
            "o",
            "--no-audio",
            "--subtitle-tracks",
            "4,5",
            "--attachments",
            "11",
            "--default-track-flag",
            "4:0",
            "--default-track-flag",
            "5:0",
            "i",
        ]
    );
    let no_video = RetentionDecision {
        retained: vec![1, 2, 3, 4, 5, 6],
        default_audio: Some(2),
        default_subtitle: Some(6),
    };
    let command = build(&streams, &no_video, "o", "i");
    assert_eq!(
        command.args,
        vec![
            "-o",
            "o",
            "--no-video",
            "--no-attachments",
            "--default-track-flag",
            "2:1",
            "--default-track-flag",
            "1:0",
            "--default-track-flag",
            "3:0",
            "--default-track-flag",
            "6:1",
            "--default-track-flag",
            "4:0",
            "--default-track-flag",
            "5:0",
            "i",
        ]
    );
}

#[test]
fn command_for_a_file_without_tracks_only_names_the_paths() {
    let decision = select(&Vec::new(), &langs(&["eng"]), &Vec::new());
    assert!(decision.retained.is_empty());
    let command = build(&Vec::new(), &decision, "o", "i");
    assert_eq!(command.args, vec!["-o", "o", "i"]);
}

#[test]
fn command_names_only_tracks_of_the_file_and_flags_each_once() {
    let streams = vec![
        track(0, StreamType::Video, None, None),
        track(3, StreamType::Audio, Some("eng"), None),
        track(5, StreamType::Audio, Some("jpn"), None),
        track(8, StreamType::Audio, Some("ger"), None),
        track(9, StreamType::Subtitle, Some("eng"), None),
        track(12, StreamType::Subtitle, Some("jpn"), Some("Signs")),
        track(13, StreamType::Subtitle, Some("ger"), None),
    ];
    let decision = select(&streams, &langs(&["jpn", "eng"]), &prefs(&["jpn, signs", "eng"]));
    let command = build(&streams, &decision, "o", "i");
    let known: Vec<String> = streams.iter().map(|s| s.index.to_string()).collect();
    let mut flagged: Vec<String> = Vec::new();
    let mut i = 2;
    while i + 1 < command.args.len() {
        let flag = command.args[i].as_str();
        let value = command.args[i + 1].as_str();
        if flag == "--default-track-flag" {
            let (id, state) = value.split_once(':').unwrap();
            assert!(known.contains(&id.to_string()), "{}", value);
            assert!(state == "0" || state == "1");
            assert!(!flagged.contains(&id.to_string()), "{} is flagged twice", id);
            flagged.push(id.to_string());
            i += 2;
        } else if flag.ends_with("-tracks") || flag == "--attachments" {
            for id in value.split(',') {
                assert!(known.contains(&id.to_string()), "{}", value);
            }
            i += 2;
        } else {
            assert!(flag.starts_with("--no-"), "{}", flag);
            i += 1;
        }
    }
    assert_eq!(flagged, vec!["5", "3", "12", "9"]);
}
