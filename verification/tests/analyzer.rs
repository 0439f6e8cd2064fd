use mkv_slimmer::config::{Config, SubtitlePreference};
use mkv_slimmer::display::StreamStatus;
use mkv_slimmer::engine::analyzer::{
    describe_kept, mentions_bt2020, merge_failure, move_status, space_saved,
};
use mkv_slimmer::engine::transfer::TransferMode;
use mkv_slimmer::engine::{MkvAnalyzer, PlannedAction};
use mkv_slimmer::error::ErrorKind;
use mkv_slimmer::models::{
    FFProbeDisposition, FFProbeOutput, FFProbeStream, FFProbeTags, FilePath, ProcessingTask, SonarrContext,
    StreamInfo, StreamType,
};

fn path(text: &str) -> FilePath {
    FilePath::parse(text)
}

fn bare(kind: Option<&str>) -> FFProbeStream {
    FFProbeStream {
        codec_type: kind.map(|k| k.to_string()),
        codec_name: None,
        codec_long_name: None,
        width: None,
        height: None,
        r_frame_rate: None,
        color_space: None,
        channels: None,
        sample_rate: None,
        bit_rate: None,
        duration_seconds: None,
        tags: None,
        disposition: None,
    }
}

fn tags(language: Option<&str>, title: Option<&str>) -> FFProbeTags {
    FFProbeTags {
        language: language.map(|l| l.to_string()),
        title: title.map(|t| t.to_string()),
        duration_seconds: None,
        number_of_bytes: None,
    }
}

fn analyzer(streams: Vec<StreamInfo>, config: Config, sonarr: Option<SonarrContext>) -> MkvAnalyzer {
    let mut a = MkvAnalyzer::new(path("/in/movie.mkv"), path("/out"), config, None, sonarr);
    a.streams = streams;
    a
}

fn track(index: u32, kind: StreamType, language: Option<&str>) -> StreamInfo {
    let mut info = StreamInfo::new(index, kind);
    info.language = language.map(|l| l.to_string());
    info
}

fn config(audio: &[&str], subtitles: &[&str], dry_run: bool) -> Config {
    let mut c = Config::default();
    c.audio.keep_languages = audio.iter().map(|l| l.to_string()).collect();
    c.subtitles.keep_languages =
        subtitles.iter().map(|p| SubtitlePreference::parse(p).unwrap()).collect();
    c.processing.dry_run = dry_run;
    c
}

#[test]
fn a_new_track_knows_only_index_and_kind() {
    let info = StreamInfo::new(4, StreamType::Audio);
    assert_eq!(info.index, 4);
    assert_eq!(info.stream_type, StreamType::Audio);
    assert_eq!(info.codec, "unknown");
    assert!(info.language.is_none() && info.title.is_none());
    assert!(!info.default && !info.forced);
    assert!(info.size_bytes.is_none() && info.duration_seconds.is_none());
    assert!(info.resolution.is_none() && info.framerate.is_none() && info.hdr.is_none());
    assert!(info.channels.is_none() && info.sample_rate.is_none() && info.bitrate.is_none());
    assert!(info.subtitle_format.is_none());
    assert_eq!(StreamType::Video.name(), "Video");
    assert_eq!(StreamType::Audio.name(), "Audio");
    assert_eq!(StreamType::Subtitle.name(), "Subtitle");
    assert_eq!(StreamType::Attachment.name(), "Attachment");
    assert_eq!(StreamType::Unknown.name(), "Unknown");
}

#[test]
fn probe_kinds_are_read_from_their_names() {
    let kinds = [
        (Some("video"), StreamType::Video),
        (Some("audio"), StreamType::Audio),
        (Some("subtitle"), StreamType::Subtitle),
        (Some("attachment"), StreamType::Attachment),
        (Some("data"), StreamType::Unknown),
        (Some("Video"), StreamType::Unknown),
        (None, StreamType::Unknown),
    ];
    for (name, kind) in kinds {
        let info = MkvAnalyzer::create_stream_info_from_ffprobe(7, &bare(name));
        assert_eq!(info.stream_type, kind);
        assert_eq!(info.index, 7);
        assert_eq!(info.codec, "unknown");
    }
}

#[test]
fn a_video_track_is_described() {
    let mut p = bare(Some("video"));
    p.codec_name = Some("hevc".to_string());
    p.codec_long_name = Some("H.265".to_string());
    p.width = Some(3840);
    p.height = Some(2160);
    p.r_frame_rate = Some("24000/1001".to_string());
    p.color_space = Some("BT2020nc".to_string());
    p.channels = Some(2);
    p.sample_rate = Some("48000".to_string());
    p.tags = Some(tags(Some("und"), Some("Main")));
    p.disposition = Some(FFProbeDisposition { default: Some(1), forced: Some(0) });
    let info = MkvAnalyzer::create_stream_info_from_ffprobe(0, &p);
    assert_eq!(info.codec, "hevc");
    assert_eq!(info.language, Some("und".to_string()));
    assert_eq!(info.title, Some("Main".to_string()));
    assert!(info.default);
    assert!(!info.forced);
    assert_eq!(info.resolution, Some("3840x2160".to_string()));
    assert_eq!(info.framerate, Some("24000/1001".to_string()));
    assert_eq!(info.hdr, Some(true));
    assert_eq!(info.channels, None);
    assert_eq!(info.sample_rate, None);
    assert_eq!(info.subtitle_format, None);
}

#[test]
fn a_video_track_without_details_gets_zeroes() {
    let mut p = bare(Some("video"));
    p.codec_long_name = Some("H.264".to_string());
    p.height = Some(-1);
    p.color_space = Some("bt709".to_string());
    let info = MkvAnalyzer::create_stream_info_from_ffprobe(0, &p);
    assert_eq!(info.codec, "H.264");
    assert_eq!(info.resolution, Some("0x-1".to_string()));
    assert_eq!(info.framerate, None);
    assert_eq!(info.hdr, Some(false));
    let info = MkvAnalyzer::create_stream_info_from_ffprobe(0, &bare(Some("video")));
    assert_eq!(info.resolution, Some("0x0".to_string()));
    assert_eq!(info.hdr, Some(false));
    assert!(mentions_bt2020("xbt2020x"));
    assert!(!mentions_bt2020("bt202"));
}

#[test]
fn an_audio_track_is_described() {
    let mut p = bare(Some("audio"));
    p.codec_name = Some("aac".to_string());
    p.channels = Some(6);
    p.sample_rate = Some("48000".to_string());
    p.width = Some(10);
    p.disposition = Some(FFProbeDisposition { default: Some(2), forced: Some(1) });
    let info = MkvAnalyzer::create_stream_info_from_ffprobe(1, &p);
    assert_eq!(info.channels, Some(6));
    assert_eq!(info.sample_rate, Some(48000));
    assert!(!info.default);
    assert!(info.forced);
    assert_eq!(info.resolution, None);
    assert_eq!(info.hdr, None);
    p.channels = Some(-1);
    p.sample_rate = Some("4294967296".to_string());
    p.disposition = Some(FFProbeDisposition { default: None, forced: None });
    let info = MkvAnalyzer::create_stream_info_from_ffprobe(1, &p);
    assert_eq!(info.channels, Some((-1i64) as u32));
    assert_eq!(info.sample_rate, None);
    assert!(!info.default && !info.forced);
    for c in [0i64, 1, 4294967295, 4294967296, 4294967297, -4294967296, -4294967297, i64::MAX, i64::MIN] {
        p.channels = Some(c);
        let info = MkvAnalyzer::create_stream_info_from_ffprobe(1, &p);
        assert_eq!(info.channels, Some(c as u32), "{}", c);
    }
}

#[test]
fn a_subtitle_track_takes_its_format_from_the_codec() {
    let mut p = bare(Some("subtitle"));
    p.codec_name = Some("subrip".to_string());
    let info = MkvAnalyzer::create_stream_info_from_ffprobe(2, &p);
    assert_eq!(info.subtitle_format, Some("subrip".to_string()));
    let info = MkvAnalyzer::create_stream_info_from_ffprobe(2, &bare(Some("subtitle")));
    assert_eq!(info.subtitle_format, Some("unknown".to_string()));
}

#[test]
fn size_and_duration_come_from_the_tags_first() {
    let mut p = bare(Some("audio"));
    let mut t = tags(None, None);
    t.duration_seconds = Some(91);
    t.number_of_bytes = Some("123456".to_string());
    p.tags = Some(t);
    p.bit_rate = Some("8000".to_string());
    p.duration_seconds = Some(500);
    let info = MkvAnalyzer::create_stream_info_from_ffprobe(0, &p);
    assert_eq!(info.duration_seconds, Some(91));
    assert_eq!(info.size_bytes, Some(123456));
    assert_eq!(info.bitrate, Some(8000));
}

#[test]
fn size_is_derived_from_bit_rate_and_duration() {
    let mut p = bare(Some("audio"));
    p.bit_rate = Some("128000".to_string());
    p.duration_seconds = Some(91);
    let info = MkvAnalyzer::create_stream_info_from_ffprobe(0, &p);
    assert_eq!(info.bitrate, Some(128000));
    assert_eq!(info.duration_seconds, Some(91));
    assert_eq!(info.size_bytes, Some(128000 * 91 / 8));
    let mut t = tags(None, None);
    t.duration_seconds = Some(10);
    t.number_of_bytes = Some("many".to_string());
    p.tags = Some(t);
    p.bit_rate = Some("12".to_string());
    let info = MkvAnalyzer::create_stream_info_from_ffprobe(0, &p);
    assert_eq!(info.duration_seconds, Some(10));
    assert_eq!(info.size_bytes, Some(15));
    p.bit_rate = Some("7".to_string());
    let info = MkvAnalyzer::create_stream_info_from_ffprobe(0, &p);
    assert_eq!(info.size_bytes, Some(8));
}

#[test]
fn without_a_bit_rate_the_plain_duration_is_not_used() {
    let mut p = bare(Some("audio"));
    p.duration_seconds = Some(91);
    let info = MkvAnalyzer::create_stream_info_from_ffprobe(0, &p);
    assert_eq!(info.duration_seconds, None);
    assert_eq!(info.size_bytes, None);
    assert_eq!(info.bitrate, None);
    p.bit_rate = Some("fast".to_string());
    let info = MkvAnalyzer::create_stream_info_from_ffprobe(0, &p);
    assert_eq!(info.duration_seconds, None);
    assert_eq!(info.bitrate, None);
    p.bit_rate = Some("1000".to_string());
    p.duration_seconds = None;
    let info = MkvAnalyzer::create_stream_info_from_ffprobe(0, &p);
    assert_eq!(info.bitrate, Some(1000));
    assert_eq!(info.size_bytes, None);
}

#[test]
fn a_size_that_does_not_fit_is_left_unknown() {
    let mut p = bare(Some("audio"));
    p.bit_rate = Some(u64::MAX.to_string());
    p.duration_seconds = Some(8);
    let info = MkvAnalyzer::create_stream_info_from_ffprobe(0, &p);
    assert_eq!(info.size_bytes, Some(u64::MAX));
    p.duration_seconds = Some(9);
    let info = MkvAnalyzer::create_stream_info_from_ffprobe(0, &p);
    assert_eq!(info.size_bytes, None);
    assert_eq!(info.duration_seconds, Some(9));
}

#[test]
fn analyze_takes_the_tracks_in_order() {
    let mut a = MkvAnalyzer::new(path("/in/a.mkv"), path("/out"), Config::default(), None, None);
    assert!(a.streams.is_empty());
    let mut audio = bare(Some("audio"));
    audio.tags = Some(tags(Some("eng"), None));
    a.analyze(Some(FFProbeOutput { streams: Some(vec![bare(Some("video")), audio, bare(None)]) }));
    assert_eq!(a.streams.len(), 3);
    assert_eq!(a.streams[0].index, 0);
    assert_eq!(a.streams[0].stream_type, StreamType::Video);
    assert_eq!(a.streams[1].index, 1);
    assert_eq!(a.streams[1].language, Some("eng".to_string()));
    assert_eq!(a.streams[2].index, 2);
    assert_eq!(a.streams[2].stream_type, StreamType::Unknown);
    assert_eq!(a.file_path.to_text(), "/in/a.mkv");
}

#[test]
fn analyze_degrades_to_one_unknown_track_without_a_report() {
    let mut a = MkvAnalyzer::new(path("/in/a.mkv"), path("/out"), Config::default(), None, None);
    a.analyze(None);
    assert_eq!(a.streams.len(), 1);
    assert_eq!(a.streams[0].index, 0);
    assert_eq!(a.streams[0].stream_type, StreamType::Unknown);
    assert_eq!(a.streams[0].codec, "unknown");
    let mut b = MkvAnalyzer::new(path("/in/a.mkv"), path("/out"), Config::default(), None, None);
    b.analyze(Some(FFProbeOutput { streams: None }));
    assert!(b.streams.is_empty());
    b.analyze(Some(FFProbeOutput { streams: Some(Vec::new()) }));
    assert!(b.streams.is_empty());
}

#[test]
fn every_track_gets_a_status_to_show() {
    let streams = vec![
        track(0, StreamType::Video, None),
        track(1, StreamType::Audio, Some("eng")),
        track(2, StreamType::Audio, Some("ger")),
        track(3, StreamType::Unknown, None),
    ];
    let shown = analyzer(streams, config(&["eng"], &[], false), None).display_streams();
    assert_eq!(
        shown,
        vec![
            StreamStatus::Keep { default: false, title_match: false },
            StreamStatus::Keep { default: true, title_match: false },
            StreamStatus::Remove,
            StreamStatus::Unknown,
        ]
    );
}

#[test]
fn a_file_that_needs_no_change_is_transferred() {
    let mut streams = vec![track(0, StreamType::Video, None), track(1, StreamType::Audio, Some("eng"))];
    streams[1].default = true;
    let plan = analyzer(streams.clone(), config(&["eng"], &[], false), None)
        .process_streams()
        .unwrap();
    assert_eq!(plan.action, PlannedAction::Transfer(TransferMode::HardLinkOrCopy));
    assert_eq!(plan.decision.retained, vec![0, 1]);
    let mut sonarr = SonarrContext::default();
    sonarr.transfer_mode = Some("Move".to_string());
    let plan = analyzer(streams.clone(), config(&["eng"], &[], false), Some(sonarr.clone()))
        .process_streams()
        .unwrap();
    assert_eq!(plan.action, PlannedAction::Transfer(TransferMode::Move));
    sonarr.transfer_mode = Some("Beam".to_string());
    let plan = analyzer(streams.clone(), config(&["eng"], &[], false), Some(sonarr.clone()))
        .process_streams()
        .unwrap();
    assert_eq!(plan.action, PlannedAction::Transfer(TransferMode::Unrecognized));
    sonarr.transfer_mode = None;
    let plan = analyzer(streams.clone(), config(&["eng"], &[], false), Some(sonarr))
        .process_streams()
        .unwrap();
    assert_eq!(plan.action, PlannedAction::Transfer(TransferMode::HardLinkOrCopy));
    let plan = analyzer(streams, config(&["eng"], &[], true), None).process_streams().unwrap();
    assert_eq!(plan.action, PlannedAction::WouldTransfer);
}

#[test]
fn a_file_that_loses_tracks_is_remuxed() {
    let streams = vec![
        track(0, StreamType::Video, None),
        track(1, StreamType::Audio, Some("eng")),
        track(2, StreamType::Audio, Some("ger")),
    ];
    let a = analyzer(streams.clone(), config(&["eng"], &[], false), None);
    let plan = a.process_streams().unwrap();
    assert_eq!(plan.action, PlannedAction::Merge);
    assert_eq!(plan.decision.retained, vec![0, 1]);
    assert_eq!(plan.decision.default_audio, Some(1));
    assert!(a.is_mkvmerge_necessary(&plan.decision));
    let command = a.build_mkvmerge_command(&plan.decision, &path("/out/movie.mkv"));
    assert_eq!(command.program, "mkvmerge");
    assert_eq!(
        command.args,
        vec![
            "-o",
            "/out/movie.mkv",
            "--audio-tracks",
            "1",
            "--default-track-flag",
            "1:1",
            "/in/movie.mkv"
        ]
    );
    let plan = analyzer(streams, config(&["eng"], &[], true), None).process_streams().unwrap();
    assert_eq!(plan.action, PlannedAction::WouldMerge);
}

#[test]
fn a_file_of_which_nothing_would_be_kept_is_refused() {
    let streams = vec![track(0, StreamType::Audio, Some("ger")), track(1, StreamType::Subtitle, None)];
    let e = analyzer(streams, config(&["eng"], &["eng"], false), None).process_streams().unwrap_err();
    assert_eq!(e.kind, ErrorKind::Processing);
    assert_eq!(e.message, "No streams would be kept - refusing to process");
    let e = analyzer(Vec::new(), config(&["eng"], &[], true), None).process_streams().unwrap_err();
    assert_eq!(e.message, "No streams would be kept - refusing to process");
}

#[test]
fn the_output_takes_the_name_of_the_source_or_the_given_name() {
    let a = analyzer(Vec::new(), Config::default(), None);
    assert_eq!(a.generate_output_path().unwrap().to_text(), "/out/movie.mkv");
    let mut named = analyzer(Vec::new(), Config::default(), None);
    named.output_filename = Some("other".to_string());
    assert_eq!(named.generate_output_path().unwrap().to_text(), "/out/other");
    let mut no_extension = analyzer(Vec::new(), Config::default(), None);
    no_extension.file_path = path("/in/movie");
    let e = no_extension.generate_output_path().unwrap_err();
    assert_eq!(e.kind, ErrorKind::Processing);
    assert_eq!(e.message, "Could not get file extension from input path");
    let mut no_name = analyzer(Vec::new(), Config::default(), None);
    no_name.file_path = path("/in/..");
    let e = no_name.generate_output_path().unwrap_err();
    assert_eq!(e.message, "Could not get file stem from input path");
}

#[test]
fn a_task_names_its_output_and_its_source() {
    let task = ProcessingTask::new(path("/in/s1/e1.mkv"), path("/out"), Vec::new(), None);
    assert_eq!(task.generate_output_path().unwrap().to_text(), "/out/e1.mkv");
    assert_eq!(task.source_filename(), "e1.mkv");
    assert!(task.streams.is_empty());
    let task =
        ProcessingTask::new(path("/in/e1"), path("/out"), Vec::new(), Some("x/y.mkv".to_string()));
    assert_eq!(task.generate_output_path().unwrap().to_text(), "/out/x/y.mkv");
    assert_eq!(task.output_filename, Some("x/y.mkv".to_string()));
    let task = ProcessingTask::new(path("/in/.."), path("/out"), Vec::new(), None);
    let e = task.generate_output_path().unwrap_err();
    assert_eq!(e.kind, ErrorKind::Processing);
    assert_eq!(e.message, "Could not extract filename from source path");
    assert_eq!(task.source_filename(), "/in/..");
    let task = ProcessingTask::new(path("/in/.."), path("/out"), Vec::new(), Some("/abs.mkv".to_string()));
    assert_eq!(task.generate_output_path().unwrap().to_text(), "/abs.mkv");
}

#[test]
fn merge_failures_name_a_known_cause_or_the_exit_code() {
    let e = merge_failure("Error: No space left on device; Permission denied", "out", Some(2));
    assert_eq!(e.kind, ErrorKind::MergeExecution);
    assert_eq!(
        e.message,
        "Insufficient disk space to create output file\n\nStderr: Error: No space left on device; Permission denied\nStdout: out"
    );
    let e = merge_failure("Permission denied", "", Some(2));
    assert_eq!(
        e.message,
        "Permission denied - check file and directory permissions\n\nStderr: Permission denied\nStdout: "
    );
    let e = merge_failure("x: No such file or directory", "", None);
    assert!(e.message.starts_with("Input file not found or became unavailable during processing\n\n"));
    let e = merge_failure("odd", "log", Some(2));
    assert_eq!(e.message, "mkvmerge failed with exit code 2\n\nStderr: odd\nStdout: log");
    let e = merge_failure("", "", None);
    assert_eq!(e.message, "mkvmerge failed with exit code -1\n\nStderr: \nStdout: ");
    let e = merge_failure("", "", Some(-11));
    assert!(e.message.starts_with("mkvmerge failed with exit code -11\n"));
}

#[test]
fn saved_space_is_never_negative() {
    assert_eq!(space_saved(100, 40), 60);
    assert_eq!(space_saved(40, 100), 0);
    assert_eq!(space_saved(40, 40), 0);
    assert_eq!(space_saved(u64::MAX, 0), u64::MAX);
}

#[test]
fn the_pipeline_is_told_whether_the_file_was_rewritten() {
    assert_eq!(move_status(true, true), Some("[MoveStatus] RenameRequested"));
    assert_eq!(move_status(true, false), Some("[MoveStatus] MoveComplete"));
    assert_eq!(move_status(false, true), None);
    assert_eq!(move_status(false, false), None);
}

#[test]
fn kept_tracks_are_listed_with_hashes() {
    assert_eq!(describe_kept(&vec![0, 1, 3]), "🎯 Keeping 3 stream(s): #0, #1, #3");
    assert_eq!(describe_kept(&vec![12]), "🎯 Keeping 1 stream(s): #12");
    assert_eq!(describe_kept(&Vec::new()), "🎯 Keeping 0 stream(s): ");
}
