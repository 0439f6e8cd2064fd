use mkv_slimmer::config::{Config, SubtitlePreference};
use mkv_slimmer::display::status::{
    attachment_name, get_attachment_type, get_preferred_default_audio_stream,
    get_preferred_default_subtitle_stream, summarize,
};
use mkv_slimmer::display::{stream_status, StreamStatus};
use mkv_slimmer::models::{StreamInfo, StreamType};

fn track(index: u32, kind: StreamType, language: Option<&str>, title: Option<&str>) -> StreamInfo {
    let mut info = StreamInfo::new(index, kind);
    info.language = language.map(|l| l.to_string());
    info.title = title.map(|t| t.to_string());
    info
}

fn config(audio: &[&str], subtitles: &[&str]) -> Config {
    let mut c = Config::default();
    c.audio.keep_languages = audio.iter().map(|l| l.to_string()).collect();
    c.subtitles.keep_languages =
        subtitles.iter().map(|p| SubtitlePreference::parse(p).unwrap()).collect();
    c
}

const PLAIN: StreamStatus = StreamStatus::Keep { default: false, title_match: false };

fn sample() -> Vec<StreamInfo> {
    vec![
        track(0, StreamType::Video, None, None),
        track(1, StreamType::Audio, Some("jpn"), None),
        track(2, StreamType::Audio, Some("eng"), None),
        track(3, StreamType::Audio, None, None),
        track(4, StreamType::Audio, Some("ger"), None),
        track(5, StreamType::Subtitle, Some("eng"), Some("Signs")),
        track(6, StreamType::Subtitle, Some("eng"), Some("FULL")),
        track(7, StreamType::Subtitle, Some("ger"), None),
        track(8, StreamType::Attachment, None, None),
        track(9, StreamType::Unknown, None, None),
    ]
}

#[test]
fn statuses_have_their_texts() {
    assert_eq!(PLAIN.text(), "KEEP");
    assert_eq!(StreamStatus::Keep { default: true, title_match: false }.text(), "KEEP (default)");
    assert_eq!(StreamStatus::Keep { default: false, title_match: true }.text(), "KEEP (title match)");
    assert_eq!(
        StreamStatus::Keep { default: true, title_match: true }.text(),
        "KEEP (default, title match)"
    );
    assert_eq!(StreamStatus::Remove.text(), "REMOVE");
    assert_eq!(StreamStatus::Unknown.text(), "UNKNOWN");
    assert!(!PLAIN.is_highlighted());
    assert!(StreamStatus::Keep { default: true, title_match: false }.is_highlighted());
    assert!(StreamStatus::Keep { default: false, title_match: true }.is_highlighted());
    assert!(!StreamStatus::Remove.is_highlighted());
    assert!(!StreamStatus::Unknown.is_highlighted());
}

#[test]
fn every_track_is_shown_with_its_fate() {
    let streams = sample();
    let c = config(&["eng", "jpn"], &["eng, full", "eng"]);
    let shown: Vec<StreamStatus> = streams.iter().map(|s| stream_status(&streams, s, &c)).collect();
    assert_eq!(
        shown,
        vec![
            PLAIN,
            PLAIN,
            StreamStatus::Keep { default: true, title_match: false },
            StreamStatus::Remove,
            StreamStatus::Remove,
            PLAIN,
            StreamStatus::Keep { default: true, title_match: true },
            StreamStatus::Remove,
            PLAIN,
            StreamStatus::Unknown,
        ]
    );
}

#[test]
fn unlabelled_audio_is_shown_as_removed_even_as_a_fallback() {
    let streams = vec![track(0, StreamType::Audio, None, None)];
    let c = config(&["eng"], &[]);
    assert_eq!(stream_status(&streams, &streams[0], &c), StreamStatus::Remove);
    assert_eq!(get_preferred_default_audio_stream(&streams, &c.audio.keep_languages), None);
}

#[test]
fn the_shown_defaults_follow_the_preferences() {
    let streams = sample();
    let c = config(&["ger", "eng"], &["spa", "ger", "eng"]);
    assert_eq!(get_preferred_default_audio_stream(&streams, &c.audio.keep_languages), Some(4));
    assert_eq!(
        get_preferred_default_subtitle_stream(&streams, &c.subtitles.keep_languages),
        Some(7)
    );
    let none = config(&["fre"], &["fre"]);
    assert_eq!(get_preferred_default_audio_stream(&streams, &none.audio.keep_languages), None);
    assert_eq!(
        get_preferred_default_subtitle_stream(&streams, &none.subtitles.keep_languages),
        None
    );
}

#[test]
fn sizes_are_summed_for_all_and_for_kept_tracks() {
    let mut streams = sample();
    streams[0].size_bytes = Some(1000);
    streams[2].size_bytes = Some(200);
    streams[3].size_bytes = Some(30);
    streams[4].size_bytes = Some(4);
    streams[9].size_bytes = Some(50000);
    let c = config(&["eng", "jpn"], &["eng, full", "eng"]);
    let summary = summarize(&streams, &c);
    assert_eq!(summary.total_size, 51234);
    assert_eq!(summary.keep_size, 51200);
    assert_eq!(summary.remove_count, 3);
    let empty = summarize(&Vec::new(), &c);
    assert_eq!((empty.total_size, empty.keep_size, empty.remove_count), (0, 0, 0));
    let mut big = vec![track(0, StreamType::Video, None, None), track(1, StreamType::Video, None, None)];
    big[0].size_bytes = Some(u64::MAX);
    big[1].size_bytes = Some(u64::MAX);
    assert_eq!(summarize(&big, &c).total_size, 2 * (u64::MAX as u128));
}

#[test]
fn attachments_are_named_by_their_codec() {
    assert_eq!(get_attachment_type("ttf"), "TrueType Font");
    assert_eq!(get_attachment_type("TTF"), "TrueType Font");
    assert_eq!(get_attachment_type("otf"), "OpenType Font");
    assert_eq!(get_attachment_type("woff"), "Web Font");
    assert_eq!(get_attachment_type("woff2"), "Web Font");
    assert_eq!(get_attachment_type("jpg"), "JPEG Image");
    assert_eq!(get_attachment_type("Jpeg"), "JPEG Image");
    assert_eq!(get_attachment_type("png"), "PNG Image");
    assert_eq!(get_attachment_type("gif"), "GIF Image");
    assert_eq!(get_attachment_type("webp"), "WebP Image");
    assert_eq!(get_attachment_type("pdf"), "PDF Document");
    assert_eq!(get_attachment_type("txt"), "Text File");
    assert_eq!(get_attachment_type("unknown"), "Unknown File");
    assert_eq!(get_attachment_type("Unknown"), "UNKNOWN");
    assert_eq!(get_attachment_type("bin"), "BIN");
    assert_eq!(get_attachment_type("straße"), "STRASSE");
    assert_eq!(attachment_name("ttf"), Some("TrueType Font"));
    assert_eq!(attachment_name("TTF"), None);
}
