use mkv_slimmer::config::{
    AudioConfig, Config, ProcessingConfig, SubtitleConfig, SubtitlePreference,
};
use mkv_slimmer::config::settings::parse_preferences;
use mkv_slimmer::error::ErrorKind;

fn strings(list: &[&str]) -> Vec<String> {
    list.iter().map(|l| l.to_string()).collect()
}

#[test]
fn preference_is_a_language_alone() {
    let p = SubtitlePreference::parse("eng").unwrap();
    assert_eq!(p.language, "eng");
    assert_eq!(p.title_prefix, None);
    let p = SubtitlePreference::parse("  jpn\t").unwrap();
    assert_eq!(p.language, "jpn");
    assert_eq!(p.title_prefix, None);
}

#[test]
fn preference_is_a_language_with_a_title_prefix() {
    let p = SubtitlePreference::parse("eng, Full").unwrap();
    assert_eq!(p.language, "eng");
    assert_eq!(p.title_prefix, Some("Full".to_string()));
    let p = SubtitlePreference::parse(" eng ,  Signs & Songs, part 2 ").unwrap();
    assert_eq!(p.language, "eng");
    assert_eq!(p.title_prefix, Some("Signs & Songs, part 2".to_string()));
}

#[test]
fn an_empty_prefix_means_no_requirement() {
    for text in ["eng,", "eng,   ", "eng ,\t"] {
        let p = SubtitlePreference::parse(text).unwrap();
        assert_eq!(p.language, "eng");
        assert_eq!(p.title_prefix, None);
    }
}

#[test]
fn a_preference_without_a_language_is_refused() {
    for text in ["", "   ", ", Full", "  , Full", ","] {
        let e = SubtitlePreference::parse(text).unwrap_err();
        assert_eq!(e.kind, ErrorKind::Config);
        assert_eq!(
            e.message,
            format!(
                "❌ Configuration error\n   Context: Subtitle language preference\n   Issue: Language code cannot be empty in preference '{}'. Use format 'language' or 'language, title prefix'",
                text
            )
        );
    }
}

#[test]
fn preferences_are_built_from_parts() {
    assert!(SubtitlePreference::from_parts(String::new(), None).is_none());
    assert!(SubtitlePreference::from_parts(String::new(), Some("Full".to_string())).is_none());
    let p = SubtitlePreference::from_parts("eng".to_string(), Some(String::new())).unwrap();
    assert_eq!((p.language.as_str(), p.title_prefix), ("eng", None));
    let p = SubtitlePreference::from_parts("eng".to_string(), Some("F".to_string())).unwrap();
    assert_eq!((p.language.as_str(), p.title_prefix), ("eng", Some("F".to_string())));
    let p = SubtitlePreference::from_parts(" ".to_string(), None).unwrap();
    assert_eq!(p.language, " ");
}

#[test]
fn defaults_name_the_usual_languages() {
    assert_eq!(AudioConfig::default().keep_languages, strings(&["eng", "jpn", "und"]));
    let subtitles = SubtitleConfig::default();
    assert_eq!(subtitles.keep_languages.len(), 2);
    assert_eq!(subtitles.keep_languages[0].language, "eng");
    assert_eq!(subtitles.keep_languages[0].title_prefix, None);
    assert_eq!(subtitles.keep_languages[1].language, "spa");
    assert_eq!(subtitles.keep_languages[1].title_prefix, None);
    assert!(!ProcessingConfig::default().dry_run);
    let config = Config::default();
    assert_eq!(config.audio.keep_languages, strings(&["eng", "jpn", "und"]));
    assert_eq!(config.subtitles.keep_languages.len(), 2);
    assert!(!config.processing.dry_run);
    assert!(config.validate().is_ok());
}

#[test]
fn command_line_overrides_what_it_names() {
    let mut config = Config::default();
    config
        .merge_cli_args(Some(strings(&["ger"])), Some(strings(&["ger, Voll", "eng"])), true)
        .unwrap();
    assert_eq!(config.audio.keep_languages, strings(&["ger"]));
    assert_eq!(config.subtitles.keep_languages.len(), 2);
    assert_eq!(config.subtitles.keep_languages[0].language, "ger");
    assert_eq!(config.subtitles.keep_languages[0].title_prefix, Some("Voll".to_string()));
    assert_eq!(config.subtitles.keep_languages[1].language, "eng");
    assert!(config.processing.dry_run);
}

#[test]
fn command_line_leaves_the_rest_alone() {
    let mut config = Config::default();
    config.processing.dry_run = true;
    config.merge_cli_args(None, None, false).unwrap();
    assert_eq!(config.audio.keep_languages, strings(&["eng", "jpn", "und"]));
    assert_eq!(config.subtitles.keep_languages.len(), 2);
    assert!(config.processing.dry_run);
    let mut config = Config::default();
    config.merge_cli_args(Some(Vec::new()), Some(Vec::new()), false).unwrap();
    assert!(config.audio.keep_languages.is_empty());
    assert!(config.subtitles.keep_languages.is_empty());
    assert!(!config.processing.dry_run);
}

#[test]
fn an_unreadable_preference_on_the_command_line_is_an_error() {
    let mut config = Config::default();
    let e = config
        .merge_cli_args(Some(strings(&["ger"])), Some(strings(&["eng", " , x", ""])), true)
        .unwrap_err();
    assert_eq!(e.kind, ErrorKind::Config);
    assert_eq!(
        e.message,
        "Failed to parse subtitle language preferences from CLI arguments: ❌ Configuration error\n   Context: Subtitle language preference\n   Issue: Language code cannot be empty in preference ' , x'. Use format 'language' or 'language, title prefix'"
    );
    assert_eq!(config.audio.keep_languages, strings(&["ger"]));
    assert_eq!(config.subtitles.keep_languages.len(), 2);
    assert_eq!(config.subtitles.keep_languages[0].language, "eng");
    assert!(!config.processing.dry_run);
}

#[test]
fn preference_lists_are_read_in_order() {
    let prefs = parse_preferences(&strings(&["eng, Full", "jpn", "spa,"])).unwrap();
    assert_eq!(prefs.len(), 3);
    assert_eq!(prefs[0].title_prefix, Some("Full".to_string()));
    assert_eq!(prefs[1].language, "jpn");
    assert_eq!(prefs[2].title_prefix, None);
    assert!(parse_preferences(&Vec::new()).unwrap().is_empty());
    let e = parse_preferences(&strings(&["eng", ",a", ",b"])).unwrap_err();
    assert!(e.message.contains("preference ',a'"));
}
