//! The settings as a whole, and how the command line overrides them.

use vstd::prelude::*;
use crate::config::preferences::{
    empty_language_reason,
    preference_language,
    preference_title,
    AudioConfig,
    ProcessingConfig,
    SubtitleConfig,
    SubtitlePreference,
};
use crate::error::{config_message, ErrorKind, SlimmerError};
use crate::text::{opt_view, views};

verus! {

/// The settings: what to keep of audio, what of subtitles, and how to work.
#[derive(Debug, Clone)]
pub struct Config {
    /// Audio languages.
    pub audio: AudioConfig,
    /// Subtitle preferences.
    pub subtitles: SubtitleConfig,
    /// Processing options.
    pub processing: ProcessingConfig,
}

impl Default for AudioConfig {
    /// English, Japanese and undetermined.
    fn default() -> (config: Self)
        ensures
            views(config.keep_languages@) == seq!["eng"@, "jpn"@, "und"@],
    {
        let mut keep_languages: Vec<String> = Vec::new();
        keep_languages.push("eng".to_string());
        keep_languages.push("jpn".to_string());
        keep_languages.push("und".to_string());
        assert(views(keep_languages@) =~= seq!["eng"@, "jpn"@, "und"@]);
        AudioConfig { keep_languages }
    }
}

impl Default for SubtitleConfig {
    /// English and Spanish, whatever the title.
    fn default() -> (config: Self)
        ensures
            config.keep_languages@.len() == 2,
            config.keep_languages@[0].language@ == "eng"@,
            config.keep_languages@[0].title_prefix is None,
            config.keep_languages@[1].language@ == "spa"@,
            config.keep_languages@[1].title_prefix is None,
    {
        let mut keep_languages: Vec<SubtitlePreference> = Vec::new();
        keep_languages.push(SubtitlePreference { language: "eng".to_string(), title_prefix: None });
        keep_languages.push(SubtitlePreference { language: "spa".to_string(), title_prefix: None });
        SubtitleConfig { keep_languages }
    }
}

impl Default for ProcessingConfig {
    /// Real work, no dry run.
    fn default() -> (config: Self)
        ensures
            !config.dry_run,
    {
        ProcessingConfig { dry_run: false }
    }
}

impl Default for Config {
    /// The defaults of the three parts.
    fn default() -> (config: Self)
        ensures
            views(config.audio.keep_languages@) == seq!["eng"@, "jpn"@, "und"@],
            config.subtitles.keep_languages@.len() == 2,
            config.subtitles.keep_languages@[0].language@ == "eng"@,
            config.subtitles.keep_languages@[0].title_prefix is None,
            config.subtitles.keep_languages@[1].language@ == "spa"@,
            config.subtitles.keep_languages@[1].title_prefix is None,
            !config.processing.dry_run,
    {
        Config {
            audio: AudioConfig::default(),
            subtitles: SubtitleConfig::default(),
            processing: ProcessingConfig::default(),
        }
    }
}

/// A preference is what a text reads as.
pub open spec fn reads_as(text: Seq<char>, pref: SubtitlePreference) -> bool {
    pref.language@ == preference_language(text) && opt_view(pref.title_prefix)
        == preference_title(text)
}

/// The first position at or after `from` of a text without a language, or
/// the number of texts when every text has one.
pub open spec fn first_unreadable(texts: Seq<String>, from: int) -> int
    decreases texts.len() - from,
{
    if from < 0 || from >= texts.len() {
        texts.len() as int
    } else if preference_language(texts[from]@).len() == 0 {
        from
    } else {
        first_unreadable(texts, from + 1)
    }
}

/// `first_unreadable` stays within the texts.
pub proof fn lemma_first_unreadable_in_range(texts: Seq<String>, from: int)
    requires
        0 <= from <= texts.len(),
    ensures
        from <= first_unreadable(texts, from) <= texts.len(),
    decreases texts.len() - from,
{
    if from < texts.len() && preference_language(texts[from]@).len() != 0 {
        lemma_first_unreadable_in_range(texts, from + 1);
    }
}

/// The preferences are what the texts read as, one by one.
pub open spec fn read_as(texts: Seq<String>, prefs: Seq<SubtitlePreference>) -> bool {
    prefs.len() == texts.len() && forall|i: int|
        0 <= i < texts.len() ==> reads_as((#[trigger] texts[i])@, prefs[i])
}

/// The text of the error for subtitle preferences that cannot be read.
pub open spec fn unreadable_preference_message(text: Seq<char>) -> Seq<char> {
    "Failed to parse subtitle language preferences from CLI arguments: "@ + config_message(
        "Subtitle language preference"@,
        empty_language_reason(text),
    )
}

/// Reads a list of preference texts; the first text without a language
/// stops the reading with its error.
pub fn parse_preferences(texts: &Vec<String>) -> (parsed: Result<
    Vec<SubtitlePreference>,
    SlimmerError,
>)
    ensures
        0 <= first_unreadable(texts@, 0) <= texts@.len(),
        parsed is Ok <==> first_unreadable(texts@, 0) == texts@.len(),
        parsed matches Ok(prefs) ==> read_as(texts@, prefs@),
        parsed matches Err(e) ==> e.kind == ErrorKind::Config && e.message@ == config_message(
            "Subtitle language preference"@,
            empty_language_reason(texts@[first_unreadable(texts@, 0)]@),
        ),
{
    let mut prefs: Vec<SubtitlePreference> = Vec::new();
    let mut i: usize = 0;
    proof {
        lemma_first_unreadable_in_range(texts@, 0);
    }
    while i < texts.len()
        invariant
            i <= texts.len(),
            prefs.len() == i,
            first_unreadable(texts@, 0) == first_unreadable(texts@, i as int),
            forall|k: int| 0 <= k < i ==> reads_as((#[trigger] texts@[k])@, prefs@[k]),
        decreases texts.len() - i,
    {
        match SubtitlePreference::parse(texts[i].as_str()) {
            Ok(p) => {
                prefs.push(p);
            },
            Err(e) => {
                return Err(e);
            },
        }
        i += 1;
    }
    Ok(prefs)
}

impl Config {
    /// Lets the command line override the settings: audio languages and
    /// subtitle preferences replace those of the settings where they are
    /// given, and a dry run can be switched on, never off.
    ///
    /// Subtitle preferences that cannot be read are an error; the audio
    /// languages are replaced by then, the rest is as it was.
    pub fn merge_cli_args(
        &mut self,
        audio_languages: Option<Vec<String>>,
        subtitle_languages: Option<Vec<String>>,
        dry_run: bool,
    ) -> (merged: Result<(), SlimmerError>)
        ensures
            match audio_languages {
                Some(langs) => final(self).audio.keep_languages@ == langs@,
                None => final(self).audio == old(self).audio,
            },
            merged is Err <==> (subtitle_languages matches Some(texts) && first_unreadable(
                texts@,
                0,
            ) < texts@.len()),
            merged is Ok ==> final(self).processing.dry_run == (old(self).processing.dry_run
                || dry_run) && match subtitle_languages {
                Some(texts) => read_as(texts@, final(self).subtitles.keep_languages@),
                None => final(self).subtitles == old(self).subtitles,
            },
            merged is Err ==> final(self).subtitles == old(self).subtitles,
            merged is Err ==> final(self).processing == old(self).processing,
            merged matches Err(e) ==> e.kind == ErrorKind::Config && (
            subtitle_languages matches Some(texts) && e.message@ == unreadable_preference_message(
                texts@[first_unreadable(texts@, 0)]@,
            )),
    {
        if let Some(langs) = audio_languages {
            self.audio.keep_languages = langs;
        }
        if let Some(texts) = subtitle_languages {
            match parse_preferences(&texts) {
                Ok(prefs) => {
                    self.subtitles.keep_languages = prefs;
                },
                Err(e) => {
                    let mut message =
                        "Failed to parse subtitle language preferences from CLI arguments: ".to_string();
                    message.append(e.message.as_str());
                    return Err(SlimmerError { kind: e.kind, message });
                },
            }
        }
        if dry_run {
            self.processing.dry_run = true;
        }
        self.validate()
    }

    /// Checks the settings. Every combination of preferences is in order:
    /// video and attachments are kept whatever the languages are.
    pub fn validate(&self) -> (checked: Result<(), SlimmerError>)
        ensures
            checked is Ok,
    {
        Ok(())
    }
}

} // verus!
