//! Which languages to keep.

use vstd::prelude::*;
use crate::error::{config_error, config_message, ErrorKind, SlimmerError};
use crate::text::{split_at_first, split_once, trim, trimmed};

verus! {

/// A subtitle language to keep, and optionally how the title of the track
/// has to begin.
#[derive(Debug, Clone)]
pub struct SubtitlePreference {
    /// Language code. Never empty in a preference that `parse` returned.
    pub language: String,
    /// Required beginning of the title, compared without regard to case.
    pub title_prefix: Option<String>,
}

/// The language part of a preference text: what stands before the first
/// comma, or the whole text, without surrounding whitespace.
pub open spec fn preference_language(text: Seq<char>) -> Seq<char> {
    match split_at_first(text, ',') {
        Some((language, _)) => trimmed(language),
        None => trimmed(text),
    }
}

/// The title part of a preference text: what follows the first comma,
/// without surrounding whitespace, if anything is left of it.
pub open spec fn preference_title(text: Seq<char>) -> Option<Seq<char>> {
    match split_at_first(text, ',') {
        Some((_, title)) => if trimmed(title).len() == 0 {
            None
        } else {
            Some(trimmed(title))
        },
        None => None,
    }
}

impl SubtitlePreference {
    /// Builds a preference from a language and a title beginning that were
    /// already cut out of the text and trimmed.
    ///
    /// An empty language is refused; an empty title beginning means that no
    /// title is required.
    pub fn from_parts(language: String, title: Option<String>) -> (pref: Option<Self>)
        ensures
            pref is None <==> language@.len() == 0,
            pref matches Some(p) ==> p.language@ == language@ && match title {
                Some(t) => if t@.len() == 0 {
                    p.title_prefix is None
                } else {
                    p.title_prefix matches Some(q) && q@ == t@
                },
                None => p.title_prefix is None,
            },
    {
        if language.as_str().is_empty() {
            return None;
        }
        let title_prefix = match title {
            Some(t) => if t.as_str().is_empty() {
                None
            } else {
                Some(t)
            },
            None => None,
        };
        Some(Self { language, title_prefix })
    }

    /// Reads a preference from `"language"` or `"language, title prefix"`.
    ///
    /// The text is cut at the first comma and both parts are trimmed. The
    /// result is an error exactly when the language part is empty.
    pub fn parse(s: &str) -> (parsed: Result<Self, SlimmerError>)
        ensures
            parsed is Err <==> preference_language(s@).len() == 0,
            parsed matches Ok(p) ==> p.language@ == preference_language(s@) && match preference_title(
                s@,
            ) {
                Some(t) => p.title_prefix matches Some(q) && q@ == t,
                None => p.title_prefix is None,
            },
            parsed matches Err(e) ==> e.kind == ErrorKind::Config && e.message@ == config_message(
                "Subtitle language preference"@,
                empty_language_reason(s@),
            ),
    {
        let (language, title) = match split_once(s, ',') {
            Some((head, tail)) => (trim(head.as_str()), Some(trim(tail.as_str()))),
            None => (trim(s), None),
        };
        match Self::from_parts(language, title) {
            Some(p) => Ok(p),
            None => {
                let mut reason = "Language code cannot be empty in preference '".to_string();
                reason.append(s);
                reason.append("'. Use format 'language' or 'language, title prefix'");
                Err(config_error("Subtitle language preference", reason.as_str()))
            },
        }
    }
}

/// Why a preference text without a language is refused.
pub open spec fn empty_language_reason(text: Seq<char>) -> Seq<char> {
    "Language code cannot be empty in preference '"@ + text
        + "'. Use format 'language' or 'language, title prefix'"@
}

/// The audio languages to keep, in order of preference.
#[derive(Debug, Clone)]
pub struct AudioConfig {
    /// Language codes, the most wanted first.
    pub keep_languages: Vec<String>,
}

/// The subtitle languages to keep, in order of preference.
#[derive(Debug, Clone)]
pub struct SubtitleConfig {
    /// Preferences, the most wanted first.
    pub keep_languages: Vec<SubtitlePreference>,
}

/// How the work is carried out.
#[derive(Debug, Clone)]
pub struct ProcessingConfig {
    /// Say what would be done, and change nothing.
    pub dry_run: bool,
}

} // verus!
