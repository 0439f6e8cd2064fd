//! The errors of the library and the texts they carry.

use vstd::prelude::*;
use crate::text::{contains, occurs_in};

verus! {

/// What went wrong, by the part of the work that failed.
#[derive(Debug, Clone, Copy, PartialEq, Eq, Hash, Structural)]
pub enum ErrorKind {
    /// An input file, a preference text or a pair of paths was refused.
    Validation,
    /// The settings could not be read.
    Config,
    /// A directory could not be used.
    Directory,
    /// A tool this program needs is not installed.
    Dependency,
    /// The merge tool ran and failed.
    MergeExecution,
    /// A file could not be moved, copied or linked.
    Transfer,
    /// Work on one file failed for another reason.
    Processing,
}

/// An error with the text that is shown to the user.
#[derive(Debug, Clone)]
pub struct SlimmerError {
    /// The part of the work that failed.
    pub kind: ErrorKind,
    /// The text for the user.
    pub message: String,
}

/// The text of a file validation error.
pub open spec fn file_validation_message(path: Seq<char>, reason: Seq<char>) -> Seq<char> {
    "❌ File validation failed\n   File: "@ + path + "\n   Issue: "@ + reason
}

/// The text of a directory error.
pub open spec fn directory_message(
    path: Seq<char>,
    operation: Seq<char>,
    reason: Seq<char>,
) -> Seq<char> {
    "❌ Directory operation failed\n   Path: "@ + path + "\n   Operation: "@ + operation
        + "\n   Issue: "@ + reason
}

/// The text of a configuration error.
pub open spec fn config_message(context: Seq<char>, reason: Seq<char>) -> Seq<char> {
    "❌ Configuration error\n   Context: "@ + context + "\n   Issue: "@ + reason
}

/// The text of a processing error.
pub open spec fn processing_message(
    file: Seq<char>,
    stage: Seq<char>,
    reason: Seq<char>,
) -> Seq<char> {
    "❌ Processing failed\n   File: "@ + file + "\n   Stage: "@ + stage + "\n   Issue: "@
        + reason
}

/// The text of a dependency error.
pub open spec fn dependency_message(tool: Seq<char>, suggestion: Seq<char>) -> Seq<char> {
    "❌ Missing dependency: "@ + tool + "\n   Suggestion: "@ + suggestion
}

/// The text of a path safety error.
pub open spec fn path_safety_message(
    source: Seq<char>,
    target: Seq<char>,
    issue: Seq<char>,
) -> Seq<char> {
    "❌ Unsafe path configuration detected\n   Source: "@ + source + "\n   Target: "@ + target
        + "\n   Issue: "@ + issue
        + "\n   💡 Choose different source and target directories to avoid conflicts"@
}

/// An error for a file that was refused.
pub fn file_validation_error(path: &str, reason: &str) -> (e: SlimmerError)
    ensures
        e.kind == ErrorKind::Validation,
        e.message@ == file_validation_message(path@, reason@),
{
    let mut message = "❌ File validation failed\n   File: ".to_string();
    message.append(path);
    message.append("\n   Issue: ");
    message.append(reason);
    SlimmerError { kind: ErrorKind::Validation, message }
}

/// An error for a directory that could not be used.
pub fn directory_error(path: &str, operation: &str, reason: &str) -> (e: SlimmerError)
    ensures
        e.kind == ErrorKind::Directory,
        e.message@ == directory_message(path@, operation@, reason@),
{
    let mut message = "❌ Directory operation failed\n   Path: ".to_string();
    message.append(path);
    message.append("\n   Operation: ");
    message.append(operation);
    message.append("\n   Issue: ");
    message.append(reason);
    SlimmerError { kind: ErrorKind::Directory, message }
}

/// An error for settings that could not be used.
pub fn config_error(context: &str, reason: &str) -> (e: SlimmerError)
    ensures
        e.kind == ErrorKind::Config,
        e.message@ == config_message(context@, reason@),
{
    let mut message = "❌ Configuration error\n   Context: ".to_string();
    message.append(context);
    message.append("\n   Issue: ");
    message.append(reason);
    SlimmerError { kind: ErrorKind::Config, message }
}

/// An error for a file on which the work failed.
pub fn processing_error(file: &str, stage: &str, reason: &str) -> (e: SlimmerError)
    ensures
        e.kind == ErrorKind::Processing,
        e.message@ == processing_message(file@, stage@, reason@),
{
    let mut message = "❌ Processing failed\n   File: ".to_string();
    message.append(file);
    message.append("\n   Stage: ");
    message.append(stage);
    message.append("\n   Issue: ");
    message.append(reason);
    SlimmerError { kind: ErrorKind::Processing, message }
}

/// An error for a tool that is not installed.
pub fn dependency_error(tool: &str, suggestion: &str) -> (e: SlimmerError)
    ensures
        e.kind == ErrorKind::Dependency,
        e.message@ == dependency_message(tool@, suggestion@),
{
    let mut message = "❌ Missing dependency: ".to_string();
    message.append(tool);
    message.append("\n   Suggestion: ");
    message.append(suggestion);
    SlimmerError { kind: ErrorKind::Dependency, message }
}

/// An error for a source and a target that must not be used together.
pub fn path_safety_error(source: &str, target: &str, issue: &str) -> (e: SlimmerError)
    ensures
        e.kind == ErrorKind::Validation,
        e.message@ == path_safety_message(source@, target@, issue@),
{
    let mut message = "❌ Unsafe path configuration detected\n   Source: ".to_string();
    message.append(source);
    message.append("\n   Target: ");
    message.append(target);
    message.append("\n   Issue: ");
    message.append(issue);
    message.append("\n   💡 Choose different source and target directories to avoid conflicts");
    SlimmerError { kind: ErrorKind::Validation, message }
}

/// The advice that goes with an error text, by the first of five known
/// phrases that occurs in it.
pub open spec fn suggestion_for(error: Seq<char>) -> Option<Seq<char>> {
    if occurs_in("Permission denied"@, error) {
        Some("💡 Try running with appropriate permissions or check file ownership"@)
    } else if occurs_in("No space left"@, error) {
        Some("💡 Free up disk space or choose a different target directory"@)
    } else if occurs_in("not found"@, error) || occurs_in("No such file"@, error) {
        Some("💡 Check that the file path is correct and the file exists"@)
    } else if occurs_in("mkvmerge"@, error) {
        Some("💡 Make sure mkvtoolnix is installed and mkvmerge is in your PATH"@)
    } else if occurs_in("ffprobe"@, error) {
        Some("💡 Install ffmpeg to get detailed stream information"@)
    } else {
        None
    }
}

/// Advice for the common causes of failure, found by what the error text
/// mentions.
pub fn suggest_solution(error: &str) -> (advice: Option<&'static str>)
    ensures
        match advice {
            Some(a) => suggestion_for(error@) == Some(a@),
            None => suggestion_for(error@) is None,
        },
{
    if contains(error, "Permission denied") {
        Some("💡 Try running with appropriate permissions or check file ownership")
    } else if contains(error, "No space left") {
        Some("💡 Free up disk space or choose a different target directory")
    } else if contains(error, "not found") || contains(error, "No such file") {
        Some("💡 Check that the file path is correct and the file exists")
    } else if contains(error, "mkvmerge") {
        Some("💡 Make sure mkvtoolnix is installed and mkvmerge is in your PATH")
    } else if contains(error, "ffprobe") {
        Some("💡 Install ffmpeg to get detailed stream information")
    } else {
        None
    }
}

/// The text of an error after `enhance_error` has added the operation and,
/// where there is one, the advice.
pub open spec fn enhanced_message(operation: Seq<char>, details: Seq<char>) -> Seq<char> {
    let head = "❌ "@ + operation + "\n   Details: "@ + details;
    match suggestion_for(details) {
        Some(advice) => head + "\n   "@ + advice,
        None => head,
    }
}

/// Puts the failed operation in front of an error's text and the advice of
/// `suggest_solution` behind it. A success is handed back as it is.
pub fn enhance_error(result: Result<(), SlimmerError>, operation: &str) -> (enhanced: Result<
    (),
    SlimmerError,
>)
    ensures
        result is Ok ==> enhanced is Ok,
        result matches Err(e) ==> enhanced matches Err(f) && f.kind == e.kind && f.message@
            == enhanced_message(operation@, e.message@),
{
    match result {
        Ok(()) => Ok(()),
        Err(e) => {
            let mut message = "❌ ".to_string();
            message.append(operation);
            message.append("\n   Details: ");
            message.append(e.message.as_str());
            match suggest_solution(e.message.as_str()) {
                Some(advice) => {
                    message.append("\n   ");
                    message.append(advice);
                },
                None => {},
            }
            Err(SlimmerError { kind: e.kind, message })
        },
    }
}

} // verus!
