//! Which files are container files, and which pairs of directories are safe.

use vstd::prelude::*;
use crate::error::{
    file_validation_error,
    file_validation_message,
    path_safety_error,
    path_safety_message,
    ErrorKind,
    SlimmerError,
};
use crate::models::path::{extension, extension_of, last_name, path_text, FilePath};
use crate::text::{lowercase_of, text_eq, to_lowercase};

verus! {

/// What the file system says of a path.
#[derive(Debug, Clone, Copy, PartialEq, Eq, Structural)]
pub struct FileFacts {
    /// Something is there.
    pub exists: bool,
    /// It is a regular file.
    pub is_file: bool,
    /// It can be opened for reading.
    pub readable: bool,
}

/// How a source and a target may be in each other's way.
#[derive(Debug, Clone, Copy, PartialEq, Eq, Structural)]
pub enum PathConflict {
    /// Source and target are the same place.
    Identical,
    /// The target lies inside the source.
    TargetInsideSource,
    /// The source lies inside the target.
    SourceInsideTarget,
}

/// A lowercase extension of a Matroska container.
pub open spec fn is_container_extension(lowered: Seq<char>) -> bool {
    lowered == "mkv"@ || lowered == "mka"@ || lowered == "mks"@
}

/// The lowercase extension of the file a path ends in, if it has one.
pub open spec fn lowered_extension(path: Seq<Seq<char>>) -> Option<Seq<char>> {
    match last_name(path) {
        Some(name) => match extension_of(name) {
            Some(ext) => Some(lowercase_of(ext)),
            None => None,
        },
        None => None,
    }
}

/// A path ends in a file name with a container extension.
pub open spec fn has_container_extension(path: Seq<Seq<char>>) -> bool {
    lowered_extension(path) matches Some(ext) && is_container_extension(ext)
}

/// The four bytes that every EBML file begins with.
pub open spec fn ebml_magic() -> Seq<u8> {
    seq![0x1au8, 0x45u8, 0xdfu8, 0xa3u8]
}

/// The beginning of a file carries the EBML signature.
pub open spec fn has_ebml_signature(header: Seq<u8>) -> bool {
    header.len() >= 4 && header.subrange(0, 4) == ebml_magic()
}

/// Whether a lowercase extension is one of `mkv`, `mka` and `mks`.
pub fn recognized_extension(lowered: &str) -> (r: bool)
    ensures
        r == is_container_extension(lowered@),
{
    text_eq(lowered, "mkv") || text_eq(lowered, "mka") || text_eq(lowered, "mks")
}

/// The extension of the file a path ends in, in lowercase.
pub fn lowercase_extension(path: &FilePath) -> (ext: Option<String>)
    ensures
        match ext {
            Some(e) => lowered_extension(path@) == Some(e@),
            None => lowered_extension(path@) is None,
        },
{
    match path.file_name() {
        Some(name) => match extension(name.as_str()) {
            Some(ext) => Some(to_lowercase(ext.as_str())),
            None => None,
        },
        None => None,
    }
}

/// Whether a path is a container file that can be worked on: a readable
/// regular file with one of the three container extensions.
pub fn is_valid_mkv_file(file_path: &FilePath, facts: &FileFacts) -> (r: bool)
    ensures
        r == (facts.exists && facts.is_file && has_container_extension(file_path@)
            && facts.readable),
{
    if !facts.exists || !facts.is_file {
        return false;
    }
    match lowercase_extension(file_path) {
        Some(ext) => {
            if !recognized_extension(ext.as_str()) {
                return false;
            }
        },
        None => {
            return false;
        },
    }
    facts.readable
}

/// Why a file with a known extension other than the three is refused.
pub open spec fn wrong_extension_reason(lowered: Seq<char>) -> Seq<char> {
    "File has extension '"@ + lowered + "' but expected .mkv, .mka, or .mks"@
}

/// The text of the error that `validate_mkv_file` gives, or `None` for a
/// file that is accepted. The checks are made in this order: the file
/// exists, is a regular file, has a container extension, can be read, and
/// begins with the EBML signature.
pub open spec fn mkv_file_fault(path: Seq<Seq<char>>, facts: FileFacts, header: Seq<u8>) -> Option<
    Seq<char>,
> {
    let shown = path_text(path);
    if !facts.exists {
        Some(file_validation_message(shown, "File not found. Check the path is correct."@))
    } else if !facts.is_file {
        Some(file_validation_message(shown, "Path points to a directory, not a file."@))
    } else if lowered_extension(path) is None {
        Some(
            file_validation_message(
                shown,
                "File has no extension. Expected .mkv, .mka, or .mks file."@,
            ),
        )
    } else if !has_container_extension(path) {
        Some(
            file_validation_message(shown, wrong_extension_reason(lowered_extension(path).unwrap())),
        )
    } else if !facts.readable {
        Some("Cannot read file: "@ + shown)
    } else if header.len() < 4 {
        Some("Cannot read MKV header from: "@ + shown)
    } else if !has_ebml_signature(header) {
        Some("Invalid MKV file format: "@ + shown)
    } else {
        None
    }
}

/// A validation error whose text is a phrase followed by a path.

fn fault(prefix: &str, shown: &str) -> (e: SlimmerError)
    ensures
        e.kind == ErrorKind::Validation,
        e.message@ == prefix@ + shown@,
{
    let mut message = prefix.to_string();
    message.append(shown);
    SlimmerError { kind: ErrorKind::Validation, message }
}

/// Accepts a file only if it exists, is a regular file with a container
/// extension, can be read and begins with the EBML signature. `header`
/// holds the first bytes of the file, as many as could be read of the four
/// that are needed.
pub fn validate_mkv_file(file_path: &FilePath, facts: &FileFacts, header: &Vec<u8>) -> (checked:
    Result<(), SlimmerError>)
    ensures
        checked is Ok <==> facts.exists && facts.is_file && has_container_extension(file_path@)
            && facts.readable && has_ebml_signature(header@),
        checked is Ok <==> mkv_file_fault(file_path@, *facts, header@) is None,
        checked matches Err(e) ==> e.kind == ErrorKind::Validation && Some(e.message@)
            == mkv_file_fault(file_path@, *facts, header@),
{
    let shown = file_path.to_text();
    if !facts.exists {
        return Err(
            file_validation_error(shown.as_str(), "File not found. Check the path is correct."),
        );
    }
    if !facts.is_file {
        return Err(
            file_validation_error(shown.as_str(), "Path points to a directory, not a file."),
        );
    }
    match lowercase_extension(file_path) {
        Some(ext) => {
            if !recognized_extension(ext.as_str()) {
                let mut reason = "File has extension '".to_string();
                reason.append(ext.as_str());
                reason.append("' but expected .mkv, .mka, or .mks");
                return Err(file_validation_error(shown.as_str(), reason.as_str()));
            }
        },
        None => {
            return Err(
                file_validation_error(
                    shown.as_str(),
                    "File has no extension. Expected .mkv, .mka, or .mks file.",
                ),
            );
        },
    }
    if !facts.readable {
        return Err(fault("Cannot read file: ", shown.as_str()));
    }
    if header.len() < 4 {
        return Err(fault("Cannot read MKV header from: ", shown.as_str()));
    }
    if header[0] != 0x1a || header[1] != 0x45 || header[2] != 0xdf || header[3] != 0xa3 {
        assert(header@.subrange(0, 4)[0] == header@[0]);
        assert(header@.subrange(0, 4)[1] == header@[1]);
        assert(header@.subrange(0, 4)[2] == header@[2]);
        assert(header@.subrange(0, 4)[3] == header@[3]);
        return Err(fault("Invalid MKV file format: ", shown.as_str()));
    }
    assert(header@.subrange(0, 4) =~= ebml_magic());
    Ok(())
}

/// How the canonical paths of a source and a target conflict, if they do:
/// they are the same, or one lies inside the other.
pub open spec fn conflict_of(source: Seq<Seq<char>>, target: Seq<Seq<char>>) -> Option<
    PathConflict,
> {
    if source == target {
        Some(PathConflict::Identical)
    } else if source.is_prefix_of(target) {
        Some(PathConflict::TargetInsideSource)
    } else if target.is_prefix_of(source) {
        Some(PathConflict::SourceInsideTarget)
    } else {
        None
    }
}

/// What is wrong with a pair of paths that conflict.
pub open spec fn conflict_issue(conflict: PathConflict) -> Seq<char> {
    match conflict {
        PathConflict::Identical => "Source and target paths are identical - this would overwrite your original files"@,
        PathConflict::TargetInsideSource => "Target is inside source directory - this creates infinite loops in recursive mode"@,
        PathConflict::SourceInsideTarget => "Source is inside target directory - this would overwrite original files"@,
    }
}

/// Finds out whether a source and a target, both given by their canonical
/// paths, are in each other's way.
pub fn path_conflict(source: &FilePath, target: &FilePath) -> (conflict: Option<PathConflict>)
    ensures
        conflict == conflict_of(source@, target@),
{
    if source.same_as(target) {
        Some(PathConflict::Identical)
    } else if target.starts_with(source) {
        Some(PathConflict::TargetInsideSource)
    } else if source.starts_with(target) {
        Some(PathConflict::SourceInsideTarget)
    } else {
        None
    }
}

/// The canonical path of a target that does not exist yet: the canonical
/// path of its parent directory with the name of the target.
pub fn missing_target_path(parent_canonical: &FilePath, target: &FilePath) -> (path: FilePath)
    ensures
        path@ == match last_name(target@) {
            Some(name) => parent_canonical@.push(name),
            None => parent_canonical@,
        },
{
    match target.file_name() {
        Some(name) => parent_canonical.child(name.as_str()),
        None => parent_canonical.duplicate(),
    }
}

/// Refuses a source and a target that are the same directory or lie inside
/// each other. Both are given by their canonical paths.
pub fn validate_source_target_paths(source_path: &FilePath, target_path: &FilePath) -> (checked:
    Result<(), SlimmerError>)
    ensures
        checked is Ok <==> conflict_of(source_path@, target_path@) is None,
        checked is Err <==> source_path@ == target_path@ || source_path@.is_prefix_of(
            target_path@,
        ) || target_path@.is_prefix_of(source_path@),
        checked matches Err(e) ==> e.kind == ErrorKind::Validation && e.message@
            == path_safety_message(
            path_text(source_path@),
            path_text(target_path@),
            conflict_issue(conflict_of(source_path@, target_path@).unwrap()),
        ),
{
    match path_conflict(source_path, target_path) {
        None => Ok(()),
        Some(conflict) => {
            let issue = match conflict {
                PathConflict::Identical => "Source and target paths are identical - this would overwrite your original files",
                PathConflict::TargetInsideSource => "Target is inside source directory - this creates infinite loops in recursive mode",
                PathConflict::SourceInsideTarget => "Source is inside target directory - this would overwrite original files",
            };
            let source = source_path.to_text();
            let target = target_path.to_text();
            Err(path_safety_error(source.as_str(), target.as_str(), issue))
        },
    }
}

} // verus!
