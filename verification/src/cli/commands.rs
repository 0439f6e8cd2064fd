//! From arguments to settings: what kind of target was named, and whether
//! input and target go together.

use vstd::prelude::*;
use crate::config::Config;
use crate::error::{file_validation_message, ErrorKind, SlimmerError};
use crate::models::path::{
    extension,
    extension_of,
    last_name,
    parent_of,
    path_text,
    FilePath,
};
use crate::models::sonarr::SonarrContext;

verus! {

/// Whether the target is a file or a directory.
#[derive(Debug, Clone, Copy, PartialEq, Eq, Structural)]
pub enum TargetType {
    /// The result is written to this file.
    File,
    /// The result is written into this directory.
    Directory,
}

/// What the file system says of a path.
#[derive(Debug, Clone, Copy, PartialEq, Eq, Structural)]
pub struct PathFacts {
    /// Something is there.
    pub exists: bool,
    /// It is a regular file.
    pub is_file: bool,
    /// It is a directory.
    pub is_dir: bool,
}

/// The settings that the work starts from.
#[derive(Debug, Clone)]
pub struct ProcessingSettings {
    /// The file or directory to work on.
    pub input_path: FilePath,
    /// The file or directory for the result.
    pub target_path: FilePath,
    /// Whether the target is a file or a directory.
    pub target_type: TargetType,
    /// Read subdirectories too.
    pub recursive: bool,
    /// The glob pattern that a file has to match.
    pub filter_pattern: Option<String>,
    /// The settings.
    pub config: Config,
    /// What Sonarr said, where it called.
    pub sonarr_context: Option<SonarrContext>,
    /// The input is a regular file.
    pub input_is_file: bool,
    /// The input is a directory.
    pub input_is_dir: bool,
}

/// The kind of a target: what is there, where something is; and else a file
/// where the path ends in a name with an extension, a directory where it
/// does not.
pub open spec fn target_type_of(target: Seq<Seq<char>>, exists: bool, is_file: bool) -> TargetType {
    if exists {
        if is_file {
            TargetType::File
        } else {
            TargetType::Directory
        }
    } else if last_name(target) matches Some(name) && extension_of(name) is Some {
        TargetType::File
    } else {
        TargetType::Directory
    }
}

/// Finds out whether a target path names a file or a directory.
pub fn determine_target_type(target_path: &FilePath, exists: bool, is_file: bool) -> (kind:
    TargetType)
    ensures
        kind == target_type_of(target_path@, exists, is_file),
{
    if exists {
        if is_file {
            TargetType::File
        } else {
            TargetType::Directory
        }
    } else {
        match target_path.file_name() {
            Some(name) => match extension(name.as_str()) {
                Some(_) => TargetType::File,
                None => TargetType::Directory,
            },
            None => TargetType::Directory,
        }
    }
}

/// What is wrong with an input and a target.
#[derive(Debug, Clone, Copy, PartialEq, Eq, Structural)]
pub enum CombinationFault {
    /// The input is neither a file nor a directory.
    MissingInput,
    /// The input is a directory and the target a file.
    DirectoryToFile,
    /// The target file does not exist, nor does its directory.
    MissingTargetDirectory,
}

/// The fault in a combination of input and target, if there is one.
/// `parent_exists` says whether the directory that the target lies in
/// exists; it counts only for a target that lies in one.
pub open spec fn combination_fault(
    input: PathFacts,
    target: Seq<Seq<char>>,
    target_type: TargetType,
    target_exists: bool,
    parent_exists: bool,
) -> Option<CombinationFault> {
    if !input.is_file && !input.is_dir {
        Some(CombinationFault::MissingInput)
    } else if input.is_dir && target_type == TargetType::File {
        Some(CombinationFault::DirectoryToFile)
    } else if input.is_file && target_type == TargetType::File && !target_exists && parent_of(
        target,
    ) is Some && !parent_exists {
        Some(CombinationFault::MissingTargetDirectory)
    } else {
        None
    }
}

/// The text of the error for a fault.
pub open spec fn combination_message(
    fault: CombinationFault,
    input: Seq<Seq<char>>,
    target: Seq<Seq<char>>,
) -> Seq<char> {
    match fault {
        CombinationFault::MissingInput => file_validation_message(
            path_text(input),
            "Input path does not exist. Check that the file or directory is accessible."@,
        ),
        CombinationFault::DirectoryToFile => "Cannot process directory to single file.\nInput: "@
            + path_text(input) + " (directory)\nTarget: "@ + path_text(target)
            + " (file)\n\nUse a target directory instead."@,
        CombinationFault::MissingTargetDirectory => "Target directory does not exist: "@
            + path_text(parent_of(target).unwrap())
            + "\nPlease create the directory first or specify a different target path."@,
    }
}

/// Checks that input and target go together: a file goes to a file or into
/// a directory, a directory into a directory. A target file that does not
/// exist yet needs an existing directory to lie in.
pub fn check_combination(
    input_path: &FilePath,
    input: PathFacts,
    target_path: &FilePath,
    target_type: TargetType,
    target_exists: bool,
    parent_exists: bool,
) -> (checked: Result<(), SlimmerError>)
    requires
        !(input.is_file && input.is_dir),
    ensures
        checked is Ok <==> combination_fault(
            input,
            target_path@,
            target_type,
            target_exists,
            parent_exists,
        ) is None,
        checked matches Err(e) ==> e.kind == ErrorKind::Validation && e.message@
            == combination_message(
            combination_fault(
                input,
                target_path@,
                target_type,
                target_exists,
                parent_exists,
            ).unwrap(),
            input_path@,
            target_path@,
        ),
{
    if !input.is_file && !input.is_dir {
        let shown = input_path.to_text();
        return Err(
            crate::error::file_validation_error(
                shown.as_str(),
                "Input path does not exist. Check that the file or directory is accessible.",
            ),
        );
    }
    match target_type {
        TargetType::Directory => Ok(()),
        TargetType::File => {
            if input.is_dir {
                let mut message = "Cannot process directory to single file.\nInput: ".to_string();
                let shown_input = input_path.to_text();
                let shown_target = target_path.to_text();
                message.append(shown_input.as_str());
                message.append(" (directory)\nTarget: ");
                message.append(shown_target.as_str());
                message.append(" (file)\n\nUse a target directory instead.");
                return Err(SlimmerError { kind: ErrorKind::Validation, message });
            }
            if !target_exists && !parent_exists {
                match target_path.parent() {
                    Some(parent) => {
                        let shown = parent.to_text();
                        let mut message = "Target directory does not exist: ".to_string();
                        message.append(shown.as_str());
                        message.append(
                            "\nPlease create the directory first or specify a different target path.",
                        );
                        return Err(SlimmerError { kind: ErrorKind::Validation, message });
                    },
                    None => {},
                }
            }
            Ok(())
        },
    }
}

/// Where the result of a single file goes: the directory, and the name of
/// the result where the target names a file.
pub open spec fn single_file_target(target: Seq<Seq<char>>, target_type: TargetType) -> Option<
    (Seq<Seq<char>>, Option<Seq<char>>),
> {
    match target_type {
        TargetType::Directory => Some((target, None)),
        TargetType::File => match (parent_of(target), last_name(target)) {
            (Some(dir), Some(name)) => Some((dir, Some(name))),
            _ => None,
        },
    }
}

/// The directory for the result of a single file and, where the target
/// names a file, the name of the result. A target file without a directory
/// to lie in or without a name is an error.
pub fn resolve_single_target(target_path: &FilePath, target_type: TargetType) -> (resolved:
    Result<(FilePath, Option<String>), SlimmerError>)
    ensures
        resolved is Ok <==> single_file_target(target_path@, target_type) is Some,
        resolved matches Ok(pair) ==> single_file_target(target_path@, target_type) == Some(
            (
                pair.0@,
                match pair.1 {
                    Some(name) => Some(name@),
                    None => None,
                },
            ),
        ),
        resolved matches Err(e) ==> e.kind == ErrorKind::Validation && e.message@ == if parent_of(
            target_path@,
        ) is None {
            "Could not determine parent directory from target file path"@
        } else {
            "Could not extract filename from target path"@
        },
{
    match target_type {
        TargetType::Directory => Ok((target_path.duplicate(), None)),
        TargetType::File => {
            let dir = match target_path.parent() {
                Some(d) => d,
                None => {
                    return Err(
                        SlimmerError {
                            kind: ErrorKind::Validation,
                            message: "Could not determine parent directory from target file path".to_string(),
                        },
                    );
                },
            };
            match target_path.file_name() {
                Some(name) => Ok((dir, Some(name))),
                None => Err(
                    SlimmerError {
                        kind: ErrorKind::Validation,
                        message: "Could not extract filename from target path".to_string(),
                    },
                ),
            }
        },
    }
}

} // verus!
