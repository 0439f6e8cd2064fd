//! Moving a file that needs no remux: which file operation to try, and what
//! to do when one fails.
//!
//! The operations themselves are the caller's. This module says which
//! operation comes first for a transfer mode, and, for every stage and every
//! result of the operation just tried, what comes next.

use vstd::prelude::*;
use crate::error::{ErrorKind, SlimmerError};
use crate::text::text_eq;

verus! {

/// How a file is to be brought to its target.
#[derive(Debug, Clone, Copy, PartialEq, Eq, Structural)]
pub enum TransferMode {
    /// Rename; copy and delete where the target is on another device.
    Move,
    /// Copy, and leave the source alone.
    Copy,
    /// Hard link, or fail.
    HardLink,
    /// Hard link, and copy where that fails.
    HardLinkOrCopy,
    /// A mode this program does not know; treated as `HardLinkOrCopy`.
    Unrecognized,
}

/// A file operation.
#[derive(Debug, Clone, Copy, PartialEq, Eq, Structural)]
pub enum TransferAction {
    /// Rename the source to the target.
    Rename,
    /// Copy the source to the target.
    Copy,
    /// Make the target a hard link to the source.
    HardLink,
    /// Delete the source.
    RemoveSource,
}

/// How the operation just tried ended.
#[derive(Debug, Clone, Copy, PartialEq, Eq, Structural)]
pub enum OperationResult {
    /// It was carried out.
    Succeeded,
    /// It failed because source and target are on different devices.
    CrossesDevices,
    /// It failed for another reason.
    Failed,
}

/// Where a transfer stands: which operation is being tried, and why.
#[derive(Debug, Clone, Copy, PartialEq, Eq, Structural)]
pub enum TransferStage {
    /// Renaming, for a move.
    Renaming,
    /// Copying, after a rename across devices.
    CopyingAcrossDevices,
    /// Deleting the source, after that copy.
    RemovingSource,
    /// Copying, because a copy was asked for.
    Copying,
    /// Hard linking, because only a hard link will do.
    Linking,
    /// Hard linking, with a copy to fall back on.
    LinkingFirst,
    /// Copying, after the hard link failed.
    CopyingInstead,
}

/// The way by which a file reached its target.
#[derive(Debug, Clone, Copy, PartialEq, Eq, Structural)]
pub enum TransferStrategy {
    /// Renamed.
    Moved,
    /// Copied to the other device, source deleted.
    MovedByCopy,
    /// Copied.
    Copied,
    /// Hard linked.
    HardLinked,
}

/// What comes after an operation.
#[derive(Debug, Clone, Copy, PartialEq, Eq, Structural)]
pub enum TransferStep {
    /// Try this operation next; the transfer is then at this stage.
    Attempt(TransferStage, TransferAction),
    /// The file is at its target.
    Done(TransferStrategy),
    /// The transfer failed at this operation.
    Failed(TransferAction),
}

/// The result of a finished transfer, for the report.
#[derive(Debug, Clone, Copy, PartialEq, Eq, Structural)]
pub struct TransferOutcome {
    /// The way that succeeded.
    pub strategy: TransferStrategy,
    /// The size of the file at the target, in bytes.
    pub file_size: u64,
}

/// The mode that a text names, and `HardLinkOrCopy` where there is no text.
pub open spec fn mode_of(text: Option<Seq<char>>) -> TransferMode {
    match text {
        None => TransferMode::HardLinkOrCopy,
        Some(t) => if t == "Move"@ {
            TransferMode::Move
        } else if t == "Copy"@ {
            TransferMode::Copy
        } else if t == "HardLink"@ {
            TransferMode::HardLink
        } else if t == "HardLinkOrCopy"@ {
            TransferMode::HardLinkOrCopy
        } else {
            TransferMode::Unrecognized
        },
    }
}

/// The stage and the operation that a transfer begins with.
pub open spec fn first_attempt(mode: TransferMode) -> (TransferStage, TransferAction) {
    match mode {
        TransferMode::Move => (TransferStage::Renaming, TransferAction::Rename),
        TransferMode::Copy => (TransferStage::Copying, TransferAction::Copy),
        TransferMode::HardLink => (TransferStage::Linking, TransferAction::HardLink),
        TransferMode::HardLinkOrCopy => (TransferStage::LinkingFirst, TransferAction::HardLink),
        TransferMode::Unrecognized => (TransferStage::LinkingFirst, TransferAction::HardLink),
    }
}

/// The operation that is tried at a stage.
pub open spec fn action_at(stage: TransferStage) -> TransferAction {
    match stage {
        TransferStage::Renaming => TransferAction::Rename,
        TransferStage::CopyingAcrossDevices => TransferAction::Copy,
        TransferStage::RemovingSource => TransferAction::RemoveSource,
        TransferStage::Copying => TransferAction::Copy,
        TransferStage::Linking => TransferAction::HardLink,
        TransferStage::LinkingFirst => TransferAction::HardLink,
        TransferStage::CopyingInstead => TransferAction::Copy,
    }
}

/// What comes after the operation of a stage has ended with `result`.
///
/// A move that cannot rename across devices copies and then deletes the
/// source, and has succeeded only when both are done. A hard link with a
/// copy to fall back on copies after any failure. Every other failure ends
/// the transfer.
pub open spec fn step_after(stage: TransferStage, result: OperationResult) -> TransferStep {
    match stage {
        TransferStage::Renaming => match result {
            OperationResult::Succeeded => TransferStep::Done(TransferStrategy::Moved),
            OperationResult::CrossesDevices => TransferStep::Attempt(
                TransferStage::CopyingAcrossDevices,
                TransferAction::Copy,
            ),
            OperationResult::Failed => TransferStep::Failed(TransferAction::Rename),
        },
        TransferStage::CopyingAcrossDevices => match result {
            OperationResult::Succeeded => TransferStep::Attempt(
                TransferStage::RemovingSource,
                TransferAction::RemoveSource,
            ),
            _ => TransferStep::Failed(TransferAction::Copy),
        },
        TransferStage::RemovingSource => match result {
            OperationResult::Succeeded => TransferStep::Done(TransferStrategy::MovedByCopy),
            _ => TransferStep::Failed(TransferAction::RemoveSource),
        },
        TransferStage::Copying => match result {
            OperationResult::Succeeded => TransferStep::Done(TransferStrategy::Copied),
            _ => TransferStep::Failed(TransferAction::Copy),
        },
        TransferStage::Linking => match result {
            OperationResult::Succeeded => TransferStep::Done(TransferStrategy::HardLinked),
            _ => TransferStep::Failed(TransferAction::HardLink),
        },
        TransferStage::LinkingFirst => match result {
            OperationResult::Succeeded => TransferStep::Done(TransferStrategy::HardLinked),
            _ => TransferStep::Attempt(TransferStage::CopyingInstead, TransferAction::Copy),
        },
        TransferStage::CopyingInstead => match result {
            OperationResult::Succeeded => TransferStep::Done(TransferStrategy::Copied),
            _ => TransferStep::Failed(TransferAction::Copy),
        },
    }
}

/// How a transfer ends when its operations end with `results`, one after
/// the other, beginning at `stage`: with the step that finishes it, or with
/// `None` when the results run out before it is finished.
pub open spec fn end_of_transfer(stage: TransferStage, results: Seq<OperationResult>) -> Option<
    TransferStep,
>
    decreases results.len(),
{
    if results.len() == 0 {
        None
    } else {
        match step_after(stage, results[0]) {
            TransferStep::Attempt(next, _) => end_of_transfer(next, results.skip(1)),
            finished => Some(finished),
        }
    }
}

/// A move ends as a move by copy exactly when the rename failed across
/// devices and both the copy and the removal of the source succeeded. A
/// copy that is followed by a failed removal is no success.
pub proof fn lemma_move_by_copy_needs_copy_and_removal(results: Seq<OperationResult>)
    ensures
        end_of_transfer(TransferStage::Renaming, results) == Some(
            TransferStep::Done(TransferStrategy::MovedByCopy),
        ) <==> results.len() >= 3 && results[0] == OperationResult::CrossesDevices && results[1]
            == OperationResult::Succeeded && results[2] == OperationResult::Succeeded,
        results.len() >= 3 && results[0] == OperationResult::CrossesDevices && results[1]
            == OperationResult::Succeeded && results[2] != OperationResult::Succeeded
            ==> end_of_transfer(TransferStage::Renaming, results) == Some(
            TransferStep::Failed(TransferAction::RemoveSource),
        ),
{
    reveal_with_fuel(end_of_transfer, 4);
    if results.len() >= 1 {
        let after_one = results.skip(1);
        if results.len() >= 2 {
            assert(after_one[0] == results[1]);
            let after_two = after_one.skip(1);
            if results.len() >= 3 {
                assert(after_two[0] == results[2]);
            }
        }
    }
}

/// Reads the transfer mode that the pipeline asked for.
pub fn parse_transfer_mode(text: Option<&str>) -> (mode: TransferMode)
    ensures
        mode == mode_of(
            match text {
                Some(t) => Some(t@),
                None => None,
            },
        ),
{
    match text {
        None => TransferMode::HardLinkOrCopy,
        Some(t) => if text_eq(t, "Move") {
            TransferMode::Move
        } else if text_eq(t, "Copy") {
            TransferMode::Copy
        } else if text_eq(t, "HardLink") {
            TransferMode::HardLink
        } else if text_eq(t, "HardLinkOrCopy") {
            TransferMode::HardLinkOrCopy
        } else {
            TransferMode::Unrecognized
        },
    }
}

/// The warning for a mode that is not known.
pub open spec fn unknown_mode_warning(text: Seq<char>) -> Seq<char> {
    "⚠️  Unknown Sonarr transfer mode '"@ + text + "', using default behavior"@
}

/// The warning to show for the mode that was asked for: one for a mode that
/// is not known, none for every other.
pub fn transfer_mode_warning(text: Option<&str>) -> (warning: Option<String>)
    ensures
        match warning {
            Some(w) => text matches Some(t) && mode_of(Some(t@)) == TransferMode::Unrecognized
                && w@ == unknown_mode_warning(t@),
            None => mode_of(
                match text {
                    Some(t) => Some(t@),
                    None => None,
                },
            ) != TransferMode::Unrecognized,
        },
{
    match text {
        None => None,
        Some(t) => match parse_transfer_mode(Some(t)) {
            TransferMode::Unrecognized => {
                let mut warning = "⚠️  Unknown Sonarr transfer mode '".to_string();
                warning.append(t);
                warning.append("', using default behavior");
                Some(warning)
            },
            _ => None,
        },
    }
}

/// The stage and the operation to begin a transfer with.
pub fn begin_transfer(mode: TransferMode) -> (first: (TransferStage, TransferAction))
    ensures
        first == first_attempt(mode),
        first.1 == action_at(first.0),
{
    match mode {
        TransferMode::Move => (TransferStage::Renaming, TransferAction::Rename),
        TransferMode::Copy => (TransferStage::Copying, TransferAction::Copy),
        TransferMode::HardLink => (TransferStage::Linking, TransferAction::HardLink),
        TransferMode::HardLinkOrCopy => (TransferStage::LinkingFirst, TransferAction::HardLink),
        TransferMode::Unrecognized => (TransferStage::LinkingFirst, TransferAction::HardLink),
    }
}

/// What to do after the operation of `stage` has ended with `result`.
pub fn continue_transfer(stage: TransferStage, result: OperationResult) -> (step: TransferStep)
    ensures
        step == step_after(stage, result),
        step matches TransferStep::Attempt(next, action) ==> action == action_at(next),
        step matches TransferStep::Failed(action) ==> action == action_at(stage),
{
    match stage {
        TransferStage::Renaming => match result {
            OperationResult::Succeeded => TransferStep::Done(TransferStrategy::Moved),
            OperationResult::CrossesDevices => TransferStep::Attempt(
                TransferStage::CopyingAcrossDevices,
                TransferAction::Copy,
            ),
            OperationResult::Failed => TransferStep::Failed(TransferAction::Rename),
        },
        TransferStage::CopyingAcrossDevices => match result {
            OperationResult::Succeeded => TransferStep::Attempt(
                TransferStage::RemovingSource,
                TransferAction::RemoveSource,
            ),
            _ => TransferStep::Failed(TransferAction::Copy),
        },
        TransferStage::RemovingSource => match result {
            OperationResult::Succeeded => TransferStep::Done(TransferStrategy::MovedByCopy),
            _ => TransferStep::Failed(TransferAction::RemoveSource),
        },
        TransferStage::Copying => match result {
            OperationResult::Succeeded => TransferStep::Done(TransferStrategy::Copied),
            _ => TransferStep::Failed(TransferAction::Copy),
        },
        TransferStage::Linking => match result {
            OperationResult::Succeeded => TransferStep::Done(TransferStrategy::HardLinked),
            _ => TransferStep::Failed(TransferAction::HardLink),
        },
        TransferStage::LinkingFirst => match result {
            OperationResult::Succeeded => TransferStep::Done(TransferStrategy::HardLinked),
            _ => TransferStep::Attempt(TransferStage::CopyingInstead, TransferAction::Copy),
        },
        TransferStage::CopyingInstead => match result {
            OperationResult::Succeeded => TransferStep::Done(TransferStrategy::Copied),
            _ => TransferStep::Failed(TransferAction::Copy),
        },
    }
}

/// Plays a transfer through for a given run of results, and says how it
/// ends.
pub fn transfer_result(mode: TransferMode, results: &Vec<OperationResult>) -> (end: Option<
    TransferStep,
>)
    ensures
        end == end_of_transfer(first_attempt(mode).0, results@),
        !(end matches Some(TransferStep::Attempt(_, _))),
{
    let (first, _) = begin_transfer(mode);
    let mut stage = first;
    let mut i: usize = 0;
    assert(results@.skip(0) =~= results@);
    while i < results.len()
        invariant
            i <= results.len(),
            end_of_transfer(first_attempt(mode).0, results@) == end_of_transfer(
                stage,
                results@.skip(i as int),
            ),
        decreases results.len() - i,
    {
        assert(results@.skip(i as int)[0] == results@[i as int]);
        assert(results@.skip(i as int).skip(1) =~= results@.skip(i + 1));
        match continue_transfer(stage, results[i]) {
            TransferStep::Attempt(next, _) => {
                stage = next;
            },
            TransferStep::Done(strategy) => {
                return Some(TransferStep::Done(strategy));
            },
            TransferStep::Failed(action) => {
                return Some(TransferStep::Failed(action));
            },
        }
        i += 1;
    }
    None
}

/// The text of the error for an operation that failed, with what the
/// system said of the failure.
pub open spec fn transfer_failure_message(
    action: TransferAction,
    source: Seq<char>,
    target: Seq<char>,
    detail: Seq<char>,
) -> Seq<char> {
    match action {
        TransferAction::Rename => "Failed to move file from "@ + source + " to "@ + target + ": "@
            + detail,
        TransferAction::Copy => "Failed to copy file from "@ + source + " to "@ + target + ": "@
            + detail,
        TransferAction::HardLink => "Failed to hard link file from "@ + source + " to "@ + target
            + ": "@ + detail,
        TransferAction::RemoveSource => "Failed to remove source file: "@ + source + ": "@ + detail,
    }
}

/// The error for an operation that ended a transfer.
pub fn transfer_failure(action: TransferAction, source: &str, target: &str, detail: &str) -> (e:
    SlimmerError)
    ensures
        e.kind == ErrorKind::Transfer,
        e.message@ == transfer_failure_message(action, source@, target@, detail@),
{
    let mut message = String::new();
    match action {
        TransferAction::RemoveSource => {
            message.append("Failed to remove source file: ");
            message.append(source);
        },
        _ => {
            match action {
                TransferAction::Rename => {
                    message.append("Failed to move file from ");
                },
                TransferAction::Copy => {
                    message.append("Failed to copy file from ");
                },
                _ => {
                    message.append("Failed to hard link file from ");
                },
            }
            message.append(source);
            message.append(" to ");
            message.append(target);
        },
    }
    message.append(": ");
    message.append(detail);
    assert(message@ =~= transfer_failure_message(action, source@, target@, detail@));
    SlimmerError { kind: ErrorKind::Transfer, message }
}

/// The line that tells the user how the file reached its target.
pub open spec fn transfer_notice(strategy: TransferStrategy, target: Seq<char>) -> Seq<char> {
    match strategy {
        TransferStrategy::Moved => "📦 Moved to: "@ + target,
        TransferStrategy::MovedByCopy => "📦 Moved to: "@ + target + " (via copy+delete)"@,
        TransferStrategy::Copied => "📋 Copied to: "@ + target,
        TransferStrategy::HardLinked => "🔗 Hard linked to: "@ + target,
    }
}

/// The line that tells the user how the file reached its target.
pub fn describe_transfer(strategy: TransferStrategy, target: &str) -> (notice: String)
    ensures
        notice@ == transfer_notice(strategy, target@),
{
    let mut notice = String::new();
    match strategy {
        TransferStrategy::Moved => {
            notice.append("📦 Moved to: ");
            notice.append(target);
        },
        TransferStrategy::MovedByCopy => {
            notice.append("📦 Moved to: ");
            notice.append(target);
            notice.append(" (via copy+delete)");
        },
        TransferStrategy::Copied => {
            notice.append("📋 Copied to: ");
            notice.append(target);
        },
        TransferStrategy::HardLinked => {
            notice.append("🔗 Hard linked to: ");
            notice.append(target);
        },
    }
    assert(notice@ =~= transfer_notice(strategy, target@));
    notice
}

} // verus!
