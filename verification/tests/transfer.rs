use mkv_slimmer::engine::transfer::{
    begin_transfer, continue_transfer, describe_transfer, parse_transfer_mode, transfer_failure,
    transfer_mode_warning, transfer_result, OperationResult, TransferAction, TransferMode,
    TransferStage, TransferStep, TransferStrategy,
};
use mkv_slimmer::error::ErrorKind;

#[test]
fn transfer_modes_are_read_from_their_names() {
    assert_eq!(parse_transfer_mode(Some("Move")), TransferMode::Move);
    assert_eq!(parse_transfer_mode(Some("Copy")), TransferMode::Copy);
    assert_eq!(parse_transfer_mode(Some("HardLink")), TransferMode::HardLink);
    assert_eq!(parse_transfer_mode(Some("HardLinkOrCopy")), TransferMode::HardLinkOrCopy);
    assert_eq!(parse_transfer_mode(None), TransferMode::HardLinkOrCopy);
    assert_eq!(parse_transfer_mode(Some("move")), TransferMode::Unrecognized);
    assert_eq!(parse_transfer_mode(Some("")), TransferMode::Unrecognized);
}

#[test]
fn only_an_unknown_mode_is_warned_about() {
    assert_eq!(transfer_mode_warning(None), None);
    assert_eq!(transfer_mode_warning(Some("Move")), None);
    assert_eq!(transfer_mode_warning(Some("HardLinkOrCopy")), None);
    assert_eq!(
        transfer_mode_warning(Some("Teleport")),
        Some("⚠️  Unknown Sonarr transfer mode 'Teleport', using default behavior".to_string())
    );
}

#[test]
fn every_mode_begins_with_its_own_operation() {
    assert_eq!(begin_transfer(TransferMode::Move), (TransferStage::Renaming, TransferAction::Rename));
    assert_eq!(begin_transfer(TransferMode::Copy), (TransferStage::Copying, TransferAction::Copy));
    assert_eq!(
        begin_transfer(TransferMode::HardLink),
        (TransferStage::Linking, TransferAction::HardLink)
    );
    assert_eq!(
        begin_transfer(TransferMode::HardLinkOrCopy),
        (TransferStage::LinkingFirst, TransferAction::HardLink)
    );
    assert_eq!(
        begin_transfer(TransferMode::Unrecognized),
        (TransferStage::LinkingFirst, TransferAction::HardLink)
    );
}

#[test]
fn move_across_devices_copies_then_deletes() {
    let (stage, action) = begin_transfer(TransferMode::Move);
    assert_eq!(action, TransferAction::Rename);
    let step = continue_transfer(stage, OperationResult::CrossesDevices);
    assert_eq!(
        step,
        TransferStep::Attempt(TransferStage::CopyingAcrossDevices, TransferAction::Copy)
    );
    let step = continue_transfer(TransferStage::CopyingAcrossDevices, OperationResult::Succeeded);
    assert_eq!(
        step,
        TransferStep::Attempt(TransferStage::RemovingSource, TransferAction::RemoveSource)
    );
    let step = continue_transfer(TransferStage::RemovingSource, OperationResult::Succeeded);
    assert_eq!(step, TransferStep::Done(TransferStrategy::MovedByCopy));
}

#[test]
fn move_fails_when_the_source_cannot_be_deleted_after_the_copy() {
    let step = continue_transfer(TransferStage::RemovingSource, OperationResult::Failed);
    assert_eq!(step, TransferStep::Failed(TransferAction::RemoveSource));
    let results =
        vec![OperationResult::CrossesDevices, OperationResult::Succeeded, OperationResult::Failed];
    assert_eq!(
        transfer_result(TransferMode::Move, &results),
        Some(TransferStep::Failed(TransferAction::RemoveSource))
    );
    let results = vec![
        OperationResult::CrossesDevices,
        OperationResult::Succeeded,
        OperationResult::CrossesDevices,
    ];
    assert_eq!(
        transfer_result(TransferMode::Move, &results),
        Some(TransferStep::Failed(TransferAction::RemoveSource))
    );
}

#[test]
fn move_does_not_fall_back_on_other_rename_errors() {
    assert_eq!(
        continue_transfer(TransferStage::Renaming, OperationResult::Failed),
        TransferStep::Failed(TransferAction::Rename)
    );
    assert_eq!(
        continue_transfer(TransferStage::Renaming, OperationResult::Succeeded),
        TransferStep::Done(TransferStrategy::Moved)
    );
    assert_eq!(
        transfer_result(
            TransferMode::Move,
            &vec![OperationResult::CrossesDevices, OperationResult::Failed]
        ),
        Some(TransferStep::Failed(TransferAction::Copy))
    );
}

#[test]
fn copy_and_hard_link_do_not_fall_back() {
    for failure in [OperationResult::Failed, OperationResult::CrossesDevices] {
        assert_eq!(
            transfer_result(TransferMode::Copy, &vec![failure]),
            Some(TransferStep::Failed(TransferAction::Copy))
        );
        assert_eq!(
            transfer_result(TransferMode::HardLink, &vec![failure]),
            Some(TransferStep::Failed(TransferAction::HardLink))
        );
    }
    assert_eq!(
        transfer_result(TransferMode::Copy, &vec![OperationResult::Succeeded]),
        Some(TransferStep::Done(TransferStrategy::Copied))
    );
    assert_eq!(
        transfer_result(TransferMode::HardLink, &vec![OperationResult::Succeeded]),
        Some(TransferStep::Done(TransferStrategy::HardLinked))
    );
}

#[test]
fn default_chain_copies_after_any_link_failure() {
    for mode in [TransferMode::HardLinkOrCopy, TransferMode::Unrecognized] {
        for failure in [OperationResult::Failed, OperationResult::CrossesDevices] {
            assert_eq!(
                transfer_result(mode, &vec![failure, OperationResult::Succeeded]),
                Some(TransferStep::Done(TransferStrategy::Copied))
            );
            assert_eq!(
                transfer_result(mode, &vec![failure, OperationResult::Failed]),
                Some(TransferStep::Failed(TransferAction::Copy))
            );
        }
        assert_eq!(
            transfer_result(mode, &vec![OperationResult::Succeeded]),
            Some(TransferStep::Done(TransferStrategy::HardLinked))
        );
    }
}

#[test]
fn an_unfinished_transfer_has_no_result() {
    assert_eq!(transfer_result(TransferMode::Move, &Vec::new()), None);
    assert_eq!(transfer_result(TransferMode::Move, &vec![OperationResult::CrossesDevices]), None);
    assert_eq!(
        transfer_result(
            TransferMode::Move,
            &vec![OperationResult::CrossesDevices, OperationResult::Succeeded]
        ),
        None
    );
}

#[test]
fn results_after_the_end_are_ignored() {
    assert_eq!(
        transfer_result(
            TransferMode::Copy,
            &vec![OperationResult::Succeeded, OperationResult::Failed]
        ),
        Some(TransferStep::Done(TransferStrategy::Copied))
    );
}

#[test]
fn transfer_failures_name_the_operation_and_the_paths() {
    let e = transfer_failure(TransferAction::Rename, "/a/x.mkv", "/b/x.mkv", "denied");
    assert_eq!(e.kind, ErrorKind::Transfer);
    assert_eq!(e.message, "Failed to move file from /a/x.mkv to /b/x.mkv: denied");
    let e = transfer_failure(TransferAction::Copy, "/a/x.mkv", "/b/x.mkv", "disk full");
    assert_eq!(e.message, "Failed to copy file from /a/x.mkv to /b/x.mkv: disk full");
    let e = transfer_failure(TransferAction::HardLink, "s", "t", "no");
    assert_eq!(e.message, "Failed to hard link file from s to t: no");
    let e = transfer_failure(TransferAction::RemoveSource, "/a/x.mkv", "/b/x.mkv", "busy");
    assert_eq!(e.message, "Failed to remove source file: /a/x.mkv: busy");
}

#[test]
fn transfer_notices_tell_the_strategy() {
    assert_eq!(describe_transfer(TransferStrategy::Moved, "/t/a.mkv"), "📦 Moved to: /t/a.mkv");
    assert_eq!(
        describe_transfer(TransferStrategy::MovedByCopy, "/t/a.mkv"),
        "📦 Moved to: /t/a.mkv (via copy+delete)"
    );
    assert_eq!(describe_transfer(TransferStrategy::Copied, "/t/a.mkv"), "📋 Copied to: /t/a.mkv");
    assert_eq!(
        describe_transfer(TransferStrategy::HardLinked, "/t/a.mkv"),
        "🔗 Hard linked to: /t/a.mkv"
    );
}
