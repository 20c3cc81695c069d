use src_manage::command_ext;
use src_manage::remote_mount::{self, connection_string, unmount_args};
use src_manage::sync::{
    mount_failure_event, scan_event, step, sync_start, sync_target, transfer_args, ChangeRecord,
    ScanError, SyncAction, SyncEvent, SyncOutcome, SyncState,
};

fn record() -> Option<Result<ChangeRecord, ScanError>> {
    Some(Ok(ChangeRecord { path: "src/lib.rs".to_owned() }))
}

#[test]
fn quiet_remote_transfers_without_prompt() {
    let (s, a) = sync_start();
    assert_eq!(a, SyncAction::Mount);

    let (s, a) = step(s, SyncEvent::MountOk);
    assert_eq!(s, SyncState::Scanning { has_changes: false });
    assert_eq!(a, SyncAction::PullScanItem);

    let e = scan_event(false, &None);
    assert_eq!(e, SyncEvent::ScanFinished);

    let (s, a) = step(s, e);
    assert_eq!(s, SyncState::Transferring { mounted: true });
    assert_eq!(a, SyncAction::Transfer);

    let (s, a) = step(s, SyncEvent::TransferOk);
    assert_eq!(s, SyncState::Unmounting { outcome: SyncOutcome::Completed });
    assert_eq!(a, SyncAction::Unmount);

    let (s, a) = step(s, SyncEvent::Unmounted);
    assert_eq!(s, SyncState::Done { outcome: SyncOutcome::Completed });
    assert_eq!(a, SyncAction::Finish);
}

#[test]
fn changed_remote_prompts_and_decline_skips_transfer() {
    let (s, _) = step(SyncState::Mounting, SyncEvent::MountOk);

    let e = scan_event(false, &record());
    assert_eq!(e, SyncEvent::ScanRecord);
    let (s, a) = step(s, e);
    assert_eq!(s, SyncState::Scanning { has_changes: true });
    assert_eq!(a, SyncAction::PullScanItem);

    let (s, a) = step(s, SyncEvent::ScanFinished);
    assert_eq!(s, SyncState::Confirming);
    assert_eq!(a, SyncAction::AskConfirm);

    let (s, a) = step(s, SyncEvent::ConfirmNo);
    assert_eq!(s, SyncState::Unmounting { outcome: SyncOutcome::Declined });
    assert_eq!(a, SyncAction::Unmount);

    let (s, _) = step(s, SyncEvent::Unmounted);
    assert_eq!(s, SyncState::Done { outcome: SyncOutcome::Declined });
}

#[test]
fn confirmed_clobber_transfers() {
    let (s, a) = step(SyncState::Confirming, SyncEvent::ConfirmYes);
    assert_eq!(s, SyncState::Transferring { mounted: true });
    assert_eq!(a, SyncAction::Transfer);
}

#[test]
fn cancellation_before_scan_yields_empty_scan() {
    // The flag wins over whatever element is pending.
    let e = scan_event(true, &record());
    assert_eq!(e, SyncEvent::ScanCancelled);

    let (s, a) = step(SyncState::Scanning { has_changes: false }, e);
    assert_eq!(s, SyncState::Transferring { mounted: true });
    assert_eq!(a, SyncAction::Transfer);
}

#[test]
fn cancellation_mid_scan_stops_without_error() {
    let (s, _) = step(SyncState::Scanning { has_changes: false }, SyncEvent::ScanRecord);
    let e = scan_event(true, &None);
    assert_eq!(e, SyncEvent::ScanCancelled);

    // One change was already observed, so the prompt is still owed.
    let (s, a) = step(s, e);
    assert_eq!(s, SyncState::Confirming);
    assert_eq!(a, SyncAction::AskConfirm);
}

#[test]
fn scan_failure_still_unmounts() {
    let (s, a) = step(
        SyncState::Scanning { has_changes: false },
        SyncEvent::ScanFailed { err: ScanError::StatusFailed },
    );
    assert!(matches!(s, SyncState::Unmounting { .. }));
    assert_eq!(a, SyncAction::Unmount);
}

#[test]
fn missing_mount_tool_is_fatal() {
    let err = remote_mount::Error::Command {
        err: command_ext::Error::MissingProgram { name: "sshfs".to_owned() },
    };
    let e = mount_failure_event(&err);
    assert_eq!(e, SyncEvent::MountToolMissing);

    let (s, a) = step(SyncState::Mounting, e);
    assert!(matches!(s, SyncState::Done { .. }));
    assert_eq!(a, SyncAction::Finish);
}

#[test]
fn other_mount_failure_proceeds_to_transfer() {
    let err = remote_mount::Error::Command {
        err: command_ext::Error::ProgramFailed { cmd: "sshfs host:/p /tmp/x".to_owned() },
    };
    let e = mount_failure_event(&err);
    assert_eq!(e, SyncEvent::MountFailed);

    let (s, a) = step(SyncState::Mounting, e);
    assert_eq!(s, SyncState::Transferring { mounted: false });
    assert_eq!(a, SyncAction::Transfer);

    // Nothing was mounted, so nothing is released afterwards.
    let (s, a) = step(s, SyncEvent::TransferOk);
    assert_eq!(s, SyncState::Done { outcome: SyncOutcome::Completed });
    assert_eq!(a, SyncAction::Finish);
}

#[test]
fn tempdir_failure_proceeds_to_transfer() {
    let e = mount_failure_event(&remote_mount::Error::TempDir);
    assert_eq!(e, SyncEvent::MountFailed);
}

#[test]
fn transfer_invocation_is_exact() {
    let target = sync_target("box", "/home/u/src/github.com/foldu/src-manage");
    assert_eq!(target, "box:/home/u/src/github.com/foldu/src-manage/");

    let args = transfer_args(target.clone());
    assert_eq!(
        args,
        vec![
            "--filter=:- .gitignore".to_owned(),
            "-azvP".to_owned(),
            "./".to_owned(),
            target,
        ]
    );
}

#[test]
fn mount_invocation_is_exact() {
    assert_eq!(connection_string("box", "/srv/repo"), "box:/srv/repo");
    assert_eq!(unmount_args("/tmp/mnt"), vec!["-u".to_owned(), "/tmp/mnt".to_owned()]);
}

#[test]
fn error_messages_name_the_failure() {
    let missing = command_ext::Error::MissingProgram { name: "rsync".to_owned() };
    assert_eq!(missing.message(), "Missing executable `rsync`");

    let failed = command_ext::Error::ProgramFailed { cmd: "rsync -azvP".to_owned() };
    assert_eq!(failed.message(), "Failed executing rsync -azvP");

    assert_eq!(
        remote_mount::Error::TempDir.message(),
        "Failed creating temporary directory"
    );
    let wrapped = remote_mount::Error::Command {
        err: command_ext::Error::MissingProgram { name: "sshfs".to_owned() },
    };
    assert_eq!(wrapped.message(), "Missing executable `sshfs`");
}
