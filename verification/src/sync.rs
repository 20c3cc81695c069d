//! The sync orchestrator: one run sequences mount, scan, confirmation,
//! transfer and unmount. The orchestrator is a state machine: the
//! environment performs each requested action (running the external tools,
//! pulling scan elements, prompting) and reports what happened as an event.

use crate::command_ext;
use crate::remote_mount;
use vstd::prelude::*;

verus! {

/// One tracked-file modification reported by a repository status scan.
#[derive(Clone, Debug)]
pub struct ChangeRecord {
    pub path: String,
}

/// How a change scan fails.
#[derive(Clone, Copy, Debug, PartialEq, Eq, Structural)]
pub enum ScanError {
    /// The mounted path is not a valid repository.
    RepoOpenFailed,
    /// The status computation failed.
    StatusFailed,
}

/// Why a sync run failed.
#[derive(Clone, Copy, Debug, PartialEq, Eq, Structural)]
pub enum SyncFailure {
    /// The network-filesystem mount tool is not installed.
    MountToolMissing,
    /// The change scan failed.
    Scan { err: ScanError },
    /// The bulk-transfer tool is not installed.
    TransferToolMissing,
    /// The bulk-transfer tool ran and reported failure.
    TransferFailed,
}

/// How a sync run ended.
#[derive(Clone, Copy, Debug, PartialEq, Eq, Structural)]
pub enum SyncOutcome {
    /// The transfer ran and succeeded.
    Completed,
    /// The remote had changes and the user declined to clobber them.
    Declined,
    /// The run failed.
    Failed { failure: SyncFailure },
}

/// The orchestrator's control state.
#[derive(Clone, Copy, Debug, PartialEq, Eq, Structural)]
pub enum SyncState {
    /// Acquiring the scoped remote mount.
    Mounting,
    /// Draining the change scan over the mount; `has_changes` records
    /// whether any record has been observed so far.
    Scanning { has_changes: bool },
    /// Waiting for the user to confirm clobbering remote changes.
    Confirming,
    /// Running the bulk transfer; `mounted` records whether a mount is
    /// still held and must be released afterwards.
    Transferring { mounted: bool },
    /// Releasing the mount before finishing with `outcome`.
    Unmounting { outcome: SyncOutcome },
    /// The run is over.
    Done { outcome: SyncOutcome },
}

/// What the environment reports back to the orchestrator.
#[derive(Clone, Copy, Debug, PartialEq, Eq, Structural)]
pub enum SyncEvent {
    /// The mount tool succeeded.
    MountOk,
    /// The mount tool is not installed: fatal, and nothing to release.
    MountToolMissing,
    /// The mount tool ran and failed: the remote state cannot be verified
    /// and the run proceeds to the transfer regardless.
    MountFailed,
    /// The scan produced one change record.
    ScanRecord,
    /// The cancellation flag was observed set between scan elements.
    ScanCancelled,
    /// The scan ran out of elements.
    ScanFinished,
    /// The scan failed.
    ScanFailed { err: ScanError },
    /// The user chose to clobber the remote changes.
    ConfirmYes,
    /// The user declined.
    ConfirmNo,
    /// The transfer tool succeeded.
    TransferOk,
    /// The transfer tool is not installed.
    TransferToolMissing,
    /// The transfer tool ran and failed.
    TransferFailed,
    /// The mount was released.
    Unmounted,
}

/// What the orchestrator asks the environment to do next.
#[derive(Clone, Copy, Debug, PartialEq, Eq, Structural)]
pub enum SyncAction {
    /// Acquire the scoped remote mount.
    Mount,
    /// Consult the cancellation flag and pull the next scan element.
    PullScanItem,
    /// Show the confirmation prompt.
    AskConfirm,
    /// Run the bulk-transfer tool.
    Transfer,
    /// Release the mount.
    Unmount,
    /// Nothing: the run is over.
    Finish,
}

/// Which events can answer which states.
pub open spec fn accepts(s: SyncState, e: SyncEvent) -> bool {
    match s {
        SyncState::Mounting => e is MountOk || e is MountToolMissing || e is MountFailed,
        SyncState::Scanning { .. } => e is ScanRecord || e is ScanCancelled || e is ScanFinished
            || e is ScanFailed,
        SyncState::Confirming => e is ConfirmYes || e is ConfirmNo,
        SyncState::Transferring { .. } => e is TransferOk || e is TransferToolMissing
            || e is TransferFailed,
        SyncState::Unmounting { .. } => e is Unmounted,
        SyncState::Done { .. } => false,
    }
}

/// Leaving the scan: observed changes gate the confirmation prompt, and
/// otherwise the transfer starts at once. Cancellation and normal
/// exhaustion leave the scan the same way.
pub open spec fn spec_leave_scan(has_changes: bool) -> (SyncState, SyncAction) {
    if has_changes {
        (SyncState::Confirming, SyncAction::AskConfirm)
    } else {
        (SyncState::Transferring { mounted: true }, SyncAction::Transfer)
    }
}

/// After the transfer: release the mount if one is held, else finish.
pub open spec fn spec_after_transfer(mounted: bool, outcome: SyncOutcome) -> (
    SyncState,
    SyncAction,
) {
    if mounted {
        (SyncState::Unmounting { outcome }, SyncAction::Unmount)
    } else {
        (SyncState::Done { outcome }, SyncAction::Finish)
    }
}

/// The transition relation of one sync run. An event that cannot answer
/// the state leaves it unchanged.
pub open spec fn spec_step(s: SyncState, e: SyncEvent) -> (SyncState, SyncAction) {
    match (s, e) {
        (SyncState::Mounting, SyncEvent::MountOk) => (
            SyncState::Scanning { has_changes: false },
            SyncAction::PullScanItem,
        ),
        (SyncState::Mounting, SyncEvent::MountToolMissing) => (
            SyncState::Done { outcome: SyncOutcome::Failed { failure: SyncFailure::MountToolMissing } },
            SyncAction::Finish,
        ),
        (SyncState::Mounting, SyncEvent::MountFailed) => (
            SyncState::Transferring { mounted: false },
            SyncAction::Transfer,
        ),
        (SyncState::Scanning { .. }, SyncEvent::ScanRecord) => (
            SyncState::Scanning { has_changes: true },
            SyncAction::PullScanItem,
        ),
        (SyncState::Scanning { has_changes }, SyncEvent::ScanCancelled) => spec_leave_scan(
            has_changes,
        ),
        (SyncState::Scanning { has_changes }, SyncEvent::ScanFinished) => spec_leave_scan(
            has_changes,
        ),
        (SyncState::Scanning { .. }, SyncEvent::ScanFailed { err }) => (
            SyncState::Unmounting {
                outcome: SyncOutcome::Failed { failure: SyncFailure::Scan { err } },
            },
            SyncAction::Unmount,
        ),
        (SyncState::Confirming, SyncEvent::ConfirmYes) => (
            SyncState::Transferring { mounted: true },
            SyncAction::Transfer,
        ),
        (SyncState::Confirming, SyncEvent::ConfirmNo) => (
            SyncState::Unmounting { outcome: SyncOutcome::Declined },
            SyncAction::Unmount,
        ),
        (SyncState::Transferring { mounted }, SyncEvent::TransferOk) => spec_after_transfer(
            mounted,
            SyncOutcome::Completed,
        ),
        (SyncState::Transferring { mounted }, SyncEvent::TransferToolMissing) => spec_after_transfer(
            mounted,
            SyncOutcome::Failed { failure: SyncFailure::TransferToolMissing },
        ),
        (SyncState::Transferring { mounted }, SyncEvent::TransferFailed) => spec_after_transfer(
            mounted,
            SyncOutcome::Failed { failure: SyncFailure::TransferFailed },
        ),
        (SyncState::Unmounting { outcome }, SyncEvent::Unmounted) => (
            SyncState::Done { outcome },
            SyncAction::Finish,
        ),
        _ => (s, SyncAction::Finish),
    }
}

/// The state a sync run starts in, and the action that starts it.
pub fn sync_start() -> (r: (SyncState, SyncAction))
    ensures
        r == (SyncState::Mounting, SyncAction::Mount),
{
    (SyncState::Mounting, SyncAction::Mount)
}

/// Advances the orchestrator by one observed event.
pub fn step(s: SyncState, e: SyncEvent) -> (r: (SyncState, SyncAction))
    ensures
        r == spec_step(s, e),
{
    match (s, e) {
        (SyncState::Mounting, SyncEvent::MountOk) => (
            SyncState::Scanning { has_changes: false },
            SyncAction::PullScanItem,
        ),
        (SyncState::Mounting, SyncEvent::MountToolMissing) => (
            SyncState::Done { outcome: SyncOutcome::Failed { failure: SyncFailure::MountToolMissing } },
            SyncAction::Finish,
        ),
        (SyncState::Mounting, SyncEvent::MountFailed) => (
            SyncState::Transferring { mounted: false },
            SyncAction::Transfer,
        ),
        (SyncState::Scanning { .. }, SyncEvent::ScanRecord) => (
            SyncState::Scanning { has_changes: true },
            SyncAction::PullScanItem,
        ),
        (SyncState::Scanning { has_changes }, SyncEvent::ScanCancelled) => leave_scan(has_changes),
        (SyncState::Scanning { has_changes }, SyncEvent::ScanFinished) => leave_scan(has_changes),
        (SyncState::Scanning { .. }, SyncEvent::ScanFailed { err }) => (
            SyncState::Unmounting {
                outcome: SyncOutcome::Failed { failure: SyncFailure::Scan { err } },
            },
            SyncAction::Unmount,
        ),
        (SyncState::Confirming, SyncEvent::ConfirmYes) => (
            SyncState::Transferring { mounted: true },
            SyncAction::Transfer,
        ),
        (SyncState::Confirming, SyncEvent::ConfirmNo) => (
            SyncState::Unmounting { outcome: SyncOutcome::Declined },
            SyncAction::Unmount,
        ),
        (SyncState::Transferring { mounted }, SyncEvent::TransferOk) => after_transfer(
            mounted,
            SyncOutcome::Completed,
        ),
        (SyncState::Transferring { mounted }, SyncEvent::TransferToolMissing) => after_transfer(
            mounted,
            SyncOutcome::Failed { failure: SyncFailure::TransferToolMissing },
        ),
        (SyncState::Transferring { mounted }, SyncEvent::TransferFailed) => after_transfer(
            mounted,
            SyncOutcome::Failed { failure: SyncFailure::TransferFailed },
        ),
        (SyncState::Unmounting { outcome }, SyncEvent::Unmounted) => (
            SyncState::Done { outcome },
            SyncAction::Finish,
        ),
        _ => (s, SyncAction::Finish),
    }
}

/// Executable form of [`spec_leave_scan`].
fn leave_scan(has_changes: bool) -> (r: (SyncState, SyncAction))
    ensures
        r == spec_leave_scan(has_changes),
{
    if has_changes {
        (SyncState::Confirming, SyncAction::AskConfirm)
    } else {
        (SyncState::Transferring { mounted: true }, SyncAction::Transfer)
    }
}

/// Executable form of [`spec_after_transfer`].
fn after_transfer(mounted: bool, outcome: SyncOutcome) -> (r: (SyncState, SyncAction))
    ensures
        r == spec_after_transfer(mounted, outcome),
{
    if mounted {
        (SyncState::Unmounting { outcome }, SyncAction::Unmount)
    } else {
        (SyncState::Done { outcome }, SyncAction::Finish)
    }
}

/// What one scan step reports: the cancellation flag is consulted first,
/// so a set flag ends the scan before the pending element is looked at;
/// otherwise an exhausted iterator, a failed element, or one more record.
pub open spec fn spec_scan_event(
    cancelled: bool,
    item: Option<Result<ChangeRecord, ScanError>>,
) -> SyncEvent {
    if cancelled {
        SyncEvent::ScanCancelled
    } else {
        match item {
            None => SyncEvent::ScanFinished,
            Some(Err(err)) => SyncEvent::ScanFailed { err },
            Some(Ok(_)) => SyncEvent::ScanRecord,
        }
    }
}

/// Turns one sampled flag value and one pulled scan element into the event
/// the orchestrator consumes.
pub fn scan_event(cancelled: bool, item: &Option<Result<ChangeRecord, ScanError>>) -> (e: SyncEvent)
    ensures
        e == spec_scan_event(cancelled, *item),
{
    if cancelled {
        SyncEvent::ScanCancelled
    } else {
        match item {
            None => SyncEvent::ScanFinished,
            Some(Err(err)) => SyncEvent::ScanFailed { err: *err },
            Some(Ok(_)) => SyncEvent::ScanRecord,
        }
    }
}

/// What a failed mount acquisition reports: a missing tool is fatal, any
/// other failure only means the remote state cannot be verified.
pub open spec fn spec_mount_failure_event(e: remote_mount::Error) -> SyncEvent {
    match e {
        remote_mount::Error::Command {
            err: command_ext::Error::MissingProgram { .. },
        } => SyncEvent::MountToolMissing,
        _ => SyncEvent::MountFailed,
    }
}

/// Turns a mount-acquisition error into the event the orchestrator
/// consumes.
pub fn mount_failure_event(e: &remote_mount::Error) -> (r: SyncEvent)
    ensures
        r == spec_mount_failure_event(*e),
{
    match e {
        remote_mount::Error::Command { err: command_ext::Error::MissingProgram { .. } } => {
            SyncEvent::MountToolMissing
        },
        _ => SyncEvent::MountFailed,
    }
}

/// The bulk-transfer destination: `host:resolvedPath/`.
pub fn sync_target(host: &str, path: &str) -> (r: String)
    ensures
        r@ == host@ + ":"@ + path@ + "/"@,
{
    let mut s = remote_mount::connection_string(host, path);
    s.append("/");
    s
}

/// The bulk-transfer invocation: a filter honoring the repository's ignore
/// patterns, archive/compress/progress mode, the working directory as the
/// source and `target` as the destination.
pub fn transfer_args(target: String) -> (r: Vec<String>)
    ensures
        r@.len() == 4,
        r@[0]@ == "--filter=:- .gitignore"@,
        r@[1]@ == "-azvP"@,
        r@[2]@ == "./"@,
        r@[3] == target,
{
    let mut v: Vec<String> = Vec::new();
    v.push("--filter=:- .gitignore".to_owned());
    v.push("-azvP".to_owned());
    v.push("./".to_owned());
    v.push(target);
    v
}

/// The state after consuming `events` from `s`.
pub open spec fn run_state(s: SyncState, events: Seq<SyncEvent>) -> SyncState
    decreases events.len(),
{
    if events.len() == 0 {
        s
    } else {
        run_state(spec_step(s, events[0]).0, events.skip(1))
    }
}

/// Whether every event in `events` answers the state it meets.
pub open spec fn run_accepted(s: SyncState, events: Seq<SyncEvent>) -> bool
    decreases events.len(),
{
    events.len() == 0 || (accepts(s, events[0]) && run_accepted(
        spec_step(s, events[0]).0,
        events.skip(1),
    ))
}

/// The actions issued while consuming `events` from `s`.
pub open spec fn run_actions(s: SyncState, events: Seq<SyncEvent>) -> Seq<SyncAction>
    decreases events.len(),
{
    if events.len() == 0 {
        Seq::empty()
    } else {
        seq![spec_step(s, events[0]).1] + run_actions(spec_step(s, events[0]).0, events.skip(1))
    }
}

/// How many times `a` occurs in `acts`.
pub open spec fn count_action(acts: Seq<SyncAction>, a: SyncAction) -> int
    decreases acts.len(),
{
    if acts.len() == 0 {
        0
    } else {
        (if acts[0] == a {
            1int
        } else {
            0int
        }) + count_action(acts.skip(1), a)
    }
}

/// An occurrence count is never negative.
proof fn lemma_count_action_nonneg(acts: Seq<SyncAction>, a: SyncAction)
    ensures
        count_action(acts, a) >= 0,
    decreases acts.len(),
{
    if acts.len() > 0 {
        lemma_count_action_nonneg(acts.skip(1), a);
    }
}

/// Whether the orchestrator holds a live mount in `s`. A run entering
/// `Unmounting` has already issued its release.
pub open spec fn holds_mount(s: SyncState) -> bool {
    match s {
        SyncState::Scanning { .. } => true,
        SyncState::Confirming => true,
        SyncState::Transferring { mounted } => mounted,
        _ => false,
    }
}

/// How many releases a run still owes from `s` onwards.
spec fn owed_unmounts(s: SyncState, events: Seq<SyncEvent>) -> int {
    if holds_mount(s) {
        1
    } else if s is Mounting {
        if events.len() > 0 && events[0] is MountOk {
            1
        } else {
            0
        }
    } else {
        0
    }
}

proof fn lemma_unmount_count(s: SyncState, events: Seq<SyncEvent>)
    requires
        run_accepted(s, events),
        run_state(s, events) is Done,
    ensures
        count_action(run_actions(s, events), SyncAction::Unmount) == owed_unmounts(s, events),
    decreases events.len(),
{
    if events.len() > 0 {
        let s2 = spec_step(s, events[0]).0;
        lemma_unmount_count(s2, events.skip(1));
        let acts = run_actions(s, events);
        assert(acts.skip(1) =~= run_actions(s2, events.skip(1)));
    }
}

/// The release law: a completed run releases the mount exactly once when
/// the mount was acquired, and never otherwise — whichever branch the run
/// took and however it failed.
pub proof fn lemma_unmount_exactly_once(events: Seq<SyncEvent>)
    requires
        run_accepted(SyncState::Mounting, events),
        run_state(SyncState::Mounting, events) is Done,
    ensures
        count_action(run_actions(SyncState::Mounting, events), SyncAction::Unmount) == (
        if events.len() > 0 && events[0] is MountOk {
            1int
        } else {
            0int
        }),
{
    lemma_unmount_count(SyncState::Mounting, events);
}

/// States from which the confirmation prompt can never be reached when the
/// scan stays quiet.
spec fn confirm_free(s: SyncState) -> bool {
    match s {
        SyncState::Scanning { has_changes } => !has_changes,
        SyncState::Confirming => false,
        _ => true,
    }
}

proof fn lemma_quiet_scan_aux(s: SyncState, events: Seq<SyncEvent>)
    requires
        run_accepted(s, events),
        confirm_free(s),
        forall|i: int| 0 <= i < events.len() ==> !(#[trigger] events[i] is ScanRecord),
        forall|i: int| 0 <= i < events.len() ==> !(#[trigger] events[i] is ScanFailed),
        forall|i: int| 0 <= i < events.len() ==> !(#[trigger] events[i] is MountToolMissing),
    ensures
        count_action(run_actions(s, events), SyncAction::AskConfirm) == 0,
        run_state(s, events) is Done ==> count_action(run_actions(s, events), SyncAction::Transfer)
            >= 1 || !(s is Mounting || s is Scanning),
    decreases events.len(),
{
    if events.len() > 0 {
        let s2 = spec_step(s, events[0]).0;
        assert forall|i: int| 0 <= i < events.skip(1).len() implies !(#[trigger] events.skip(1)[i]
            is ScanRecord) && !(events.skip(1)[i] is ScanFailed) && !(events.skip(1)[i]
            is MountToolMissing) by {
            assert(events.skip(1)[i] == events[i + 1]);
        }
        lemma_quiet_scan_aux(s2, events.skip(1));
        let acts = run_actions(s, events);
        assert(acts.skip(1) =~= run_actions(s2, events.skip(1)));
        lemma_count_action_nonneg(acts.skip(1), SyncAction::Transfer);
    }
}

/// The quiet-remote law: when the scan reports no change and no failure
/// (and the mount tool is present, whose absence aborts the run), the
/// confirmation prompt is never shown, and a run that completes has always
/// invoked the transfer tool.
pub proof fn lemma_no_changes_no_confirm(events: Seq<SyncEvent>)
    requires
        run_accepted(SyncState::Mounting, events),
        forall|i: int| 0 <= i < events.len() ==> !(#[trigger] events[i] is ScanRecord),
        forall|i: int| 0 <= i < events.len() ==> !(#[trigger] events[i] is ScanFailed),
        forall|i: int| 0 <= i < events.len() ==> !(#[trigger] events[i] is MountToolMissing),
    ensures
        count_action(run_actions(SyncState::Mounting, events), SyncAction::AskConfirm) == 0,
        run_state(SyncState::Mounting, events) is Done ==> count_action(
            run_actions(SyncState::Mounting, events),
            SyncAction::Transfer,
        ) >= 1,
{
    lemma_quiet_scan_aux(SyncState::Mounting, events);
}

/// States in which a confirmation can still be answered later in the run.
spec fn confirm_possible(s: SyncState) -> bool {
    s is Mounting || s is Scanning || s is Confirming
}

proof fn lemma_no_confirm_after(s: SyncState, events: Seq<SyncEvent>)
    requires
        run_accepted(s, events),
        !confirm_possible(s),
    ensures
        forall|k: int| 0 <= k < events.len() ==> !(#[trigger] events[k] is ConfirmNo),
    decreases events.len(),
{
    if events.len() > 0 {
        let s2 = spec_step(s, events[0]).0;
        lemma_no_confirm_after(s2, events.skip(1));
        assert forall|k: int| 1 <= k < events.len() implies !(#[trigger] events[k] is ConfirmNo) by {
            assert(events[k] == events.skip(1)[k - 1]);
        }
    }
}

proof fn lemma_tail_never_transfers(s: SyncState, events: Seq<SyncEvent>)
    requires
        run_accepted(s, events),
        s is Unmounting || s is Done,
    ensures
        count_action(run_actions(s, events), SyncAction::Transfer) == 0,
        s is Unmounting && events.len() > 0 ==> run_actions(s, events)[0] == SyncAction::Finish,
    decreases events.len(),
{
    if events.len() > 0 {
        let s2 = spec_step(s, events[0]).0;
        lemma_tail_never_transfers(s2, events.skip(1));
        let acts = run_actions(s, events);
        assert(acts.skip(1) =~= run_actions(s2, events.skip(1)));
    }
}

proof fn lemma_decline_aux(s: SyncState, events: Seq<SyncEvent>, k: int)
    requires
        run_accepted(s, events),
        confirm_possible(s),
        0 <= k < events.len(),
        events[k] is ConfirmNo,
    ensures
        count_action(run_actions(s, events), SyncAction::Transfer) == 0,
        count_action(run_actions(s, events), SyncAction::Unmount) >= 1,
    decreases events.len(),
{
    let s2 = spec_step(s, events[0]).0;
    let acts = run_actions(s, events);
    assert(acts.skip(1) =~= run_actions(s2, events.skip(1)));
    if events[0] is ConfirmNo {
        lemma_tail_never_transfers(s2, events.skip(1));
        lemma_count_action_nonneg(acts.skip(1), SyncAction::Unmount);
    } else {
        assert(events.skip(1)[k - 1] == events[k]);
        if confirm_possible(s2) {
            lemma_decline_aux(s2, events.skip(1), k - 1);
        } else {
            lemma_no_confirm_after(s2, events.skip(1));
        }
    }
}

/// The declined-confirmation law: a run in which the user answers the
/// prompt with no never invokes the transfer tool, and still releases the
/// mount.
pub proof fn lemma_declined_never_transfers(events: Seq<SyncEvent>, k: int)
    requires
        run_accepted(SyncState::Mounting, events),
        0 <= k < events.len(),
        events[k] is ConfirmNo,
    ensures
        count_action(run_actions(SyncState::Mounting, events), SyncAction::Transfer) == 0,
        count_action(run_actions(SyncState::Mounting, events), SyncAction::Unmount) >= 1,
{
    lemma_decline_aux(SyncState::Mounting, events, k);
}

/// The cancellation law: a set flag is noticed before the pending element,
/// stops the scan without pulling further elements, and ends it exactly as
/// a normally exhausted scan would — no error, and no prompt unless a
/// change was already observed. In particular a flag set before the scan
/// begins yields an empty scan that goes straight to the transfer.
pub proof fn lemma_cancellation_stops_scan(h: bool, item: Option<Result<ChangeRecord, ScanError>>)
    ensures
        spec_scan_event(true, item) == SyncEvent::ScanCancelled,
        spec_step(SyncState::Scanning { has_changes: h }, SyncEvent::ScanCancelled) == spec_step(
            SyncState::Scanning { has_changes: h },
            SyncEvent::ScanFinished,
        ),
        spec_step(SyncState::Scanning { has_changes: h }, SyncEvent::ScanCancelled).1
            != SyncAction::PullScanItem,
        spec_step(SyncState::Scanning { has_changes: false }, SyncEvent::ScanCancelled) == (
            SyncState::Transferring { mounted: true },
            SyncAction::Transfer,
        ),
{
}

} // verus!
