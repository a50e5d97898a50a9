use vstd::prelude::*;

verus! {

/// Represents the progress of a file download.
#[derive(Debug, PartialEq, Eq, Structural, Clone, Copy)]
pub struct DownloadProgress {
    /// The number of bytes already downloaded.
    pub bytes_downloaded: u64,
    /// The total number of bytes to be downloaded.
    pub total_bytes: u64,
}

/// The total a progress reporter keeps after a download announces its size:
/// the announced size, or the previous total when none is announced.
pub fn total_after_setup(total_bytes: u64, max_progress: Option<u64>) -> (t: u64)
    ensures
        t == match max_progress {
            Some(m) => m,
            None => total_bytes,
        },
{
    match max_progress {
        Some(m) => m,
        None => total_bytes,
    }
}

/// The progress a reporter announces when `current` bytes have arrived.
pub fn progress_payload(total_bytes: u64, current: u64) -> (p: DownloadProgress)
    ensures
        p == (DownloadProgress { bytes_downloaded: current, total_bytes }),
{
    DownloadProgress { bytes_downloaded: current, total_bytes }
}

/// The states of an installation as reported to the user interface.
#[derive(Debug, PartialEq, Eq, Structural, Clone, Copy)]
pub enum InstallationProgressStatus {
    Downloading,
    Installing,
    Success,
    Error,
}

/// An installation progress report for a release.
#[derive(Debug)]
pub struct InstallationProgressPayload {
    pub status: InstallationProgressStatus,
    pub release_id: String,
}

/// What the self-updater reports to the user interface.
#[derive(Debug)]
pub enum UpdateStatus {
    Checking,
    Downloading,
    Installing,
    UpToDate,
    Success,
    Failure { error: String },
}

/// Whether a status ends an update run.
pub open spec fn is_terminal_status(s: UpdateStatus) -> bool {
    s is UpToDate || s is Success || s is Failure
}

/// How far an update run has come.
#[derive(Debug, PartialEq, Eq, Structural, Clone, Copy)]
pub enum UpdaterPhase {
    /// Waiting for the updater to be obtained.
    AwaitingUpdater,
    /// Waiting for the update check.
    AwaitingCheck,
    /// Downloading an update.
    Downloading,
    /// Installing the downloaded update.
    Installing,
    /// The run is over.
    Finished,
}

/// What happened since the last step of an update run.
#[derive(Debug)]
pub enum UpdaterEvent {
    UpdaterReady,
    UpdaterUnavailable(String),
    CheckFailed(String),
    NoUpdate,
    UpdateFound,
    DownloadFinished,
    InstallFailed(String),
    InstallSucceeded,
}

/// What the caller does next in an update run.
#[derive(Debug, PartialEq, Eq, Structural, Clone, Copy)]
pub enum UpdaterAction {
    CheckForUpdate,
    DownloadAndInstall,
    /// Keep waiting for the running download and installation.
    Wait,
    Stop,
}

/// One step of an update run.
pub open spec fn updater_next(phase: UpdaterPhase, event: UpdaterEvent) -> (
    UpdaterPhase,
    Option<UpdateStatus>,
    UpdaterAction,
) {
    match (phase, event) {
        (UpdaterPhase::AwaitingUpdater, UpdaterEvent::UpdaterReady) => (
            UpdaterPhase::AwaitingCheck,
            None,
            UpdaterAction::CheckForUpdate,
        ),
        (UpdaterPhase::AwaitingUpdater, UpdaterEvent::UpdaterUnavailable(e)) => (
            UpdaterPhase::Finished,
            Some(UpdateStatus::Failure { error: e }),
            UpdaterAction::Stop,
        ),
        (UpdaterPhase::AwaitingCheck, UpdaterEvent::CheckFailed(e)) => (
            UpdaterPhase::Finished,
            Some(UpdateStatus::Failure { error: e }),
            UpdaterAction::Stop,
        ),
        (UpdaterPhase::AwaitingCheck, UpdaterEvent::NoUpdate) => (
            UpdaterPhase::Finished,
            Some(UpdateStatus::UpToDate),
            UpdaterAction::Stop,
        ),
        (UpdaterPhase::AwaitingCheck, UpdaterEvent::UpdateFound) => (
            UpdaterPhase::Downloading,
            Some(UpdateStatus::Downloading),
            UpdaterAction::DownloadAndInstall,
        ),
        (UpdaterPhase::Downloading, UpdaterEvent::DownloadFinished) => (
            UpdaterPhase::Installing,
            Some(UpdateStatus::Installing),
            UpdaterAction::Wait,
        ),
        (UpdaterPhase::Downloading, UpdaterEvent::InstallFailed(e)) => (
            UpdaterPhase::Finished,
            Some(UpdateStatus::Failure { error: e }),
            UpdaterAction::Stop,
        ),
        (UpdaterPhase::Downloading, UpdaterEvent::InstallSucceeded) => (
            UpdaterPhase::Finished,
            Some(UpdateStatus::Success),
            UpdaterAction::Stop,
        ),
        (UpdaterPhase::Installing, UpdaterEvent::InstallFailed(e)) => (
            UpdaterPhase::Finished,
            Some(UpdateStatus::Failure { error: e }),
            UpdaterAction::Stop,
        ),
        (UpdaterPhase::Installing, UpdaterEvent::InstallSucceeded) => (
            UpdaterPhase::Finished,
            Some(UpdateStatus::Success),
            UpdaterAction::Stop,
        ),
        (UpdaterPhase::Finished, _) => (UpdaterPhase::Finished, None, UpdaterAction::Stop),
        (p, _) => (p, None, UpdaterAction::Wait),
    }
}

/// Starts an update run: it reports `Checking` and then obtains the updater.
pub fn updater_start() -> (r: (UpdaterPhase, UpdateStatus))
    ensures
        r.0 == UpdaterPhase::AwaitingUpdater,
        r.1 is Checking,
{
    (UpdaterPhase::AwaitingUpdater, UpdateStatus::Checking)
}

/// Advances an update run by one event: the next phase, the status to report
/// (if any) and what to do next.
pub fn updater_step(phase: UpdaterPhase, event: UpdaterEvent) -> (r: (
    UpdaterPhase,
    Option<UpdateStatus>,
    UpdaterAction,
))
    ensures
        r == updater_next(phase, event),
{
    match (phase, event) {
        (UpdaterPhase::AwaitingUpdater, UpdaterEvent::UpdaterReady) => (
            UpdaterPhase::AwaitingCheck,
            None,
            UpdaterAction::CheckForUpdate,
        ),
        (UpdaterPhase::AwaitingUpdater, UpdaterEvent::UpdaterUnavailable(e)) => (
            UpdaterPhase::Finished,
            Some(UpdateStatus::Failure { error: e }),
            UpdaterAction::Stop,
        ),
        (UpdaterPhase::AwaitingCheck, UpdaterEvent::CheckFailed(e)) => (
            UpdaterPhase::Finished,
            Some(UpdateStatus::Failure { error: e }),
            UpdaterAction::Stop,
        ),
        (UpdaterPhase::AwaitingCheck, UpdaterEvent::NoUpdate) => (
            UpdaterPhase::Finished,
            Some(UpdateStatus::UpToDate),
            UpdaterAction::Stop,
        ),
        (UpdaterPhase::AwaitingCheck, UpdaterEvent::UpdateFound) => (
            UpdaterPhase::Downloading,
            Some(UpdateStatus::Downloading),
            UpdaterAction::DownloadAndInstall,
        ),
        (UpdaterPhase::Downloading, UpdaterEvent::DownloadFinished) => (
            UpdaterPhase::Installing,
            Some(UpdateStatus::Installing),
            UpdaterAction::Wait,
        ),
        (UpdaterPhase::Downloading, UpdaterEvent::InstallFailed(e)) => (
            UpdaterPhase::Finished,
            Some(UpdateStatus::Failure { error: e }),
            UpdaterAction::Stop,
        ),
        (UpdaterPhase::Downloading, UpdaterEvent::InstallSucceeded) => (
            UpdaterPhase::Finished,
            Some(UpdateStatus::Success),
            UpdaterAction::Stop,
        ),
        (UpdaterPhase::Installing, UpdaterEvent::InstallFailed(e)) => (
            UpdaterPhase::Finished,
            Some(UpdateStatus::Failure { error: e }),
            UpdaterAction::Stop,
        ),
        (UpdaterPhase::Installing, UpdaterEvent::InstallSucceeded) => (
            UpdaterPhase::Finished,
            Some(UpdateStatus::Success),
            UpdaterAction::Stop,
        ),
        (UpdaterPhase::Finished, _) => (UpdaterPhase::Finished, None, UpdaterAction::Stop),
        (p, _) => (p, None, UpdaterAction::Wait),
    }
}

/// Law: an update run reports a final status (up to date, success or failure)
/// exactly on the step that finishes it, and nothing once it has finished.
pub proof fn law_updater_reports_one_final_status(phase: UpdaterPhase, event: UpdaterEvent)
    ensures
        ({
            let (next, status, action) = updater_next(phase, event);
            &&& phase == UpdaterPhase::Finished ==> status is None && next
                == UpdaterPhase::Finished
            &&& (phase != UpdaterPhase::Finished && next == UpdaterPhase::Finished) <==> (
            status is Some && is_terminal_status(status->Some_0))
            &&& next == UpdaterPhase::Finished <==> action == UpdaterAction::Stop
        }),
{
}

/// Whether `phase` waits for `event`: the updater is obtained or not, the
/// check answers, and the download and installation report their progress.
pub open spec fn updater_waits_for(phase: UpdaterPhase, event: UpdaterEvent) -> bool {
    match phase {
        UpdaterPhase::AwaitingUpdater => event is UpdaterReady || event is UpdaterUnavailable,
        UpdaterPhase::AwaitingCheck => event is CheckFailed || event is NoUpdate
            || event is UpdateFound,
        UpdaterPhase::Downloading => event is DownloadFinished || event is InstallFailed
            || event is InstallSucceeded,
        UpdaterPhase::Installing => event is InstallFailed || event is InstallSucceeded,
        UpdaterPhase::Finished => false,
    }
}

/// The status an event reports to the user when it is waited for.
pub open spec fn event_status(event: UpdaterEvent) -> Option<UpdateStatus> {
    match event {
        UpdaterEvent::UpdaterReady => None,
        UpdaterEvent::UpdaterUnavailable(e) => Some(UpdateStatus::Failure { error: e }),
        UpdaterEvent::CheckFailed(e) => Some(UpdateStatus::Failure { error: e }),
        UpdaterEvent::NoUpdate => Some(UpdateStatus::UpToDate),
        UpdaterEvent::UpdateFound => Some(UpdateStatus::Downloading),
        UpdaterEvent::DownloadFinished => Some(UpdateStatus::Installing),
        UpdaterEvent::InstallFailed(e) => Some(UpdateStatus::Failure { error: e }),
        UpdaterEvent::InstallSucceeded => Some(UpdateStatus::Success),
    }
}

/// Law: each step does the work its new phase needs. The check is started
/// exactly when the run starts waiting for it, the download and installation
/// exactly when the run starts downloading (which is also exactly when
/// `Downloading` is reported), the run stops exactly when it finishes, and
/// otherwise it waits. An event the phase waits for reports its own status
/// (a failure with the event's message, up to date, downloading, installing
/// or success); any other event changes nothing and reports nothing.
pub proof fn law_updater_step_does_phase_work(phase: UpdaterPhase, event: UpdaterEvent)
    ensures
        ({
            let (next, status, action) = updater_next(phase, event);
            &&& (action == UpdaterAction::CheckForUpdate) <==> (phase != UpdaterPhase::AwaitingCheck
                && next == UpdaterPhase::AwaitingCheck)
            &&& (action == UpdaterAction::DownloadAndInstall) <==> (phase
                != UpdaterPhase::Downloading && next == UpdaterPhase::Downloading)
            &&& (action == UpdaterAction::DownloadAndInstall) <==> status == Some(
                UpdateStatus::Downloading,
            )
            &&& (action == UpdaterAction::Stop) <==> next == UpdaterPhase::Finished
            &&& updater_waits_for(phase, event) ==> status == event_status(event)
            &&& !updater_waits_for(phase, event) ==> next == phase && status is None
        }),
{
}

/// The statuses a run reports after `Checking`, and the phase it ends in,
/// when the given events arrive in turn from `phase`.
pub open spec fn updater_run(phase: UpdaterPhase, events: Seq<UpdaterEvent>) -> (
    UpdaterPhase,
    Seq<UpdateStatus>,
)
    decreases events.len(),
{
    if events.len() == 0 {
        (phase, Seq::empty())
    } else {
        let (next, status, _) = updater_next(phase, events[0]);
        let (last, rest) = updater_run(next, events.drop_first());
        let reported = match status {
            Some(s) => seq![s] + rest,
            None => rest,
        };
        (last, reported)
    }
}

/// The statuses of a finished run after `Checking`: a failure to obtain the
/// updater or to check, up to date, or a download that ends in success or
/// failure, with `Installing` reported when the download was finished.
pub open spec fn finished_run_statuses(t: Seq<UpdateStatus>) -> bool {
    ||| t.len() == 1 && (t[0] is Failure || t[0] is UpToDate)
    ||| t.len() == 2 && t[0] is Downloading && (t[1] is Failure || t[1] is Success)
    ||| t.len() == 3 && t[0] is Downloading && t[1] is Installing && (t[2] is Failure
        || t[2] is Success)
}

/// What a run in `phase` has reported after `Checking`.
pub open spec fn reported_in_phase(phase: UpdaterPhase, t: Seq<UpdateStatus>) -> bool {
    match phase {
        UpdaterPhase::AwaitingUpdater => t.len() == 0,
        UpdaterPhase::AwaitingCheck => t.len() == 0,
        UpdaterPhase::Downloading => t == seq![UpdateStatus::Downloading],
        UpdaterPhase::Installing => t == seq![UpdateStatus::Downloading, UpdateStatus::Installing],
        UpdaterPhase::Finished => finished_run_statuses(t),
    }
}

proof fn lemma_updater_run(phase: UpdaterPhase, t: Seq<UpdateStatus>, events: Seq<UpdaterEvent>)
    requires
        reported_in_phase(phase, t),
    ensures
        reported_in_phase(updater_run(phase, events).0, t + updater_run(phase, events).1),
    decreases events.len(),
{
    if events.len() == 0 {
        assert(t + Seq::<UpdateStatus>::empty() =~= t);
    } else {
        let (next, status, _) = updater_next(phase, events[0]);
        let t2 = match status {
            Some(s) => t.push(s),
            None => t,
        };
        match phase {
            UpdaterPhase::AwaitingUpdater => {
                assert(t =~= Seq::<UpdateStatus>::empty());
            },
            UpdaterPhase::AwaitingCheck => {
                assert(t =~= Seq::<UpdateStatus>::empty());
            },
            UpdaterPhase::Downloading => {},
            UpdaterPhase::Installing => {},
            UpdaterPhase::Finished => {},
        }
        if next == UpdaterPhase::Downloading && phase != UpdaterPhase::Downloading {
            assert(t2 =~= seq![UpdateStatus::Downloading]);
        }
        if next == UpdaterPhase::Installing && phase != UpdaterPhase::Installing {
            assert(t2 =~= seq![UpdateStatus::Downloading, UpdateStatus::Installing]);
        }
        assert(reported_in_phase(next, t2));
        lemma_updater_run(next, t2, events.drop_first());
        let rest = updater_run(next, events.drop_first()).1;
        match status {
            Some(s) => {
                assert(t.push(s) + rest =~= t + (seq![s] + rest));
            },
            None => {},
        }
    }
}

/// Law: over a whole run, the statuses reported are `Checking` followed, once
/// the run has finished, by exactly one of the run's outcomes: a failure, up
/// to date, or `Downloading` (then `Installing` once the download finished)
/// ending in success or failure, so that exactly one final status is reported
/// and it comes last. An unfinished run has reported no final status.
pub proof fn law_updater_run_statuses(events: Seq<UpdaterEvent>)
    ensures
        ({
            let (last, t) = updater_run(UpdaterPhase::AwaitingUpdater, events);
            &&& last == UpdaterPhase::Finished ==> finished_run_statuses(t)
            &&& last == UpdaterPhase::Finished ==> is_terminal_status(t.last())
                && forall|k: int| 0 <= k < t.len() - 1 ==> !is_terminal_status(#[trigger] t[k])
            &&& last != UpdaterPhase::Finished ==> forall|k: int|
                0 <= k < t.len() ==> !is_terminal_status(#[trigger] t[k])
        }),
{
    lemma_updater_run(UpdaterPhase::AwaitingUpdater, Seq::empty(), events);
    let t = updater_run(UpdaterPhase::AwaitingUpdater, events).1;
    assert(Seq::<UpdateStatus>::empty() + t =~= t);
}

} // verus!
