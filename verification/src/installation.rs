use vstd::prelude::*;

use crate::text::str_eq;

verus! {

/// The installation state of a game release.
#[derive(Debug, PartialEq, Eq, Structural, Clone, Copy)]
pub enum GameReleaseStatus {
    Unknown,
    NotDownloaded,
    Corrupted,
    NotInstalled,
    ReadyToPlay,
}

/// Preparing the asset download directory failed.
#[derive(Debug)]
pub enum AssetDownloadDirError {
    CreateDirectory(String),
}

/// Preparing the asset extraction directory failed.
#[derive(Debug)]
pub enum AssetExtractionDirError {
    CreateDirectory(String),
}

/// Checking the installation status of a release failed.
#[derive(Debug)]
pub enum GetInstallationStatusError {
    AssetDownload(AssetDownloadDirError),
    AssetExtraction(AssetExtractionDirError),
    Executable(String),
}

/// What looking for a release's game executable found.
#[derive(Debug)]
pub enum ExecutableLookup {
    /// The release has no installation directory holding an executable.
    DoesNotExist,
    /// The lookup failed.
    Failed(String),
    /// An executable path was found; `is_file` tells whether it is a regular
    /// file (false also when its metadata cannot be read).
    Found { is_file: bool },
}

/// The installation status of a release, given what looking for its
/// executable found: ready to play exactly when the executable is a file.
pub fn installation_status(lookup: ExecutableLookup) -> (res: Result<
    GameReleaseStatus,
    GetInstallationStatusError,
>)
    ensures
        match lookup {
            ExecutableLookup::DoesNotExist => res == Ok::<
                GameReleaseStatus,
                GetInstallationStatusError,
            >(GameReleaseStatus::NotDownloaded),
            ExecutableLookup::Failed(m) => res == Err::<
                GameReleaseStatus,
                GetInstallationStatusError,
            >(GetInstallationStatusError::Executable(m)),
            ExecutableLookup::Found { is_file } => res == Ok::<
                GameReleaseStatus,
                GetInstallationStatusError,
            >(
                if is_file {
                    GameReleaseStatus::ReadyToPlay
                } else {
                    GameReleaseStatus::NotDownloaded
                },
            ),
        },
{
    match lookup {
        ExecutableLookup::DoesNotExist => Ok(GameReleaseStatus::NotDownloaded),
        ExecutableLookup::Failed(m) => Err(GetInstallationStatusError::Executable(m)),
        ExecutableLookup::Found { is_file } => if is_file {
            Ok(GameReleaseStatus::ReadyToPlay)
        } else {
            Ok(GameReleaseStatus::NotDownloaded)
        },
    }
}

/// Installing a release failed; each variant names the step.
#[derive(Debug)]
pub enum ReleaseInstallationError {
    DownloadDir(AssetDownloadDirError),
    ExtractionDir(AssetExtractionDirError),
    Downloader(String),
    NoCompatibleAsset,
    Download(String),
    Extract(String),
    ReleaseStatus(GetInstallationStatusError),
    ActiveRelease(String),
}

/// Whether a release in this status still needs its asset downloaded.
pub open spec fn needs_download(status: GameReleaseStatus) -> bool {
    status == GameReleaseStatus::NotDownloaded || status == GameReleaseStatus::Corrupted || status
        == GameReleaseStatus::Unknown
}

/// Where the installation of a release stands; `status` is the release's
/// status as the installation has updated it so far.
#[derive(Debug, PartialEq, Eq, Structural, Clone, Copy)]
pub enum InstallState {
    CheckingStatus,
    /// Marking the release as the active one; `installed` when the release was
    /// just extracted (cleanup follows), not when it was already ready.
    Activating { status: GameReleaseStatus, installed: bool },
    FindingDownloadDir { status: GameReleaseStatus },
    FindingAsset { status: GameReleaseStatus },
    Downloading { status: GameReleaseStatus },
    FindingInstallDir { status: GameReleaseStatus },
    Extracting { status: GameReleaseStatus },
    CleaningUp { status: GameReleaseStatus },
}

/// What the caller does next to install a release.
#[derive(Debug, PartialEq, Eq, Structural, Clone, Copy)]
pub enum InstallAction {
    /// Determine the release's installation status.
    CheckInstallationStatus,
    /// Set the release as the variant's active release.
    SetActiveRelease,
    /// Find (creating it if needed) the variant's asset download directory.
    GetDownloadDir,
    /// Find the release asset for this OS and architecture.
    FindAsset,
    /// Download the asset into the download directory.
    DownloadAsset,
    /// Find (creating it if needed) the release's installation directory.
    GetInstallationDir,
    /// Extract the downloaded asset into the installation directory.
    ExtractArchive,
    /// Remove the downloaded archive and the variant's other installations;
    /// their failures are ignored.
    CleanUp,
}

/// What the last action of an installation came to.
#[derive(Debug)]
pub enum InstallEvent {
    StatusChecked(Result<GameReleaseStatus, GetInstallationStatusError>),
    ActiveReleaseSet(Result<(), String>),
    DownloadDirFound(Result<(), AssetDownloadDirError>),
    /// Whether a compatible asset was found.
    AssetFound(bool),
    Downloaded(Result<(), String>),
    InstallDirFound(Result<(), AssetExtractionDirError>),
    Extracted(Result<(), String>),
    CleanedUp,
}

/// The next step of an installation. A finished installation carries the
/// release's status as it stands and the outcome.
#[derive(Debug)]
pub enum InstallStep {
    Continue(InstallState, InstallAction),
    Finished { status: GameReleaseStatus, result: Result<(), ReleaseInstallationError> },
}

/// Where an installation goes once the release's status is known: a ready
/// release only becomes the active one, any other is downloaded or installed.
pub open spec fn install_after_status(status: GameReleaseStatus) -> InstallStep {
    if status == GameReleaseStatus::ReadyToPlay {
        InstallStep::Continue(
            InstallState::Activating { status, installed: false },
            InstallAction::SetActiveRelease,
        )
    } else {
        InstallStep::Continue(
            InstallState::FindingDownloadDir { status },
            InstallAction::GetDownloadDir,
        )
    }
}

/// The action an installation in state `s` waits on.
pub open spec fn install_pending_action(s: InstallState) -> InstallAction {
    match s {
        InstallState::CheckingStatus => InstallAction::CheckInstallationStatus,
        InstallState::Activating { .. } => InstallAction::SetActiveRelease,
        InstallState::FindingDownloadDir { .. } => InstallAction::GetDownloadDir,
        InstallState::FindingAsset { .. } => InstallAction::FindAsset,
        InstallState::Downloading { .. } => InstallAction::DownloadAsset,
        InstallState::FindingInstallDir { .. } => InstallAction::GetInstallationDir,
        InstallState::Extracting { .. } => InstallAction::ExtractArchive,
        InstallState::CleaningUp { .. } => InstallAction::CleanUp,
    }
}

/// One step of an installation; an event that does not answer the pending
/// action leaves the state as it is and asks for that action again.
pub open spec fn install_next(s: InstallState, e: InstallEvent) -> InstallStep {
    match (s, e) {
        (InstallState::CheckingStatus, InstallEvent::StatusChecked(r)) => match r {
            Ok(status) => install_after_status(status),
            Err(err) => InstallStep::Finished {
                status: GameReleaseStatus::Unknown,
                result: Err(ReleaseInstallationError::ReleaseStatus(err)),
            },
        },
        (InstallState::Activating { status, installed }, InstallEvent::ActiveReleaseSet(r)) => match r {
            Err(m) => InstallStep::Finished {
                status,
                result: Err(ReleaseInstallationError::ActiveRelease(m)),
            },
            Ok(_) => if installed {
                InstallStep::Continue(InstallState::CleaningUp { status }, InstallAction::CleanUp)
            } else {
                InstallStep::Finished { status, result: Ok(()) }
            },
        },
        (InstallState::FindingDownloadDir { status }, InstallEvent::DownloadDirFound(r)) => match r {
            Ok(_) => InstallStep::Continue(
                InstallState::FindingAsset { status },
                InstallAction::FindAsset,
            ),
            Err(err) => InstallStep::Finished {
                status,
                result: Err(ReleaseInstallationError::DownloadDir(err)),
            },
        },
        (InstallState::FindingAsset { status }, InstallEvent::AssetFound(found)) => if !found {
            InstallStep::Finished {
                status,
                result: Err(ReleaseInstallationError::NoCompatibleAsset),
            }
        } else if needs_download(status) {
            InstallStep::Continue(InstallState::Downloading { status }, InstallAction::DownloadAsset)
        } else {
            InstallStep::Continue(
                InstallState::FindingInstallDir { status },
                InstallAction::GetInstallationDir,
            )
        },
        (InstallState::Downloading { status }, InstallEvent::Downloaded(r)) => match r {
            Ok(_) => InstallStep::Continue(
                InstallState::FindingInstallDir { status: GameReleaseStatus::NotInstalled },
                InstallAction::GetInstallationDir,
            ),
            Err(m) => InstallStep::Finished {
                status,
                result: Err(ReleaseInstallationError::Download(m)),
            },
        },
        (InstallState::FindingInstallDir { status }, InstallEvent::InstallDirFound(r)) => match r {
            Ok(_) => InstallStep::Continue(
                InstallState::Extracting { status },
                InstallAction::ExtractArchive,
            ),
            Err(err) => InstallStep::Finished {
                status,
                result: Err(ReleaseInstallationError::ExtractionDir(err)),
            },
        },
        (InstallState::Extracting { status }, InstallEvent::Extracted(r)) => match r {
            Ok(_) => InstallStep::Continue(
                InstallState::Activating { status: GameReleaseStatus::ReadyToPlay, installed: true },
                InstallAction::SetActiveRelease,
            ),
            Err(m) => InstallStep::Finished {
                status,
                result: Err(ReleaseInstallationError::Extract(m)),
            },
        },
        (InstallState::CleaningUp { status }, InstallEvent::CleanedUp) => InstallStep::Finished {
            status,
            result: Ok(()),
        },
        (s, _) => InstallStep::Continue(s, install_pending_action(s)),
    }
}

fn after_status(status: GameReleaseStatus) -> (r: InstallStep)
    ensures
        r == install_after_status(status),
{
    if status == GameReleaseStatus::ReadyToPlay {
        InstallStep::Continue(
            InstallState::Activating { status, installed: false },
            InstallAction::SetActiveRelease,
        )
    } else {
        InstallStep::Continue(
            InstallState::FindingDownloadDir { status },
            InstallAction::GetDownloadDir,
        )
    }
}

fn install_pending(s: InstallState) -> (a: InstallAction)
    ensures
        a == install_pending_action(s),
{
    match s {
        InstallState::CheckingStatus => InstallAction::CheckInstallationStatus,
        InstallState::Activating { .. } => InstallAction::SetActiveRelease,
        InstallState::FindingDownloadDir { .. } => InstallAction::GetDownloadDir,
        InstallState::FindingAsset { .. } => InstallAction::FindAsset,
        InstallState::Downloading { .. } => InstallAction::DownloadAsset,
        InstallState::FindingInstallDir { .. } => InstallAction::GetInstallationDir,
        InstallState::Extracting { .. } => InstallAction::ExtractArchive,
        InstallState::CleaningUp { .. } => InstallAction::CleanUp,
    }
}

fn status_needs_download(status: GameReleaseStatus) -> (b: bool)
    ensures
        b == needs_download(status),
{
    status == GameReleaseStatus::NotDownloaded || status == GameReleaseStatus::Corrupted || status
        == GameReleaseStatus::Unknown
}

/// Starts installing a release whose status is `status`: an unknown status is
/// checked first.
pub fn install_start(status: GameReleaseStatus) -> (r: InstallStep)
    ensures
        status == GameReleaseStatus::Unknown ==> r == InstallStep::Continue(
            InstallState::CheckingStatus,
            InstallAction::CheckInstallationStatus,
        ),
        status != GameReleaseStatus::Unknown ==> r == install_after_status(status),
        r == install_first_step(status),
{
    if status == GameReleaseStatus::Unknown {
        InstallStep::Continue(InstallState::CheckingStatus, InstallAction::CheckInstallationStatus)
    } else {
        after_status(status)
    }
}

/// Advances the installation of a release by one event.
pub fn install_step(s: InstallState, e: InstallEvent) -> (r: InstallStep)
    ensures
        r == install_next(s, e),
{
    match (s, e) {
        (InstallState::CheckingStatus, InstallEvent::StatusChecked(r)) => match r {
            Ok(status) => after_status(status),
            Err(err) => InstallStep::Finished {
                status: GameReleaseStatus::Unknown,
                result: Err(ReleaseInstallationError::ReleaseStatus(err)),
            },
        },
        (InstallState::Activating { status, installed }, InstallEvent::ActiveReleaseSet(r)) => match r {
            Err(m) => InstallStep::Finished {
                status,
                result: Err(ReleaseInstallationError::ActiveRelease(m)),
            },
            Ok(_) => if installed {
                InstallStep::Continue(InstallState::CleaningUp { status }, InstallAction::CleanUp)
            } else {
                InstallStep::Finished { status, result: Ok(()) }
            },
        },
        (InstallState::FindingDownloadDir { status }, InstallEvent::DownloadDirFound(r)) => match r {
            Ok(_) => InstallStep::Continue(
                InstallState::FindingAsset { status },
                InstallAction::FindAsset,
            ),
            Err(err) => InstallStep::Finished {
                status,
                result: Err(ReleaseInstallationError::DownloadDir(err)),
            },
        },
        (InstallState::FindingAsset { status }, InstallEvent::AssetFound(found)) => if !found {
            InstallStep::Finished {
                status,
                result: Err(ReleaseInstallationError::NoCompatibleAsset),
            }
        } else if status_needs_download(status) {
            InstallStep::Continue(InstallState::Downloading { status }, InstallAction::DownloadAsset)
        } else {
            InstallStep::Continue(
                InstallState::FindingInstallDir { status },
                InstallAction::GetInstallationDir,
            )
        },
        (InstallState::Downloading { status }, InstallEvent::Downloaded(r)) => match r {
            Ok(_) => InstallStep::Continue(
                InstallState::FindingInstallDir { status: GameReleaseStatus::NotInstalled },
                InstallAction::GetInstallationDir,
            ),
            Err(m) => InstallStep::Finished {
                status,
                result: Err(ReleaseInstallationError::Download(m)),
            },
        },
        (InstallState::FindingInstallDir { status }, InstallEvent::InstallDirFound(r)) => match r {
            Ok(_) => InstallStep::Continue(
                InstallState::Extracting { status },
                InstallAction::ExtractArchive,
            ),
            Err(err) => InstallStep::Finished {
                status,
                result: Err(ReleaseInstallationError::ExtractionDir(err)),
            },
        },
        (InstallState::Extracting { status }, InstallEvent::Extracted(r)) => match r {
            Ok(_) => InstallStep::Continue(
                InstallState::Activating { status: GameReleaseStatus::ReadyToPlay, installed: true },
                InstallAction::SetActiveRelease,
            ),
            Err(m) => InstallStep::Finished {
                status,
                result: Err(ReleaseInstallationError::Extract(m)),
            },
        },
        (InstallState::CleaningUp { status }, InstallEvent::CleanedUp) => InstallStep::Finished {
            status,
            result: Ok(()),
        },
        (s, _) => InstallStep::Continue(s, install_pending(s)),
    }
}

/// Whether every state an installation reaches from `s` keeps `status` ready
/// to play once the activation or cleanup phases are reached.
pub open spec fn ready_when_activating(s: InstallState) -> bool {
    match s {
        InstallState::Activating { status, .. } => status == GameReleaseStatus::ReadyToPlay,
        InstallState::CleaningUp { status } => status == GameReleaseStatus::ReadyToPlay,
        _ => true,
    }
}

/// Law: a successful installation leaves the release ready to play, and
/// succeeds only once the release has been made the active one (after its
/// cleanup, when it had to be installed).
pub proof fn law_successful_install_is_ready_and_active(s: InstallState, e: InstallEvent)
    requires
        ready_when_activating(s),
    ensures
        install_next(s, e) matches InstallStep::Finished { status, result: Ok(_) } ==> (status
            == GameReleaseStatus::ReadyToPlay && ((s matches InstallState::Activating {
            installed: false,
            ..
        } && (e matches InstallEvent::ActiveReleaseSet(Ok(_)))) || (s is CleaningUp && (e
            matches InstallEvent::CleanedUp)))),
        install_next(s, e) matches InstallStep::Continue(next, _) ==> ready_when_activating(next),
{
}

/// Law: the start of an installation keeps `ready_when_activating`, so by the
/// law above every success of a run from there leaves the release ready.
pub proof fn law_install_start_ready(status: GameReleaseStatus)
    ensures
        install_after_status(status) matches InstallStep::Continue(next, _)
            ==> ready_when_activating(next),
        ready_when_activating(InstallState::CheckingStatus),
{
}

/// The first step of installing a release whose status is `status`.
pub open spec fn install_first_step(status: GameReleaseStatus) -> InstallStep {
    if status == GameReleaseStatus::Unknown {
        InstallStep::Continue(InstallState::CheckingStatus, InstallAction::CheckInstallationStatus)
    } else {
        install_after_status(status)
    }
}

/// Where an installation that is at `step` gets to after `events`.
pub open spec fn install_run(step: InstallStep, events: Seq<InstallEvent>) -> InstallStep
    decreases events.len(),
{
    if events.len() == 0 {
        step
    } else {
        match step {
            InstallStep::Continue(s, _) => install_run(
                install_next(s, events[0]),
                events.drop_first(),
            ),
            InstallStep::Finished { .. } => step,
        }
    }
}

proof fn lemma_install_run_ready(step: InstallStep, events: Seq<InstallEvent>)
    requires
        step matches InstallStep::Continue(s, _) ==> ready_when_activating(s),
        step matches InstallStep::Finished { status, result: Ok(_) } ==> status
            == GameReleaseStatus::ReadyToPlay,
    ensures
        install_run(step, events) matches InstallStep::Finished { status, result: Ok(_) } ==> status
            == GameReleaseStatus::ReadyToPlay,
    decreases events.len(),
{
    if events.len() > 0 {
        if let InstallStep::Continue(s, _) = step {
            law_successful_install_is_ready_and_active(s, events[0]);
            lemma_install_run_ready(install_next(s, events[0]), events.drop_first());
        }
    }
}

/// Law: whatever happens along the way, an installation that succeeds leaves
/// the release ready to play.
pub proof fn law_install_success_means_ready(status: GameReleaseStatus, events: Seq<InstallEvent>)
    ensures
        install_run(install_first_step(status), events) matches InstallStep::Finished {
            status: final_status,
            result: Ok(_),
        } ==> final_status == GameReleaseStatus::ReadyToPlay,
{
    lemma_install_run_ready(install_first_step(status), events);
}

/// Law: the asset is downloaded exactly when the release's status says it is
/// missing, corrupted or unknown; an already ready release is never
/// downloaded again.
pub proof fn law_download_only_when_needed(status: GameReleaseStatus)
    ensures
        install_next(InstallState::FindingAsset { status }, InstallEvent::AssetFound(true))
            == (if needs_download(status) {
            InstallStep::Continue(InstallState::Downloading { status }, InstallAction::DownloadAsset)
        } else {
            InstallStep::Continue(
                InstallState::FindingInstallDir { status },
                InstallAction::GetInstallationDir,
            )
        }),
        install_after_status(GameReleaseStatus::ReadyToPlay) == InstallStep::Continue(
            InstallState::Activating { status: GameReleaseStatus::ReadyToPlay, installed: false },
            InstallAction::SetActiveRelease,
        ),
{
}

/// Whether `e` answers the action an installation in state `s` waits on.
pub open spec fn install_answers(s: InstallState, e: InstallEvent) -> bool {
    match s {
        InstallState::CheckingStatus => e is StatusChecked,
        InstallState::Activating { .. } => e is ActiveReleaseSet,
        InstallState::FindingDownloadDir { .. } => e is DownloadDirFound,
        InstallState::FindingAsset { .. } => e is AssetFound,
        InstallState::Downloading { .. } => e is Downloaded,
        InstallState::FindingInstallDir { .. } => e is InstallDirFound,
        InstallState::Extracting { .. } => e is Extracted,
        InstallState::CleaningUp { .. } => e is CleanedUp,
    }
}

/// The failure an event reports, as the error an installation gives for it.
pub open spec fn install_failure(e: InstallEvent) -> Option<ReleaseInstallationError> {
    match e {
        InstallEvent::StatusChecked(Err(err)) => Some(ReleaseInstallationError::ReleaseStatus(err)),
        InstallEvent::ActiveReleaseSet(Err(m)) => Some(ReleaseInstallationError::ActiveRelease(m)),
        InstallEvent::DownloadDirFound(Err(err)) => Some(ReleaseInstallationError::DownloadDir(err)),
        InstallEvent::AssetFound(false) => Some(ReleaseInstallationError::NoCompatibleAsset),
        InstallEvent::Downloaded(Err(m)) => Some(ReleaseInstallationError::Download(m)),
        InstallEvent::InstallDirFound(Err(err)) => Some(
            ReleaseInstallationError::ExtractionDir(err),
        ),
        InstallEvent::Extracted(Err(m)) => Some(ReleaseInstallationError::Extract(m)),
        _ => None,
    }
}

/// The release's status as an installation in state `s` holds it; unknown
/// while it is being checked.
pub open spec fn held_status(s: InstallState) -> GameReleaseStatus {
    match s {
        InstallState::CheckingStatus => GameReleaseStatus::Unknown,
        InstallState::Activating { status, .. } => status,
        InstallState::FindingDownloadDir { status } => status,
        InstallState::FindingAsset { status } => status,
        InstallState::Downloading { status } => status,
        InstallState::FindingInstallDir { status } => status,
        InstallState::Extracting { status } => status,
        InstallState::CleaningUp { status } => status,
    }
}

/// Law: every failure ends the installation at once with that failure's
/// error, and the release keeps the status it had; an event that answers
/// nothing changes nothing.
pub proof fn law_install_failure_ends_install(s: InstallState, e: InstallEvent)
    ensures
        install_answers(s, e) && install_failure(e) is Some ==> install_next(s, e) == (
        InstallStep::Finished { status: held_status(s), result: Err(install_failure(e)->Some_0) }),
        !install_answers(s, e) ==> install_next(s, e) == InstallStep::Continue(
            s,
            install_pending_action(s),
        ),
        install_next(s, e) matches InstallStep::Continue(next, action) ==> action
            == install_pending_action(next),
{
}

/// Once the status is known: a ready release is made the active one, any
/// other goes on to find the download directory, holding its status.
pub open spec fn install_plan_after_status(status: GameReleaseStatus) -> InstallStep {
    if status == GameReleaseStatus::ReadyToPlay {
        InstallStep::Continue(
            InstallState::Activating { status, installed: false },
            InstallAction::SetActiveRelease,
        )
    } else {
        InstallStep::Continue(InstallState::FindingDownloadDir { status }, InstallAction::GetDownloadDir)
    }
}

/// Once the asset is found: a release that is not downloaded, corrupted or of
/// unknown status is downloaded; any other is extracted straight away.
pub open spec fn install_plan_after_asset(status: GameReleaseStatus) -> InstallStep {
    if status == GameReleaseStatus::NotDownloaded || status == GameReleaseStatus::Corrupted
        || status == GameReleaseStatus::Unknown {
        InstallStep::Continue(InstallState::Downloading { status }, InstallAction::DownloadAsset)
    } else {
        InstallStep::Continue(
            InstallState::FindingInstallDir { status },
            InstallAction::GetInstallationDir,
        )
    }
}

/// Once downloaded, the release is not installed yet and is extracted next.
pub open spec fn install_plan_after_download() -> InstallStep {
    InstallStep::Continue(
        InstallState::FindingInstallDir { status: GameReleaseStatus::NotInstalled },
        InstallAction::GetInstallationDir,
    )
}

/// Once extracted, the release is ready to play and is made the active one.
pub open spec fn install_plan_after_extraction() -> InstallStep {
    InstallStep::Continue(
        InstallState::Activating { status: GameReleaseStatus::ReadyToPlay, installed: true },
        InstallAction::SetActiveRelease,
    )
}

/// Law: what an installation does once a release's status is known. A ready
/// release is only made the active one; any other goes on to find the
/// download directory, holding the status it has. Once the asset is found,
/// it is downloaded exactly when the status is not downloaded, corrupted or
/// unknown, and otherwise extracted straight away; a download leaves the
/// release not installed, and an extraction leaves it ready to play before
/// it is made the active one.
pub proof fn law_install_follows_status(status: GameReleaseStatus)
    ensures
        install_after_status(status) == install_plan_after_status(status),
        install_next(InstallState::FindingDownloadDir { status }, InstallEvent::DownloadDirFound(Ok(())))
            == (InstallStep::Continue(InstallState::FindingAsset { status }, InstallAction::FindAsset)),
        install_next(InstallState::FindingAsset { status }, InstallEvent::AssetFound(true))
            == install_plan_after_asset(status),
        install_next(InstallState::Downloading { status }, InstallEvent::Downloaded(Ok(())))
            == install_plan_after_download(),
        install_next(InstallState::FindingInstallDir { status }, InstallEvent::InstallDirFound(Ok(())))
            == (InstallStep::Continue(InstallState::Extracting { status }, InstallAction::ExtractArchive)),
        install_next(InstallState::Extracting { status }, InstallEvent::Extracted(Ok(())))
            == install_plan_after_extraction(),
{
}

/// Law: an installation that starts from an unknown status and has it checked
/// goes on exactly as one that started with the checked status: the checked
/// status is the one the installation acts on.
pub proof fn law_checked_status_is_acted_on(
    checked: GameReleaseStatus,
    rest: Seq<InstallEvent>,
)
    requires
        checked != GameReleaseStatus::Unknown,
    ensures
        install_run(
            install_first_step(GameReleaseStatus::Unknown),
            seq![InstallEvent::StatusChecked(Ok(checked))] + rest,
        ) == install_run(install_first_step(checked), rest),
{
    let events = seq![InstallEvent::StatusChecked(Ok(checked))] + rest;
    assert(events[0] == InstallEvent::StatusChecked(Ok(checked)));
    assert(events.drop_first() =~= rest);
}

/// Whether an entry next to the new installation is another installation to
/// delete: a directory whose canonical path could be read and differs from
/// the new installation's canonical path.
pub open spec fn is_other_installation(
    is_dir: Option<bool>,
    canonical: Option<Seq<char>>,
    kept: Seq<char>,
) -> bool {
    is_dir == Some(true) && canonical is Some && canonical->Some_0 != kept
}

/// Whether to delete an entry next to the new installation. `is_dir` is
/// `None` when the entry's metadata cannot be read, `canonical` when its
/// canonical path cannot be.
pub fn should_remove_installation(
    is_dir: Option<bool>,
    canonical: Option<&str>,
    kept: &str,
) -> (remove: bool)
    ensures
        remove == is_other_installation(
            is_dir,
            match canonical {
                Some(c) => Some(c@),
                None => None,
            },
            kept@,
        ),
{
    match (is_dir, canonical) {
        (Some(true), Some(c)) => !str_eq(c, kept),
        _ => false,
    }
}

} // verus!
