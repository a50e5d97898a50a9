use vstd::prelude::*;

use crate::path::{parent_of, path_parent};
use crate::platform::{GameVariant, OS};
use crate::text::{i64_to_decimal, signed_decimal};

verus! {

/// An automatic backup taken when a game is launched.
#[derive(Debug)]
pub struct BackupEntry {
    pub id: i64,
    pub game_variant: GameVariant,
    pub release_version: String,
    pub timestamp: u64,
}

/// A failure of the automatic backup repository, with the underlying message.
#[derive(Debug)]
pub enum BackupRepositoryError {
    Add(String),
    Get(String),
    Delete(String),
    NotFound(i64),
}

/// Launching a game failed; each variant names the step.
#[derive(Debug)]
pub enum LaunchGameError {
    DownloadDir(String),
    GameDir(String),
    Executable(String),
    /// The directory holding the executable could not be determined.
    ExecutableDir,
    Launch(String),
    BackupRepository(BackupRepositoryError),
    UserGameDataDir(String),
    Stdout,
    Stderr,
    Release(String),
    Subtasks(String),
    BackupArchivePath(String),
    RemoveBackupFile(String),
}

/// The description of a backup repository failure.
pub open spec fn backup_repository_error_text(e: BackupRepositoryError) -> Seq<char> {
    match e {
        BackupRepositoryError::Add(m) => "failed to add backup entry: "@ + m@,
        BackupRepositoryError::Get(m) => "failed to get backup entries: "@ + m@,
        BackupRepositoryError::Delete(m) => "failed to delete backup entry: "@ + m@,
        BackupRepositoryError::NotFound(id) => "backup entry with id "@ + signed_decimal(id as int)
            + " not found"@,
    }
}

/// The description of a launch failure.
pub open spec fn launch_error_text(e: LaunchGameError) -> Seq<char> {
    match e {
        LaunchGameError::DownloadDir(m) => "download directory not found: "@ + m@,
        LaunchGameError::GameDir(m) => "game directory not found: "@ + m@,
        LaunchGameError::Executable(m) => "executable not found: "@ + m@,
        LaunchGameError::ExecutableDir => "executable directory not found"@,
        LaunchGameError::Launch(m) => "failed to launch game: "@ + m@,
        LaunchGameError::BackupRepository(r) => "failed to access backup repository: "@
            + backup_repository_error_text(r),
        LaunchGameError::UserGameDataDir(m) => "failed to get user data directory: "@ + m@,
        LaunchGameError::Stdout => "failed to get stdout from child process"@,
        LaunchGameError::Stderr => "failed to get stderr from child process"@,
        LaunchGameError::Release(m) => "failed to obtain release: "@ + m@,
        LaunchGameError::Subtasks(m) => "failed to wait for subtasks: "@ + m@,
        LaunchGameError::BackupArchivePath(m) => "failed to get backup archive path: "@ + m@,
        LaunchGameError::RemoveBackupFile(m) => "failed to remove backup file: "@ + m@,
    }
}

impl BackupRepositoryError {
    /// The human-readable description of this error.
    pub fn message(&self) -> (s: String)
        ensures
            s@ == backup_repository_error_text(*self),
    {
        match self {
            BackupRepositoryError::Add(m) => String::from_str("failed to add backup entry: ").concat(
                m.as_str(),
            ),
            BackupRepositoryError::Get(m) => String::from_str(
                "failed to get backup entries: ",
            ).concat(m.as_str()),
            BackupRepositoryError::Delete(m) => String::from_str(
                "failed to delete backup entry: ",
            ).concat(m.as_str()),
            BackupRepositoryError::NotFound(id) => {
                let digits = i64_to_decimal(*id);
                String::from_str("backup entry with id ").concat(digits.as_str()).concat(
                    " not found",
                )
            },
        }
    }
}

impl LaunchGameError {
    /// The human-readable description of this error, wrapping the inner one.
    pub fn message(&self) -> (s: String)
        ensures
            s@ == launch_error_text(*self),
    {
        match self {
            LaunchGameError::DownloadDir(m) => String::from_str(
                "download directory not found: ",
            ).concat(m.as_str()),
            LaunchGameError::GameDir(m) => String::from_str("game directory not found: ").concat(
                m.as_str(),
            ),
            LaunchGameError::Executable(m) => String::from_str("executable not found: ").concat(
                m.as_str(),
            ),
            LaunchGameError::ExecutableDir => String::from_str("executable directory not found"),
            LaunchGameError::Launch(m) => String::from_str("failed to launch game: ").concat(
                m.as_str(),
            ),
            LaunchGameError::BackupRepository(r) => {
                let inner = r.message();
                String::from_str("failed to access backup repository: ").concat(inner.as_str())
            },
            LaunchGameError::UserGameDataDir(m) => String::from_str(
                "failed to get user data directory: ",
            ).concat(m.as_str()),
            LaunchGameError::Stdout => String::from_str("failed to get stdout from child process"),
            LaunchGameError::Stderr => String::from_str("failed to get stderr from child process"),
            LaunchGameError::Release(m) => String::from_str("failed to obtain release: ").concat(
                m.as_str(),
            ),
            LaunchGameError::Subtasks(m) => String::from_str("failed to wait for subtasks: ").concat(
                m.as_str(),
            ),
            LaunchGameError::BackupArchivePath(m) => String::from_str(
                "failed to get backup archive path: ",
            ).concat(m.as_str()),
            LaunchGameError::RemoveBackupFile(m) => String::from_str(
                "failed to remove backup file: ",
            ).concat(m.as_str()),
        }
    }
}

/// Payload of the `Error` game event.
#[derive(Debug)]
pub struct GameErrorPayload {
    pub message: String,
}

/// Payload of the `Exit` game event.
#[derive(Debug, PartialEq, Eq, Structural, Clone, Copy)]
pub struct GameExitPayload {
    pub code: Option<i32>,
}

/// Events emitted during a game session.
#[derive(Debug)]
pub enum GameEvent {
    /// A log line of the game's output.
    Log(String),
    /// The game process has exited.
    Exit(GameExitPayload),
    /// An error occurred during the session.
    Error(GameErrorPayload),
}

/// The contents of the game's `lastworld.json`.
#[derive(Debug)]
pub struct LastWorld {
    /// The name of the world that was last played.
    pub world_name: String,
}

/// The log event that reports a failed (non-fatal) backup of the save files.
pub fn backup_failure_event(message: &str) -> (e: GameEvent)
    ensures
        e matches GameEvent::Log(line) && line@ == "Failed to backup save files: "@ + message@,
{
    GameEvent::Log(String::from_str("Failed to backup save files: ").concat(message))
}

/// The arguments a game is started with: its user data directory, and the
/// world to load if one is given.
pub open spec fn launch_arguments_spec(user_data_dir: Seq<char>, world: Option<Seq<char>>) -> Seq<
    Seq<char>,
> {
    match world {
        Some(w) => seq!["--userdir"@, user_data_dir, "--world"@, w],
        None => seq!["--userdir"@, user_data_dir],
    }
}

/// The views of a list of strings.
pub open spec fn strings_view(v: Seq<String>) -> Seq<Seq<char>> {
    v.map_values(|s: String| s@)
}

/// The command-line arguments of a game launch.
pub fn launch_arguments(user_data_dir: &str, world: Option<&str>) -> (args: Vec<String>)
    ensures
        strings_view(args@) == launch_arguments_spec(
            user_data_dir@,
            match world {
                Some(w) => Some(w@),
                None => None,
            },
        ),
{
    let mut args: Vec<String> = Vec::new();
    args.push(String::from_str("--userdir"));
    args.push(String::from_str(user_data_dir));
    match world {
        Some(w) => {
            args.push(String::from_str("--world"));
            args.push(String::from_str(w));
        },
        None => {},
    }
    assert(strings_view(args@) =~= launch_arguments_spec(
        user_data_dir@,
        match world {
            Some(w) => Some(w@),
            None => None,
        },
    ));
    args
}

/// The command that starts a game: the program, the directory it runs in and
/// its arguments.
#[derive(Debug)]
pub struct LaunchCommand {
    pub program: String,
    pub current_dir: String,
    pub args: Vec<String>,
}

/// The command that starts the executable `executable`: it runs in the
/// executable's parent directory with the launch arguments; `None` when the
/// executable's path has no parent.
pub fn launch_command(os: OS, executable: &str, user_data_dir: &str, world: Option<&str>) -> (r:
    Option<LaunchCommand>)
    ensures
        match path_parent(os, executable@) {
            None => r is None,
            Some(dir) => r is Some && r->Some_0.program@ == executable@ && r->Some_0.current_dir@
                == dir && strings_view(r->Some_0.args@) == launch_arguments_spec(
                user_data_dir@,
                match world {
                    Some(w) => Some(w@),
                    None => None,
                },
            ),
        },
{
    match parent_of(os, executable) {
        None => None,
        Some(dir) => Some(
            LaunchCommand {
                program: String::from_str(executable),
                current_dir: dir,
                args: launch_arguments(user_data_dir, world),
            },
        ),
    }
}

/// How many of `count` backups are removed to keep at most `max`.
pub open spec fn backups_to_delete_spec(count: nat, max: nat) -> nat {
    if count > max { (count - max) as nat } else { 0 }
}

/// How many of `count` backups are removed to keep at most `max`.
pub fn backups_to_delete(count: usize, max: usize) -> (n: usize)
    ensures
        n == backups_to_delete_spec(count as nat, max as nat),
{
    count.saturating_sub(max)
}

/// The start of a cleanup of old backups, given the listing of a variant's
/// backups sorted from oldest to newest: the backups to prune (the oldest,
/// so that at most `max` remain, the newest untouched), or the listing's
/// failure. Only the listing can fail a cleanup: the pruning of single
/// backups never does.
pub fn prune_plan(listing: Result<Vec<BackupEntry>, BackupRepositoryError>, max: usize) -> (r: Result<
    Vec<BackupEntry>,
    LaunchGameError,
>)
    ensures
        match listing {
            Ok(bs) => r is Ok && r->Ok_0@ == bs@.subrange(
                0,
                backups_to_delete_spec(bs@.len(), max as nat) as int,
            ),
            Err(e) => r == Err::<Vec<BackupEntry>, LaunchGameError>(
                LaunchGameError::BackupRepository(e),
            ),
        },
{
    match listing {
        Ok(bs) => {
            let mut to_prune = bs;
            let n = backups_to_delete(to_prune.len(), max);
            to_prune.truncate(n);
            Ok(to_prune)
        },
        Err(e) => Err(LaunchGameError::BackupRepository(e)),
    }
}

/// The archive file to remove when pruning one backup, given the outcome of
/// deleting its entry and of finding its archive path: the path, only when
/// both succeeded; otherwise no file is touched.
pub fn archive_to_remove<P, E>(
    entry_deletion: Result<(), BackupRepositoryError>,
    archive_path: Result<P, E>,
) -> (r: Option<P>)
    ensures
        r == match (entry_deletion, archive_path) {
            (Ok(_), Ok(p)) => Some(p),
            _ => None::<P>,
        },
{
    match (entry_deletion, archive_path) {
        (Ok(_), Ok(p)) => Some(p),
        _ => None,
    }
}

/// Law: pruning keeps exactly the newest `max` backups when there are more,
/// and all of them otherwise.
pub proof fn law_pruning_keeps_newest(count: nat, max: nat)
    ensures
        count - backups_to_delete_spec(count, max) == if count > max { max } else { count },
{
}

// ---------------------------------------------------------------------------
// Preparing a launch
// ---------------------------------------------------------------------------

/// Where the preparation of a game launch stands.
#[derive(Debug)]
pub enum PrepareLaunchState {
    FindingExecutable,
    AddingBackupEntry,
    BackingUp { id: i64 },
    /// The backup failed; its entry is being removed.
    RemovingBackupEntry { id: i64, error: String },
    /// `backup_failure` is the message of a failed backup, if it failed.
    FindingUserDataDir { backup_failure: Option<String> },
}

/// What the caller does next to prepare a game launch.
#[derive(Debug, PartialEq, Eq, Structural, Clone, Copy)]
pub enum PrepareLaunchAction {
    /// Find the game executable of the release.
    GetExecutable,
    /// Add an automatic backup entry for the release's variant, version and timestamp.
    AddBackupEntry,
    /// Archive the save files into the backup with this id.
    BackupSaveFiles { id: i64 },
    /// Delete the backup entry with this id.
    DeleteBackupEntry { id: i64 },
    /// Find (creating it if needed) the variant's user data directory.
    GetUserDataDir,
}

/// What the last action of a launch preparation came to.
#[derive(Debug)]
pub enum PrepareLaunchEvent {
    /// The executable was found; `Ok` tells whether its path has a parent directory.
    ExecutableFound(Result<bool, String>),
    BackupEntryAdded(Result<i64, BackupRepositoryError>),
    SavesBackedUp(Result<(), String>),
    BackupEntryDeleted(Result<(), BackupRepositoryError>),
    UserDataDirFound(Result<(), String>),
}

/// The next step of a launch preparation. A finished preparation that
/// succeeded carries the message of a failed backup, if the backup failed.
#[derive(Debug)]
pub enum PrepareLaunchStep {
    Continue(PrepareLaunchState, PrepareLaunchAction),
    Finished(Result<Option<String>, LaunchGameError>),
}

/// The action a preparation in state `s` waits on.
pub open spec fn prepare_pending_action(s: PrepareLaunchState) -> PrepareLaunchAction {
    match s {
        PrepareLaunchState::FindingExecutable => PrepareLaunchAction::GetExecutable,
        PrepareLaunchState::AddingBackupEntry => PrepareLaunchAction::AddBackupEntry,
        PrepareLaunchState::BackingUp { id } => PrepareLaunchAction::BackupSaveFiles { id },
        PrepareLaunchState::RemovingBackupEntry { id, .. } => PrepareLaunchAction::DeleteBackupEntry {
            id,
        },
        PrepareLaunchState::FindingUserDataDir { .. } => PrepareLaunchAction::GetUserDataDir,
    }
}

/// One step of a launch preparation; an event that does not answer the
/// pending action leaves the state as it is and asks for that action again.
pub open spec fn prepare_launch_next(s: PrepareLaunchState, e: PrepareLaunchEvent) -> PrepareLaunchStep {
    match (s, e) {
        (PrepareLaunchState::FindingExecutable, PrepareLaunchEvent::ExecutableFound(r)) => match r {
            Err(m) => PrepareLaunchStep::Finished(Err(LaunchGameError::Executable(m))),
            Ok(has_parent) => if has_parent {
                PrepareLaunchStep::Continue(
                    PrepareLaunchState::AddingBackupEntry,
                    PrepareLaunchAction::AddBackupEntry,
                )
            } else {
                PrepareLaunchStep::Finished(Err(LaunchGameError::ExecutableDir))
            },
        },
        (PrepareLaunchState::AddingBackupEntry, PrepareLaunchEvent::BackupEntryAdded(r)) => match r {
            Ok(id) => PrepareLaunchStep::Continue(
                PrepareLaunchState::BackingUp { id },
                PrepareLaunchAction::BackupSaveFiles { id },
            ),
            Err(err) => PrepareLaunchStep::Finished(Err(LaunchGameError::BackupRepository(err))),
        },
        (PrepareLaunchState::BackingUp { id }, PrepareLaunchEvent::SavesBackedUp(r)) => match r {
            Ok(_) => PrepareLaunchStep::Continue(
                PrepareLaunchState::FindingUserDataDir { backup_failure: None },
                PrepareLaunchAction::GetUserDataDir,
            ),
            Err(m) => PrepareLaunchStep::Continue(
                PrepareLaunchState::RemovingBackupEntry { id, error: m },
                PrepareLaunchAction::DeleteBackupEntry { id },
            ),
        },
        (
            PrepareLaunchState::RemovingBackupEntry { error, .. },
            PrepareLaunchEvent::BackupEntryDeleted(r),
        ) => match r {
            Ok(_) => PrepareLaunchStep::Continue(
                PrepareLaunchState::FindingUserDataDir { backup_failure: Some(error) },
                PrepareLaunchAction::GetUserDataDir,
            ),
            Err(err) => PrepareLaunchStep::Finished(Err(LaunchGameError::BackupRepository(err))),
        },
        (
            PrepareLaunchState::FindingUserDataDir { backup_failure },
            PrepareLaunchEvent::UserDataDirFound(r),
        ) => match r {
            Ok(_) => PrepareLaunchStep::Finished(Ok(backup_failure)),
            Err(m) => PrepareLaunchStep::Finished(Err(LaunchGameError::UserGameDataDir(m))),
        },
        (s, _) => PrepareLaunchStep::Continue(s, prepare_pending_action(s)),
    }
}

fn prepare_pending(s: &PrepareLaunchState) -> (a: PrepareLaunchAction)
    ensures
        a == prepare_pending_action(*s),
{
    match s {
        PrepareLaunchState::FindingExecutable => PrepareLaunchAction::GetExecutable,
        PrepareLaunchState::AddingBackupEntry => PrepareLaunchAction::AddBackupEntry,
        PrepareLaunchState::BackingUp { id } => PrepareLaunchAction::BackupSaveFiles { id: *id },
        PrepareLaunchState::RemovingBackupEntry { id, .. } => PrepareLaunchAction::DeleteBackupEntry {
            id: *id,
        },
        PrepareLaunchState::FindingUserDataDir { .. } => PrepareLaunchAction::GetUserDataDir,
    }
}

/// Starts preparing a launch: first the game executable is found.
pub fn prepare_launch_start() -> (r: (PrepareLaunchState, PrepareLaunchAction))
    ensures
        r.0 is FindingExecutable,
        r.1 == PrepareLaunchAction::GetExecutable,
{
    (PrepareLaunchState::FindingExecutable, PrepareLaunchAction::GetExecutable)
}

/// Advances the preparation of a launch by one event.
pub fn prepare_launch_step(s: PrepareLaunchState, e: PrepareLaunchEvent) -> (r: PrepareLaunchStep)
    ensures
        r == prepare_launch_next(s, e),
{
    let pending = prepare_pending(&s);
    match (s, e) {
        (PrepareLaunchState::FindingExecutable, PrepareLaunchEvent::ExecutableFound(r)) => match r {
            Err(m) => PrepareLaunchStep::Finished(Err(LaunchGameError::Executable(m))),
            Ok(has_parent) => if has_parent {
                PrepareLaunchStep::Continue(
                    PrepareLaunchState::AddingBackupEntry,
                    PrepareLaunchAction::AddBackupEntry,
                )
            } else {
                PrepareLaunchStep::Finished(Err(LaunchGameError::ExecutableDir))
            },
        },
        (PrepareLaunchState::AddingBackupEntry, PrepareLaunchEvent::BackupEntryAdded(r)) => match r {
            Ok(id) => PrepareLaunchStep::Continue(
                PrepareLaunchState::BackingUp { id },
                PrepareLaunchAction::BackupSaveFiles { id },
            ),
            Err(err) => PrepareLaunchStep::Finished(Err(LaunchGameError::BackupRepository(err))),
        },
        (PrepareLaunchState::BackingUp { id }, PrepareLaunchEvent::SavesBackedUp(r)) => match r {
            Ok(_) => PrepareLaunchStep::Continue(
                PrepareLaunchState::FindingUserDataDir { backup_failure: None },
                PrepareLaunchAction::GetUserDataDir,
            ),
            Err(m) => PrepareLaunchStep::Continue(
                PrepareLaunchState::RemovingBackupEntry { id, error: m },
                PrepareLaunchAction::DeleteBackupEntry { id },
            ),
        },
        (
            PrepareLaunchState::RemovingBackupEntry { error, .. },
            PrepareLaunchEvent::BackupEntryDeleted(r),
        ) => match r {
            Ok(_) => PrepareLaunchStep::Continue(
                PrepareLaunchState::FindingUserDataDir { backup_failure: Some(error) },
                PrepareLaunchAction::GetUserDataDir,
            ),
            Err(err) => PrepareLaunchStep::Finished(Err(LaunchGameError::BackupRepository(err))),
        },
        (
            PrepareLaunchState::FindingUserDataDir { backup_failure },
            PrepareLaunchEvent::UserDataDirFound(r),
        ) => match r {
            Ok(_) => PrepareLaunchStep::Finished(Ok(backup_failure)),
            Err(m) => PrepareLaunchStep::Finished(Err(LaunchGameError::UserGameDataDir(m))),
        },
        (s, _) => PrepareLaunchStep::Continue(s, pending),
    }
}

/// Law: a failed backup of the save files does not stop the launch: its
/// entry is removed, and once that succeeds the preparation goes on and, if
/// it finishes, reports the backup's failure instead of failing.
pub proof fn law_backup_failure_is_not_fatal(id: i64, error: String)
    ensures
        prepare_launch_next(
            PrepareLaunchState::BackingUp { id },
            PrepareLaunchEvent::SavesBackedUp(Err(error)),
        ) == PrepareLaunchStep::Continue(
            PrepareLaunchState::RemovingBackupEntry { id, error },
            PrepareLaunchAction::DeleteBackupEntry { id },
        ),
        prepare_launch_next(
            PrepareLaunchState::RemovingBackupEntry { id, error },
            PrepareLaunchEvent::BackupEntryDeleted(Ok(())),
        ) == PrepareLaunchStep::Continue(
            PrepareLaunchState::FindingUserDataDir { backup_failure: Some(error) },
            PrepareLaunchAction::GetUserDataDir,
        ),
        prepare_launch_next(
            PrepareLaunchState::FindingUserDataDir { backup_failure: Some(error) },
            PrepareLaunchEvent::UserDataDirFound(Ok(())),
        ) == PrepareLaunchStep::Finished(Ok::<Option<String>, LaunchGameError>(Some(error))),
{
}

/// Law: a backup entry is deleted only when its backup failed.
pub proof fn law_backup_entry_deleted_only_on_failure(
    s: PrepareLaunchState,
    e: PrepareLaunchEvent,
)
    ensures
        (prepare_launch_next(s, e) matches PrepareLaunchStep::Continue(
            _,
            PrepareLaunchAction::DeleteBackupEntry { .. },
        )) ==> (s is BackingUp && (e matches PrepareLaunchEvent::SavesBackedUp(Err(_))))
            || s is RemovingBackupEntry,
{
}

/// Whether `e` answers the action a launch preparation in state `s` waits on.
pub open spec fn prepare_answers(s: PrepareLaunchState, e: PrepareLaunchEvent) -> bool {
    match s {
        PrepareLaunchState::FindingExecutable => e is ExecutableFound,
        PrepareLaunchState::AddingBackupEntry => e is BackupEntryAdded,
        PrepareLaunchState::BackingUp { .. } => e is SavesBackedUp,
        PrepareLaunchState::RemovingBackupEntry { .. } => e is BackupEntryDeleted,
        PrepareLaunchState::FindingUserDataDir { .. } => e is UserDataDirFound,
    }
}

/// The failure an event reports that stops a launch, as the error the launch
/// gives for it. A failed backup of the save files is none: it does not stop
/// the launch.
pub open spec fn prepare_failure(e: PrepareLaunchEvent) -> Option<LaunchGameError> {
    match e {
        PrepareLaunchEvent::ExecutableFound(Err(m)) => Some(LaunchGameError::Executable(m)),
        PrepareLaunchEvent::ExecutableFound(Ok(false)) => Some(LaunchGameError::ExecutableDir),
        PrepareLaunchEvent::BackupEntryAdded(Err(err)) => Some(
            LaunchGameError::BackupRepository(err),
        ),
        PrepareLaunchEvent::BackupEntryDeleted(Err(err)) => Some(
            LaunchGameError::BackupRepository(err),
        ),
        PrepareLaunchEvent::UserDataDirFound(Err(m)) => Some(LaunchGameError::UserGameDataDir(m)),
        _ => None,
    }
}

/// Law: every failure that stops a launch ends its preparation at once with
/// that failure's error, so a user data directory that cannot be had fails the
/// launch; an event that answers nothing changes nothing.
pub proof fn law_prepare_failure_ends_preparation(s: PrepareLaunchState, e: PrepareLaunchEvent)
    ensures
        prepare_answers(s, e) && prepare_failure(e) is Some ==> prepare_launch_next(s, e)
            == PrepareLaunchStep::Finished(Err(prepare_failure(e)->Some_0)),
        !prepare_answers(s, e) ==> prepare_launch_next(s, e) == PrepareLaunchStep::Continue(
            s,
            prepare_pending_action(s),
        ),
        prepare_launch_next(s, e) matches PrepareLaunchStep::Continue(next, action) ==> action
            == prepare_pending_action(next),
        prepare_launch_next(s, e) matches PrepareLaunchStep::Continue(
            PrepareLaunchState::BackingUp { id: x },
            _,
        ) ==> (e matches PrepareLaunchEvent::BackupEntryAdded(Ok(added)) && x == added) || (
        s matches PrepareLaunchState::BackingUp { id } && x == id),
        prepare_launch_next(s, e) matches PrepareLaunchStep::Continue(
            PrepareLaunchState::RemovingBackupEntry { id: x, error: m },
            _,
        ) ==> (s matches PrepareLaunchState::BackingUp { id } && x == id && (
        e matches PrepareLaunchEvent::SavesBackedUp(Err(failure)) && m == failure)) || (
        s matches PrepareLaunchState::RemovingBackupEntry { id, error } && x == id && m == error),
{
}

/// Law: a preparation succeeds only on the step where the user data
/// directory was found, and then reports the backup failure it carried, if
/// any; a successful backup carries none.
pub proof fn law_prepare_success_needs_user_data_dir(s: PrepareLaunchState, e: PrepareLaunchEvent)
    ensures
        prepare_launch_next(s, e) matches PrepareLaunchStep::Finished(Ok(failure)) ==> (s == (
        PrepareLaunchState::FindingUserDataDir { backup_failure: failure }) && (e matches PrepareLaunchEvent::UserDataDirFound(Ok(_)))),
        (s is BackingUp && (e matches PrepareLaunchEvent::SavesBackedUp(Ok(_))))
            ==> prepare_launch_next(s, e) == PrepareLaunchStep::Continue(
            PrepareLaunchState::FindingUserDataDir { backup_failure: None },
            PrepareLaunchAction::GetUserDataDir,
        ),
{
}

} // verus!
