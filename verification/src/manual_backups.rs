use vstd::prelude::*;

use crate::platform::GameVariant;

verus! {

/// A manual backup as the repository stores it.
#[derive(Debug)]
pub struct ManualBackupEntry {
    pub id: i64,
    pub name: String,
    pub game_variant: GameVariant,
    pub timestamp: u64,
    pub notes: Option<String>,
}

/// A failure of the manual backup repository, with the underlying message.
#[derive(Debug)]
pub enum ManualBackupRepositoryError {
    Add(String),
    Get(String),
    Delete(String),
    NotFound(i64),
}

/// Listing the manual backups of a variant failed.
#[derive(Debug)]
pub enum ListManualBackupsError {
    Get(ManualBackupRepositoryError),
}

/// The outcome of listing the manual backups of a variant, given what the
/// repository answered.
pub fn list_manual_backups(
    listed: Result<Vec<ManualBackupEntry>, ManualBackupRepositoryError>,
) -> (res: Result<Vec<ManualBackupEntry>, ListManualBackupsError>)
    ensures
        match listed {
            Ok(v) => res == Ok::<Vec<ManualBackupEntry>, ListManualBackupsError>(v),
            Err(e) => res == Err::<Vec<ManualBackupEntry>, ListManualBackupsError>(
                ListManualBackupsError::Get(e),
            ),
        },
{
    match listed {
        Ok(v) => Ok(v),
        Err(e) => Err(ListManualBackupsError::Get(e)),
    }
}

// ---------------------------------------------------------------------------
// Creating a manual backup
// ---------------------------------------------------------------------------

/// Creating a manual backup failed.
#[derive(Debug)]
pub enum CreateManualBackupError {
    Add(ManualBackupRepositoryError),
    BackupArchivePath(String),
    ArchiveCreation(String),
    UserGameDataDir(String),
}

/// Where the creation of a manual backup stands.
#[derive(Debug)]
pub enum CreateBackupState {
    AddingEntry,
    FindingUserDataDir { id: i64 },
    FindingArchivePath { id: i64 },
    Archiving { id: i64 },
    /// The archive could not be written; its entry is being removed.
    RemovingEntry { id: i64, error: String },
}

/// What the caller does next to create a manual backup.
#[derive(Debug, PartialEq, Eq, Structural, Clone, Copy)]
pub enum CreateBackupAction {
    /// Add a repository entry for the backup's name, variant, timestamp and notes.
    AddEntry,
    /// Find (creating it if needed) the variant's user data directory.
    GetUserDataDir,
    /// Find the archive path of the backup with this id and the backup's name.
    GetArchivePath { id: i64 },
    /// Zip the user data directory's `save` directory into the archive path.
    CreateArchive,
    /// Delete the repository entry with this id.
    DeleteEntry { id: i64 },
}

/// What the last action of a manual backup creation came to.
#[derive(Debug)]
pub enum CreateBackupEvent {
    EntryAdded(Result<i64, ManualBackupRepositoryError>),
    UserDataDirFound(Result<(), String>),
    ArchivePathFound(Result<(), String>),
    ArchiveCreated(Result<(), String>),
    /// The entry's deletion was attempted; its outcome does not matter.
    EntryDeleted,
}

/// The next step of a manual backup creation.
#[derive(Debug)]
pub enum CreateBackupStep {
    Continue(CreateBackupState, CreateBackupAction),
    Finished(Result<i64, CreateManualBackupError>),
}

/// The action a creation in state `s` waits on.
pub open spec fn create_pending_action(s: CreateBackupState) -> CreateBackupAction {
    match s {
        CreateBackupState::AddingEntry => CreateBackupAction::AddEntry,
        CreateBackupState::FindingUserDataDir { .. } => CreateBackupAction::GetUserDataDir,
        CreateBackupState::FindingArchivePath { id } => CreateBackupAction::GetArchivePath { id },
        CreateBackupState::Archiving { .. } => CreateBackupAction::CreateArchive,
        CreateBackupState::RemovingEntry { id, .. } => CreateBackupAction::DeleteEntry { id },
    }
}

/// One step of a manual backup creation; an event that does not answer the
/// pending action leaves the state as it is and asks for that action again.
pub open spec fn create_backup_next(s: CreateBackupState, e: CreateBackupEvent) -> CreateBackupStep {
    match (s, e) {
        (CreateBackupState::AddingEntry, CreateBackupEvent::EntryAdded(r)) => match r {
            Ok(id) => CreateBackupStep::Continue(
                CreateBackupState::FindingUserDataDir { id },
                CreateBackupAction::GetUserDataDir,
            ),
            Err(err) => CreateBackupStep::Finished(Err(CreateManualBackupError::Add(err))),
        },
        (CreateBackupState::FindingUserDataDir { id }, CreateBackupEvent::UserDataDirFound(r)) => match r {
            Ok(_) => CreateBackupStep::Continue(
                CreateBackupState::FindingArchivePath { id },
                CreateBackupAction::GetArchivePath { id },
            ),
            Err(m) => CreateBackupStep::Finished(Err(CreateManualBackupError::UserGameDataDir(m))),
        },
        (CreateBackupState::FindingArchivePath { id }, CreateBackupEvent::ArchivePathFound(r)) => match r {
            Ok(_) => CreateBackupStep::Continue(
                CreateBackupState::Archiving { id },
                CreateBackupAction::CreateArchive,
            ),
            Err(m) => CreateBackupStep::Finished(
                Err(CreateManualBackupError::BackupArchivePath(m)),
            ),
        },
        (CreateBackupState::Archiving { id }, CreateBackupEvent::ArchiveCreated(r)) => match r {
            Ok(_) => CreateBackupStep::Finished(Ok(id)),
            Err(m) => CreateBackupStep::Continue(
                CreateBackupState::RemovingEntry { id, error: m },
                CreateBackupAction::DeleteEntry { id },
            ),
        },
        (CreateBackupState::RemovingEntry { error, .. }, CreateBackupEvent::EntryDeleted) => {
            CreateBackupStep::Finished(Err(CreateManualBackupError::ArchiveCreation(error)))
        },
        (s, _) => CreateBackupStep::Continue(s, create_pending_action(s)),
    }
}

fn create_pending(s: &CreateBackupState) -> (a: CreateBackupAction)
    ensures
        a == create_pending_action(*s),
{
    match s {
        CreateBackupState::AddingEntry => CreateBackupAction::AddEntry,
        CreateBackupState::FindingUserDataDir { .. } => CreateBackupAction::GetUserDataDir,
        CreateBackupState::FindingArchivePath { id } => CreateBackupAction::GetArchivePath {
            id: *id,
        },
        CreateBackupState::Archiving { .. } => CreateBackupAction::CreateArchive,
        CreateBackupState::RemovingEntry { id, .. } => CreateBackupAction::DeleteEntry { id: *id },
    }
}

/// Starts creating a manual backup: first its repository entry is added.
pub fn create_backup_start() -> (r: (CreateBackupState, CreateBackupAction))
    ensures
        r.0 is AddingEntry,
        r.1 == CreateBackupAction::AddEntry,
{
    (CreateBackupState::AddingEntry, CreateBackupAction::AddEntry)
}

/// Advances the creation of a manual backup by one event.
pub fn create_backup_step(s: CreateBackupState, e: CreateBackupEvent) -> (r: CreateBackupStep)
    ensures
        r == create_backup_next(s, e),
{
    let pending = create_pending(&s);
    match (s, e) {
        (CreateBackupState::AddingEntry, CreateBackupEvent::EntryAdded(r)) => match r {
            Ok(id) => CreateBackupStep::Continue(
                CreateBackupState::FindingUserDataDir { id },
                CreateBackupAction::GetUserDataDir,
            ),
            Err(err) => CreateBackupStep::Finished(Err(CreateManualBackupError::Add(err))),
        },
        (CreateBackupState::FindingUserDataDir { id }, CreateBackupEvent::UserDataDirFound(r)) => match r {
            Ok(_) => CreateBackupStep::Continue(
                CreateBackupState::FindingArchivePath { id },
                CreateBackupAction::GetArchivePath { id },
            ),
            Err(m) => CreateBackupStep::Finished(Err(CreateManualBackupError::UserGameDataDir(m))),
        },
        (CreateBackupState::FindingArchivePath { id }, CreateBackupEvent::ArchivePathFound(r)) => match r {
            Ok(_) => CreateBackupStep::Continue(
                CreateBackupState::Archiving { id },
                CreateBackupAction::CreateArchive,
            ),
            Err(m) => CreateBackupStep::Finished(
                Err(CreateManualBackupError::BackupArchivePath(m)),
            ),
        },
        (CreateBackupState::Archiving { id }, CreateBackupEvent::ArchiveCreated(r)) => match r {
            Ok(_) => CreateBackupStep::Finished(Ok(id)),
            Err(m) => CreateBackupStep::Continue(
                CreateBackupState::RemovingEntry { id, error: m },
                CreateBackupAction::DeleteEntry { id },
            ),
        },
        (CreateBackupState::RemovingEntry { error, .. }, CreateBackupEvent::EntryDeleted) => {
            CreateBackupStep::Finished(Err(CreateManualBackupError::ArchiveCreation(error)))
        },
        (s, _) => CreateBackupStep::Continue(s, pending),
    }
}

/// Law: when the archive of a new backup cannot be written, the backup's entry
/// is deleted and the creation fails with the archive error; only a written
/// archive makes the creation succeed, with the id the repository assigned.
pub proof fn law_failed_archive_removes_entry(id: i64, error: String, e: CreateBackupEvent)
    ensures
        create_backup_next(
            CreateBackupState::Archiving { id },
            CreateBackupEvent::ArchiveCreated(Err(error)),
        ) == CreateBackupStep::Continue(
            CreateBackupState::RemovingEntry { id, error },
            CreateBackupAction::DeleteEntry { id },
        ),
        create_backup_next(
            CreateBackupState::RemovingEntry { id, error },
            CreateBackupEvent::EntryDeleted,
        ) == CreateBackupStep::Finished(Err(CreateManualBackupError::ArchiveCreation(error))),
{
}

/// Law: a creation succeeds only on the step where its archive was written,
/// and then with the id of the entry it added.
pub proof fn law_create_succeeds_only_with_archive(s: CreateBackupState, e: CreateBackupEvent)
    ensures
        create_backup_next(s, e) matches CreateBackupStep::Finished(Ok(id)) ==> (s
            == (CreateBackupState::Archiving { id }) && (e matches CreateBackupEvent::ArchiveCreated(
            Ok(_),
        ))),
{
}


/// Whether `e` answers the action a creation in state `s` waits on.
pub open spec fn create_answers(s: CreateBackupState, e: CreateBackupEvent) -> bool {
    match s {
        CreateBackupState::AddingEntry => e is EntryAdded,
        CreateBackupState::FindingUserDataDir { .. } => e is UserDataDirFound,
        CreateBackupState::FindingArchivePath { .. } => e is ArchivePathFound,
        CreateBackupState::Archiving { .. } => e is ArchiveCreated,
        CreateBackupState::RemovingEntry { .. } => e is EntryDeleted,
    }
}

/// The failure an event reports that ends a creation at once, as its error.
/// A failed archive is none: its entry is removed first.
pub open spec fn create_failure(e: CreateBackupEvent) -> Option<CreateManualBackupError> {
    match e {
        CreateBackupEvent::EntryAdded(Err(err)) => Some(CreateManualBackupError::Add(err)),
        CreateBackupEvent::UserDataDirFound(Err(m)) => Some(
            CreateManualBackupError::UserGameDataDir(m),
        ),
        CreateBackupEvent::ArchivePathFound(Err(m)) => Some(
            CreateManualBackupError::BackupArchivePath(m),
        ),
        _ => None,
    }
}

/// The id of the entry a creation has added, once it has one.
pub open spec fn created_id(s: CreateBackupState) -> Option<i64> {
    match s {
        CreateBackupState::AddingEntry => None,
        CreateBackupState::FindingUserDataDir { id } => Some(id),
        CreateBackupState::FindingArchivePath { id } => Some(id),
        CreateBackupState::Archiving { id } => Some(id),
        CreateBackupState::RemovingEntry { id, .. } => Some(id),
    }
}

/// Law: every failure but the archive's ends a creation at once with its
/// error; an event that answers nothing changes nothing; the id of the added
/// entry is kept from the moment the repository assigns it, and every action
/// asked for is the one the new state waits on.
pub proof fn law_create_failure_and_id(s: CreateBackupState, e: CreateBackupEvent)
    ensures
        create_answers(s, e) && create_failure(e) is Some ==> create_backup_next(s, e)
            == CreateBackupStep::Finished(Err(create_failure(e)->Some_0)),
        !create_answers(s, e) ==> create_backup_next(s, e) == CreateBackupStep::Continue(
            s,
            create_pending_action(s),
        ),
        create_backup_next(s, e) matches CreateBackupStep::Continue(next, action) ==> action
            == create_pending_action(next) && created_id(next) == (match e {
            CreateBackupEvent::EntryAdded(Ok(id)) => if s is AddingEntry {
                Some(id)
            } else {
                created_id(s)
            },
            _ => created_id(s),
        }),
{
}

// ---------------------------------------------------------------------------
// Deleting a manual backup
// ---------------------------------------------------------------------------

/// Deleting a manual backup failed.
#[derive(Debug)]
pub enum DeleteManualBackupError {
    Get(ManualBackupRepositoryError),
    BackupArchivePath(String),
    RemoveBackupFile(String),
}

/// How removing a backup's archive file went.
#[derive(Debug)]
pub enum FileRemoval {
    Removed,
    /// There was no file to remove.
    NotFound,
    Failed(String),
}

/// Where the deletion of a manual backup stands. `entry_id` is the id the
/// fetched entry carries.
#[derive(Debug)]
pub enum DeleteBackupState {
    FetchingEntry { id: i64 },
    FindingArchivePath { id: i64, entry_id: i64 },
    DeletingEntry { id: i64, entry_id: i64 },
    RemovingFile { entry_id: i64 },
    /// The archive could not be removed; the entry is being put back.
    Reinserting { entry_id: i64, error: String },
}

/// What the caller does next to delete a manual backup.
#[derive(Debug, PartialEq, Eq, Structural, Clone, Copy)]
pub enum DeleteBackupAction {
    /// Fetch the repository entry with this id.
    GetEntry { id: i64 },
    /// Find the archive path of the backup with this id and the entry's name.
    GetArchivePath { entry_id: i64 },
    /// Delete the repository entry with this id.
    DeleteEntry { id: i64 },
    /// Remove the archive file.
    RemoveArchiveFile,
    /// Insert the fetched entry again, under its original id.
    ReinsertEntry { entry_id: i64 },
}

/// What the last action of a manual backup deletion came to.
#[derive(Debug)]
pub enum DeleteBackupEvent {
    /// The entry was fetched; `Ok` carries the entry's id.
    EntryFetched(Result<i64, ManualBackupRepositoryError>),
    ArchivePathFound(Result<(), String>),
    EntryDeleted(Result<(), ManualBackupRepositoryError>),
    FileRemoved(FileRemoval),
    /// The entry's reinsertion was attempted; its outcome does not matter.
    EntryReinserted,
}

/// The next step of a manual backup deletion.
#[derive(Debug)]
pub enum DeleteBackupStep {
    Continue(DeleteBackupState, DeleteBackupAction),
    Finished(Result<(), DeleteManualBackupError>),
}

/// The action a deletion in state `s` waits on.
pub open spec fn delete_pending_action(s: DeleteBackupState) -> DeleteBackupAction {
    match s {
        DeleteBackupState::FetchingEntry { id } => DeleteBackupAction::GetEntry { id },
        DeleteBackupState::FindingArchivePath { entry_id, .. } => DeleteBackupAction::GetArchivePath {
            entry_id,
        },
        DeleteBackupState::DeletingEntry { id, .. } => DeleteBackupAction::DeleteEntry { id },
        DeleteBackupState::RemovingFile { .. } => DeleteBackupAction::RemoveArchiveFile,
        DeleteBackupState::Reinserting { entry_id, .. } => DeleteBackupAction::ReinsertEntry {
            entry_id,
        },
    }
}

/// One step of a manual backup deletion; an event that does not answer the
/// pending action leaves the state as it is and asks for that action again.
pub open spec fn delete_backup_next(s: DeleteBackupState, e: DeleteBackupEvent) -> DeleteBackupStep {
    match (s, e) {
        (DeleteBackupState::FetchingEntry { id }, DeleteBackupEvent::EntryFetched(r)) => match r {
            Ok(entry_id) => DeleteBackupStep::Continue(
                DeleteBackupState::FindingArchivePath { id, entry_id },
                DeleteBackupAction::GetArchivePath { entry_id },
            ),
            Err(err) => DeleteBackupStep::Finished(Err(DeleteManualBackupError::Get(err))),
        },
        (
            DeleteBackupState::FindingArchivePath { id, entry_id },
            DeleteBackupEvent::ArchivePathFound(r),
        ) => match r {
            Ok(_) => DeleteBackupStep::Continue(
                DeleteBackupState::DeletingEntry { id, entry_id },
                DeleteBackupAction::DeleteEntry { id },
            ),
            Err(m) => DeleteBackupStep::Finished(
                Err(DeleteManualBackupError::BackupArchivePath(m)),
            ),
        },
        (DeleteBackupState::DeletingEntry { entry_id, .. }, DeleteBackupEvent::EntryDeleted(r)) => match r {
            Ok(_) => DeleteBackupStep::Continue(
                DeleteBackupState::RemovingFile { entry_id },
                DeleteBackupAction::RemoveArchiveFile,
            ),
            Err(err) => DeleteBackupStep::Finished(Err(DeleteManualBackupError::Get(err))),
        },
        (DeleteBackupState::RemovingFile { entry_id }, DeleteBackupEvent::FileRemoved(r)) => match r {
            FileRemoval::Failed(m) => DeleteBackupStep::Continue(
                DeleteBackupState::Reinserting { entry_id, error: m },
                DeleteBackupAction::ReinsertEntry { entry_id },
            ),
            _ => DeleteBackupStep::Finished(Ok(())),
        },
        (DeleteBackupState::Reinserting { error, .. }, DeleteBackupEvent::EntryReinserted) => {
            DeleteBackupStep::Finished(Err(DeleteManualBackupError::RemoveBackupFile(error)))
        },
        (s, _) => DeleteBackupStep::Continue(s, delete_pending_action(s)),
    }
}

fn delete_pending(s: &DeleteBackupState) -> (a: DeleteBackupAction)
    ensures
        a == delete_pending_action(*s),
{
    match s {
        DeleteBackupState::FetchingEntry { id } => DeleteBackupAction::GetEntry { id: *id },
        DeleteBackupState::FindingArchivePath { entry_id, .. } => DeleteBackupAction::GetArchivePath {
            entry_id: *entry_id,
        },
        DeleteBackupState::DeletingEntry { id, .. } => DeleteBackupAction::DeleteEntry { id: *id },
        DeleteBackupState::RemovingFile { .. } => DeleteBackupAction::RemoveArchiveFile,
        DeleteBackupState::Reinserting { entry_id, .. } => DeleteBackupAction::ReinsertEntry {
            entry_id: *entry_id,
        },
    }
}

/// Starts deleting the manual backup with id `id`: first its entry is fetched.
pub fn delete_backup_start(id: i64) -> (r: (DeleteBackupState, DeleteBackupAction))
    ensures
        r.0 == (DeleteBackupState::FetchingEntry { id }),
        r.1 == (DeleteBackupAction::GetEntry { id }),
{
    (DeleteBackupState::FetchingEntry { id }, DeleteBackupAction::GetEntry { id })
}

/// Advances the deletion of a manual backup by one event.
pub fn delete_backup_step(s: DeleteBackupState, e: DeleteBackupEvent) -> (r: DeleteBackupStep)
    ensures
        r == delete_backup_next(s, e),
{
    let pending = delete_pending(&s);
    match (s, e) {
        (DeleteBackupState::FetchingEntry { id }, DeleteBackupEvent::EntryFetched(r)) => match r {
            Ok(entry_id) => DeleteBackupStep::Continue(
                DeleteBackupState::FindingArchivePath { id, entry_id },
                DeleteBackupAction::GetArchivePath { entry_id },
            ),
            Err(err) => DeleteBackupStep::Finished(Err(DeleteManualBackupError::Get(err))),
        },
        (
            DeleteBackupState::FindingArchivePath { id, entry_id },
            DeleteBackupEvent::ArchivePathFound(r),
        ) => match r {
            Ok(_) => DeleteBackupStep::Continue(
                DeleteBackupState::DeletingEntry { id, entry_id },
                DeleteBackupAction::DeleteEntry { id },
            ),
            Err(m) => DeleteBackupStep::Finished(
                Err(DeleteManualBackupError::BackupArchivePath(m)),
            ),
        },
        (DeleteBackupState::DeletingEntry { entry_id, .. }, DeleteBackupEvent::EntryDeleted(r)) => match r {
            Ok(_) => DeleteBackupStep::Continue(
                DeleteBackupState::RemovingFile { entry_id },
                DeleteBackupAction::RemoveArchiveFile,
            ),
            Err(err) => DeleteBackupStep::Finished(Err(DeleteManualBackupError::Get(err))),
        },
        (DeleteBackupState::RemovingFile { entry_id }, DeleteBackupEvent::FileRemoved(r)) => match r {
            FileRemoval::Failed(m) => DeleteBackupStep::Continue(
                DeleteBackupState::Reinserting { entry_id, error: m },
                DeleteBackupAction::ReinsertEntry { entry_id },
            ),
            _ => DeleteBackupStep::Finished(Ok(())),
        },
        (DeleteBackupState::Reinserting { error, .. }, DeleteBackupEvent::EntryReinserted) => {
            DeleteBackupStep::Finished(Err(DeleteManualBackupError::RemoveBackupFile(error)))
        },
        (s, _) => DeleteBackupStep::Continue(s, pending),
    }
}

/// Law: once a backup's entry is deleted, an archive file that is already
/// gone still counts as success, while any other failure to remove it puts
/// the entry back under the id it had and fails with that error.
pub proof fn law_failed_removal_reinserts_entry(entry_id: i64, error: String)
    ensures
        delete_backup_next(
            DeleteBackupState::RemovingFile { entry_id },
            DeleteBackupEvent::FileRemoved(FileRemoval::NotFound),
        ) == DeleteBackupStep::Finished(Ok::<(), DeleteManualBackupError>(())),
        delete_backup_next(
            DeleteBackupState::RemovingFile { entry_id },
            DeleteBackupEvent::FileRemoved(FileRemoval::Failed(error)),
        ) == DeleteBackupStep::Continue(
            DeleteBackupState::Reinserting { entry_id, error },
            DeleteBackupAction::ReinsertEntry { entry_id },
        ),
        delete_backup_next(
            DeleteBackupState::Reinserting { entry_id, error },
            DeleteBackupEvent::EntryReinserted,
        ) == DeleteBackupStep::Finished(
            Err::<(), DeleteManualBackupError>(DeleteManualBackupError::RemoveBackupFile(error)),
        ),
{
}

/// Law: the archive file is only touched after the entry was deleted, and an
/// entry is only put back after its file could not be removed.
pub proof fn law_entry_deleted_before_file(s: DeleteBackupState, e: DeleteBackupEvent)
    ensures
        deletion_order(delete_backup_next(s, e), s, e),
{
}

/// The ordering that `law_entry_deleted_before_file` states for one step.
pub open spec fn deletion_order(
    step: DeleteBackupStep,
    s: DeleteBackupState,
    e: DeleteBackupEvent,
) -> bool {
    &&& (step matches DeleteBackupStep::Continue(_, DeleteBackupAction::RemoveArchiveFile)) ==> (
    s is DeletingEntry && (e matches DeleteBackupEvent::EntryDeleted(Ok(_)))) || s is RemovingFile
    &&& (step matches DeleteBackupStep::Continue(_, DeleteBackupAction::ReinsertEntry { .. }))
        ==> (s is RemovingFile && (e matches DeleteBackupEvent::FileRemoved(
        FileRemoval::Failed(_),
    ))) || s is Reinserting
}

/// Whether `e` answers the action a deletion in state `s` waits on.
pub open spec fn delete_answers(s: DeleteBackupState, e: DeleteBackupEvent) -> bool {
    match s {
        DeleteBackupState::FetchingEntry { .. } => e is EntryFetched,
        DeleteBackupState::FindingArchivePath { .. } => e is ArchivePathFound,
        DeleteBackupState::DeletingEntry { .. } => e is EntryDeleted,
        DeleteBackupState::RemovingFile { .. } => e is FileRemoved,
        DeleteBackupState::Reinserting { .. } => e is EntryReinserted,
    }
}

/// The failure an event reports that ends a deletion at once, as its error.
/// A file that cannot be removed is none: its entry is put back first.
pub open spec fn delete_failure(e: DeleteBackupEvent) -> Option<DeleteManualBackupError> {
    match e {
        DeleteBackupEvent::EntryFetched(Err(err)) => Some(DeleteManualBackupError::Get(err)),
        DeleteBackupEvent::ArchivePathFound(Err(m)) => Some(
            DeleteManualBackupError::BackupArchivePath(m),
        ),
        DeleteBackupEvent::EntryDeleted(Err(err)) => Some(DeleteManualBackupError::Get(err)),
        _ => None,
    }
}

/// Law: every failure but the file's ends a deletion at once with its error;
/// an event that answers nothing changes nothing; a deletion succeeds exactly
/// when, its entry deleted, its archive file was removed or already gone;
/// the entry deleted is the one asked for and the entry put back is the one
/// fetched; and every action asked for is the one the new state waits on.
pub proof fn law_delete_failure_and_success(s: DeleteBackupState, e: DeleteBackupEvent)
    ensures
        delete_answers(s, e) && delete_failure(e) is Some ==> delete_backup_next(s, e)
            == DeleteBackupStep::Finished(Err(delete_failure(e)->Some_0)),
        !delete_answers(s, e) ==> delete_backup_next(s, e) == DeleteBackupStep::Continue(
            s,
            delete_pending_action(s),
        ),
        (delete_backup_next(s, e) matches DeleteBackupStep::Finished(Ok(_))) <==> (
        s is RemovingFile && (e matches DeleteBackupEvent::FileRemoved(r) && !(r is Failed))),
        delete_backup_next(s, e) matches DeleteBackupStep::Continue(next, action) ==> action
            == delete_pending_action(next),
        delete_backup_next(s, e) matches DeleteBackupStep::Continue(
            _,
            DeleteBackupAction::DeleteEntry { id: x },
        ) ==> (s matches DeleteBackupState::FindingArchivePath { id, .. } && x == id) || (
        s matches DeleteBackupState::DeletingEntry { id, .. } && x == id),
        delete_backup_next(s, e) matches DeleteBackupStep::Continue(
            _,
            DeleteBackupAction::ReinsertEntry { entry_id: x },
        ) ==> (s matches DeleteBackupState::RemovingFile { entry_id } && x == entry_id) || (
        s matches DeleteBackupState::Reinserting { entry_id, .. } && x == entry_id),
        delete_backup_next(s, e) matches DeleteBackupStep::Continue(
            DeleteBackupState::RemovingFile { entry_id: x },
            _,
        ) ==> (s matches DeleteBackupState::DeletingEntry { entry_id, .. } && x == entry_id)
            || (s matches DeleteBackupState::RemovingFile { entry_id } && x == entry_id),
        delete_backup_next(s, e) matches DeleteBackupStep::Continue(
            DeleteBackupState::DeletingEntry { entry_id: x, .. },
            _,
        ) ==> (s matches DeleteBackupState::FindingArchivePath { entry_id, .. } && x == entry_id)
            || (s matches DeleteBackupState::DeletingEntry { entry_id, .. } && x == entry_id),
        delete_backup_next(s, e) matches DeleteBackupStep::Continue(
            DeleteBackupState::FindingArchivePath { id: x, entry_id: y },
            _,
        ) ==> (s matches DeleteBackupState::FetchingEntry { id } && x == id && (
        e matches DeleteBackupEvent::EntryFetched(Ok(fetched)) && y == fetched)) || (
        s matches DeleteBackupState::FindingArchivePath { id, entry_id } && x == id && y
            == entry_id),
        delete_backup_next(s, e) matches DeleteBackupStep::Continue(
            DeleteBackupState::DeletingEntry { id: x, .. },
            _,
        ) ==> (s matches DeleteBackupState::FindingArchivePath { id, .. } && x == id) || (
        s matches DeleteBackupState::DeletingEntry { id, .. } && x == id),
{
}

// ---------------------------------------------------------------------------
// Restoring a manual backup
// ---------------------------------------------------------------------------

/// Restoring a manual backup failed.
#[derive(Debug)]
pub enum RestoreManualBackupError {
    Get(ManualBackupRepositoryError),
    BackupArchivePath(String),
    UserGameDataDir(String),
    Extract(String),
    Delete(ManualBackupRepositoryError),
    ArchiveFileMissing,
}

/// What looking up a backup's archive file found.
#[derive(Debug, PartialEq, Eq, Structural, Clone, Copy)]
pub enum ArchiveCheck {
    Present,
    Missing,
    /// The file's metadata could not be read for another reason.
    Unreadable,
}

/// Where the restoration of a manual backup stands.
#[derive(Debug)]
pub enum RestoreBackupState {
    FetchingEntry { id: i64 },
    FindingArchivePath { id: i64, entry_id: i64 },
    CheckingArchive { id: i64 },
    /// The archive is missing; the entry is being deleted.
    DeletingEntry { id: i64 },
    FindingUserDataDir,
    Extracting,
}

/// What the caller does next to restore a manual backup.
#[derive(Debug, PartialEq, Eq, Structural, Clone, Copy)]
pub enum RestoreBackupAction {
    /// Fetch the repository entry with this id.
    GetEntry { id: i64 },
    /// Find the archive path of the backup with this id and the entry's name.
    GetArchivePath { entry_id: i64 },
    /// Read the archive file's metadata.
    CheckArchive,
    /// Delete the repository entry with this id.
    DeleteEntry { id: i64 },
    /// Find (creating it if needed) the user data directory of the entry's variant.
    GetUserDataDir,
    /// Extract the archive into the user data directory.
    ExtractArchive,
}

/// What the last action of a manual backup restoration came to.
#[derive(Debug)]
pub enum RestoreBackupEvent {
    /// The entry was fetched; `Ok` carries the entry's id.
    EntryFetched(Result<i64, ManualBackupRepositoryError>),
    ArchivePathFound(Result<(), String>),
    ArchiveChecked(ArchiveCheck),
    EntryDeleted(Result<(), ManualBackupRepositoryError>),
    UserDataDirFound(Result<(), String>),
    Extracted(Result<(), String>),
}

/// The next step of a manual backup restoration.
#[derive(Debug)]
pub enum RestoreBackupStep {
    Continue(RestoreBackupState, RestoreBackupAction),
    Finished(Result<(), RestoreManualBackupError>),
}

/// The action a restoration in state `s` waits on.
pub open spec fn restore_pending_action(s: RestoreBackupState) -> RestoreBackupAction {
    match s {
        RestoreBackupState::FetchingEntry { id } => RestoreBackupAction::GetEntry { id },
        RestoreBackupState::FindingArchivePath { entry_id, .. } => RestoreBackupAction::GetArchivePath {
            entry_id,
        },
        RestoreBackupState::CheckingArchive { .. } => RestoreBackupAction::CheckArchive,
        RestoreBackupState::DeletingEntry { id } => RestoreBackupAction::DeleteEntry { id },
        RestoreBackupState::FindingUserDataDir => RestoreBackupAction::GetUserDataDir,
        RestoreBackupState::Extracting => RestoreBackupAction::ExtractArchive,
    }
}

/// One step of a manual backup restoration; an event that does not answer
/// the pending action leaves the state as it is and asks for that action again.
pub open spec fn restore_backup_next(s: RestoreBackupState, e: RestoreBackupEvent) -> RestoreBackupStep {
    match (s, e) {
        (RestoreBackupState::FetchingEntry { id }, RestoreBackupEvent::EntryFetched(r)) => match r {
            Ok(entry_id) => RestoreBackupStep::Continue(
                RestoreBackupState::FindingArchivePath { id, entry_id },
                RestoreBackupAction::GetArchivePath { entry_id },
            ),
            Err(err) => RestoreBackupStep::Finished(Err(RestoreManualBackupError::Get(err))),
        },
        (RestoreBackupState::FindingArchivePath { id, .. }, RestoreBackupEvent::ArchivePathFound(r)) => match r {
            Ok(_) => RestoreBackupStep::Continue(
                RestoreBackupState::CheckingArchive { id },
                RestoreBackupAction::CheckArchive,
            ),
            Err(m) => RestoreBackupStep::Finished(
                Err(RestoreManualBackupError::BackupArchivePath(m)),
            ),
        },
        (RestoreBackupState::CheckingArchive { id }, RestoreBackupEvent::ArchiveChecked(c)) => {
            if c == ArchiveCheck::Missing {
                RestoreBackupStep::Continue(
                    RestoreBackupState::DeletingEntry { id },
                    RestoreBackupAction::DeleteEntry { id },
                )
            } else {
                RestoreBackupStep::Continue(
                    RestoreBackupState::FindingUserDataDir,
                    RestoreBackupAction::GetUserDataDir,
                )
            }
        },
        (RestoreBackupState::DeletingEntry { .. }, RestoreBackupEvent::EntryDeleted(r)) => match r {
            Ok(_) => RestoreBackupStep::Finished(Err(RestoreManualBackupError::ArchiveFileMissing)),
            Err(err) => RestoreBackupStep::Finished(Err(RestoreManualBackupError::Delete(err))),
        },
        (RestoreBackupState::FindingUserDataDir, RestoreBackupEvent::UserDataDirFound(r)) => match r {
            Ok(_) => RestoreBackupStep::Continue(
                RestoreBackupState::Extracting,
                RestoreBackupAction::ExtractArchive,
            ),
            Err(m) => RestoreBackupStep::Finished(Err(RestoreManualBackupError::UserGameDataDir(m))),
        },
        (RestoreBackupState::Extracting, RestoreBackupEvent::Extracted(r)) => match r {
            Ok(_) => RestoreBackupStep::Finished(Ok(())),
            Err(m) => RestoreBackupStep::Finished(Err(RestoreManualBackupError::Extract(m))),
        },
        (s, _) => RestoreBackupStep::Continue(s, restore_pending_action(s)),
    }
}

fn restore_pending(s: &RestoreBackupState) -> (a: RestoreBackupAction)
    ensures
        a == restore_pending_action(*s),
{
    match s {
        RestoreBackupState::FetchingEntry { id } => RestoreBackupAction::GetEntry { id: *id },
        RestoreBackupState::FindingArchivePath { entry_id, .. } => RestoreBackupAction::GetArchivePath {
            entry_id: *entry_id,
        },
        RestoreBackupState::CheckingArchive { .. } => RestoreBackupAction::CheckArchive,
        RestoreBackupState::DeletingEntry { id } => RestoreBackupAction::DeleteEntry { id: *id },
        RestoreBackupState::FindingUserDataDir => RestoreBackupAction::GetUserDataDir,
        RestoreBackupState::Extracting => RestoreBackupAction::ExtractArchive,
    }
}

/// Starts restoring the manual backup with id `id`: first its entry is fetched.
pub fn restore_backup_start(id: i64) -> (r: (RestoreBackupState, RestoreBackupAction))
    ensures
        r.0 == (RestoreBackupState::FetchingEntry { id }),
        r.1 == (RestoreBackupAction::GetEntry { id }),
{
    (RestoreBackupState::FetchingEntry { id }, RestoreBackupAction::GetEntry { id })
}

/// Advances the restoration of a manual backup by one event.
pub fn restore_backup_step(s: RestoreBackupState, e: RestoreBackupEvent) -> (r: RestoreBackupStep)
    ensures
        r == restore_backup_next(s, e),
{
    let pending = restore_pending(&s);
    match (s, e) {
        (RestoreBackupState::FetchingEntry { id }, RestoreBackupEvent::EntryFetched(r)) => match r {
            Ok(entry_id) => RestoreBackupStep::Continue(
                RestoreBackupState::FindingArchivePath { id, entry_id },
                RestoreBackupAction::GetArchivePath { entry_id },
            ),
            Err(err) => RestoreBackupStep::Finished(Err(RestoreManualBackupError::Get(err))),
        },
        (RestoreBackupState::FindingArchivePath { id, .. }, RestoreBackupEvent::ArchivePathFound(r)) => match r {
            Ok(_) => RestoreBackupStep::Continue(
                RestoreBackupState::CheckingArchive { id },
                RestoreBackupAction::CheckArchive,
            ),
            Err(m) => RestoreBackupStep::Finished(
                Err(RestoreManualBackupError::BackupArchivePath(m)),
            ),
        },
        (RestoreBackupState::CheckingArchive { id }, RestoreBackupEvent::ArchiveChecked(c)) => {
            if c == ArchiveCheck::Missing {
                RestoreBackupStep::Continue(
                    RestoreBackupState::DeletingEntry { id },
                    RestoreBackupAction::DeleteEntry { id },
                )
            } else {
                RestoreBackupStep::Continue(
                    RestoreBackupState::FindingUserDataDir,
                    RestoreBackupAction::GetUserDataDir,
                )
            }
        },
        (RestoreBackupState::DeletingEntry { .. }, RestoreBackupEvent::EntryDeleted(r)) => match r {
            Ok(_) => RestoreBackupStep::Finished(Err(RestoreManualBackupError::ArchiveFileMissing)),
            Err(err) => RestoreBackupStep::Finished(Err(RestoreManualBackupError::Delete(err))),
        },
        (RestoreBackupState::FindingUserDataDir, RestoreBackupEvent::UserDataDirFound(r)) => match r {
            Ok(_) => RestoreBackupStep::Continue(
                RestoreBackupState::Extracting,
                RestoreBackupAction::ExtractArchive,
            ),
            Err(m) => RestoreBackupStep::Finished(Err(RestoreManualBackupError::UserGameDataDir(m))),
        },
        (RestoreBackupState::Extracting, RestoreBackupEvent::Extracted(r)) => match r {
            Ok(_) => RestoreBackupStep::Finished(Ok(())),
            Err(m) => RestoreBackupStep::Finished(Err(RestoreManualBackupError::Extract(m))),
        },
        (s, _) => RestoreBackupStep::Continue(s, pending),
    }
}

/// Law: a restoration deletes the backup's entry only when its archive file
/// is missing, and then fails with `ArchiveFileMissing` (or the deletion's
/// error); any other failure, extraction included, keeps the entry.
pub proof fn law_restore_deletes_entry_only_for_missing_archive(
    s: RestoreBackupState,
    e: RestoreBackupEvent,
)
    ensures
        (restore_backup_next(s, e) matches RestoreBackupStep::Continue(
            _,
            RestoreBackupAction::DeleteEntry { .. },
        )) ==> (s is CheckingArchive && e == RestoreBackupEvent::ArchiveChecked(
            ArchiveCheck::Missing,
        )) || s is DeletingEntry,
        (s is DeletingEntry && (e matches RestoreBackupEvent::EntryDeleted(Ok(_))))
            ==> restore_backup_next(s, e) == RestoreBackupStep::Finished(
            Err::<(), RestoreManualBackupError>(RestoreManualBackupError::ArchiveFileMissing),
        ),
{
}

/// Whether `e` answers the action a restoration in state `s` waits on.
pub open spec fn restore_answers(s: RestoreBackupState, e: RestoreBackupEvent) -> bool {
    match s {
        RestoreBackupState::FetchingEntry { .. } => e is EntryFetched,
        RestoreBackupState::FindingArchivePath { .. } => e is ArchivePathFound,
        RestoreBackupState::CheckingArchive { .. } => e is ArchiveChecked,
        RestoreBackupState::DeletingEntry { .. } => e is EntryDeleted,
        RestoreBackupState::FindingUserDataDir => e is UserDataDirFound,
        RestoreBackupState::Extracting => e is Extracted,
    }
}

/// The failure an event reports, as the error a restoration gives for it.
pub open spec fn restore_failure(e: RestoreBackupEvent) -> Option<RestoreManualBackupError> {
    match e {
        RestoreBackupEvent::EntryFetched(Err(err)) => Some(RestoreManualBackupError::Get(err)),
        RestoreBackupEvent::ArchivePathFound(Err(m)) => Some(
            RestoreManualBackupError::BackupArchivePath(m),
        ),
        RestoreBackupEvent::EntryDeleted(Err(err)) => Some(RestoreManualBackupError::Delete(err)),
        RestoreBackupEvent::UserDataDirFound(Err(m)) => Some(
            RestoreManualBackupError::UserGameDataDir(m),
        ),
        RestoreBackupEvent::Extracted(Err(m)) => Some(RestoreManualBackupError::Extract(m)),
        _ => None,
    }
}

/// Law: every failure ends a restoration at once with its error; an event
/// that answers nothing changes nothing; a restoration succeeds exactly when
/// the archive was extracted; an archive that is present or unreadable goes
/// on to the user data directory, and only the backup asked for has its
/// entry deleted; every action asked for is the one the new state waits on.
pub proof fn law_restore_failure_and_success(s: RestoreBackupState, e: RestoreBackupEvent)
    ensures
        restore_answers(s, e) && restore_failure(e) is Some ==> restore_backup_next(s, e)
            == RestoreBackupStep::Finished(Err(restore_failure(e)->Some_0)),
        !restore_answers(s, e) ==> restore_backup_next(s, e) == RestoreBackupStep::Continue(
            s,
            restore_pending_action(s),
        ),
        (restore_backup_next(s, e) matches RestoreBackupStep::Finished(Ok(_))) <==> (s
            is Extracting && (e matches RestoreBackupEvent::Extracted(Ok(_)))),
        (s is CheckingArchive && (e matches RestoreBackupEvent::ArchiveChecked(c) && c
            != ArchiveCheck::Missing)) ==> restore_backup_next(s, e) == RestoreBackupStep::Continue(
            RestoreBackupState::FindingUserDataDir,
            RestoreBackupAction::GetUserDataDir,
        ),
        (s is FindingUserDataDir && (e matches RestoreBackupEvent::UserDataDirFound(Ok(_))))
            ==> restore_backup_next(s, e) == RestoreBackupStep::Continue(
            RestoreBackupState::Extracting,
            RestoreBackupAction::ExtractArchive,
        ),
        restore_backup_next(s, e) matches RestoreBackupStep::Continue(next, action) ==> action
            == restore_pending_action(next),
        restore_backup_next(s, e) matches RestoreBackupStep::Continue(
            _,
            RestoreBackupAction::DeleteEntry { id: x },
        ) ==> (s matches RestoreBackupState::CheckingArchive { id } && x == id) || (
        s matches RestoreBackupState::DeletingEntry { id } && x == id),
        restore_backup_next(s, e) matches RestoreBackupStep::Continue(
            RestoreBackupState::CheckingArchive { id: x },
            _,
        ) ==> (s matches RestoreBackupState::FindingArchivePath { id, .. } && x == id) || (
        s matches RestoreBackupState::CheckingArchive { id } && x == id),
        restore_backup_next(s, e) matches RestoreBackupStep::Continue(
            RestoreBackupState::FindingArchivePath { id: x, entry_id: y },
            _,
        ) ==> (s matches RestoreBackupState::FetchingEntry { id } && x == id && (
        e matches RestoreBackupEvent::EntryFetched(Ok(fetched)) && y == fetched)) || (
        s matches RestoreBackupState::FindingArchivePath { id, entry_id } && x == id && y
            == entry_id),
{
}

} // verus!
