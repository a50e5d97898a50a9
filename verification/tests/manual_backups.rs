use cat_launcher::manual_backups::{
    create_backup_start, create_backup_step, delete_backup_start, delete_backup_step,
    list_manual_backups, restore_backup_start, restore_backup_step, ArchiveCheck,
    CreateBackupAction, CreateBackupEvent, CreateBackupStep, CreateManualBackupError,
    DeleteBackupAction, DeleteBackupEvent, DeleteBackupStep, DeleteManualBackupError,
    FileRemoval, ListManualBackupsError, ManualBackupEntry, ManualBackupRepositoryError,
    RestoreBackupAction, RestoreBackupEvent, RestoreBackupStep, RestoreManualBackupError,
};
use cat_launcher::platform::GameVariant;

/// Runs a creation, answering each action with `answer`; returns the actions
/// taken and the outcome.
fn run_create(
    mut answer: impl FnMut(CreateBackupAction) -> CreateBackupEvent,
) -> (Vec<CreateBackupAction>, Result<i64, CreateManualBackupError>) {
    let (mut state, mut action) = create_backup_start();
    let mut actions = vec![];
    loop {
        actions.push(action);
        match create_backup_step(state, answer(action)) {
            CreateBackupStep::Continue(s, a) => {
                state = s;
                action = a;
            }
            CreateBackupStep::Finished(r) => return (actions, r),
        }
    }
}

#[test]
fn create_success_returns_new_id() {
    let (actions, result) = run_create(|a| match a {
        CreateBackupAction::AddEntry => CreateBackupEvent::EntryAdded(Ok(7)),
        CreateBackupAction::GetUserDataDir => CreateBackupEvent::UserDataDirFound(Ok(())),
        CreateBackupAction::GetArchivePath { .. } => CreateBackupEvent::ArchivePathFound(Ok(())),
        CreateBackupAction::CreateArchive => CreateBackupEvent::ArchiveCreated(Ok(())),
        CreateBackupAction::DeleteEntry { .. } => CreateBackupEvent::EntryDeleted,
    });
    assert_eq!(result.unwrap(), 7);
    assert_eq!(
        actions,
        vec![
            CreateBackupAction::AddEntry,
            CreateBackupAction::GetUserDataDir,
            CreateBackupAction::GetArchivePath { id: 7 },
            CreateBackupAction::CreateArchive,
        ]
    );
}

#[test]
fn create_archive_failure_deletes_entry() {
    let (actions, result) = run_create(|a| match a {
        CreateBackupAction::AddEntry => CreateBackupEvent::EntryAdded(Ok(3)),
        CreateBackupAction::GetUserDataDir => CreateBackupEvent::UserDataDirFound(Ok(())),
        CreateBackupAction::GetArchivePath { .. } => CreateBackupEvent::ArchivePathFound(Ok(())),
        CreateBackupAction::CreateArchive => {
            CreateBackupEvent::ArchiveCreated(Err("destination is a directory".to_string()))
        }
        CreateBackupAction::DeleteEntry { .. } => CreateBackupEvent::EntryDeleted,
    });
    assert_eq!(actions.last(), Some(&CreateBackupAction::DeleteEntry { id: 3 }));
    match result {
        Err(CreateManualBackupError::ArchiveCreation(m)) => {
            assert_eq!(m, "destination is a directory")
        }
        other => panic!("unexpected: {:?}", other),
    }
}

#[test]
fn create_stops_on_repository_failure() {
    let (actions, result) = run_create(|_| {
        CreateBackupEvent::EntryAdded(Err(ManualBackupRepositoryError::Add("locked".into())))
    });
    assert_eq!(actions, vec![CreateBackupAction::AddEntry]);
    assert!(matches!(
        result,
        Err(CreateManualBackupError::Add(ManualBackupRepositoryError::Add(_)))
    ));
}

#[test]
fn create_ignores_unexpected_events() {
    let (state, _) = create_backup_start();
    match create_backup_step(state, CreateBackupEvent::EntryDeleted) {
        CreateBackupStep::Continue(_, a) => assert_eq!(a, CreateBackupAction::AddEntry),
        other => panic!("unexpected: {:?}", other),
    }
}

fn run_delete(
    id: i64,
    mut answer: impl FnMut(DeleteBackupAction) -> DeleteBackupEvent,
) -> (Vec<DeleteBackupAction>, Result<(), DeleteManualBackupError>) {
    let (mut state, mut action) = delete_backup_start(id);
    let mut actions = vec![];
    loop {
        actions.push(action);
        match delete_backup_step(state, answer(action)) {
            DeleteBackupStep::Continue(s, a) => {
                state = s;
                action = a;
            }
            DeleteBackupStep::Finished(r) => return (actions, r),
        }
    }
}

fn delete_answers(removal: fn() -> FileRemoval) -> impl FnMut(DeleteBackupAction) -> DeleteBackupEvent {
    move |a| match a {
        DeleteBackupAction::GetEntry { id } => DeleteBackupEvent::EntryFetched(Ok(id)),
        DeleteBackupAction::GetArchivePath { .. } => DeleteBackupEvent::ArchivePathFound(Ok(())),
        DeleteBackupAction::DeleteEntry { .. } => DeleteBackupEvent::EntryDeleted(Ok(())),
        DeleteBackupAction::RemoveArchiveFile => DeleteBackupEvent::FileRemoved(removal()),
        DeleteBackupAction::ReinsertEntry { .. } => DeleteBackupEvent::EntryReinserted,
    }
}

#[test]
fn delete_success_and_missing_file() {
    let (actions, result) = run_delete(5, delete_answers(|| FileRemoval::Removed));
    assert!(result.is_ok());
    assert_eq!(
        actions,
        vec![
            DeleteBackupAction::GetEntry { id: 5 },
            DeleteBackupAction::GetArchivePath { entry_id: 5 },
            DeleteBackupAction::DeleteEntry { id: 5 },
            DeleteBackupAction::RemoveArchiveFile,
        ]
    );
    let (_, result) = run_delete(5, delete_answers(|| FileRemoval::NotFound));
    assert!(result.is_ok());
}

#[test]
fn delete_file_failure_reinserts_entry_with_same_id() {
    let (actions, result) = run_delete(9, delete_answers(|| FileRemoval::Failed("is a directory".into())));
    assert_eq!(actions.last(), Some(&DeleteBackupAction::ReinsertEntry { entry_id: 9 }));
    assert!(matches!(result, Err(DeleteManualBackupError::RemoveBackupFile(_))));
}

#[test]
fn delete_of_unknown_entry_fails() {
    let (actions, result) = run_delete(4, |_| {
        DeleteBackupEvent::EntryFetched(Err(ManualBackupRepositoryError::NotFound(4)))
    });
    assert_eq!(actions.len(), 1);
    assert!(matches!(
        result,
        Err(DeleteManualBackupError::Get(ManualBackupRepositoryError::NotFound(4)))
    ));
}

fn run_restore(
    check: ArchiveCheck,
    extract: Result<(), String>,
) -> (Vec<RestoreBackupAction>, Result<(), RestoreManualBackupError>) {
    let (mut state, mut action) = restore_backup_start(2);
    let mut actions = vec![];
    let mut extract = Some(extract);
    loop {
        actions.push(action);
        let event = match action {
            RestoreBackupAction::GetEntry { id } => RestoreBackupEvent::EntryFetched(Ok(id)),
            RestoreBackupAction::GetArchivePath { .. } => RestoreBackupEvent::ArchivePathFound(Ok(())),
            RestoreBackupAction::CheckArchive => RestoreBackupEvent::ArchiveChecked(check),
            RestoreBackupAction::DeleteEntry { .. } => RestoreBackupEvent::EntryDeleted(Ok(())),
            RestoreBackupAction::GetUserDataDir => RestoreBackupEvent::UserDataDirFound(Ok(())),
            RestoreBackupAction::ExtractArchive => {
                RestoreBackupEvent::Extracted(extract.take().unwrap())
            }
        };
        match restore_backup_step(state, event) {
            RestoreBackupStep::Continue(s, a) => {
                state = s;
                action = a;
            }
            RestoreBackupStep::Finished(r) => return (actions, r),
        }
    }
}

#[test]
fn restore_success() {
    let (actions, result) = run_restore(ArchiveCheck::Present, Ok(()));
    assert!(result.is_ok());
    assert!(!actions.iter().any(|a| matches!(a, RestoreBackupAction::DeleteEntry { .. })));
}

#[test]
fn restore_missing_archive_deletes_entry() {
    let (actions, result) = run_restore(ArchiveCheck::Missing, Ok(()));
    assert_eq!(actions.last(), Some(&RestoreBackupAction::DeleteEntry { id: 2 }));
    assert!(matches!(result, Err(RestoreManualBackupError::ArchiveFileMissing)));
}

#[test]
fn restore_extraction_failure_keeps_entry() {
    let (actions, result) = run_restore(ArchiveCheck::Present, Err("invalid zip".into()));
    assert!(!actions.iter().any(|a| matches!(a, RestoreBackupAction::DeleteEntry { .. })));
    assert!(matches!(result, Err(RestoreManualBackupError::Extract(_))));
    let (_, result) = run_restore(ArchiveCheck::Unreadable, Ok(()));
    assert!(result.is_ok());
}

#[test]
fn listing_maps_repository_errors() {
    let entry = ManualBackupEntry {
        id: 1,
        name: "Backup1".into(),
        game_variant: GameVariant::BrightNights,
        timestamp: 1000,
        notes: Some("my notes".into()),
    };
    let listed = list_manual_backups(Ok(vec![entry])).unwrap();
    assert_eq!(listed.len(), 1);
    assert_eq!(listed[0].notes.as_deref(), Some("my notes"));
    assert!(matches!(
        list_manual_backups(Err(ManualBackupRepositoryError::Get("db".into()))),
        Err(ListManualBackupsError::Get(_))
    ));
}
