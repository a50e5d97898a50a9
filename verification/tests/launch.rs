use cat_launcher::launch::{
    archive_to_remove, backup_failure_event, prune_plan, backups_to_delete, launch_arguments,
    prepare_launch_start, prepare_launch_step, BackupEntry, BackupRepositoryError, GameEvent,
    LaunchGameError, PrepareLaunchAction, PrepareLaunchEvent, PrepareLaunchStep,
};
use cat_launcher::platform::GameVariant;

fn run_prepare(
    executable: Result<bool, String>,
    backup: Result<(), String>,
    delete: Result<(), BackupRepositoryError>,
) -> (Vec<PrepareLaunchAction>, Result<Option<String>, LaunchGameError>) {
    let (mut state, mut action) = prepare_launch_start();
    let mut actions = vec![];
    let mut executable = Some(executable);
    let mut backup = Some(backup);
    let mut delete = Some(delete);
    loop {
        actions.push(action);
        let event = match action {
            PrepareLaunchAction::GetExecutable => {
                PrepareLaunchEvent::ExecutableFound(executable.take().unwrap())
            }
            PrepareLaunchAction::AddBackupEntry => PrepareLaunchEvent::BackupEntryAdded(Ok(11)),
            PrepareLaunchAction::BackupSaveFiles { .. } => {
                PrepareLaunchEvent::SavesBackedUp(backup.take().unwrap())
            }
            PrepareLaunchAction::DeleteBackupEntry { .. } => {
                PrepareLaunchEvent::BackupEntryDeleted(delete.take().unwrap())
            }
            PrepareLaunchAction::GetUserDataDir => PrepareLaunchEvent::UserDataDirFound(Ok(())),
        };
        match prepare_launch_step(state, event) {
            PrepareLaunchStep::Continue(s, a) => {
                state = s;
                action = a;
            }
            PrepareLaunchStep::Finished(r) => return (actions, r),
        }
    }
}

#[test]
fn prepare_success_keeps_backup() {
    let (actions, result) = run_prepare(Ok(true), Ok(()), Ok(()));
    assert_eq!(result.unwrap(), None);
    assert_eq!(
        actions,
        vec![
            PrepareLaunchAction::GetExecutable,
            PrepareLaunchAction::AddBackupEntry,
            PrepareLaunchAction::BackupSaveFiles { id: 11 },
            PrepareLaunchAction::GetUserDataDir,
        ]
    );
}

#[test]
fn prepare_executable_not_found() {
    let (actions, result) = run_prepare(Err("does not exist".into()), Ok(()), Ok(()));
    assert_eq!(actions.len(), 1);
    assert!(matches!(result, Err(LaunchGameError::Executable(_))));
    let (_, result) = run_prepare(Ok(false), Ok(()), Ok(()));
    assert!(matches!(result, Err(LaunchGameError::ExecutableDir)));
}

#[test]
fn prepare_backup_failure_clears_entry_but_launches() {
    let (actions, result) = run_prepare(Ok(true), Err("not a dir".into()), Ok(()));
    assert!(actions.contains(&PrepareLaunchAction::DeleteBackupEntry { id: 11 }));
    assert_eq!(result.unwrap().as_deref(), Some("not a dir"));
}

#[test]
fn prepare_fails_when_failed_backup_cannot_be_cleared() {
    let (_, result) = run_prepare(
        Ok(true),
        Err("not a dir".into()),
        Err(BackupRepositoryError::Delete("locked".into())),
    );
    assert!(matches!(result, Err(LaunchGameError::BackupRepository(_))));
}

#[test]
fn arguments_of_a_launch() {
    assert_eq!(launch_arguments("/data/UserData/dda", None), vec!["--userdir", "/data/UserData/dda"]);
    assert_eq!(
        launch_arguments("/u", Some("TestWorld")),
        vec!["--userdir", "/u", "--world", "TestWorld"]
    );
}

#[test]
fn backup_failure_is_logged() {
    match backup_failure_event("disk full") {
        GameEvent::Log(line) => assert_eq!(line, "Failed to backup save files: disk full"),
        other => panic!("unexpected: {:?}", other),
    }
}

#[test]
fn oldest_backups_are_pruned() {
    let backups: Vec<BackupEntry> = (0..8)
        .map(|i| BackupEntry {
            id: 100 + i,
            game_variant: GameVariant::DarkDaysAhead,
            release_version: "v1.0.0".into(),
            timestamp: 1000 + i as u64,
        })
        .collect();
    let ids = |max: usize| -> Vec<i64> {
        let listing: Vec<BackupEntry> = backups
            .iter()
            .map(|b| BackupEntry {
                id: b.id,
                game_variant: b.game_variant,
                release_version: b.release_version.clone(),
                timestamp: b.timestamp,
            })
            .collect();
        prune_plan(Ok(listing), max).unwrap().iter().map(|b| b.id).collect()
    };
    assert_eq!(ids(5), vec![100, 101, 102]);
    assert_eq!(ids(8), Vec::<i64>::new());
    assert_eq!(ids(20), Vec::<i64>::new());
    assert_eq!(backups_to_delete(8, 5), 3);
    assert_eq!(backups_to_delete(3, 5), 0);
}

fn backups(n: i64) -> Vec<BackupEntry> {
    (0..n)
        .map(|i| BackupEntry {
            id: 100 + i,
            game_variant: GameVariant::BrightNights,
            release_version: "v0.9".into(),
            timestamp: 2000 + i as u64,
        })
        .collect()
}

#[test]
fn cleanup_plan_prunes_only_the_oldest() {
    let plan = prune_plan(Ok(backups(7)), 4).unwrap();
    assert_eq!(plan.iter().map(|b| b.id).collect::<Vec<_>>(), vec![100, 101, 102]);
    assert_eq!(plan[2].timestamp, 2002);
    assert!(prune_plan(Ok(backups(4)), 4).unwrap().is_empty());
    assert!(prune_plan(Ok(backups(0)), 4).unwrap().is_empty());
}

#[test]
fn cleanup_fails_only_when_listing_fails() {
    match prune_plan(Err(BackupRepositoryError::Get("locked".into())), 4) {
        Err(LaunchGameError::BackupRepository(BackupRepositoryError::Get(m))) => {
            assert_eq!(m, "locked")
        }
        other => panic!("unexpected {other:?}"),
    }
}

#[test]
fn archive_removed_only_after_entry_deleted() {
    let ok: Result<&str, String> = Ok("/backups/7.zip");
    assert_eq!(archive_to_remove(Ok(()), ok.clone()), Some("/backups/7.zip"));
    assert_eq!(
        archive_to_remove(Err(BackupRepositoryError::Delete("busy".into())), ok.clone()),
        None
    );
    assert_eq!(
        archive_to_remove(Err(BackupRepositoryError::NotFound(7)), ok),
        None
    );
    let missing: Result<&str, String> = Err("no data dir".into());
    assert_eq!(archive_to_remove(Ok(()), missing), None);
}

#[test]
fn launch_error_messages() {
    assert_eq!(
        LaunchGameError::BackupRepository(BackupRepositoryError::NotFound(-12)).message(),
        "failed to access backup repository: backup entry with id -12 not found"
    );
    assert_eq!(
        BackupRepositoryError::NotFound(i64::MIN).message(),
        format!("backup entry with id {} not found", i64::MIN)
    );
    assert_eq!(
        BackupRepositoryError::Add("disk full".into()).message(),
        "failed to add backup entry: disk full"
    );
    assert_eq!(LaunchGameError::ExecutableDir.message(), "executable directory not found");
    assert_eq!(
        LaunchGameError::Stdout.message(),
        "failed to get stdout from child process"
    );
    assert_eq!(
        LaunchGameError::Executable("game.exe".into()).message(),
        "executable not found: game.exe"
    );
    assert_eq!(
        LaunchGameError::RemoveBackupFile("denied".into()).message(),
        "failed to remove backup file: denied"
    );
}
