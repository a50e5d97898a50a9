use cat_launcher::reset::{
    reset_start, reset_step, should_skip, MasterResetError, ResetAction, ResetEvent, ResetStep,
    UserDataEntry,
};

/// Runs a reset over the given directory entries (name, is_dir), failing the
/// database step named by `failing` if any; returns the actions and outcome.
fn run_reset(
    entries: &[(&str, bool)],
    failing: Option<ResetAction>,
) -> (Vec<ResetAction>, Result<(), MasterResetError>) {
    let (mut state, mut action) = reset_start();
    let mut actions = vec![];
    let mut next_entry = 0;
    loop {
        actions.push(action);
        let fail = failing == Some(action);
        let db = |r: Result<(), String>| if fail { Err("mock failure".to_string()) } else { r };
        let event = match action {
            ResetAction::GetUserDataDir => ResetEvent::UserDataDirFound(Ok(())),
            ResetAction::OpenDir => ResetEvent::DirOpened(Ok(())),
            ResetAction::ReadNextEntry => {
                let e = entries.get(next_entry).map(|(name, is_dir)| UserDataEntry {
                    name: name.to_string(),
                    is_dir: Ok(*is_dir),
                });
                next_entry += 1;
                ResetEvent::EntryRead(Ok(e))
            }
            ResetAction::RemoveDirAll | ResetAction::RemoveFile => ResetEvent::EntryRemoved(Ok(())),
            ResetAction::DeleteInstalledMods => ResetEvent::ModsDeleted(db(Ok(()))),
            ResetAction::DeleteInstalledSoundpacks => ResetEvent::SoundpacksDeleted(db(Ok(()))),
            ResetAction::DeleteInstalledTilesets => ResetEvent::TilesetsDeleted(db(Ok(()))),
        };
        match reset_step(state, event) {
            ResetStep::Continue(s, a) => {
                state = s;
                action = a;
            }
            ResetStep::Finished(r) => return (actions, r),
        }
    }
}

#[test]
fn save_dir_is_kept_case_insensitively() {
    assert!(should_skip("save", true));
    assert!(should_skip("SAVE", true));
    assert!(should_skip("Save", true));
    assert!(!should_skip("save", false));
    assert!(!should_skip("saves", true));
    assert!(!should_skip("config", true));
}

#[test]
fn reset_removes_everything_but_save_dir() {
    let (actions, result) = run_reset(
        &[("save", true), ("config", true), ("temp.tmp", false)],
        None,
    );
    assert!(result.is_ok());
    assert_eq!(
        actions,
        vec![
            ResetAction::GetUserDataDir,
            ResetAction::OpenDir,
            ResetAction::ReadNextEntry,
            ResetAction::ReadNextEntry,
            ResetAction::RemoveDirAll,
            ResetAction::ReadNextEntry,
            ResetAction::RemoveFile,
            ResetAction::ReadNextEntry,
            ResetAction::DeleteInstalledMods,
            ResetAction::DeleteInstalledSoundpacks,
            ResetAction::DeleteInstalledTilesets,
        ]
    );
}

#[test]
fn reset_deletes_a_file_named_save() {
    let (actions, result) = run_reset(&[("save", false)], None);
    assert!(result.is_ok());
    assert!(actions.contains(&ResetAction::RemoveFile));
}

#[test]
fn reset_of_empty_directory_still_clears_database() {
    let (actions, result) = run_reset(&[], None);
    assert!(result.is_ok());
    assert_eq!(actions.len(), 6);
}

#[test]
fn failing_mods_step_stops_the_reset() {
    let (actions, result) = run_reset(
        &[("save", true), ("config", true)],
        Some(ResetAction::DeleteInstalledMods),
    );
    assert!(matches!(result, Err(MasterResetError::DeleteMods(_))));
    assert!(actions.contains(&ResetAction::RemoveDirAll));
    assert!(!actions.contains(&ResetAction::DeleteInstalledSoundpacks));
    assert!(!actions.contains(&ResetAction::DeleteInstalledTilesets));
}

#[test]
fn failing_soundpacks_step_stops_the_reset() {
    let (actions, result) = run_reset(&[], Some(ResetAction::DeleteInstalledSoundpacks));
    assert!(matches!(result, Err(MasterResetError::DeleteSoundpacks(_))));
    assert!(actions.contains(&ResetAction::DeleteInstalledMods));
    assert!(!actions.contains(&ResetAction::DeleteInstalledTilesets));
}

#[test]
fn failing_tilesets_step_reports_it() {
    let (actions, result) = run_reset(&[], Some(ResetAction::DeleteInstalledTilesets));
    assert!(matches!(result, Err(MasterResetError::DeleteTilesets(_))));
    assert!(actions.contains(&ResetAction::DeleteInstalledSoundpacks));
}

#[test]
fn unreadable_entry_type_is_a_read_error() {
    let (state, _) = reset_start();
    let step = reset_step(state, ResetEvent::UserDataDirFound(Ok(())));
    let ResetStep::Continue(state, _) = step else { panic!() };
    let ResetStep::Continue(state, _) = reset_step(state, ResetEvent::DirOpened(Ok(()))) else {
        panic!()
    };
    let entry = UserDataEntry { name: "x".into(), is_dir: Err("denied".into()) };
    assert!(matches!(
        reset_step(state, ResetEvent::EntryRead(Ok(Some(entry)))),
        ResetStep::Finished(Err(MasterResetError::ReadDir(_)))
    ));
}
