use vstd::prelude::*;

use crate::text::{eq_ignore_ascii_case, str_eq_ignore_ascii_case};

verus! {

/// A master reset of a variant failed; each variant names the step.
#[derive(Debug)]
pub enum MasterResetError {
    UserDataDir(String),
    ReadDir(String),
    RemoveEntry(String),
    DeleteMods(String),
    DeleteSoundpacks(String),
    DeleteTilesets(String),
}

/// Whether a user data directory entry is the save directory, which a reset
/// keeps: a directory named `save` in any ASCII case.
pub open spec fn is_save_dir(name: Seq<char>, is_dir: bool) -> bool {
    eq_ignore_ascii_case(name, "save"@) && is_dir
}

/// Whether a master reset keeps the entry with this name and type.
pub fn should_skip(file_name: &str, is_dir: bool) -> (skip: bool)
    ensures
        skip == is_save_dir(file_name@, is_dir),
{
    str_eq_ignore_ascii_case(file_name, "save") && is_dir
}

/// An entry of the user data directory as a reset sees it: its name, and
/// whether it is a directory (or why its type could not be read).
#[derive(Debug)]
pub struct UserDataEntry {
    pub name: String,
    pub is_dir: Result<bool, String>,
}

/// Where a master reset stands.
#[derive(Debug, PartialEq, Eq, Structural, Clone, Copy)]
pub enum ResetState {
    FindingUserDataDir,
    OpeningDir,
    ReadingEntries,
    /// Removing the entry just read, a directory when `dir`.
    RemovingEntry { dir: bool },
    DeletingMods,
    DeletingSoundpacks,
    DeletingTilesets,
}

/// What the caller does next in a master reset.
#[derive(Debug, PartialEq, Eq, Structural, Clone, Copy)]
pub enum ResetAction {
    /// Find (creating it if needed) the variant's user data directory.
    GetUserDataDir,
    /// Open the user data directory for listing.
    OpenDir,
    /// Read the next entry of the user data directory.
    ReadNextEntry,
    /// Remove the entry just read, a directory, with everything in it.
    RemoveDirAll,
    /// Remove the entry just read, a file.
    RemoveFile,
    DeleteInstalledMods,
    DeleteInstalledSoundpacks,
    DeleteInstalledTilesets,
}

/// What the last action of a master reset came to.
#[derive(Debug)]
pub enum ResetEvent {
    UserDataDirFound(Result<(), String>),
    DirOpened(Result<(), String>),
    /// The next entry, or `None` when the listing is exhausted.
    EntryRead(Result<Option<UserDataEntry>, String>),
    EntryRemoved(Result<(), String>),
    ModsDeleted(Result<(), String>),
    SoundpacksDeleted(Result<(), String>),
    TilesetsDeleted(Result<(), String>),
}

/// The next step of a master reset.
#[derive(Debug)]
pub enum ResetStep {
    Continue(ResetState, ResetAction),
    Finished(Result<(), MasterResetError>),
}

/// The action a reset in state `s` waits on.
pub open spec fn reset_pending_action(s: ResetState) -> ResetAction {
    match s {
        ResetState::FindingUserDataDir => ResetAction::GetUserDataDir,
        ResetState::OpeningDir => ResetAction::OpenDir,
        ResetState::ReadingEntries => ResetAction::ReadNextEntry,
        ResetState::RemovingEntry { dir } => if dir {
            ResetAction::RemoveDirAll
        } else {
            ResetAction::RemoveFile
        },
        ResetState::DeletingMods => ResetAction::DeleteInstalledMods,
        ResetState::DeletingSoundpacks => ResetAction::DeleteInstalledSoundpacks,
        ResetState::DeletingTilesets => ResetAction::DeleteInstalledTilesets,
    }
}

/// What a reset does with an entry it read.
pub open spec fn reset_entry_step(entry: UserDataEntry) -> ResetStep {
    match entry.is_dir {
        Err(m) => ResetStep::Finished(Err(MasterResetError::ReadDir(m))),
        Ok(is_dir) => if is_save_dir(entry.name@, is_dir) {
            ResetStep::Continue(ResetState::ReadingEntries, ResetAction::ReadNextEntry)
        } else if is_dir {
            ResetStep::Continue(ResetState::RemovingEntry { dir: true }, ResetAction::RemoveDirAll)
        } else {
            ResetStep::Continue(ResetState::RemovingEntry { dir: false }, ResetAction::RemoveFile)
        },
    }
}

/// One step of a master reset; an event that does not answer the pending
/// action leaves the state as it is and asks for that action again.
pub open spec fn reset_next(s: ResetState, e: ResetEvent) -> ResetStep {
    match (s, e) {
        (ResetState::FindingUserDataDir, ResetEvent::UserDataDirFound(r)) => match r {
            Ok(_) => ResetStep::Continue(ResetState::OpeningDir, ResetAction::OpenDir),
            Err(m) => ResetStep::Finished(Err(MasterResetError::UserDataDir(m))),
        },
        (ResetState::OpeningDir, ResetEvent::DirOpened(r)) => match r {
            Ok(_) => ResetStep::Continue(ResetState::ReadingEntries, ResetAction::ReadNextEntry),
            Err(m) => ResetStep::Finished(Err(MasterResetError::ReadDir(m))),
        },
        (ResetState::ReadingEntries, ResetEvent::EntryRead(r)) => match r {
            Err(m) => ResetStep::Finished(Err(MasterResetError::ReadDir(m))),
            Ok(None) => ResetStep::Continue(
                ResetState::DeletingMods,
                ResetAction::DeleteInstalledMods,
            ),
            Ok(Some(entry)) => reset_entry_step(entry),
        },
        (ResetState::RemovingEntry { .. }, ResetEvent::EntryRemoved(r)) => match r {
            Ok(_) => ResetStep::Continue(ResetState::ReadingEntries, ResetAction::ReadNextEntry),
            Err(m) => ResetStep::Finished(Err(MasterResetError::RemoveEntry(m))),
        },
        (ResetState::DeletingMods, ResetEvent::ModsDeleted(r)) => match r {
            Ok(_) => ResetStep::Continue(
                ResetState::DeletingSoundpacks,
                ResetAction::DeleteInstalledSoundpacks,
            ),
            Err(m) => ResetStep::Finished(Err(MasterResetError::DeleteMods(m))),
        },
        (ResetState::DeletingSoundpacks, ResetEvent::SoundpacksDeleted(r)) => match r {
            Ok(_) => ResetStep::Continue(
                ResetState::DeletingTilesets,
                ResetAction::DeleteInstalledTilesets,
            ),
            Err(m) => ResetStep::Finished(Err(MasterResetError::DeleteSoundpacks(m))),
        },
        (ResetState::DeletingTilesets, ResetEvent::TilesetsDeleted(r)) => match r {
            Ok(_) => ResetStep::Finished(Ok(())),
            Err(m) => ResetStep::Finished(Err(MasterResetError::DeleteTilesets(m))),
        },
        (s, _) => ResetStep::Continue(s, reset_pending_action(s)),
    }
}

fn reset_pending(s: ResetState) -> (a: ResetAction)
    ensures
        a == reset_pending_action(s),
{
    match s {
        ResetState::FindingUserDataDir => ResetAction::GetUserDataDir,
        ResetState::OpeningDir => ResetAction::OpenDir,
        ResetState::ReadingEntries => ResetAction::ReadNextEntry,
        ResetState::RemovingEntry { dir } => if dir {
            ResetAction::RemoveDirAll
        } else {
            ResetAction::RemoveFile
        },
        ResetState::DeletingMods => ResetAction::DeleteInstalledMods,
        ResetState::DeletingSoundpacks => ResetAction::DeleteInstalledSoundpacks,
        ResetState::DeletingTilesets => ResetAction::DeleteInstalledTilesets,
    }
}

fn reset_entry(entry: UserDataEntry) -> (r: ResetStep)
    ensures
        r == reset_entry_step(entry),
{
    match entry.is_dir {
        Err(m) => ResetStep::Finished(Err(MasterResetError::ReadDir(m))),
        Ok(is_dir) => if should_skip(entry.name.as_str(), is_dir) {
            ResetStep::Continue(ResetState::ReadingEntries, ResetAction::ReadNextEntry)
        } else if is_dir {
            ResetStep::Continue(ResetState::RemovingEntry { dir: true }, ResetAction::RemoveDirAll)
        } else {
            ResetStep::Continue(ResetState::RemovingEntry { dir: false }, ResetAction::RemoveFile)
        },
    }
}

/// Starts a master reset: first the user data directory is found.
pub fn reset_start() -> (r: (ResetState, ResetAction))
    ensures
        r == (ResetState::FindingUserDataDir, ResetAction::GetUserDataDir),
{
    (ResetState::FindingUserDataDir, ResetAction::GetUserDataDir)
}

/// Advances a master reset by one event.
pub fn reset_step(s: ResetState, e: ResetEvent) -> (r: ResetStep)
    ensures
        r == reset_next(s, e),
{
    match (s, e) {
        (ResetState::FindingUserDataDir, ResetEvent::UserDataDirFound(r)) => match r {
            Ok(_) => ResetStep::Continue(ResetState::OpeningDir, ResetAction::OpenDir),
            Err(m) => ResetStep::Finished(Err(MasterResetError::UserDataDir(m))),
        },
        (ResetState::OpeningDir, ResetEvent::DirOpened(r)) => match r {
            Ok(_) => ResetStep::Continue(ResetState::ReadingEntries, ResetAction::ReadNextEntry),
            Err(m) => ResetStep::Finished(Err(MasterResetError::ReadDir(m))),
        },
        (ResetState::ReadingEntries, ResetEvent::EntryRead(r)) => match r {
            Err(m) => ResetStep::Finished(Err(MasterResetError::ReadDir(m))),
            Ok(None) => ResetStep::Continue(
                ResetState::DeletingMods,
                ResetAction::DeleteInstalledMods,
            ),
            Ok(Some(entry)) => reset_entry(entry),
        },
        (ResetState::RemovingEntry { .. }, ResetEvent::EntryRemoved(r)) => match r {
            Ok(_) => ResetStep::Continue(ResetState::ReadingEntries, ResetAction::ReadNextEntry),
            Err(m) => ResetStep::Finished(Err(MasterResetError::RemoveEntry(m))),
        },
        (ResetState::DeletingMods, ResetEvent::ModsDeleted(r)) => match r {
            Ok(_) => ResetStep::Continue(
                ResetState::DeletingSoundpacks,
                ResetAction::DeleteInstalledSoundpacks,
            ),
            Err(m) => ResetStep::Finished(Err(MasterResetError::DeleteMods(m))),
        },
        (ResetState::DeletingSoundpacks, ResetEvent::SoundpacksDeleted(r)) => match r {
            Ok(_) => ResetStep::Continue(
                ResetState::DeletingTilesets,
                ResetAction::DeleteInstalledTilesets,
            ),
            Err(m) => ResetStep::Finished(Err(MasterResetError::DeleteSoundpacks(m))),
        },
        (ResetState::DeletingTilesets, ResetEvent::TilesetsDeleted(r)) => match r {
            Ok(_) => ResetStep::Finished(Ok(())),
            Err(m) => ResetStep::Finished(Err(MasterResetError::DeleteTilesets(m))),
        },
        (s, _) => ResetStep::Continue(s, reset_pending(s)),
    }
}

/// Law: a reset never removes the save directory, and removes every other
/// entry it reads: directories with their contents, files on their own.
pub proof fn law_reset_keeps_only_save_dir(name: String, is_dir: bool)
    ensures
        ({
            let step = reset_next(
                ResetState::ReadingEntries,
                ResetEvent::EntryRead(Ok(Some(UserDataEntry { name, is_dir: Ok(is_dir) }))),
            );
            &&& is_save_dir(name@, is_dir) ==> step == ResetStep::Continue(
                ResetState::ReadingEntries,
                ResetAction::ReadNextEntry,
            )
            &&& !is_save_dir(name@, is_dir) && is_dir ==> step == ResetStep::Continue(
                ResetState::RemovingEntry { dir: true },
                ResetAction::RemoveDirAll,
            )
            &&& !is_save_dir(name@, is_dir) && !is_dir ==> step == ResetStep::Continue(
                ResetState::RemovingEntry { dir: false },
                ResetAction::RemoveFile,
            )
        }),
{
}

/// Law: whatever the events, a reset asks to remove an entry only right after
/// reading one that is not the save directory (or to repeat that removal).
pub proof fn law_reset_never_removes_save_dir(s: ResetState, e: ResetEvent)
    ensures
        (reset_next(s, e) matches ResetStep::Continue(_, a) && (a == ResetAction::RemoveDirAll || a
            == ResetAction::RemoveFile)) ==> (s is RemovingEntry || (s == ResetState::ReadingEntries
            && (e matches ResetEvent::EntryRead(Ok(Some(entry))) && (entry.is_dir matches Ok(d)
            && !is_save_dir(entry.name@, d))))),
{
}

/// Law: the installed mods, soundpacks and tilesets are cleared in that
/// order, each only after the previous step succeeded and only once the
/// whole user data directory has been gone through; a failing step ends the
/// reset with that step's error.
pub proof fn law_reset_database_steps_in_order(s: ResetState, e: ResetEvent)
    ensures
        ({
            let step = reset_next(s, e);
            &&& (step matches ResetStep::Continue(_, ResetAction::DeleteInstalledMods)) ==> (s
                == ResetState::ReadingEntries && (e matches ResetEvent::EntryRead(Ok(None))))
                || s == ResetState::DeletingMods
            &&& (step matches ResetStep::Continue(_, ResetAction::DeleteInstalledSoundpacks)) ==> (
            s == ResetState::DeletingMods && (e matches ResetEvent::ModsDeleted(Ok(_)))) || s
                == ResetState::DeletingSoundpacks
            &&& (step matches ResetStep::Continue(_, ResetAction::DeleteInstalledTilesets)) ==> (s
                == ResetState::DeletingSoundpacks && (e matches ResetEvent::SoundpacksDeleted(
                Ok(_),
            ))) || s == ResetState::DeletingTilesets
            &&& (step matches ResetStep::Finished(Ok(_))) ==> s == ResetState::DeletingTilesets
        }),
{
}

/// Whether `e` answers the action a reset in state `s` waits on.
pub open spec fn reset_answers(s: ResetState, e: ResetEvent) -> bool {
    match s {
        ResetState::FindingUserDataDir => e is UserDataDirFound,
        ResetState::OpeningDir => e is DirOpened,
        ResetState::ReadingEntries => e is EntryRead,
        ResetState::RemovingEntry { .. } => e is EntryRemoved,
        ResetState::DeletingMods => e is ModsDeleted,
        ResetState::DeletingSoundpacks => e is SoundpacksDeleted,
        ResetState::DeletingTilesets => e is TilesetsDeleted,
    }
}

/// The failure an event reports, as the error a reset gives for it: reading
/// the directory or an entry's type fails as a read error, the other steps
/// with their own.
pub open spec fn reset_failure(e: ResetEvent) -> Option<MasterResetError> {
    match e {
        ResetEvent::UserDataDirFound(Err(m)) => Some(MasterResetError::UserDataDir(m)),
        ResetEvent::DirOpened(Err(m)) => Some(MasterResetError::ReadDir(m)),
        ResetEvent::EntryRead(Err(m)) => Some(MasterResetError::ReadDir(m)),
        ResetEvent::EntryRead(Ok(Some(entry))) => match entry.is_dir {
            Err(m) => Some(MasterResetError::ReadDir(m)),
            Ok(_) => None,
        },
        ResetEvent::EntryRemoved(Err(m)) => Some(MasterResetError::RemoveEntry(m)),
        ResetEvent::ModsDeleted(Err(m)) => Some(MasterResetError::DeleteMods(m)),
        ResetEvent::SoundpacksDeleted(Err(m)) => Some(MasterResetError::DeleteSoundpacks(m)),
        ResetEvent::TilesetsDeleted(Err(m)) => Some(MasterResetError::DeleteTilesets(m)),
        _ => None,
    }
}

/// Law: every failure ends the reset at once with that failure's error, so a
/// removal that fails is never passed over; an event that answers nothing
/// changes nothing.
pub proof fn law_reset_failure_ends_reset(s: ResetState, e: ResetEvent)
    ensures
        reset_answers(s, e) && reset_failure(e) is Some ==> reset_next(s, e) == ResetStep::Finished(
            Err(reset_failure(e)->Some_0),
        ),
        !reset_answers(s, e) ==> reset_next(s, e) == ResetStep::Continue(s, reset_pending_action(s)),
        reset_next(s, e) matches ResetStep::Continue(next, action) ==> action
            == reset_pending_action(next),
{
}

/// Law: a reset succeeds exactly on the step where the installed tilesets,
/// the last thing it clears, were cleared; a successful removal of an entry
/// goes on to read the next one.
pub proof fn law_reset_success(s: ResetState, e: ResetEvent)
    ensures
        (reset_next(s, e) matches ResetStep::Finished(Ok(_))) <==> (s == ResetState::DeletingTilesets
            && (e matches ResetEvent::TilesetsDeleted(Ok(_)))),
        (s is RemovingEntry && (e matches ResetEvent::EntryRemoved(Ok(_)))) ==> reset_next(s, e)
            == ResetStep::Continue(ResetState::ReadingEntries, ResetAction::ReadNextEntry),
{
}

} // verus!
