use cat_launcher::installation::{
    install_start, install_step, installation_status, should_remove_installation,
    AssetDownloadDirError, ExecutableLookup, GameReleaseStatus, GetInstallationStatusError,
    InstallAction, InstallEvent, InstallStep, ReleaseInstallationError,
};

struct World {
    status_found: GameReleaseStatus,
    asset_found: bool,
    download: Result<(), String>,
    extract: Result<(), String>,
}

fn run_install(
    status: GameReleaseStatus,
    mut world: World,
) -> (Vec<InstallAction>, GameReleaseStatus, Result<(), ReleaseInstallationError>) {
    let mut actions = vec![];
    let mut step = install_start(status);
    loop {
        match step {
            InstallStep::Finished { status, result } => return (actions, status, result),
            InstallStep::Continue(state, action) => {
                actions.push(action);
                let event = match action {
                    InstallAction::CheckInstallationStatus => {
                        InstallEvent::StatusChecked(Ok(world.status_found))
                    }
                    InstallAction::SetActiveRelease => InstallEvent::ActiveReleaseSet(Ok(())),
                    InstallAction::GetDownloadDir => InstallEvent::DownloadDirFound(Ok(())),
                    InstallAction::FindAsset => InstallEvent::AssetFound(world.asset_found),
                    InstallAction::DownloadAsset => {
                        InstallEvent::Downloaded(std::mem::replace(&mut world.download, Ok(())))
                    }
                    InstallAction::GetInstallationDir => InstallEvent::InstallDirFound(Ok(())),
                    InstallAction::ExtractArchive => {
                        InstallEvent::Extracted(std::mem::replace(&mut world.extract, Ok(())))
                    }
                    InstallAction::CleanUp => InstallEvent::CleanedUp,
                };
                step = install_step(state, event);
            }
        }
    }
}

fn world() -> World {
    World {
        status_found: GameReleaseStatus::NotDownloaded,
        asset_found: true,
        download: Ok(()),
        extract: Ok(()),
    }
}

#[test]
fn already_ready_release_is_only_activated() {
    let (actions, status, result) = run_install(GameReleaseStatus::ReadyToPlay, world());
    assert!(result.is_ok());
    assert_eq!(status, GameReleaseStatus::ReadyToPlay);
    assert_eq!(actions, vec![InstallAction::SetActiveRelease]);
}

#[test]
fn unknown_status_already_installed() {
    let mut w = world();
    w.status_found = GameReleaseStatus::ReadyToPlay;
    let (actions, status, result) = run_install(GameReleaseStatus::Unknown, w);
    assert!(result.is_ok());
    assert_eq!(status, GameReleaseStatus::ReadyToPlay);
    assert_eq!(
        actions,
        vec![InstallAction::CheckInstallationStatus, InstallAction::SetActiveRelease]
    );
}

#[test]
fn full_install_downloads_extracts_activates_and_cleans_up() {
    let (actions, status, result) = run_install(GameReleaseStatus::NotDownloaded, world());
    assert!(result.is_ok());
    assert_eq!(status, GameReleaseStatus::ReadyToPlay);
    assert_eq!(
        actions,
        vec![
            InstallAction::GetDownloadDir,
            InstallAction::FindAsset,
            InstallAction::DownloadAsset,
            InstallAction::GetInstallationDir,
            InstallAction::ExtractArchive,
            InstallAction::SetActiveRelease,
            InstallAction::CleanUp,
        ]
    );
}

#[test]
fn downloaded_but_not_installed_skips_download() {
    let (actions, status, result) = run_install(GameReleaseStatus::NotInstalled, world());
    assert!(result.is_ok());
    assert_eq!(status, GameReleaseStatus::ReadyToPlay);
    assert!(!actions.contains(&InstallAction::DownloadAsset));
}

#[test]
fn no_compatible_asset() {
    let mut w = world();
    w.asset_found = false;
    let (_, status, result) = run_install(GameReleaseStatus::NotDownloaded, w);
    assert!(matches!(result, Err(ReleaseInstallationError::NoCompatibleAsset)));
    assert_eq!(status, GameReleaseStatus::NotDownloaded);
}

#[test]
fn download_and_extraction_errors() {
    let mut w = world();
    w.download = Err("connection refused".into());
    let (_, _, result) = run_install(GameReleaseStatus::Corrupted, w);
    assert!(matches!(result, Err(ReleaseInstallationError::Download(_))));

    let mut w = world();
    w.extract = Err("invalid zip".into());
    let (actions, status, result) = run_install(GameReleaseStatus::NotDownloaded, w);
    assert!(matches!(result, Err(ReleaseInstallationError::Extract(_))));
    assert_eq!(status, GameReleaseStatus::NotInstalled);
    assert!(!actions.contains(&InstallAction::SetActiveRelease));
}

#[test]
fn download_dir_failure_is_reported() {
    let step = install_start(GameReleaseStatus::NotDownloaded);
    let InstallStep::Continue(state, InstallAction::GetDownloadDir) = step else { panic!() };
    let next = install_step(
        state,
        InstallEvent::DownloadDirFound(Err(AssetDownloadDirError::CreateDirectory("denied".into()))),
    );
    assert!(matches!(
        next,
        InstallStep::Finished { result: Err(ReleaseInstallationError::DownloadDir(_)), .. }
    ));
}

#[test]
fn installation_status_from_executable() {
    assert_eq!(
        installation_status(ExecutableLookup::DoesNotExist).unwrap(),
        GameReleaseStatus::NotDownloaded
    );
    assert_eq!(
        installation_status(ExecutableLookup::Found { is_file: true }).unwrap(),
        GameReleaseStatus::ReadyToPlay
    );
    assert_eq!(
        installation_status(ExecutableLookup::Found { is_file: false }).unwrap(),
        GameReleaseStatus::NotDownloaded
    );
    assert!(matches!(
        installation_status(ExecutableLookup::Failed("denied".into())),
        Err(GetInstallationStatusError::Executable(_))
    ));
}

#[test]
fn other_installations_are_directories_not_kept() {
    assert!(should_remove_installation(Some(true), Some("/d/v0.1.0"), "/d/v0.2.0"));
    assert!(!should_remove_installation(Some(true), Some("/d/v0.2.0"), "/d/v0.2.0"));
    assert!(!should_remove_installation(Some(false), Some("/d/file"), "/d/v0.2.0"));
    assert!(!should_remove_installation(None, Some("/d/x"), "/d/v0.2.0"));
    assert!(!should_remove_installation(Some(true), None, "/d/v0.2.0"));
}
