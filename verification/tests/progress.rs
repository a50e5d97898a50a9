use cat_launcher::endpoint::{Endpoint, SerializableError};
use cat_launcher::progress::{
    progress_payload, total_after_setup, updater_start, updater_step, DownloadProgress,
    UpdateStatus, UpdaterAction, UpdaterEvent, UpdaterPhase,
};

#[test]
fn reporter_keeps_total_until_announced() {
    assert_eq!(total_after_setup(0, Some(500)), 500);
    assert_eq!(total_after_setup(500, None), 500);
    assert_eq!(
        progress_payload(500, 120),
        DownloadProgress { bytes_downloaded: 120, total_bytes: 500 }
    );
}

fn run_updater(events: Vec<UpdaterEvent>) -> Vec<UpdateStatus> {
    let (mut phase, first) = updater_start();
    let mut statuses = vec![first];
    for e in events {
        let (next, status, _) = updater_step(phase, e);
        if let Some(s) = status {
            statuses.push(s);
        }
        phase = next;
    }
    statuses
}

#[test]
fn updater_up_to_date() {
    let s = run_updater(vec![UpdaterEvent::UpdaterReady, UpdaterEvent::NoUpdate]);
    assert!(matches!(s.as_slice(), [UpdateStatus::Checking, UpdateStatus::UpToDate]));
}

#[test]
fn updater_installs_update() {
    let s = run_updater(vec![
        UpdaterEvent::UpdaterReady,
        UpdaterEvent::UpdateFound,
        UpdaterEvent::DownloadFinished,
        UpdaterEvent::InstallSucceeded,
        UpdaterEvent::NoUpdate,
    ]);
    assert!(matches!(
        s.as_slice(),
        [
            UpdateStatus::Checking,
            UpdateStatus::Downloading,
            UpdateStatus::Installing,
            UpdateStatus::Success
        ]
    ));
}

#[test]
fn updater_failures() {
    let s = run_updater(vec![UpdaterEvent::UpdaterUnavailable("no updater".into())]);
    assert!(matches!(s.last(), Some(UpdateStatus::Failure { error }) if error == "no updater"));
    let s = run_updater(vec![UpdaterEvent::UpdaterReady, UpdaterEvent::CheckFailed("offline".into())]);
    assert!(matches!(s.last(), Some(UpdateStatus::Failure { error }) if error == "offline"));
    let (next, status, action) = updater_step(UpdaterPhase::Finished, UpdaterEvent::UpdateFound);
    assert_eq!(next, UpdaterPhase::Finished);
    assert!(status.is_none());
    assert_eq!(action, UpdaterAction::Stop);
}

#[test]
fn endpoint_and_serializable_error() {
    let e = Endpoint::new("api.github.com", Some(443), "https");
    assert_eq!(e.host(), "api.github.com");
    assert_eq!(e.port(), Some(443));
    assert_eq!(e.scheme(), "https");
    let copy = e.clone();
    assert!(copy == e);
    assert!(copy != Endpoint::new("api.github.com", None, "https"));
    let err = SerializableError::new("NotFound", "backup entry with id 4 not found".to_string());
    assert_eq!(err.error_type(), "NotFound");
    assert_eq!(err.message(), "backup entry with id 4 not found");
}

#[test]
fn updater_reports_installing_once_and_download_failures() {
    let s = run_updater(vec![
        UpdaterEvent::UpdaterReady,
        UpdaterEvent::UpdateFound,
        UpdaterEvent::DownloadFinished,
        UpdaterEvent::DownloadFinished,
        UpdaterEvent::InstallFailed("bad signature".into()),
    ]);
    assert!(matches!(
        s.as_slice(),
        [
            UpdateStatus::Checking,
            UpdateStatus::Downloading,
            UpdateStatus::Installing,
            UpdateStatus::Failure { error }
        ] if error == "bad signature"
    ));
    let s = run_updater(vec![
        UpdaterEvent::UpdaterReady,
        UpdaterEvent::UpdateFound,
        UpdaterEvent::InstallFailed("network".into()),
    ]);
    assert!(matches!(
        s.as_slice(),
        [UpdateStatus::Checking, UpdateStatus::Downloading, UpdateStatus::Failure { error }]
            if error == "network"
    ));
}
