use updater_core::client::{ClientError, FetchEvent};
use updater_core::client::interpret_fetch;
use updater_core::controller::{
    availability_outcome, conclude_install, install_outcome, merge_versions, step_after_check,
    update_info_of, InstallEvent, Stage, UpdateAction, UpdateCheckOutcome, UpdaterEvent,
};

#[test]
fn header_rejection_fails_at_credential_stage() {
    let o = availability_outcome(UpdaterEvent::HeaderRejected { message: "bad header".to_string() });
    match o {
        UpdateCheckOutcome::Failed { stage, message } => {
            assert_eq!(stage, Stage::Credential);
            assert_eq!(message, "bad header");
        }
        _ => panic!("expected a failure"),
    }
}

#[test]
fn handle_construction_fails_at_client_build_stage() {
    let o = availability_outcome(UpdaterEvent::BuildFailed { message: "no handle".to_string() });
    assert!(matches!(o, UpdateCheckOutcome::Failed { stage: Stage::ClientBuild, .. }));
}

#[test]
fn failed_remote_check_fails_at_network_stage() {
    let o = availability_outcome(UpdaterEvent::CheckFailed { message: "timeout".to_string() });
    assert!(matches!(o, UpdateCheckOutcome::Failed { stage: Stage::Network, .. }));
}

#[test]
fn up_to_date_is_no_update() {
    assert!(matches!(availability_outcome(UpdaterEvent::UpToDate), UpdateCheckOutcome::NoUpdate));
}

#[test]
fn found_update_is_available() {
    let o = availability_outcome(UpdaterEvent::UpdateFound {
        version: "2.0.0".to_string(),
        notes: Some("notes".to_string()),
    });
    match o {
        UpdateCheckOutcome::Available { version, notes } => {
            assert_eq!(version, "2.0.0");
            assert_eq!(notes, Some("notes".to_string()));
        }
        _ => panic!("expected an available update"),
    }
}

#[test]
fn no_update_never_reaches_install() {
    // Drive the check-and-install flow the way a host would, with a
    // capability that records whether its install step was ever invoked.
    let mut install_called = false;
    let result = match step_after_check(UpdaterEvent::UpToDate) {
        UpdateAction::Conclude { result } => result,
        UpdateAction::RunInstall { version, notes } => {
            install_called = true;
            conclude_install(version, notes, InstallEvent::Completed)
        }
    };
    assert!(!install_called);
    assert!(!result.available);
    assert!(!result.installed);
    assert_eq!(result.version, None);
    assert_eq!(result.error, None);
}

#[test]
fn found_update_runs_install() {
    let a = step_after_check(UpdaterEvent::UpdateFound {
        version: "2.0.0".to_string(),
        notes: None,
    });
    match a {
        UpdateAction::RunInstall { version, notes } => {
            assert_eq!(version, "2.0.0");
            assert_eq!(notes, None);
        }
        _ => panic!("expected the install step to run"),
    }
}

#[test]
fn completed_install_reports_installed() {
    let r = conclude_install(
        "2.0.0".to_string(),
        Some("notes".to_string()),
        InstallEvent::Completed,
    );
    assert!(r.available);
    assert!(r.installed);
    assert_eq!(r.version, Some("2.0.0".to_string()));
    assert_eq!(r.body, Some("notes".to_string()));
    assert_eq!(r.error, None);
}

#[test]
fn failed_install_is_retryable_not_installed() {
    let r = conclude_install(
        "2.0.0".to_string(),
        Some("notes".to_string()),
        InstallEvent::InstallFailed { message: "disk full".to_string() },
    );
    assert!(r.available);
    assert!(!r.installed);
    assert_eq!(r.version, Some("2.0.0".to_string()));
    assert_eq!(r.error, Some("disk full".to_string()));

    let o = install_outcome(
        "2.0.0".to_string(),
        None,
        InstallEvent::InstallFailed { message: "disk full".to_string() },
    );
    assert!(matches!(o, UpdateCheckOutcome::Failed { stage: Stage::Install, .. }));
}

#[test]
fn availability_check_is_idempotent() {
    let first = availability_outcome(UpdaterEvent::CheckFailed { message: "down".to_string() });
    let second = availability_outcome(UpdaterEvent::CheckFailed { message: "down".to_string() });
    assert!(matches!(&first, UpdateCheckOutcome::Failed { stage: Stage::Network, .. }));
    assert!(matches!(&second, UpdateCheckOutcome::Failed { stage: Stage::Network, .. }));

    let first = availability_outcome(UpdaterEvent::UpToDate);
    let second = availability_outcome(UpdaterEvent::UpToDate);
    assert!(matches!(first, UpdateCheckOutcome::NoUpdate));
    assert!(matches!(second, UpdateCheckOutcome::NoUpdate));
}

#[test]
fn update_info_shapes_each_outcome() {
    let i = update_info_of(UpdateCheckOutcome::NoUpdate);
    assert!(!i.available && i.version.is_none() && i.error.is_none());

    let i = update_info_of(UpdateCheckOutcome::Available {
        version: "2.0.0".to_string(),
        notes: Some("n".to_string()),
    });
    assert!(i.available);
    assert_eq!(i.version, Some("2.0.0".to_string()));
    assert_eq!(i.body, Some("n".to_string()));
    assert_eq!(i.error, None);

    let i = update_info_of(UpdateCheckOutcome::Failed {
        stage: Stage::Network,
        message: "down".to_string(),
    });
    assert!(!i.available);
    assert_eq!(i.error, Some("down".to_string()));
}

#[test]
fn merge_keeps_current_version_on_failure() {
    let v = merge_versions(
        "1.0.0".to_string(),
        Err(ClientError::Network { message: "offline".to_string() }),
    );
    assert_eq!(v.current, "1.0.0");
    assert_eq!(v.latest, None);
    assert_eq!(v.latest_notes, None);
    assert_eq!(v.api_error, Some("offline".to_string()));
}

#[test]
fn merge_carries_fetched_versions_through() {
    let body = "{\"tag_name\":\"app-v2.5.0\",\"body\":\"fixes\"}";
    let fetched = interpret_fetch(FetchEvent::Response {
        status: 200,
        reason: "OK".to_string(),
        body: Some(body.to_string()),
    });
    let v = merge_versions("1.0.0".to_string(), fetched);
    assert_eq!(v.current, "1.0.0");
    assert_eq!(v.latest, Some("2.5.0".to_string()));
    assert_eq!(v.latest_notes, Some("fixes".to_string()));
    assert_eq!(v.api_error, None);
}

#[test]
fn merge_reports_server_error_text() {
    let fetched = interpret_fetch(FetchEvent::Response {
        status: 403,
        reason: "Forbidden".to_string(),
        body: Some("bad credentials".to_string()),
    });
    let v = merge_versions("1.0.0".to_string(), fetched);
    assert_eq!(v.latest, None);
    assert_eq!(v.api_error, Some("403 Forbidden - bad credentials".to_string()));
}
