use bacli::models::{Error, SystemInfo};
use bacli::upgrade::{download_url, UpgradeAction, UpgradeEvent, UpgradePhase, UpgradeRun};

fn info(version: &str) -> SystemInfo {
    SystemInfo { version: version.to_string(), board_version: "204".to_string() }
}

fn versions(current: &str, latest: &str) -> UpgradeEvent {
    UpgradeEvent::VersionsChecked { current: current.to_string(), latest: latest.to_string() }
}

#[test]
fn equal_versions_without_force_end_up_to_date() {
    let run = UpgradeRun::new(false, true, None);
    let (run, action) = run.step(versions("v2.1.10", "v2.1.10"));
    assert_eq!(run.phase, UpgradePhase::UpToDate);
    assert!(matches!(action, UpgradeAction::ReportUpToDate));
    assert!(run.is_terminal());
}

#[test]
fn equal_versions_with_force_still_upgrade() {
    let run = UpgradeRun::new(true, true, None);
    let (run, action) = run.step(versions("v2.1.10", "v2.1.10"));
    assert_eq!(run.phase, UpgradePhase::UploadingFirmware);
    assert!(matches!(action, UpgradeAction::UploadFirmware(_)));
}

#[test]
fn out_of_date_without_execute_only_reports_the_plan() {
    let run = UpgradeRun::new(false, false, None);
    let (run, action) = run.step(versions("v2.0.0", "v2.1.10"));
    assert_eq!(run.phase, UpgradePhase::DryRun);
    assert!(matches!(action, UpgradeAction::ReportPlan));
    assert!(run.is_terminal());
}

#[test]
fn an_executed_upgrade_walks_every_phase() {
    let run = UpgradeRun::new(false, true, None);
    let (run, action) = run.step(versions("v2.0.0", "v2.1.10"));
    assert_eq!(run.phase, UpgradePhase::UploadingFirmware);
    match &action {
        UpgradeAction::UploadFirmware(url) => assert_eq!(
            url,
            "https://github.com/skot/ESP-Miner/releases/download/v2.1.10/esp-miner.bin"
        ),
        other => panic!("expected a firmware upload, got {:?}", other),
    }

    let (run, action) = run.step(UpgradeEvent::FirmwareUploaded);
    assert_eq!(run.phase, UpgradePhase::AwaitingRestart);
    assert!(matches!(action, UpgradeAction::PollAfterDelay));

    let (run, action) = run.step(UpgradeEvent::Polled(Ok(info("v2.1.10"))));
    assert_eq!(run.phase, UpgradePhase::UploadingAssets);
    match &action {
        UpgradeAction::UploadAssets(url) => assert_eq!(
            url,
            "https://github.com/skot/ESP-Miner/releases/download/v2.1.10/www.bin"
        ),
        other => panic!("expected an asset upload, got {:?}", other),
    }

    let (run, action) = run.step(UpgradeEvent::AssetsUploaded);
    assert_eq!(run.phase, UpgradePhase::Done);
    assert!(matches!(action, UpgradeAction::Finish));
    assert!(run.is_terminal());
}

fn run_awaiting_restart(max_polls: Option<u64>) -> UpgradeRun {
    let run = UpgradeRun::new(false, true, max_polls);
    let (run, _) = run.step(versions("v2.0.0", "v2.1.10"));
    let (run, _) = run.step(UpgradeEvent::FirmwareUploaded);
    assert_eq!(run.phase, UpgradePhase::AwaitingRestart);
    run
}

#[test]
fn transient_poll_outcomes_keep_the_run_waiting() {
    let mut run = run_awaiting_restart(None);
    let transients = [
        Error::Http("connection refused".to_string()),
        Error::ApiServer(500, "rebooting".to_string()),
        Error::Http("timed out".to_string()),
        Error::ApiServer(503, "busy".to_string()),
    ];
    for e in transients {
        let (next, action) = run.step(UpgradeEvent::Polled(Err(e)));
        assert_eq!(next.phase, UpgradePhase::AwaitingRestart);
        assert!(matches!(action, UpgradeAction::PollAfterDelay));
        run = next;
    }
}

#[test]
fn a_rejected_poll_aborts_with_the_status_code() {
    let run = run_awaiting_restart(None);
    let (run, action) = run.step(UpgradeEvent::Polled(Err(Error::InvalidRequest(302))));
    assert_eq!(run.phase, UpgradePhase::Failed);
    assert_eq!(run.failure, Some(Error::InvalidRequest(302)));
    assert!(matches!(action, UpgradeAction::Finish));
    assert!(run.is_terminal());
}

#[test]
fn a_bounded_run_times_out_after_its_poll_budget() {
    let mut run = run_awaiting_restart(Some(2));
    for _ in 0..2 {
        let (next, action) = run.step(UpgradeEvent::Polled(Err(Error::Http("down".to_string()))));
        assert_eq!(next.phase, UpgradePhase::AwaitingRestart);
        assert!(matches!(action, UpgradeAction::PollAfterDelay));
        run = next;
    }
    let (run, action) = run.step(UpgradeEvent::Polled(Err(Error::Http("down".to_string()))));
    assert_eq!(run.phase, UpgradePhase::Failed);
    assert_eq!(run.failure, Some(Error::Timeout));
    assert!(matches!(action, UpgradeAction::Finish));
}

#[test]
fn a_failed_upload_fails_the_run() {
    let run = UpgradeRun::new(false, true, None);
    let (run, _) = run.step(versions("v2.0.0", "v2.1.10"));
    let (run, action) =
        run.step(UpgradeEvent::UploadFailed(Error::ApiServer(500, "oops".to_string())));
    assert_eq!(run.phase, UpgradePhase::Failed);
    assert_eq!(run.failure, Some(Error::ApiServer(500, "oops".to_string())));
    assert!(matches!(action, UpgradeAction::Finish));
}

#[test]
fn a_failed_version_check_fails_the_run() {
    let run = UpgradeRun::new(false, true, None);
    let (run, action) =
        run.step(UpgradeEvent::CheckFailed(Error::Http("unreachable".to_string())));
    assert_eq!(run.phase, UpgradePhase::Failed);
    assert_eq!(run.failure, Some(Error::Http("unreachable".to_string())));
    assert!(matches!(action, UpgradeAction::Finish));
}

#[test]
fn terminal_runs_accept_no_further_event() {
    let run = UpgradeRun::new(false, true, None);
    let (run, _) = run.step(versions("v2.1.10", "v2.1.10"));
    assert!(run.is_terminal());
    assert!(!run.accepts(&UpgradeEvent::FirmwareUploaded));
    assert!(!run.accepts(&versions("a", "b")));
    assert!(!run.accepts(&UpgradeEvent::Polled(Ok(info("v2.1.10")))));
}

#[test]
fn download_urls_name_the_release_and_file() {
    assert_eq!(
        download_url("v2.1.10", "esp-miner.bin"),
        "https://github.com/skot/ESP-Miner/releases/download/v2.1.10/esp-miner.bin"
    );
    assert_eq!(
        download_url("v2.1.10", "www.bin"),
        "https://github.com/skot/ESP-Miner/releases/download/v2.1.10/www.bin"
    );
}

#[test]
fn transient_errors_are_exactly_transport_and_server_errors() {
    assert!(Error::Http("x".to_string()).is_transient());
    assert!(Error::ApiServer(500, "x".to_string()).is_transient());
    assert!(!Error::InvalidRequest(302).is_transient());
    assert!(!Error::Decode("bad shape".to_string()).is_transient());
    assert!(!Error::Timeout.is_transient());
}
