use messterial::update::{
    begin, is_finished, step, UpdateAction, UpdateEvent, UpdateOutcome, UpdateStage,
    CONSENT_TIMEOUT_SECS, PROMPT_DELAY_MILLIS,
};

fn found() -> UpdateEvent {
    UpdateEvent::UpdateFound { current: "0.1.0".to_string(), version: "0.2.0".to_string() }
}

fn outcome(stage: &UpdateStage) -> Option<UpdateOutcome> {
    match stage {
        UpdateStage::Finished { outcome } => Some(*outcome),
        _ => None,
    }
}

#[test]
fn begin_opens_updater() {
    let (stage, action) = begin();
    assert!(matches!(stage, UpdateStage::Starting));
    assert!(matches!(action, UpdateAction::OpenUpdater));
}

#[test]
fn approved_update_installs_and_restarts() {
    let (stage, _) = begin();
    let (stage, action) = step(stage, UpdateEvent::UpdaterReady);
    assert!(matches!(stage, UpdateStage::Checking));
    assert!(matches!(action, UpdateAction::CheckForUpdate));
    let (stage, action) = step(stage, found());
    match &stage {
        UpdateStage::Announcing { current, version } => {
            assert_eq!(current, "0.1.0");
            assert_eq!(version, "0.2.0");
        }
        other => panic!("unexpected stage {:?}", other),
    }
    assert!(matches!(action, UpdateAction::Pause { millis: 1500 }));
    assert_eq!(PROMPT_DELAY_MILLIS, 1500);
    let (stage, action) = step(stage, UpdateEvent::PauseElapsed);
    assert!(matches!(stage, UpdateStage::AwaitingConsent));
    match action {
        UpdateAction::AskConsent { current, version, timeout_secs } => {
            assert_eq!(current, "0.1.0");
            assert_eq!(version, "0.2.0");
            assert_eq!(timeout_secs, 60);
        }
        other => panic!("unexpected action {:?}", other),
    }
    assert_eq!(CONSENT_TIMEOUT_SECS, 60);
    let (stage, action) = step(stage, UpdateEvent::Consent { approved: true });
    assert!(matches!(stage, UpdateStage::Installing));
    assert!(matches!(action, UpdateAction::DownloadAndInstall));
    let (stage, action) = step(stage, UpdateEvent::InstallSucceeded);
    assert_eq!(outcome(&stage), Some(UpdateOutcome::Installed));
    assert!(matches!(action, UpdateAction::Restart));
    assert!(is_finished(&stage));
}

fn to_consent() -> UpdateStage {
    let (stage, _) = step(UpdateStage::Checking, found());
    let (stage, _) = step(stage, UpdateEvent::PauseElapsed);
    stage
}

#[test]
fn refused_update_is_declined() {
    let (stage, action) = step(to_consent(), UpdateEvent::Consent { approved: false });
    assert_eq!(outcome(&stage), Some(UpdateOutcome::Declined));
    assert!(matches!(action, UpdateAction::Report { outcome: UpdateOutcome::Declined }));
}

#[test]
fn unanswered_update_is_declined() {
    let (stage, action) = step(to_consent(), UpdateEvent::ConsentTimedOut);
    assert_eq!(outcome(&stage), Some(UpdateOutcome::Declined));
    assert!(matches!(action, UpdateAction::Report { outcome: UpdateOutcome::Declined }));
}

#[test]
fn updater_unavailable_ends_flow() {
    let (stage, action) = step(UpdateStage::Starting, UpdateEvent::UpdaterUnavailable);
    assert_eq!(outcome(&stage), Some(UpdateOutcome::UpdaterUnavailable));
    assert!(matches!(action, UpdateAction::Report { outcome: UpdateOutcome::UpdaterUnavailable }));
}

#[test]
fn check_failure_and_no_update_end_flow() {
    let (stage, action) = step(UpdateStage::Checking, UpdateEvent::CheckFailed);
    assert_eq!(outcome(&stage), Some(UpdateOutcome::CheckFailed));
    assert!(matches!(action, UpdateAction::Report { outcome: UpdateOutcome::CheckFailed }));
    let (stage, action) = step(UpdateStage::Checking, UpdateEvent::NoUpdate);
    assert_eq!(outcome(&stage), Some(UpdateOutcome::UpToDate));
    assert!(matches!(action, UpdateAction::Report { outcome: UpdateOutcome::UpToDate }));
}

#[test]
fn install_failure_ends_flow_without_restart() {
    let (stage, action) = step(UpdateStage::Installing, UpdateEvent::InstallFailed);
    assert_eq!(outcome(&stage), Some(UpdateOutcome::InstallFailed));
    assert!(matches!(action, UpdateAction::Report { outcome: UpdateOutcome::InstallFailed }));
}

#[test]
fn events_out_of_place_are_ignored() {
    let (stage, action) = step(UpdateStage::Checking, UpdateEvent::Consent { approved: true });
    assert!(matches!(stage, UpdateStage::Checking));
    assert!(matches!(action, UpdateAction::Ignore));
    let (stage, action) = step(UpdateStage::Starting, UpdateEvent::InstallSucceeded);
    assert!(matches!(stage, UpdateStage::Starting));
    assert!(matches!(action, UpdateAction::Ignore));
    let (stage, action) = step(to_consent(), UpdateEvent::PauseElapsed);
    assert!(matches!(stage, UpdateStage::AwaitingConsent));
    assert!(matches!(action, UpdateAction::Ignore));
    assert!(!is_finished(&stage));
}

#[test]
fn finished_flow_stays_finished() {
    let events = vec![
        UpdateEvent::UpdaterReady,
        found(),
        UpdateEvent::PauseElapsed,
        UpdateEvent::Consent { approved: true },
        UpdateEvent::InstallSucceeded,
        UpdateEvent::ConsentTimedOut,
    ];
    for event in events {
        let (stage, action) =
            step(UpdateStage::Finished { outcome: UpdateOutcome::UpToDate }, event);
        assert_eq!(outcome(&stage), Some(UpdateOutcome::UpToDate));
        assert!(matches!(action, UpdateAction::Ignore));
    }
}

#[test]
fn no_restart_without_approval() {
    let events = vec![
        UpdateEvent::UpdaterReady,
        found(),
        UpdateEvent::PauseElapsed,
        UpdateEvent::ConsentTimedOut,
        UpdateEvent::Consent { approved: true },
        UpdateEvent::InstallSucceeded,
    ];
    let (mut stage, _) = begin();
    let mut asked = 0;
    for event in events {
        let (next, action) = step(stage, event);
        assert!(!matches!(action, UpdateAction::Restart | UpdateAction::DownloadAndInstall));
        if matches!(action, UpdateAction::AskConsent { .. }) {
            asked += 1;
        }
        stage = next;
    }
    assert_eq!(asked, 1);
    assert_eq!(outcome(&stage), Some(UpdateOutcome::Declined));
}
