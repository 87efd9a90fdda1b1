//! The update consent flow: check for an update, announce it to the page,
//! wait for the user's answer, then install and restart, or stop.
//!
//! The flow only decides. The caller performs each action (opening the
//! updater, checking, pausing, asking the page, installing, restarting) and
//! hands the result back as the next event.

use vstd::prelude::*;

verus! {

/// How long to let the page set up its listeners before asking it.
pub const PROMPT_DELAY_MILLIS: u64 = 1500;

/// How long to wait for the user's answer; no answer counts as a refusal.
pub const CONSENT_TIMEOUT_SECS: u64 = 60;

/// How a run of the flow ended.
#[derive(Debug, Clone, Copy, PartialEq, Eq, Structural)]
pub enum UpdateOutcome {
    /// The updater could not be set up.
    UpdaterUnavailable,
    /// Checking for an update failed.
    CheckFailed,
    /// The running version is the newest.
    UpToDate,
    /// The user refused the update, or did not answer in time.
    Declined,
    /// Downloading or installing the update failed.
    InstallFailed,
    /// The update was installed.
    Installed,
}

/// Where the flow stands.
#[derive(Debug)]
pub enum UpdateStage {
    /// The updater is being set up.
    Starting,
    /// The update server is being asked.
    Checking,
    /// An update was found; the flow pauses before asking the user.
    Announcing { current: String, version: String },
    /// The user has been asked and the flow waits for the answer.
    AwaitingConsent,
    /// The update is being downloaded and installed.
    Installing,
    /// The flow has ended.
    Finished { outcome: UpdateOutcome },
}

/// What happened since the last action.
#[derive(Debug)]
pub enum UpdateEvent {
    UpdaterReady,
    UpdaterUnavailable,
    CheckFailed,
    NoUpdate,
    UpdateFound { current: String, version: String },
    PauseElapsed,
    Consent { approved: bool },
    ConsentTimedOut,
    InstallFailed,
    InstallSucceeded,
}

/// What the caller does next.
#[derive(Debug)]
pub enum UpdateAction {
    /// Set up the updater.
    OpenUpdater,
    /// Ask the update server for a newer version.
    CheckForUpdate,
    /// Wait this long.
    Pause { millis: u64 },
    /// Ask the user whether to install `version` over `current`, and wait at
    /// most `timeout_secs` for the answer.
    AskConsent { current: String, version: String, timeout_secs: u64 },
    /// Download and install the update.
    DownloadAndInstall,
    /// Report that the update was installed and restart the application.
    Restart,
    /// Report how the flow ended.
    Report { outcome: UpdateOutcome },
    /// The event does not fit the stage: nothing to do.
    Ignore,
}

/// The flow's transition table: the next stage and the action for `event`
/// in `stage`. An event that does not fit the stage changes nothing.
pub open spec fn transition(stage: UpdateStage, event: UpdateEvent) -> (UpdateStage, UpdateAction) {
    match (stage, event) {
        (UpdateStage::Starting, UpdateEvent::UpdaterReady) =>
            (UpdateStage::Checking, UpdateAction::CheckForUpdate),
        (UpdateStage::Starting, UpdateEvent::UpdaterUnavailable) =>
            finish(UpdateOutcome::UpdaterUnavailable),
        (UpdateStage::Checking, UpdateEvent::CheckFailed) => finish(UpdateOutcome::CheckFailed),
        (UpdateStage::Checking, UpdateEvent::NoUpdate) => finish(UpdateOutcome::UpToDate),
        (UpdateStage::Checking, UpdateEvent::UpdateFound { current, version }) => (
            UpdateStage::Announcing { current, version },
            UpdateAction::Pause { millis: PROMPT_DELAY_MILLIS },
        ),
        (UpdateStage::Announcing { current, version }, UpdateEvent::PauseElapsed) => (
            UpdateStage::AwaitingConsent,
            UpdateAction::AskConsent { current, version, timeout_secs: CONSENT_TIMEOUT_SECS },
        ),
        (UpdateStage::AwaitingConsent, UpdateEvent::Consent { approved }) => if approved {
            (UpdateStage::Installing, UpdateAction::DownloadAndInstall)
        } else {
            finish(UpdateOutcome::Declined)
        },
        (UpdateStage::AwaitingConsent, UpdateEvent::ConsentTimedOut) => finish(UpdateOutcome::Declined),
        (UpdateStage::Installing, UpdateEvent::InstallFailed) => finish(UpdateOutcome::InstallFailed),
        (UpdateStage::Installing, UpdateEvent::InstallSucceeded) => (
            UpdateStage::Finished { outcome: UpdateOutcome::Installed },
            UpdateAction::Restart,
        ),
        (stage, _) => (stage, UpdateAction::Ignore),
    }
}

/// Ending the flow with `outcome` and reporting it.
pub open spec fn finish(outcome: UpdateOutcome) -> (UpdateStage, UpdateAction) {
    (UpdateStage::Finished { outcome }, UpdateAction::Report { outcome })
}

/// The stage reached and the actions taken when `events` arrive one by one
/// from `stage`.
pub open spec fn run(stage: UpdateStage, events: Seq<UpdateEvent>) -> (UpdateStage, Seq<UpdateAction>)
    decreases events.len(),
{
    if events.len() == 0 {
        (stage, Seq::empty())
    } else {
        let (next, action) = transition(stage, events[0]);
        let (last, rest) = run(next, events.drop_first());
        (last, seq![action] + rest)
    }
}

/// Once the flow has ended, no event changes its outcome or asks for an
/// action.
pub proof fn lemma_finished_is_final(outcome: UpdateOutcome, event: UpdateEvent)
    ensures
        transition(UpdateStage::Finished { outcome }, event) == (
            UpdateStage::Finished { outcome },
            UpdateAction::Ignore,
        ),
{
}

/// The update is downloaded only right after the user approved it.
pub proof fn lemma_install_needs_approval(stage: UpdateStage, event: UpdateEvent)
    requires
        transition(stage, event).1 is DownloadAndInstall,
    ensures
        stage is AwaitingConsent,
        event == (UpdateEvent::Consent { approved: true }),
{
}

/// The application restarts only right after an install succeeded.
pub proof fn lemma_restart_needs_install(stage: UpdateStage, event: UpdateEvent)
    requires
        transition(stage, event).1 is Restart,
    ensures
        stage is Installing,
        event is InstallSucceeded,
{
}

/// In any run that does not begin in the middle of an install, the update is
/// installed and the application restarted only if the user approved it: a
/// run that restarts holds an approving answer among its events.
pub proof fn lemma_restart_needs_approval(stage: UpdateStage, events: Seq<UpdateEvent>)
    requires
        !(stage is Installing),
        run(stage, events).1.contains(UpdateAction::Restart),
    ensures
        events.contains(UpdateEvent::Consent { approved: true }),
    decreases events.len(),
{
    let (next, action) = transition(stage, events[0]);
    let rest = events.drop_first();
    let actions = run(stage, events).1;
    assert(actions == seq![action] + run(next, rest).1);
    let k = choose|k: int| 0 <= k < actions.len() && actions[k] == UpdateAction::Restart;
    if k == 0 {
        assert(action is Restart);
    } else if next is Installing {
        assert(events[0] == UpdateEvent::Consent { approved: true });
    } else {
        assert(run(next, rest).1[k - 1] == UpdateAction::Restart);
        lemma_restart_needs_approval(next, rest);
        let i = choose|i: int| 0 <= i < rest.len() && rest[i] == UpdateEvent::Consent { approved: true };
        assert(events[i + 1] == rest[i]);
    }
}

/// The stages that come after the user was asked.
pub open spec fn asked(stage: UpdateStage) -> bool {
    stage is AwaitingConsent || stage is Installing || stage is Finished
}

/// Asking the user moves the flow past the question.
pub proof fn lemma_asking_moves_on(stage: UpdateStage, event: UpdateEvent)
    requires
        transition(stage, event).1 is AskConsent,
    ensures
        asked(transition(stage, event).0),
{
}

/// Once the user has been asked, no run of events asks again: the user is
/// asked at most once.
pub proof fn lemma_asks_once(stage: UpdateStage, events: Seq<UpdateEvent>)
    requires
        asked(stage),
    ensures
        forall|i: int|
            0 <= i < run(stage, events).1.len() ==> !(#[trigger] run(stage, events).1[i] is AskConsent),
    decreases events.len(),
{
    if events.len() > 0 {
        let (next, action) = transition(stage, events[0]);
        lemma_asks_once(next, events.drop_first());
        assert(run(stage, events).1 == seq![action] + run(next, events.drop_first()).1);
        assert forall|i: int|
            0 <= i < run(stage, events).1.len() implies !(#[trigger] run(stage, events).1[i] is AskConsent) by {
            if i > 0 {
                assert(run(stage, events).1[i] == run(next, events.drop_first()).1[i - 1]);
            }
        }
    }
}

/// The first stage and action of the flow.
pub fn begin() -> (r: (UpdateStage, UpdateAction))
    ensures
        r == (UpdateStage::Starting, UpdateAction::OpenUpdater),
{
    (UpdateStage::Starting, UpdateAction::OpenUpdater)
}

/// Moves the flow on by one event.
pub fn step(stage: UpdateStage, event: UpdateEvent) -> (r: (UpdateStage, UpdateAction))
    ensures
        r == transition(stage, event),
{
    match (stage, event) {
        (UpdateStage::Starting, UpdateEvent::UpdaterReady) =>
            (UpdateStage::Checking, UpdateAction::CheckForUpdate),
        (UpdateStage::Starting, UpdateEvent::UpdaterUnavailable) =>
            finished(UpdateOutcome::UpdaterUnavailable),
        (UpdateStage::Checking, UpdateEvent::CheckFailed) => finished(UpdateOutcome::CheckFailed),
        (UpdateStage::Checking, UpdateEvent::NoUpdate) => finished(UpdateOutcome::UpToDate),
        (UpdateStage::Checking, UpdateEvent::UpdateFound { current, version }) => (
            UpdateStage::Announcing { current, version },
            UpdateAction::Pause { millis: PROMPT_DELAY_MILLIS },
        ),
        (UpdateStage::Announcing { current, version }, UpdateEvent::PauseElapsed) => (
            UpdateStage::AwaitingConsent,
            UpdateAction::AskConsent { current, version, timeout_secs: CONSENT_TIMEOUT_SECS },
        ),
        (UpdateStage::AwaitingConsent, UpdateEvent::Consent { approved }) => if approved {
            (UpdateStage::Installing, UpdateAction::DownloadAndInstall)
        } else {
            finished(UpdateOutcome::Declined)
        },
        (UpdateStage::AwaitingConsent, UpdateEvent::ConsentTimedOut) =>
            finished(UpdateOutcome::Declined),
        (UpdateStage::Installing, UpdateEvent::InstallFailed) =>
            finished(UpdateOutcome::InstallFailed),
        (UpdateStage::Installing, UpdateEvent::InstallSucceeded) => (
            UpdateStage::Finished { outcome: UpdateOutcome::Installed },
            UpdateAction::Restart,
        ),
        (stage, _) => (stage, UpdateAction::Ignore),
    }
}

fn finished(outcome: UpdateOutcome) -> (r: (UpdateStage, UpdateAction))
    ensures
        r == finish(outcome),
{
    (UpdateStage::Finished { outcome }, UpdateAction::Report { outcome })
}

/// Whether the flow has ended.
pub fn is_finished(stage: &UpdateStage) -> (r: bool)
    ensures
        r == stage is Finished,
{
    matches!(stage, UpdateStage::Finished { .. })
}

} // verus!
