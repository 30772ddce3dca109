//! Update orchestration: combines a credential with an external updater
//! capability to check for, and optionally install, a newer build.
//!
//! The capability itself (remote check, download, install) is the caller's;
//! it reports what happened as an event, and the controller decides — and
//! proves — what outcome the caller is told and whether the install step may
//! run at all. Every branch is terminal: there is no retry loop here.

use vstd::prelude::*;

use crate::client::{client_error_message, spec_client_error_message, ClientError, VersionDescriptor};

verus! {

/// Where an update attempt failed.
#[derive(Clone, Copy, Debug, PartialEq, Eq, Structural)]
pub enum Stage {
    /// The bearer header was structurally invalid.
    Credential,
    /// The updater handle could not be constructed.
    ClientBuild,
    /// The remote check did not complete.
    Network,
    /// The index answered with a non-success status.
    Server,
    /// Download or installation failed after a successful check.
    Install,
}

/// The outcome of one update operation.
#[derive(Debug)]
pub enum UpdateCheckOutcome {
    /// The remote has nothing newer.
    NoUpdate,
    /// An update was found and not yet installed.
    Available { version: String, notes: Option<String> },
    /// An update was found and installed; the caller must restart.
    Installed { version: String, notes: Option<String> },
    /// The attempt failed at the named stage.
    Failed { stage: Stage, message: String },
}

/// What the external updater capability reported for one availability check.
#[derive(Debug)]
pub enum UpdaterEvent {
    /// The bearer header was rejected as structurally invalid; no handle was
    /// built.
    HeaderRejected { message: String },
    /// The updater handle could not be constructed.
    BuildFailed { message: String },
    /// The remote check itself failed. The capability does not say whether
    /// the failure was on the wire or at the server, so it is reported at
    /// the network stage.
    CheckFailed { message: String },
    /// The check completed: nothing newer exists.
    UpToDate,
    /// The check completed: a newer build exists.
    UpdateFound { version: String, notes: Option<String> },
}

/// How the download-and-install step ended.
#[derive(Debug)]
pub enum InstallEvent {
    /// The new build is installed.
    Completed,
    /// Download, signature check or filesystem write failed; nothing was
    /// installed.
    InstallFailed { message: String },
}

/// The outcome of an availability check: each capability event is assigned
/// its failure stage, or its clean answer. `Installed` never arises here.
pub open spec fn spec_availability_outcome(ev: UpdaterEvent) -> UpdateCheckOutcome {
    match ev {
        UpdaterEvent::HeaderRejected { message } => UpdateCheckOutcome::Failed {
            stage: Stage::Credential,
            message,
        },
        UpdaterEvent::BuildFailed { message } => UpdateCheckOutcome::Failed {
            stage: Stage::ClientBuild,
            message,
        },
        UpdaterEvent::CheckFailed { message } => UpdateCheckOutcome::Failed {
            stage: Stage::Network,
            message,
        },
        UpdaterEvent::UpToDate => UpdateCheckOutcome::NoUpdate,
        UpdaterEvent::UpdateFound { version, notes } => UpdateCheckOutcome::Available {
            version,
            notes,
        },
    }
}

/// Classifies what the capability reported for an availability check.
pub fn availability_outcome(ev: UpdaterEvent) -> (r: UpdateCheckOutcome)
    ensures
        r == spec_availability_outcome(ev),
{
    match ev {
        UpdaterEvent::HeaderRejected { message } => UpdateCheckOutcome::Failed {
            stage: Stage::Credential,
            message,
        },
        UpdaterEvent::BuildFailed { message } => UpdateCheckOutcome::Failed {
            stage: Stage::ClientBuild,
            message,
        },
        UpdaterEvent::CheckFailed { message } => UpdateCheckOutcome::Failed {
            stage: Stage::Network,
            message,
        },
        UpdaterEvent::UpToDate => UpdateCheckOutcome::NoUpdate,
        UpdaterEvent::UpdateFound { version, notes } => UpdateCheckOutcome::Available {
            version,
            notes,
        },
    }
}

/// The outcome of the install step that follows a successful check of the
/// given version: installed on completion, failed at the install stage
/// otherwise, the capability's message passed on verbatim.
pub open spec fn spec_install_outcome(
    version: String,
    notes: Option<String>,
    ev: InstallEvent,
) -> UpdateCheckOutcome {
    match ev {
        InstallEvent::Completed => UpdateCheckOutcome::Installed { version, notes },
        InstallEvent::InstallFailed { message } => UpdateCheckOutcome::Failed {
            stage: Stage::Install,
            message,
        },
    }
}

/// Concludes the install step for the version the check found.
pub fn install_outcome(version: String, notes: Option<String>, ev: InstallEvent) -> (r:
    UpdateCheckOutcome)
    ensures
        r == spec_install_outcome(version, notes, ev),
{
    match ev {
        InstallEvent::Completed => UpdateCheckOutcome::Installed { version, notes },
        InstallEvent::InstallFailed { message } => UpdateCheckOutcome::Failed {
            stage: Stage::Install,
            message,
        },
    }
}

/// What an availability check reports to the caller.
#[derive(Debug)]
pub struct UpdateInfo {
    pub available: bool,
    pub version: Option<String>,
    pub body: Option<String>,
    pub error: Option<String>,
}

/// What a check-and-install run reports to the caller. `installed` set means
/// the running process must restart to use the new build.
#[derive(Debug)]
pub struct UpdateResult {
    pub available: bool,
    pub version: Option<String>,
    pub body: Option<String>,
    pub error: Option<String>,
    pub installed: bool,
}

/// The caller-facing shape of an outcome: available for a found or installed
/// update, the message of a failure, nothing else.
pub open spec fn spec_update_info_of(o: UpdateCheckOutcome) -> UpdateInfo {
    match o {
        UpdateCheckOutcome::NoUpdate => UpdateInfo {
            available: false,
            version: None,
            body: None,
            error: None,
        },
        UpdateCheckOutcome::Available { version, notes } => UpdateInfo {
            available: true,
            version: Some(version),
            body: notes,
            error: None,
        },
        UpdateCheckOutcome::Installed { version, notes } => UpdateInfo {
            available: true,
            version: Some(version),
            body: notes,
            error: None,
        },
        UpdateCheckOutcome::Failed { stage, message } => UpdateInfo {
            available: false,
            version: None,
            body: None,
            error: Some(message),
        },
    }
}

/// Renders an outcome in the shape an availability check reports.
pub fn update_info_of(o: UpdateCheckOutcome) -> (r: UpdateInfo)
    ensures
        r == spec_update_info_of(o),
{
    match o {
        UpdateCheckOutcome::NoUpdate => UpdateInfo {
            available: false,
            version: None,
            body: None,
            error: None,
        },
        UpdateCheckOutcome::Available { version, notes } => UpdateInfo {
            available: true,
            version: Some(version),
            body: notes,
            error: None,
        },
        UpdateCheckOutcome::Installed { version, notes } => UpdateInfo {
            available: true,
            version: Some(version),
            body: notes,
            error: None,
        },
        UpdateCheckOutcome::Failed { stage: _, message } => UpdateInfo {
            available: false,
            version: None,
            body: None,
            error: Some(message),
        },
    }
}

/// What a check-and-install run does next after the availability check.
#[derive(Debug)]
pub enum UpdateAction {
    /// The run is over; report this result.
    Conclude { result: UpdateResult },
    /// An update was found: run the install step for it.
    RunInstall { version: String, notes: Option<String> },
}

/// The result reporting that the remote has nothing newer.
pub open spec fn spec_no_update_result() -> UpdateResult {
    UpdateResult { available: false, version: None, body: None, error: None, installed: false }
}

/// The result reporting a failure before anything was found.
pub open spec fn spec_failed_result(message: String) -> UpdateResult {
    UpdateResult {
        available: false,
        version: None,
        body: None,
        error: Some(message),
        installed: false,
    }
}

/// The decision after the availability check: install exactly when an update
/// was found, conclude at once on a clean "nothing newer" or on any failure.
pub open spec fn spec_step_after_check(ev: UpdaterEvent) -> UpdateAction {
    match ev {
        UpdaterEvent::HeaderRejected { message } => UpdateAction::Conclude {
            result: spec_failed_result(message),
        },
        UpdaterEvent::BuildFailed { message } => UpdateAction::Conclude {
            result: spec_failed_result(message),
        },
        UpdaterEvent::CheckFailed { message } => UpdateAction::Conclude {
            result: spec_failed_result(message),
        },
        UpdaterEvent::UpToDate => UpdateAction::Conclude { result: spec_no_update_result() },
        UpdaterEvent::UpdateFound { version, notes } => UpdateAction::RunInstall { version, notes },
    }
}

/// Decides, from what the capability reported, whether the install step runs.
pub fn step_after_check(ev: UpdaterEvent) -> (a: UpdateAction)
    ensures
        a == spec_step_after_check(ev),
{
    match ev {
        UpdaterEvent::HeaderRejected { message } => UpdateAction::Conclude {
            result: UpdateResult {
                available: false,
                version: None,
                body: None,
                error: Some(message),
                installed: false,
            },
        },
        UpdaterEvent::BuildFailed { message } => UpdateAction::Conclude {
            result: UpdateResult {
                available: false,
                version: None,
                body: None,
                error: Some(message),
                installed: false,
            },
        },
        UpdaterEvent::CheckFailed { message } => UpdateAction::Conclude {
            result: UpdateResult {
                available: false,
                version: None,
                body: None,
                error: Some(message),
                installed: false,
            },
        },
        UpdaterEvent::UpToDate => UpdateAction::Conclude {
            result: UpdateResult {
                available: false,
                version: None,
                body: None,
                error: None,
                installed: false,
            },
        },
        UpdaterEvent::UpdateFound { version, notes } => UpdateAction::RunInstall { version, notes },
    }
}

/// The result of the install step for the version the check found: on
/// failure the update stays available and not installed, so the caller may
/// simply run the operation again.
pub open spec fn spec_conclude_install(
    version: String,
    notes: Option<String>,
    ev: InstallEvent,
) -> UpdateResult {
    match ev {
        InstallEvent::Completed => UpdateResult {
            available: true,
            version: Some(version),
            body: notes,
            error: None,
            installed: true,
        },
        InstallEvent::InstallFailed { message } => UpdateResult {
            available: true,
            version: Some(version),
            body: notes,
            error: Some(message),
            installed: false,
        },
    }
}

/// Renders how the install step ended for the version the check found.
pub fn conclude_install(version: String, notes: Option<String>, ev: InstallEvent) -> (r:
    UpdateResult)
    ensures
        r == spec_conclude_install(version, notes, ev),
{
    match ev {
        InstallEvent::Completed => UpdateResult {
            available: true,
            version: Some(version),
            body: notes,
            error: None,
            installed: true,
        },
        InstallEvent::InstallFailed { message } => UpdateResult {
            available: true,
            version: Some(version),
            body: notes,
            error: Some(message),
            installed: false,
        },
    }
}

/// The running version merged with what the metadata query found.
#[derive(Debug)]
pub struct AppVersions {
    pub current: String,
    pub latest: Option<String>,
    pub latest_notes: Option<String>,
    pub api_error: Option<String>,
}

/// The merge rule: the running version is always carried through; a
/// successful query fills the latest fields; a failed one leaves them empty
/// and records its message.
pub open spec fn merge_matches(
    current: String,
    fetched: Result<VersionDescriptor, ClientError>,
    r: AppVersions,
) -> bool {
    &&& r.current == current
    &&& match fetched {
        Ok(d) => {
            &&& r.latest == d.normalized_version
            &&& r.latest_notes == d.release_notes
            &&& r.api_error is None
        },
        Err(e) => {
            &&& r.latest is None
            &&& r.latest_notes is None
            &&& r.api_error matches Some(m) && m@ == spec_client_error_message(e)
        },
    }
}

/// Merges the running version with the metadata query's result. A failure at
/// the query stage is captured in `api_error` and does not abort the merge.
pub fn merge_versions(current: String, fetched: Result<VersionDescriptor, ClientError>) -> (r:
    AppVersions)
    ensures
        merge_matches(current, fetched, r),
{
    match fetched {
        Ok(d) => AppVersions {
            current,
            latest: d.normalized_version,
            latest_notes: d.release_notes,
            api_error: None,
        },
        Err(e) => {
            let message = client_error_message(&e);
            AppVersions { current, latest: None, latest_notes: None, api_error: Some(message) }
        },
    }
}

/// A merged view built from a non-empty running version keeps it non-empty,
/// whatever the query did; when the query failed, the error is recorded and
/// no latest version is claimed.
pub proof fn lemma_current_version_survives_failure(current: String, e: ClientError, r: AppVersions)
    requires
        current@.len() > 0,
        merge_matches(current, Err(e), r),
    ensures
        r.current@.len() > 0,
        r.latest is None,
        r.latest_notes is None,
        r.api_error is Some,
{
}

/// A check that reports nothing newer concludes with `NoUpdate`, and the
/// install step is never reached.
pub proof fn lemma_no_update_skips_install(ev: UpdaterEvent)
    requires
        ev is UpToDate,
    ensures
        spec_availability_outcome(ev) is NoUpdate,
        spec_step_after_check(ev) == (UpdateAction::Conclude { result: spec_no_update_result() }),
        !(spec_step_after_check(ev) is RunInstall),
{
}

/// An install failure after a successful check is `Failed` at the install
/// stage, never `Installed`; the rendered result still shows the update as
/// available and not installed, so a caller may retry the whole operation.
pub proof fn lemma_install_failure_is_retryable(
    version: String,
    notes: Option<String>,
    message: String,
)
    ensures
        spec_install_outcome(version, notes, InstallEvent::InstallFailed { message })
            == (UpdateCheckOutcome::Failed { stage: Stage::Install, message }),
        !(spec_install_outcome(version, notes, InstallEvent::InstallFailed { message })
            is Installed),
        spec_conclude_install(version, notes, InstallEvent::InstallFailed { message }).available,
        !spec_conclude_install(version, notes, InstallEvent::InstallFailed { message }).installed,
        spec_conclude_install(version, notes, InstallEvent::InstallFailed { message }).version
            == Some(version),
{
}

/// A result never reports `installed` without `available`.
pub open spec fn result_consistent(r: UpdateResult) -> bool {
    r.installed ==> r.available
}

/// Every result the controller can conclude — straight after the check or
/// after the install step — keeps the consistency invariant: `installed` is
/// never paired with a missing `available`.
pub proof fn lemma_installed_implies_available(
    ev: UpdaterEvent,
    version: String,
    notes: Option<String>,
    install: InstallEvent,
)
    ensures
        spec_step_after_check(ev) matches UpdateAction::Conclude { result } ==> result_consistent(
            result,
        ),
        result_consistent(spec_conclude_install(version, notes, install)),
{
}

/// The install step runs exactly when the check found an update; an outcome
/// of `NoUpdate` or `Failed` concludes at once with the matching result.
pub proof fn lemma_step_follows_outcome(ev: UpdaterEvent)
    ensures
        spec_step_after_check(ev) is RunInstall <==> spec_availability_outcome(ev) is Available,
        spec_availability_outcome(ev) is NoUpdate ==> spec_step_after_check(ev)
            == (UpdateAction::Conclude { result: spec_no_update_result() }),
        spec_availability_outcome(ev) matches UpdateCheckOutcome::Failed { stage, message }
            ==> spec_step_after_check(ev) == (UpdateAction::Conclude {
            result: spec_failed_result(message),
        }),
{
}

/// Checking availability twice with no external state change — the updater
/// capability reports the same event both times — yields the same outcome:
/// the controller keeps no state of its own between calls.
pub proof fn lemma_check_availability_idempotent(first: UpdaterEvent, second: UpdaterEvent)
    requires
        first == second,
    ensures
        spec_availability_outcome(first) == spec_availability_outcome(second),
{
}

} // verus!
