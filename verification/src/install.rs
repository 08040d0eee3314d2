//! The first installation of an app through the tunnel: its deadlines, its steps, and the report of
//! how it ended.
use vstd::prelude::*;
use vstd::string::*;

use crate::faults::{CallOutcome, DeviceFault};
use crate::session;
use crate::signing::{AppleAccountPreflight, SigningDeviceIdentity, SigningError};
use crate::stages::{
    ReadOnlyProbeStage, RsdIdentityFailure, RsdInstallOutcome, RsdInstallReport, RsdInstallStage,
    RsdProbeFailure, RsdSessionCleanup, RsdStagingCleanup,
};
use crate::staging;
use crate::staging::{CopyFailure, UploadPlanFailure};

verus! {

// ---------------------------------------------------------------------------------------------
// Deadlines. All moments and times are nanoseconds of one clock.
// ---------------------------------------------------------------------------------------------

pub const RSD_INSTALL_TIMEOUT: u64 = 900_000_000_000;

pub const RSD_INSTALL_CLEANUP_TIMEOUT: u64 = 10_000_000_000;

pub const RSD_INSTALL_SESSION_CLEANUP_TIMEOUT: u64 = 10_000_000_000;

pub const RSD_INSTALL_VERIFICATION_TIMEOUT: u64 = 20_000_000_000;

/// The time that is kept for cleaning up.
pub fn install_cleanup_reserve() -> (reserve: u64)
    ensures
        reserve == RSD_INSTALL_CLEANUP_TIMEOUT + RSD_INSTALL_SESSION_CLEANUP_TIMEOUT,
{
    RSD_INSTALL_CLEANUP_TIMEOUT + RSD_INSTALL_SESSION_CLEANUP_TIMEOUT
}

/// The end of the work before an overall deadline: the time for cleaning up is kept. A deadline too
/// early in the clock's count leaves no time.
pub open spec fn work_deadline(overall: u64, start: u64) -> int {
    if overall >= RSD_INSTALL_CLEANUP_TIMEOUT + RSD_INSTALL_SESSION_CLEANUP_TIMEOUT {
        overall - (RSD_INSTALL_CLEANUP_TIMEOUT + RSD_INSTALL_SESSION_CLEANUP_TIMEOUT)
    } else {
        start as int
    }
}

/// The end of the work before an overall deadline.
pub fn install_work_deadline(overall_deadline: u64, work_start: u64) -> (deadline: u64)
    ensures
        deadline == work_deadline(overall_deadline, work_start),
{
    match overall_deadline.checked_sub(install_cleanup_reserve()) {
        Some(deadline) => deadline,
        None => work_start,
    }
}

/// The latest moment at which an installation may be commanded: the time for its verification is
/// kept too.
pub open spec fn command_deadline(overall: u64, start: u64) -> int {
    let limit = work_deadline(overall, start);
    if limit >= RSD_INSTALL_VERIFICATION_TIMEOUT {
        limit - RSD_INSTALL_VERIFICATION_TIMEOUT
    } else {
        limit
    }
}

/// The latest moment at which an installation may be commanded.
pub fn install_command_deadline(overall_deadline: u64, window_start: u64) -> (deadline: u64)
    ensures
        deadline == command_deadline(overall_deadline, window_start),
{
    let limit: u64 = install_work_deadline(overall_deadline, window_start);
    match limit.checked_sub(RSD_INSTALL_VERIFICATION_TIMEOUT) {
        Some(deadline) => deadline,
        None => limit,
    }
}

/// The end of a verification: its own time, and no more than is left for work.
pub open spec fn verification_deadline(overall: u64, start: u64) -> int {
    let limit = work_deadline(overall, start);
    if start + RSD_INSTALL_VERIFICATION_TIMEOUT > u64::MAX || limit <= start
        + RSD_INSTALL_VERIFICATION_TIMEOUT {
        limit
    } else {
        start + RSD_INSTALL_VERIFICATION_TIMEOUT
    }
}

/// The end of a verification.
pub fn install_verification_deadline(overall_deadline: u64, verification_start: u64) -> (deadline:
    u64)
    ensures
        deadline == verification_deadline(overall_deadline, verification_start),
{
    let limit: u64 = install_work_deadline(overall_deadline, verification_start);
    match verification_start.checked_add(RSD_INSTALL_VERIFICATION_TIMEOUT) {
        Some(end) => if limit <= end {
            limit
        } else {
            end
        },
        None => limit,
    }
}

/// An installation that is commanded in time leaves its verification and its clean-up their time.
pub proof fn commands_leave_time(overall: u64, now: u64)
    requires
        overall >= RSD_INSTALL_CLEANUP_TIMEOUT + RSD_INSTALL_SESSION_CLEANUP_TIMEOUT
            + RSD_INSTALL_VERIFICATION_TIMEOUT,
        now < command_deadline(overall, now),
    ensures
        verification_deadline(overall, now) == now + RSD_INSTALL_VERIFICATION_TIMEOUT,
        verification_deadline(overall, now) + RSD_INSTALL_CLEANUP_TIMEOUT
            + RSD_INSTALL_SESSION_CLEANUP_TIMEOUT < overall,
{
}

// ---------------------------------------------------------------------------------------------
// The command and its outcome.
// ---------------------------------------------------------------------------------------------

/// An option of a command.
#[derive(Debug, Clone, Copy, PartialEq, Eq)]
pub struct InstallOption {
    pub key: &'static str,
    pub value: &'static str,
}

/// The only command that changes which apps are installed.
#[derive(Debug)]
pub enum SpikeInstallMutation {
    Install { package_path: String, options: Vec<InstallOption> },
}

/// The command that installs what was copied to the device, as a developer's package.
pub fn installation_proxy_install_mutation(staging_app: &str) -> (mutation: SpikeInstallMutation)
    ensures
        mutation matches SpikeInstallMutation::Install { package_path, options }
            && package_path@ == staging_app@ && options@ == seq![
            InstallOption { key: "PackageType", value: "Developer" },
        ],
{
    let options: Vec<InstallOption> = vec![
        InstallOption { key: "PackageType", value: "Developer" },
    ];
    SpikeInstallMutation::Install { package_path: staging_app.to_owned(), options }
}

/// Why a command did not succeed.
#[derive(Debug, Clone, Copy, PartialEq, Eq, Structural)]
pub enum InstallCommandFailure {
    /// The device refused it.
    Definitive,
    /// The device may have accepted it.
    PossiblyAccepted,
}

/// How a command has ended: only a refusal by the installation service is definitive.
pub open spec fn command_result(outcome: CallOutcome) -> Result<(), InstallCommandFailure> {
    match outcome {
        CallOutcome::Completed => Ok(()),
        CallOutcome::Faulted(DeviceFault::OperationFailed) => Err(
            InstallCommandFailure::Definitive,
        ),
        _ => Err(InstallCommandFailure::PossiblyAccepted),
    }
}

/// How a command has ended.
pub fn install_command_result(outcome: CallOutcome) -> (result: Result<(), InstallCommandFailure>)
    ensures
        result == command_result(outcome),
{
    match outcome {
        CallOutcome::Completed => Ok(()),
        CallOutcome::Faulted(DeviceFault::OperationFailed) => Err(
            InstallCommandFailure::Definitive,
        ),
        _ => Err(InstallCommandFailure::PossiblyAccepted),
    }
}

/// The outcome of a command that did not succeed, by whether the app was then found.
pub open spec fn failed_outcome(
    failure: InstallCommandFailure,
    lookup: Result<bool, ()>,
) -> RsdInstallOutcome {
    match (failure, lookup) {
        (_, Ok(true)) => RsdInstallOutcome::Installed,
        (InstallCommandFailure::Definitive, _) => RsdInstallOutcome::NotInstalled,
        (InstallCommandFailure::PossiblyAccepted, _) => RsdInstallOutcome::OutcomeUnknown,
    }
}

/// The outcome of a command that did not succeed.
pub fn outcome_after_install_failure(
    failure: InstallCommandFailure,
    lookup: Result<bool, ()>,
) -> (outcome: RsdInstallOutcome)
    ensures
        outcome == failed_outcome(failure, lookup),
{
    match lookup {
        Ok(true) => RsdInstallOutcome::Installed,
        _ => match failure {
            InstallCommandFailure::Definitive => RsdInstallOutcome::NotInstalled,
            InstallCommandFailure::PossiblyAccepted => RsdInstallOutcome::OutcomeUnknown,
        },
    }
}

/// The outcome of a command, by whether the app was then found.
pub open spec fn outcome_of(
    command: Result<(), InstallCommandFailure>,
    lookup: Result<bool, ()>,
) -> RsdInstallOutcome {
    match (command, lookup) {
        (Ok(()), Ok(true)) => RsdInstallOutcome::Installed,
        (Ok(()), Ok(false)) => RsdInstallOutcome::NotInstalled,
        (Ok(()), Err(())) => RsdInstallOutcome::OutcomeUnknown,
        (Err(failure), lookup) => failed_outcome(failure, lookup),
    }
}

/// The outcome of a command.
pub fn outcome_after_install_result(
    install_result: Result<(), InstallCommandFailure>,
    lookup: Result<bool, ()>,
) -> (outcome: RsdInstallOutcome)
    ensures
        outcome == outcome_of(install_result, lookup),
{
    match install_result {
        Ok(()) => match lookup {
            Ok(true) => RsdInstallOutcome::Installed,
            Ok(false) => RsdInstallOutcome::NotInstalled,
            Err(()) => RsdInstallOutcome::OutcomeUnknown,
        },
        Err(failure) => outcome_after_install_failure(failure, lookup),
    }
}

/// An app counts as installed exactly where it was found on the device.
pub proof fn installed_means_found(
    command: Result<(), InstallCommandFailure>,
    lookup: Result<bool, ()>,
)
    ensures
        outcome_of(command, lookup) == RsdInstallOutcome::Installed <==> lookup == Ok::<bool, ()>(
            true,
        ),
        outcome_of(command, lookup) != RsdInstallOutcome::NotStarted,
{
}

/// The kind of the error that an outcome is reported with.
pub open spec fn outcome_kind(
    command: Result<(), InstallCommandFailure>,
    outcome: RsdInstallOutcome,
) -> &'static str {
    match (command, outcome) {
        (_, RsdInstallOutcome::Installed) => "",
        (Ok(()), RsdInstallOutcome::NotInstalled) => "install_not_verified",
        (_, RsdInstallOutcome::NotInstalled) => "install_rejected",
        _ => "install_result_ambiguous",
    }
}

/// The kind of the error that an outcome is reported with.
pub fn install_error_kind(
    install_result: Result<(), InstallCommandFailure>,
    outcome: RsdInstallOutcome,
) -> (kind: &'static str)
    requires
        outcome != RsdInstallOutcome::NotStarted,
    ensures
        kind == outcome_kind(install_result, outcome),
{
    match outcome {
        RsdInstallOutcome::Installed => "",
        RsdInstallOutcome::NotInstalled => match install_result {
            Ok(()) => "install_not_verified",
            Err(_) => "install_rejected",
        },
        _ => "install_result_ambiguous",
    }
}

/// The kind of the error where the app could not be signed.
pub open spec fn signing_kind(error: SigningError) -> &'static str {
    match error {
        SigningError::NotReady => "signing_not_ready",
        SigningError::DeviceRegistrationRequired => "device_registration_required",
        SigningError::DeveloperTeamFailed => "account_preflight",
        SigningError::SignedMetadataFailed => "signed_metadata",
        _ => "signing_failed",
    }
}

/// The kind of the error where the app could not be signed.
pub fn signing_error_kind(error: SigningError) -> (kind: &'static str)
    ensures
        kind == signing_kind(error),
{
    match error {
        SigningError::NotReady => "signing_not_ready",
        SigningError::DeviceRegistrationRequired => "device_registration_required",
        SigningError::DeveloperTeamFailed => "account_preflight",
        SigningError::SignedMetadataFailed => "signed_metadata",
        _ => "signing_failed",
    }
}

/// The account has no room for a certificate of this machine, which has none.
pub open spec fn has_certificate_pressure(preflight: AppleAccountPreflight) -> bool {
    &&& preflight.development_certificate_capacity matches Some(capacity)
        && preflight.development_certificate_count >= capacity
    &&& !preflight.machine_certificate_present
}

/// Whether the account has no room for a certificate of this machine.
pub fn certificate_pressure(preflight: AppleAccountPreflight) -> (pressure: bool)
    ensures
        pressure == has_certificate_pressure(preflight),
{
    match preflight.development_certificate_capacity {
        Some(capacity) => preflight.development_certificate_count >= capacity
            && !preflight.machine_certificate_present,
        None => false,
    }
}

// ---------------------------------------------------------------------------------------------
// Sessions.
// ---------------------------------------------------------------------------------------------

/// What became of two sessions: a failure of either one counts.
pub open spec fn merged(
    first: RsdSessionCleanup,
    second: RsdSessionCleanup,
) -> RsdSessionCleanup {
    if first == RsdSessionCleanup::Failed || second == RsdSessionCleanup::Failed {
        RsdSessionCleanup::Failed
    } else if first == RsdSessionCleanup::Succeeded || second == RsdSessionCleanup::Succeeded {
        RsdSessionCleanup::Succeeded
    } else {
        RsdSessionCleanup::NotNeeded
    }
}

/// What became of two sessions.
pub fn merge_session_cleanup(first: RsdSessionCleanup, second: RsdSessionCleanup) -> (cleanup:
    RsdSessionCleanup)
    ensures
        cleanup == merged(first, second),
{
    if first == RsdSessionCleanup::Failed || second == RsdSessionCleanup::Failed {
        RsdSessionCleanup::Failed
    } else if first == RsdSessionCleanup::Succeeded || second == RsdSessionCleanup::Succeeded {
        RsdSessionCleanup::Succeeded
    } else {
        RsdSessionCleanup::NotNeeded
    }
}

/// What became of a session that was to be closed.
pub open spec fn close_result(closed: bool) -> RsdSessionCleanup {
    if closed {
        RsdSessionCleanup::Succeeded
    } else {
        RsdSessionCleanup::Failed
    }
}

/// What became of a session that was to be closed.
pub fn session_close_result(closed: bool) -> (cleanup: RsdSessionCleanup)
    ensures
        cleanup == close_result(closed),
{
    if closed {
        RsdSessionCleanup::Succeeded
    } else {
        RsdSessionCleanup::Failed
    }
}

/// The report with what became of the session. A failure to close it is the error only where there
/// was none.
pub open spec fn with_session(
    report: RsdInstallReport,
    session_cleanup: RsdSessionCleanup,
) -> RsdInstallReport {
    if session_cleanup == RsdSessionCleanup::Failed && report.error_kind@.len() == 0 {
        RsdInstallReport {
            session_cleanup,
            stage: RsdInstallStage::SessionCleanup,
            error_kind: "session_cleanup",
            ..report
        }
    } else {
        RsdInstallReport { session_cleanup, ..report }
    }
}

/// Records what became of the session.
pub fn record_session_cleanup(report: &mut RsdInstallReport, session_cleanup: RsdSessionCleanup)
    ensures
        *final(report) == with_session(*old(report), session_cleanup),
{
    report.session_cleanup = session_cleanup;
    if session_cleanup == RsdSessionCleanup::Failed && report.error_kind.is_empty() {
        report.stage = RsdInstallStage::SessionCleanup;
        report.error_kind = "session_cleanup";
    }
}

/// The report of an installation that was not started.
pub open spec fn not_started(
    stage: RsdInstallStage,
    error_kind: &'static str,
    certificate_pressure: bool,
    bundle_id: Option<String>,
) -> RsdInstallReport {
    RsdInstallReport {
        outcome: RsdInstallOutcome::NotStarted,
        stage,
        cleanup: RsdStagingCleanup::NotNeeded,
        session_cleanup: RsdSessionCleanup::NotNeeded,
        install_command_count: 0,
        error_kind,
        bundle_id,
        certificate_pressure,
    }
}

/// The report of an installation that was not started.
pub fn rsd_install_failure(
    stage: RsdInstallStage,
    error_kind: &'static str,
    certificate_pressure: bool,
    bundle_id: Option<String>,
) -> (report: RsdInstallReport)
    ensures
        report == not_started(stage, error_kind, certificate_pressure, bundle_id),
{
    RsdInstallReport {
        outcome: RsdInstallOutcome::NotStarted,
        stage,
        cleanup: RsdStagingCleanup::NotNeeded,
        session_cleanup: RsdSessionCleanup::NotNeeded,
        install_command_count: 0,
        error_kind,
        bundle_id,
        certificate_pressure,
    }
}

// ---------------------------------------------------------------------------------------------
// The installation of a signed app over an open session.
// ---------------------------------------------------------------------------------------------

/// How an installation ended.
#[derive(Debug, Clone, Copy, PartialEq, Eq)]
pub struct Ending {
    pub outcome: RsdInstallOutcome,
    pub stage: RsdInstallStage,
    pub cleanup: RsdStagingCleanup,
    pub install_command_count: u8,
    pub error_kind: &'static str,
}

impl Ending {
    /// The report of an installation that ended so.
    pub open spec fn reported(
        self,
        bundle_id: Option<String>,
        certificate_pressure: bool,
    ) -> RsdInstallReport {
        RsdInstallReport {
            outcome: self.outcome,
            stage: self.stage,
            cleanup: self.cleanup,
            session_cleanup: RsdSessionCleanup::NotNeeded,
            install_command_count: self.install_command_count,
            error_kind: self.error_kind,
            bundle_id,
            certificate_pressure,
        }
    }

    /// The report of an installation that ended so.
    pub fn report(self, bundle_id: Option<String>, certificate_pressure: bool) -> (report:
        RsdInstallReport)
        ensures
            report == self.reported(bundle_id, certificate_pressure),
    {
        RsdInstallReport {
            outcome: self.outcome,
            stage: self.stage,
            cleanup: self.cleanup,
            session_cleanup: RsdSessionCleanup::NotNeeded,
            install_command_count: self.install_command_count,
            error_kind: self.error_kind,
            bundle_id,
            certificate_pressure,
        }
    }

    /// The ending with what became of the copy. A failure to remove it is the error only where
    /// there was none.
    pub open spec fn cleaned(self, cleanup: RsdStagingCleanup) -> Ending {
        if cleanup == RsdStagingCleanup::Failed && self.error_kind@.len() == 0 {
            Ending {
                cleanup,
                stage: RsdInstallStage::Cleanup,
                error_kind: "staging_cleanup",
                ..self
            }
        } else {
            Ending { cleanup, ..self }
        }
    }

    fn with_cleanup(self, cleanup: RsdStagingCleanup) -> (ending: Ending)
        ensures
            ending == self.cleaned(cleanup),
    {
        if cleanup == RsdStagingCleanup::Failed && self.error_kind.is_empty() {
            Ending {
                outcome: self.outcome,
                stage: RsdInstallStage::Cleanup,
                cleanup,
                install_command_count: self.install_command_count,
                error_kind: "staging_cleanup",
            }
        } else {
            Ending {
                outcome: self.outcome,
                stage: self.stage,
                cleanup,
                install_command_count: self.install_command_count,
                error_kind: self.error_kind,
            }
        }
    }
}

/// An ending before anything was done to the device.
pub open spec fn untouched(stage: RsdInstallStage, error_kind: &'static str) -> Ending {
    Ending {
        outcome: RsdInstallOutcome::NotStarted,
        stage,
        cleanup: RsdStagingCleanup::NotNeeded,
        install_command_count: 0,
        error_kind,
    }
}

fn end_untouched(stage: RsdInstallStage, error_kind: &'static str) -> (ending: Ending)
    ensures
        ending == untouched(stage, error_kind),
{
    Ending {
        outcome: RsdInstallOutcome::NotStarted,
        stage,
        cleanup: RsdStagingCleanup::NotNeeded,
        install_command_count: 0,
        error_kind,
    }
}

/// An ending after something was copied to the device and before anything was commanded.
pub open spec fn uncommanded(stage: RsdInstallStage, error_kind: &'static str) -> Ending {
    Ending { outcome: RsdInstallOutcome::NotInstalled, ..untouched(stage, error_kind) }
}

fn end_uncommanded(stage: RsdInstallStage, error_kind: &'static str) -> (ending: Ending)
    ensures
        ending == uncommanded(stage, error_kind),
{
    Ending {
        outcome: RsdInstallOutcome::NotInstalled,
        stage,
        cleanup: RsdStagingCleanup::NotNeeded,
        install_command_count: 0,
        error_kind,
    }
}

/// An ending after the installation was commanded and looked for.
pub open spec fn commanded(
    command: Result<(), InstallCommandFailure>,
    lookup: Result<bool, ()>,
) -> Ending {
    let outcome = outcome_of(command, lookup);
    Ending {
        outcome,
        stage: if outcome == RsdInstallOutcome::Installed {
            RsdInstallStage::Complete
        } else {
            RsdInstallStage::Verification
        },
        cleanup: RsdStagingCleanup::NotNeeded,
        install_command_count: 1,
        error_kind: outcome_kind(command, outcome),
    }
}

fn end_commanded(command: Result<(), InstallCommandFailure>, lookup: Result<bool, ()>) -> (ending:
    Ending)
    ensures
        ending == commanded(command, lookup),
{
    proof {
        installed_means_found(command, lookup);
    }
    let outcome: RsdInstallOutcome = outcome_after_install_result(command, lookup);
    Ending {
        outcome,
        stage: if outcome == RsdInstallOutcome::Installed {
            RsdInstallStage::Complete
        } else {
            RsdInstallStage::Verification
        },
        cleanup: RsdStagingCleanup::NotNeeded,
        install_command_count: 1,
        error_kind: install_error_kind(command, outcome),
    }
}

/// Where the installation of a signed app stands.
#[derive(Debug, Clone, Copy, PartialEq, Eq)]
pub enum Execution {
    /// The installation service is connected to.
    OpenProxy,
    /// The app is looked for among those installed.
    LookUp,
    /// The copy is planned.
    Plan,
    /// The file service is connected to.
    OpenFiles,
    /// The app is copied.
    Stage,
    /// There is time for the command and its verification.
    Window,
    /// The installation service is connected to again.
    OpenInstaller,
    /// The installation is commanded.
    Command,
    /// The installation service is connected to for the verification, where there is time.
    OpenVerifier { command: Result<(), InstallCommandFailure> },
    /// The installed app is looked for.
    Verify { command: Result<(), InstallCommandFailure> },
    /// The copy is removed.
    Clean { ending: Ending },
}

/// How a plan was made.
#[derive(Debug, Clone, Copy, PartialEq, Eq, Structural)]
pub enum PlanOutcome {
    Planned,
    Failed(UploadPlanFailure),
    TaskFailed,
    TimedOut,
}

/// What happens to the installation of a signed app.
#[derive(Debug, Clone, Copy, PartialEq, Eq)]
pub enum ExecutionEvent {
    /// A service was connected to, or not.
    Opened(bool),
    /// The app was found, was not found, or could not be looked for.
    LookedUp(Result<bool, ()>),
    /// The copy was planned.
    Planned(PlanOutcome),
    /// The app was copied, or why it was not.
    Copied(Result<(), CopyFailure>),
    /// There is time, or not.
    InTime(bool),
    /// The installation was commanded.
    Commanded(Result<(), InstallCommandFailure>),
    /// The copy was removed, or not.
    Cleaned(RsdStagingCleanup),
}

/// What comes next.
#[derive(Debug, Clone, Copy, PartialEq, Eq)]
pub enum ExecutionTurn {
    Next(Execution),
    Ended(Ending),
}

impl Execution {
    /// What comes after an event. An event that is not awaited changes nothing.
    pub open spec fn turn(self, event: ExecutionEvent) -> ExecutionTurn {
        match (self, event) {
            (Execution::OpenProxy, ExecutionEvent::Opened(true)) => ExecutionTurn::Next(
                Execution::LookUp,
            ),
            (Execution::OpenProxy, ExecutionEvent::Opened(false)) => ExecutionTurn::Ended(
                untouched(RsdInstallStage::AlreadyInstalled, "installation_proxy"),
            ),
            (Execution::LookUp, ExecutionEvent::LookedUp(Ok(false))) => ExecutionTurn::Next(
                Execution::Plan,
            ),
            (Execution::LookUp, ExecutionEvent::LookedUp(Ok(true))) => ExecutionTurn::Ended(
                untouched(RsdInstallStage::AlreadyInstalled, "app_already_installed"),
            ),
            (Execution::LookUp, ExecutionEvent::LookedUp(Err(()))) => ExecutionTurn::Ended(
                untouched(RsdInstallStage::AlreadyInstalled, "installed_app_lookup"),
            ),
            (Execution::Plan, ExecutionEvent::Planned(outcome)) => match outcome {
                PlanOutcome::Planned => ExecutionTurn::Next(Execution::OpenFiles),
                PlanOutcome::Failed(failure) => ExecutionTurn::Ended(
                    untouched(RsdInstallStage::Staging, failure.text()),
                ),
                PlanOutcome::TaskFailed => ExecutionTurn::Ended(
                    untouched(RsdInstallStage::Staging, "local_task"),
                ),
                PlanOutcome::TimedOut => ExecutionTurn::Ended(
                    untouched(RsdInstallStage::Staging, "timeout"),
                ),
            },
            (Execution::OpenFiles, ExecutionEvent::Opened(true)) => ExecutionTurn::Next(
                Execution::Stage,
            ),
            (Execution::OpenFiles, ExecutionEvent::Opened(false)) => ExecutionTurn::Ended(
                untouched(RsdInstallStage::Staging, "afc_service"),
            ),
            (Execution::Stage, ExecutionEvent::Copied(Ok(()))) => ExecutionTurn::Next(
                Execution::Window,
            ),
            (Execution::Stage, ExecutionEvent::Copied(Err(failure))) => ExecutionTurn::Next(
                Execution::Clean { ending: uncommanded(RsdInstallStage::Staging, failure.text()) },
            ),
            (Execution::Window, ExecutionEvent::InTime(true)) => ExecutionTurn::Next(
                Execution::OpenInstaller,
            ),
            (Execution::Window, ExecutionEvent::InTime(false)) => ExecutionTurn::Next(
                Execution::Clean { ending: uncommanded(RsdInstallStage::Install, "timeout") },
            ),
            (Execution::OpenInstaller, ExecutionEvent::Opened(true)) => ExecutionTurn::Next(
                Execution::Command,
            ),
            (Execution::OpenInstaller, ExecutionEvent::Opened(false)) => ExecutionTurn::Next(
                Execution::Clean {
                    ending: uncommanded(RsdInstallStage::Install, "installation_proxy"),
                },
            ),
            (Execution::Command, ExecutionEvent::Commanded(command)) => ExecutionTurn::Next(
                Execution::OpenVerifier { command },
            ),
            (Execution::OpenVerifier { command }, ExecutionEvent::Opened(true)) =>
            ExecutionTurn::Next(Execution::Verify { command }),
            (Execution::OpenVerifier { command }, ExecutionEvent::Opened(false)) =>
            ExecutionTurn::Next(Execution::Clean { ending: commanded(command, Err(())) }),
            (Execution::Verify { command }, ExecutionEvent::LookedUp(lookup)) =>
            ExecutionTurn::Next(Execution::Clean { ending: commanded(command, lookup) }),
            (Execution::Clean { ending }, ExecutionEvent::Cleaned(cleanup)) =>
            ExecutionTurn::Ended(ending.cleaned(cleanup)),
            _ => ExecutionTurn::Next(self),
        }
    }

    /// What comes after an event.
    pub fn advance(self, event: ExecutionEvent) -> (turn: ExecutionTurn)
        ensures
            turn == self.turn(event),
    {
        match (self, event) {
            (Execution::OpenProxy, ExecutionEvent::Opened(open)) => if open {
                ExecutionTurn::Next(Execution::LookUp)
            } else {
                ExecutionTurn::Ended(
                    end_untouched(RsdInstallStage::AlreadyInstalled, "installation_proxy"),
                )
            },
            (Execution::LookUp, ExecutionEvent::LookedUp(lookup)) => match lookup {
                Ok(false) => ExecutionTurn::Next(Execution::Plan),
                Ok(true) => ExecutionTurn::Ended(
                    end_untouched(RsdInstallStage::AlreadyInstalled, "app_already_installed"),
                ),
                Err(()) => ExecutionTurn::Ended(
                    end_untouched(RsdInstallStage::AlreadyInstalled, "installed_app_lookup"),
                ),
            },
            (Execution::Plan, ExecutionEvent::Planned(outcome)) => match outcome {
                PlanOutcome::Planned => ExecutionTurn::Next(Execution::OpenFiles),
                PlanOutcome::Failed(failure) => ExecutionTurn::Ended(
                    end_untouched(RsdInstallStage::Staging, failure.kind()),
                ),
                PlanOutcome::TaskFailed => ExecutionTurn::Ended(
                    end_untouched(RsdInstallStage::Staging, "local_task"),
                ),
                PlanOutcome::TimedOut => ExecutionTurn::Ended(
                    end_untouched(RsdInstallStage::Staging, "timeout"),
                ),
            },
            (Execution::OpenFiles, ExecutionEvent::Opened(open)) => if open {
                ExecutionTurn::Next(Execution::Stage)
            } else {
                ExecutionTurn::Ended(end_untouched(RsdInstallStage::Staging, "afc_service"))
            },
            (Execution::Stage, ExecutionEvent::Copied(copied)) => match copied {
                Ok(()) => ExecutionTurn::Next(Execution::Window),
                Err(failure) => ExecutionTurn::Next(
                    Execution::Clean {
                        ending: end_uncommanded(RsdInstallStage::Staging, failure.kind()),
                    },
                ),
            },
            (Execution::Window, ExecutionEvent::InTime(in_time)) => if in_time {
                ExecutionTurn::Next(Execution::OpenInstaller)
            } else {
                ExecutionTurn::Next(
                    Execution::Clean {
                        ending: end_uncommanded(RsdInstallStage::Install, "timeout"),
                    },
                )
            },
            (Execution::OpenInstaller, ExecutionEvent::Opened(open)) => if open {
                ExecutionTurn::Next(Execution::Command)
            } else {
                ExecutionTurn::Next(
                    Execution::Clean {
                        ending: end_uncommanded(RsdInstallStage::Install, "installation_proxy"),
                    },
                )
            },
            (Execution::Command, ExecutionEvent::Commanded(command)) => ExecutionTurn::Next(
                Execution::OpenVerifier { command },
            ),
            (Execution::OpenVerifier { command }, ExecutionEvent::Opened(open)) => if open {
                ExecutionTurn::Next(Execution::Verify { command })
            } else {
                ExecutionTurn::Next(Execution::Clean { ending: end_commanded(command, Err(())) })
            },
            (Execution::Verify { command }, ExecutionEvent::LookedUp(lookup)) =>
            ExecutionTurn::Next(Execution::Clean { ending: end_commanded(command, lookup) }),
            (Execution::Clean { ending }, ExecutionEvent::Cleaned(cleanup)) =>
            ExecutionTurn::Ended(ending.with_cleanup(cleanup)),
            _ => ExecutionTurn::Next(self),
        }
    }
}

/// Where the installation of a signed app stands after some events.
pub open spec fn execution_after(events: Seq<ExecutionEvent>) -> ExecutionTurn
    decreases events.len(),
{
    if events.len() == 0 {
        ExecutionTurn::Next(Execution::OpenProxy)
    } else {
        match execution_after(events.drop_last()) {
            ExecutionTurn::Next(execution) => execution.turn(events.last()),
            turn => turn,
        }
    }
}

/// The app was found on the device.
pub open spec fn app_found(event: ExecutionEvent) -> bool {
    event == ExecutionEvent::LookedUp(Ok::<bool, ()>(true))
}

/// The app was not on the device.
pub open spec fn app_missing(event: ExecutionEvent) -> bool {
    event == ExecutionEvent::LookedUp(Ok::<bool, ()>(false))
}

/// An event of a kind has happened.
pub open spec fn happened(
    events: Seq<ExecutionEvent>,
    kind: spec_fn(ExecutionEvent) -> bool,
) -> bool {
    exists|i: int| 0 <= i < events.len() && #[trigger] kind(events[i])
}

proof fn what_happened_stays(
    events: Seq<ExecutionEvent>,
    kind: spec_fn(ExecutionEvent) -> bool,
)
    requires
        events.len() > 0,
    ensures
        happened(events.drop_last(), kind) ==> happened(events, kind),
        kind(events.last()) ==> happened(events, kind),
{
    let before = events.drop_last();
    if happened(before, kind) {
        let i = choose|i: int| 0 <= i < before.len() && #[trigger] kind(before[i]);
        assert(kind(events[i]));
    }
    if kind(events.last()) {
        assert(kind(events[events.len() - 1]));
    }
}

/// Whether the copy was begun when an installation stands so.
pub open spec fn is_behind_the_copy(execution: Execution) -> bool {
    match execution {
        Execution::OpenProxy
        | Execution::LookUp
        | Execution::Plan
        | Execution::OpenFiles
        | Execution::Stage => false,
        _ => true,
    }
}

/// An ending that an installation can come to: nothing was done, nothing was commanded, or one
/// installation was commanded.
pub open spec fn is_sound(events: Seq<ExecutionEvent>, ending: Ending) -> bool {
    &&& ending.install_command_count <= 1
    &&& ending.install_command_count == 0 ==> ending.outcome == RsdInstallOutcome::NotStarted
        || ending.outcome == RsdInstallOutcome::NotInstalled
    &&& ending.outcome == RsdInstallOutcome::NotStarted ==> ending.install_command_count == 0
    &&& ending.outcome == RsdInstallOutcome::OutcomeUnknown ==> ending.install_command_count == 1
    &&& ending.install_command_count == 1 ==> happened(
        events,
        |event: ExecutionEvent| event is Commanded,
    ) && happened(events, |event: ExecutionEvent| app_missing(event))
    &&& ending.outcome == RsdInstallOutcome::Installed ==> ending.install_command_count == 1
        && happened(events, |event: ExecutionEvent| app_found(event))
}

/// However an installation goes, no more than one is commanded, and only where the app was not on
/// the device before; the app counts as installed only where it was then found on the device; and
/// whatever was copied to the device is cleaned up in the end.
pub proof fn installations_are_sound(events: Seq<ExecutionEvent>)
    ensures
        match execution_after(events) {
            ExecutionTurn::Next(Execution::Clean { ending }) => is_sound(events, ending)
                && ending.outcome != RsdInstallOutcome::NotStarted,
            ExecutionTurn::Ended(ending) => {
                &&& is_sound(events, ending)
                &&& ending.outcome != RsdInstallOutcome::NotStarted ==> happened(
                    events,
                    |event: ExecutionEvent| event is Cleaned,
                )
            },
            ExecutionTurn::Next(execution) => {
                &&& execution is OpenVerifier || execution is Verify ==> happened(
                    events,
                    |event: ExecutionEvent| event is Commanded,
                )
                &&& is_behind_the_copy(execution) || execution is Plan || execution is OpenFiles
                    || execution is Stage ==> happened(
                    events,
                    |event: ExecutionEvent| app_missing(event),
                )
            },
        },
    decreases events.len(),
{
    if events.len() > 0 {
        let before = events.drop_last();
        installations_are_sound(before);
        what_happened_stays(events, |event: ExecutionEvent| event is Commanded);
        what_happened_stays(events, |event: ExecutionEvent| event is Cleaned);
        what_happened_stays(events, |event: ExecutionEvent| app_missing(event));
        what_happened_stays(events, |event: ExecutionEvent| app_found(event));
        match execution_after(before) {
            ExecutionTurn::Next(execution) => {
                match (execution, events.last()) {
                    (Execution::Verify { command }, ExecutionEvent::LookedUp(lookup)) => {
                        installed_means_found(command, lookup);
                    },
                    (Execution::OpenVerifier { command }, _) => {
                        installed_means_found(command, Err(()));
                    },
                    _ => {},
                }
            },
            _ => {},
        }
    }
}

proof fn lemma_plan_failures_are_named(failure: UploadPlanFailure)
    ensures
        failure.text()@.len() > 0,
{
    reveal_strlit("source_not_directory");
    reveal_strlit("source_symlink");
    reveal_strlit("unsupported_file_type");
    reveal_strlit("non_unicode_path");
    reveal_strlit("unsafe_path");
    reveal_strlit("entry_limit");
    reveal_strlit("byte_limit");
    reveal_strlit("local_io");
    reveal_strlit("timeout");
}

/// An installation ends without a kind of error exactly where the app is installed and its copy was
/// not left behind.
pub proof fn only_clean_installations_are_without_error(events: Seq<ExecutionEvent>)
    ensures
        match execution_after(events) {
            ExecutionTurn::Next(Execution::Clean { ending }) => (ending.error_kind@.len() == 0)
                == (ending.outcome == RsdInstallOutcome::Installed),
            ExecutionTurn::Ended(ending) => (ending.error_kind@.len() == 0) == (ending.outcome
                == RsdInstallOutcome::Installed && ending.cleanup != RsdStagingCleanup::Failed),
            _ => true,
        },
    decreases events.len(),
{
    if events.len() > 0 {
        let before = events.drop_last();
        only_clean_installations_are_without_error(before);
        reveal_strlit("");
        reveal_strlit("installation_proxy");
        reveal_strlit("app_already_installed");
        reveal_strlit("installed_app_lookup");
        reveal_strlit("local_task");
        reveal_strlit("timeout");
        reveal_strlit("afc_service");
        reveal_strlit("install_not_verified");
        reveal_strlit("install_rejected");
        reveal_strlit("install_result_ambiguous");
        reveal_strlit("staging_cleanup");
        match execution_after(before) {
            ExecutionTurn::Next(execution) => {
                match (execution, events.last()) {
                    (
                        Execution::Plan,
                        ExecutionEvent::Planned(PlanOutcome::Failed(failure)),
                    ) => {
                        lemma_plan_failures_are_named(failure);
                    },
                    (Execution::Stage, ExecutionEvent::Copied(Err(failure))) => {
                        staging::copy_failures_are_named(failure);
                    },
                    (Execution::Verify { command }, ExecutionEvent::LookedUp(lookup)) => {
                        installed_means_found(command, lookup);
                    },
                    (Execution::OpenVerifier { command }, _) => {
                        installed_means_found(command, Err(()));
                    },
                    _ => {},
                }
            },
            _ => {},
        }
    }
}

// ---------------------------------------------------------------------------------------------
// The whole installation.
// ---------------------------------------------------------------------------------------------

/// Where an installation stands.
#[derive(Debug)]
pub enum FirstInstall {
    /// A session is opened to identify the device.
    OpenFirst,
    /// The device is identified.
    Identify,
    /// That session is closed, with the identity or why there is none.
    CloseFirst { found: Result<SigningDeviceIdentity, &'static str> },
    /// The app is signed for the device.
    Sign { identity: SigningDeviceIdentity, initial: RsdSessionCleanup },
    /// Another session is opened.
    OpenSecond {
        identity: SigningDeviceIdentity,
        initial: RsdSessionCleanup,
        pressure: bool,
        bundle_id: String,
    },
    /// The device is identified again.
    Reidentify {
        identity: SigningDeviceIdentity,
        initial: RsdSessionCleanup,
        pressure: bool,
        bundle_id: String,
    },
    /// The app is installed.
    Execute { initial: RsdSessionCleanup, pressure: bool, bundle_id: String },
    /// The session is closed.
    CloseSecond { initial: RsdSessionCleanup, report: RsdInstallReport },
}

/// What happens to an installation.
#[derive(Debug)]
pub enum FirstInstallEvent {
    /// A session was opened.
    Opened,
    /// A session could not be opened.
    OpenFailed(RsdProbeFailure),
    /// Opening a session took too long, at this stage.
    OpenTimedOut(ReadOnlyProbeStage),
    /// The device was identified.
    Identified(SigningDeviceIdentity),
    /// The device could not be identified.
    IdentityFailed(RsdIdentityFailure),
    /// Identifying the device or signing the app took too long.
    TimedOut,
    /// A session was closed, or not.
    Closed(bool),
    /// The account was asked, and the app was signed where the device is registered.
    Signed { preflight: AppleAccountPreflight, bundle_id: Option<String> },
    /// The account could not be asked, or the app could not be signed.
    SigningFailed { asking: bool, error: SigningError },
    /// The task that signs was lost.
    TaskFailed,
    /// The installation over the session has ended.
    Executed(Ending),
}

/// What comes next.
#[derive(Debug)]
pub enum FirstInstallTurn {
    Next(FirstInstall),
    Reported(RsdInstallReport),
}

/// What became of a session that took too long to open: from the handshake on there was one, and it
/// was not closed.
pub open spec fn overdue_session(stage: ReadOnlyProbeStage) -> RsdSessionCleanup {
    if stage == ReadOnlyProbeStage::RsdHandshake {
        RsdSessionCleanup::Failed
    } else {
        RsdSessionCleanup::NotNeeded
    }
}

fn overdue_cleanup(stage: ReadOnlyProbeStage) -> (cleanup: RsdSessionCleanup)
    ensures
        cleanup == overdue_session(stage),
{
    if stage == ReadOnlyProbeStage::RsdHandshake {
        RsdSessionCleanup::Failed
    } else {
        RsdSessionCleanup::NotNeeded
    }
}

fn report_failure(
    stage: RsdInstallStage,
    error_kind: &'static str,
    pressure: bool,
    bundle_id: Option<String>,
    session_cleanup: RsdSessionCleanup,
) -> (turn: FirstInstallTurn)
    ensures
        turn == FirstInstallTurn::Reported(
            with_session(not_started(stage, error_kind, pressure, bundle_id), session_cleanup),
        ),
{
    let mut report: RsdInstallReport = rsd_install_failure(stage, error_kind, pressure, bundle_id);
    record_session_cleanup(&mut report, session_cleanup);
    FirstInstallTurn::Reported(report)
}

impl FirstInstall {
    /// What comes after an event. An event that is not awaited changes nothing.
    pub open spec fn turn(self, event: FirstInstallEvent) -> FirstInstallTurn {
        match (self, event) {
            (FirstInstall::OpenFirst, FirstInstallEvent::Opened) => FirstInstallTurn::Next(
                FirstInstall::Identify,
            ),
            (FirstInstall::OpenFirst, FirstInstallEvent::OpenFailed(failure)) =>
            FirstInstallTurn::Reported(
                with_session(
                    not_started(failure.stage.install_stage(), "session_open", false, None),
                    failure.session_cleanup,
                ),
            ),
            (FirstInstall::OpenFirst, FirstInstallEvent::OpenTimedOut(stage)) =>
            FirstInstallTurn::Reported(
                with_session(
                    not_started(stage.install_stage(), "timeout", false, None),
                    overdue_session(stage),
                ),
            ),
            (FirstInstall::Identify, FirstInstallEvent::Identified(identity)) =>
            FirstInstallTurn::Next(FirstInstall::CloseFirst { found: Ok(identity) }),
            (FirstInstall::Identify, FirstInstallEvent::IdentityFailed(failure)) =>
            FirstInstallTurn::Next(FirstInstall::CloseFirst { found: Err(failure.text()) }),
            (FirstInstall::Identify, FirstInstallEvent::TimedOut) => FirstInstallTurn::Next(
                FirstInstall::CloseFirst { found: Err("timeout") },
            ),
            (FirstInstall::CloseFirst { found }, FirstInstallEvent::Closed(closed)) =>
            match found {
                Err(kind) => FirstInstallTurn::Reported(
                    with_session(
                        not_started(RsdInstallStage::Identity, kind, false, None),
                        close_result(closed),
                    ),
                ),
                Ok(identity) => if closed {
                    FirstInstallTurn::Next(
                        FirstInstall::Sign { identity, initial: RsdSessionCleanup::Succeeded },
                    )
                } else {
                    FirstInstallTurn::Reported(
                        with_session(
                            not_started(
                                RsdInstallStage::SessionCleanup,
                                "session_cleanup",
                                false,
                                None,
                            ),
                            RsdSessionCleanup::Failed,
                        ),
                    )
                },
            },
            (
                FirstInstall::Sign { identity, initial },
                FirstInstallEvent::Signed { preflight, bundle_id },
            ) => match bundle_id {
                Some(bundle_id) => FirstInstallTurn::Next(
                    FirstInstall::OpenSecond {
                        identity,
                        initial,
                        pressure: has_certificate_pressure(preflight),
                        bundle_id,
                    },
                ),
                None => FirstInstallTurn::Reported(
                    with_session(
                        not_started(
                            RsdInstallStage::AccountPreflight,
                            "device_registration_required",
                            has_certificate_pressure(preflight),
                            None,
                        ),
                        initial,
                    ),
                ),
            },
            (
                FirstInstall::Sign { initial, .. },
                FirstInstallEvent::SigningFailed { asking, error },
            ) => FirstInstallTurn::Reported(
                with_session(
                    not_started(
                        if asking {
                            RsdInstallStage::AccountPreflight
                        } else {
                            RsdInstallStage::Signing
                        },
                        signing_kind(error),
                        false,
                        None,
                    ),
                    initial,
                ),
            ),
            (FirstInstall::Sign { initial, .. }, FirstInstallEvent::TaskFailed) =>
            FirstInstallTurn::Reported(
                with_session(
                    not_started(RsdInstallStage::Signing, "local_task", false, None),
                    initial,
                ),
            ),
            (FirstInstall::Sign { initial, .. }, FirstInstallEvent::TimedOut) =>
            FirstInstallTurn::Reported(
                with_session(
                    not_started(RsdInstallStage::Signing, "timeout", false, None),
                    initial,
                ),
            ),
            (
                FirstInstall::OpenSecond { identity, initial, pressure, bundle_id },
                FirstInstallEvent::Opened,
            ) => FirstInstallTurn::Next(
                FirstInstall::Reidentify { identity, initial, pressure, bundle_id },
            ),
            (
                FirstInstall::OpenSecond { initial, pressure, bundle_id, .. },
                FirstInstallEvent::OpenFailed(failure),
            ) => FirstInstallTurn::Reported(
                with_session(
                    not_started(
                        failure.stage.install_stage(),
                        "session_open",
                        pressure,
                        Some(bundle_id),
                    ),
                    merged(initial, failure.session_cleanup),
                ),
            ),
            (
                FirstInstall::OpenSecond { initial, pressure, bundle_id, .. },
                FirstInstallEvent::OpenTimedOut(stage),
            ) => FirstInstallTurn::Reported(
                with_session(
                    not_started(stage.install_stage(), "timeout", pressure, Some(bundle_id)),
                    merged(initial, overdue_session(stage)),
                ),
            ),
            (
                FirstInstall::Reidentify { identity, initial, pressure, bundle_id },
                FirstInstallEvent::Identified(second),
            ) => if session::same_identity(second, identity) {
                FirstInstallTurn::Next(FirstInstall::Execute { initial, pressure, bundle_id })
            } else {
                unidentified("identity_changed", initial, pressure, bundle_id)
            },
            (
                FirstInstall::Reidentify { initial, pressure, bundle_id, .. },
                FirstInstallEvent::IdentityFailed(failure),
            ) => unidentified(failure.text(), initial, pressure, bundle_id),
            (
                FirstInstall::Reidentify { initial, pressure, bundle_id, .. },
                FirstInstallEvent::TimedOut,
            ) => unidentified("timeout", initial, pressure, bundle_id),
            (
                FirstInstall::Execute { initial, pressure, bundle_id },
                FirstInstallEvent::Executed(ending),
            ) => FirstInstallTurn::Next(
                FirstInstall::CloseSecond {
                    initial,
                    report: ending.reported(Some(bundle_id), pressure),
                },
            ),
            (FirstInstall::CloseSecond { initial, report }, FirstInstallEvent::Closed(closed)) =>
            FirstInstallTurn::Reported(closing_report(report, initial, closed)),
            (state, _) => FirstInstallTurn::Next(state),
        }
    }

    /// What comes after an event.
    pub fn advance(self, event: FirstInstallEvent) -> (turn: FirstInstallTurn)
        ensures
            turn == self.turn(event),
    {
        match (self, event) {
            (FirstInstall::OpenFirst, FirstInstallEvent::Opened) => FirstInstallTurn::Next(
                FirstInstall::Identify,
            ),
            (FirstInstall::OpenFirst, FirstInstallEvent::OpenFailed(failure)) => report_failure(
                RsdInstallStage::from(failure.stage),
                "session_open",
                false,
                None,
                failure.session_cleanup,
            ),
            (FirstInstall::OpenFirst, FirstInstallEvent::OpenTimedOut(stage)) => report_failure(
                RsdInstallStage::from(stage),
                "timeout",
                false,
                None,
                overdue_cleanup(stage),
            ),
            (FirstInstall::Identify, FirstInstallEvent::Identified(identity)) =>
            FirstInstallTurn::Next(FirstInstall::CloseFirst { found: Ok(identity) }),
            (FirstInstall::Identify, FirstInstallEvent::IdentityFailed(failure)) =>
            FirstInstallTurn::Next(FirstInstall::CloseFirst { found: Err(failure.kind()) }),
            (FirstInstall::Identify, FirstInstallEvent::TimedOut) => FirstInstallTurn::Next(
                FirstInstall::CloseFirst { found: Err("timeout") },
            ),
            (FirstInstall::CloseFirst { found }, FirstInstallEvent::Closed(closed)) =>
            match found {
                Err(kind) => report_failure(
                    RsdInstallStage::Identity,
                    kind,
                    false,
                    None,
                    session_close_result(closed),
                ),
                Ok(identity) => if closed {
                    FirstInstallTurn::Next(
                        FirstInstall::Sign { identity, initial: RsdSessionCleanup::Succeeded },
                    )
                } else {
                    report_failure(
                        RsdInstallStage::SessionCleanup,
                        "session_cleanup",
                        false,
                        None,
                        RsdSessionCleanup::Failed,
                    )
                },
            },
            (
                FirstInstall::Sign { identity, initial },
                FirstInstallEvent::Signed { preflight, bundle_id },
            ) => match bundle_id {
                Some(bundle_id) => FirstInstallTurn::Next(
                    FirstInstall::OpenSecond {
                        identity,
                        initial,
                        pressure: certificate_pressure(preflight),
                        bundle_id,
                    },
                ),
                None => report_failure(
                    RsdInstallStage::AccountPreflight,
                    "device_registration_required",
                    certificate_pressure(preflight),
                    None,
                    initial,
                ),
            },
            (
                FirstInstall::Sign { initial, .. },
                FirstInstallEvent::SigningFailed { asking, error },
            ) => report_failure(
                if asking {
                    RsdInstallStage::AccountPreflight
                } else {
                    RsdInstallStage::Signing
                },
                signing_error_kind(error),
                false,
                None,
                initial,
            ),
            (FirstInstall::Sign { initial, .. }, FirstInstallEvent::TaskFailed) => report_failure(
                RsdInstallStage::Signing,
                "local_task",
                false,
                None,
                initial,
            ),
            (FirstInstall::Sign { initial, .. }, FirstInstallEvent::TimedOut) => report_failure(
                RsdInstallStage::Signing,
                "timeout",
                false,
                None,
                initial,
            ),
            (
                FirstInstall::OpenSecond { identity, initial, pressure, bundle_id },
                FirstInstallEvent::Opened,
            ) => FirstInstallTurn::Next(
                FirstInstall::Reidentify { identity, initial, pressure, bundle_id },
            ),
            (
                FirstInstall::OpenSecond { initial, pressure, bundle_id, .. },
                FirstInstallEvent::OpenFailed(failure),
            ) => report_failure(
                RsdInstallStage::from(failure.stage),
                "session_open",
                pressure,
                Some(bundle_id),
                merge_session_cleanup(initial, failure.session_cleanup),
            ),
            (
                FirstInstall::OpenSecond { initial, pressure, bundle_id, .. },
                FirstInstallEvent::OpenTimedOut(stage),
            ) => report_failure(
                RsdInstallStage::from(stage),
                "timeout",
                pressure,
                Some(bundle_id),
                merge_session_cleanup(initial, overdue_cleanup(stage)),
            ),
            (
                FirstInstall::Reidentify { identity, initial, pressure, bundle_id },
                FirstInstallEvent::Identified(second),
            ) => if session::is_same_identity(&second, &identity) {
                FirstInstallTurn::Next(FirstInstall::Execute { initial, pressure, bundle_id })
            } else {
                close_unidentified("identity_changed", initial, pressure, bundle_id)
            },
            (
                FirstInstall::Reidentify { initial, pressure, bundle_id, .. },
                FirstInstallEvent::IdentityFailed(failure),
            ) => close_unidentified(failure.kind(), initial, pressure, bundle_id),
            (
                FirstInstall::Reidentify { initial, pressure, bundle_id, .. },
                FirstInstallEvent::TimedOut,
            ) => close_unidentified("timeout", initial, pressure, bundle_id),
            (
                FirstInstall::Execute { initial, pressure, bundle_id },
                FirstInstallEvent::Executed(ending),
            ) => FirstInstallTurn::Next(
                FirstInstall::CloseSecond {
                    initial,
                    report: ending.report(Some(bundle_id), pressure),
                },
            ),
            (FirstInstall::CloseSecond { initial, report }, FirstInstallEvent::Closed(closed)) => {
                let mut report: RsdInstallReport = report;
                record_session_cleanup(
                    &mut report,
                    merge_session_cleanup(initial, session_close_result(closed)),
                );
                FirstInstallTurn::Reported(report)
            },
            (state, _) => FirstInstallTurn::Next(state),
        }
    }
}

/// The session is closed where the device was not identified again as the same one.
pub open spec fn unidentified(
    kind: &'static str,
    initial: RsdSessionCleanup,
    pressure: bool,
    bundle_id: String,
) -> FirstInstallTurn {
    FirstInstallTurn::Next(
        FirstInstall::CloseSecond {
            initial,
            report: not_started(RsdInstallStage::Identity, kind, pressure, Some(bundle_id)),
        },
    )
}

fn close_unidentified(
    kind: &'static str,
    initial: RsdSessionCleanup,
    pressure: bool,
    bundle_id: String,
) -> (turn: FirstInstallTurn)
    ensures
        turn == unidentified(kind, initial, pressure, bundle_id),
{
    FirstInstallTurn::Next(
        FirstInstall::CloseSecond {
            initial,
            report: rsd_install_failure(RsdInstallStage::Identity, kind, pressure, Some(bundle_id)),
        },
    )
}

/// The report of an installation whose last session was to be closed.
pub open spec fn closing_report(
    report: RsdInstallReport,
    initial: RsdSessionCleanup,
    closed: bool,
) -> RsdInstallReport {
    with_session(report, merged(initial, close_result(closed)))
}

/// A session that could not be closed is always reported; it never hides another error, nor how the
/// installation ended.
pub proof fn unclosed_sessions_are_reported(
    report: RsdInstallReport,
    initial: RsdSessionCleanup,
    closed: bool,
)
    ensures
        !closed || initial == RsdSessionCleanup::Failed ==> closing_report(
            report,
            initial,
            closed,
        ).session_cleanup == RsdSessionCleanup::Failed && closing_report(
            report,
            initial,
            closed,
        ).error_kind@.len() > 0,
        report.error_kind@.len() > 0 ==> closing_report(report, initial, closed).error_kind
            == report.error_kind && closing_report(report, initial, closed).stage == report.stage,
        closing_report(report, initial, closed).outcome == report.outcome,
        closing_report(report, initial, closed).cleanup == report.cleanup,
        closing_report(report, initial, closed).install_command_count
            == report.install_command_count,
{
    reveal_strlit("session_cleanup");
}

/// Where an installation stands after some events.
pub open spec fn first_install_after(events: Seq<FirstInstallEvent>) -> FirstInstallTurn
    decreases events.len(),
{
    if events.len() == 0 {
        FirstInstallTurn::Next(FirstInstall::OpenFirst)
    } else {
        match first_install_after(events.drop_last()) {
            FirstInstallTurn::Next(state) => state.turn(events.last()),
            turn => turn,
        }
    }
}

/// Some event was the end of an installation over the session, with this outcome.
pub open spec fn executed_with(
    events: Seq<FirstInstallEvent>,
    outcome: RsdInstallOutcome,
    commands: u8,
) -> bool {
    exists|i: int|
        0 <= i < events.len() && #[trigger] ended_with(events[i], outcome, commands)
}

/// The event is the end of an installation over the session, with this outcome.
pub open spec fn ended_with(
    event: FirstInstallEvent,
    outcome: RsdInstallOutcome,
    commands: u8,
) -> bool {
    event matches FirstInstallEvent::Executed(ending) && ending.outcome == outcome
        && ending.install_command_count == commands
}

/// A report tells of an installation only what one over a session came to; without such a one,
/// nothing was started and nothing was commanded.
pub proof fn reports_tell_what_was_executed(events: Seq<FirstInstallEvent>)
    ensures
        match first_install_after(events) {
            FirstInstallTurn::Reported(report) => executed_with(
                events,
                report.outcome,
                report.install_command_count,
            ) || (report.outcome == RsdInstallOutcome::NotStarted && report.install_command_count
                == 0),
            FirstInstallTurn::Next(FirstInstall::CloseSecond { report, .. }) => executed_with(
                events,
                report.outcome,
                report.install_command_count,
            ) || (report.outcome == RsdInstallOutcome::NotStarted && report.install_command_count
                == 0),
            _ => true,
        },
    decreases events.len(),
{
    if events.len() > 0 {
        let before = events.drop_last();
        reports_tell_what_was_executed(before);
        match first_install_after(before) {
            FirstInstallTurn::Reported(report) => {
                if executed_with(before, report.outcome, report.install_command_count) {
                    let i = choose|i: int|
                        0 <= i < before.len() && #[trigger] ended_with(
                            before[i],
                            report.outcome,
                            report.install_command_count,
                        );
                    assert(ended_with(events[i], report.outcome, report.install_command_count));
                }
            },
            FirstInstallTurn::Next(FirstInstall::CloseSecond { report, .. }) => {
                if executed_with(before, report.outcome, report.install_command_count) {
                    let i = choose|i: int|
                        0 <= i < before.len() && #[trigger] ended_with(
                            before[i],
                            report.outcome,
                            report.install_command_count,
                        );
                    assert(ended_with(events[i], report.outcome, report.install_command_count));
                }
            },
            FirstInstallTurn::Next(FirstInstall::Execute { .. }) => {
                if let FirstInstallEvent::Executed(ending) = events.last() {
                    assert(ended_with(
                        events[events.len() - 1],
                        ending.outcome,
                        ending.install_command_count,
                    ));
                }
            },
            _ => {},
        }
    }
}

/// Ten seconds are kept to clean up the copy and ten to close the session, and twenty more for the
/// verification of what is commanded. A deadline within the time that is kept leaves no time.
pub proof fn time_is_kept_for_cleaning_up(overall: u64, start: u64)
    ensures
        overall >= 20_000_000_000 ==> work_deadline(overall, start) == overall - 20_000_000_000,
        overall < 20_000_000_000 ==> work_deadline(overall, start) == start,
        overall >= 40_000_000_000 ==> command_deadline(overall, start) == overall - 40_000_000_000,
        overall < 20_000_000_000 && start < 20_000_000_000 ==> command_deadline(overall, start)
            == start,
{
}

/// A verification takes twenty seconds at most and never longer than the work may.
pub proof fn verifications_are_bounded(overall: u64, start: u64)
    ensures
        verification_deadline(overall, start) <= work_deadline(overall, start),
        start + 20_000_000_000 <= work_deadline(overall, start) ==> verification_deadline(
            overall,
            start,
        ) == start + 20_000_000_000,
        start + 20_000_000_000 > work_deadline(overall, start) ==> verification_deadline(
            overall,
            start,
        ) == work_deadline(overall, start),
{
}

/// A command that completed has succeeded, one that the installation service refused has failed for
/// certain, and of any other the device may have accepted it.
pub proof fn only_refusals_are_certain(outcome: CallOutcome)
    ensures
        command_result(outcome) is Ok <==> outcome is Completed,
        command_result(outcome) == Err::<(), InstallCommandFailure>(
            InstallCommandFailure::Definitive,
        ) <==> outcome == CallOutcome::Faulted(DeviceFault::OperationFailed),
{
}

/// An app that was not found is not installed where the command completed or was refused. Where the
/// device may have accepted a command, or a completed one could not be looked for, the outcome is
/// not known; after a refusal it is, even where the app could not be looked for.
pub proof fn missing_apps_are_judged_by_the_command(
    command: Result<(), InstallCommandFailure>,
    lookup: Result<bool, ()>,
)
    requires
        lookup != Ok::<bool, ()>(true),
    ensures
        command is Ok && lookup is Ok ==> outcome_of(command, lookup).text()@ == "notInstalled"@,
        command is Ok && lookup is Err ==> outcome_of(command, lookup).text()@ == "outcomeUnknown"@,
        command == Err::<(), InstallCommandFailure>(InstallCommandFailure::Definitive)
            ==> outcome_of(command, lookup).text()@ == "notInstalled"@,
        command == Err::<(), InstallCommandFailure>(InstallCommandFailure::PossiblyAccepted)
            ==> outcome_of(command, lookup).text()@ == "outcomeUnknown"@,
{
}

/// The kinds by which the end of a command is told; an installed app has none.
pub proof fn commands_end_with_their_kinds(
    command: Result<(), InstallCommandFailure>,
    lookup: Result<bool, ()>,
)
    ensures
        ({
            let kind = outcome_kind(command, outcome_of(command, lookup))@;
            &&& lookup == Ok::<bool, ()>(true) ==> kind == ""@
            &&& lookup == Ok::<bool, ()>(false) && command is Ok ==> kind
                == "install_not_verified"@
            &&& lookup != Ok::<bool, ()>(true) && command == Err::<(), InstallCommandFailure>(
                InstallCommandFailure::Definitive,
            ) ==> kind == "install_rejected"@
            &&& lookup != Ok::<bool, ()>(true) && command == Err::<(), InstallCommandFailure>(
                InstallCommandFailure::PossiblyAccepted,
            ) ==> kind == "install_result_ambiguous"@
            &&& lookup is Err && command is Ok ==> kind == "install_result_ambiguous"@
        }),
{
}

/// The kinds by which a failure to sign is told.
pub proof fn signing_failures_are_told(error: SigningError)
    ensures
        error is NotReady ==> signing_kind(error)@ == "signing_not_ready"@,
        error is DeviceRegistrationRequired ==> signing_kind(error)@
            == "device_registration_required"@,
        error is DeveloperTeamFailed ==> signing_kind(error)@ == "account_preflight"@,
        error is SignedMetadataFailed ==> signing_kind(error)@ == "signed_metadata"@,
        !(error is NotReady || error is DeviceRegistrationRequired || error is DeveloperTeamFailed
            || error is SignedMetadataFailed) ==> signing_kind(error)@ == "signing_failed"@,
{
}

/// An account is pressed for certificates where it has as many as it can hold and none of them is
/// this machine's; never where its capacity is not known.
pub proof fn full_accounts_are_pressed(preflight: AppleAccountPreflight)
    ensures
        preflight.development_certificate_capacity is None ==> !has_certificate_pressure(preflight),
        preflight.machine_certificate_present ==> !has_certificate_pressure(preflight),
        preflight.development_certificate_capacity matches Some(capacity)
            ==> !preflight.machine_certificate_present ==> (has_certificate_pressure(preflight)
            <==> capacity <= preflight.development_certificate_count),
{
}

/// What became of several sessions does not depend on their order. One that was not closed counts
/// above all, and one that needed no closing counts for nothing.
pub proof fn unclosed_sessions_count(
    a: RsdSessionCleanup,
    b: RsdSessionCleanup,
    c: RsdSessionCleanup,
)
    ensures
        merged(a, b) == merged(b, a),
        merged(a, merged(b, c)) == merged(merged(a, b), c),
        merged(a, a) == a,
        merged(a, RsdSessionCleanup::Failed) is Failed,
        merged(a, RsdSessionCleanup::NotNeeded) == a,
        close_result(true) is Succeeded,
        close_result(false) is Failed,
{
}

/// What became of the session changes no more of a report than that, where the session was closed
/// or an error was there before; else closing the session is the stage and the error.
pub proof fn reports_keep_what_they_tell(report: RsdInstallReport, cleanup: RsdSessionCleanup)
    ensures
        ({
            let after = with_session(report, cleanup);
            &&& after.session_cleanup == cleanup
            &&& after.outcome == report.outcome
            &&& after.cleanup == report.cleanup
            &&& after.install_command_count == report.install_command_count
            &&& after.bundle_id == report.bundle_id
            &&& after.certificate_pressure == report.certificate_pressure
            &&& !(cleanup is Failed) || report.error_kind@.len() > 0 ==> after.stage == report.stage
                && after.error_kind == report.error_kind
            &&& cleanup is Failed && report.error_kind@.len() == 0 ==> after.stage.text()@
                == "sessionCleanup"@ && after.error_kind@ == "session_cleanup"@
        }),
{
}

/// The same of an ending and of what became of the copy.
pub proof fn endings_keep_what_they_tell(ending: Ending, cleanup: RsdStagingCleanup)
    ensures
        ({
            let after = ending.cleaned(cleanup);
            &&& after.cleanup == cleanup
            &&& after.outcome == ending.outcome
            &&& after.install_command_count == ending.install_command_count
            &&& !(cleanup is Failed) || ending.error_kind@.len() > 0 ==> after.stage == ending.stage
                && after.error_kind == ending.error_kind
            &&& cleanup is Failed && ending.error_kind@.len() == 0 ==> after.stage.text()@
                == "cleanup"@ && after.error_kind@ == "staging_cleanup"@
        }),
{
}

/// A report of an ending tells what the ending tells, for the app that was signed.
pub proof fn reports_tell_their_ending(
    ending: Ending,
    bundle_id: Option<String>,
    certificate_pressure: bool,
)
    ensures
        ({
            let report = ending.reported(bundle_id, certificate_pressure);
            &&& report.outcome == ending.outcome
            &&& report.stage == ending.stage
            &&& report.cleanup == ending.cleanup
            &&& report.session_cleanup is NotNeeded
            &&& report.install_command_count == ending.install_command_count
            &&& report.error_kind == ending.error_kind
            &&& report.bundle_id == bundle_id
            &&& report.certificate_pressure == certificate_pressure
        }),
{
}

/// An app that was not on the device, was copied in time and is commanded to be installed ends as
/// the device then shows: installed and complete where it was found, whatever came of the command,
/// and else at the verification.
pub proof fn commanded_apps_end_as_they_are_found(
    command: Result<(), InstallCommandFailure>,
    lookup: Result<bool, ()>,
    cleanup: RsdStagingCleanup,
)
    requires
        !(cleanup is Failed),
    ensures
        ({
            let turn = execution_after(
                seq![
                    ExecutionEvent::Opened(true),
                    ExecutionEvent::LookedUp(Ok(false)),
                    ExecutionEvent::Planned(PlanOutcome::Planned),
                    ExecutionEvent::Opened(true),
                    ExecutionEvent::Copied(Ok(())),
                    ExecutionEvent::InTime(true),
                    ExecutionEvent::Opened(true),
                    ExecutionEvent::Commanded(command),
                    ExecutionEvent::Opened(true),
                    ExecutionEvent::LookedUp(lookup),
                    ExecutionEvent::Cleaned(cleanup),
                ],
            );
            &&& turn is Ended
            &&& turn->Ended_0.install_command_count == 1
            &&& turn->Ended_0.cleanup == cleanup
            &&& turn->Ended_0.outcome.text()@ == "installed"@ && turn->Ended_0.stage.text()@
                == "complete"@ && turn->Ended_0.error_kind@ == ""@ <==> lookup == Ok::<bool, ()>(
                true,
            )
            &&& lookup != Ok::<bool, ()>(true) ==> turn->Ended_0.stage.text()@ == "verification"@
        }),
{
    let events = seq![
        ExecutionEvent::Opened(true),
        ExecutionEvent::LookedUp(Ok(false)),
        ExecutionEvent::Planned(PlanOutcome::Planned),
        ExecutionEvent::Opened(true),
        ExecutionEvent::Copied(Ok(())),
        ExecutionEvent::InTime(true),
        ExecutionEvent::Opened(true),
        ExecutionEvent::Commanded(command),
        ExecutionEvent::Opened(true),
        ExecutionEvent::LookedUp(lookup),
        ExecutionEvent::Cleaned(cleanup),
    ];
    reveal_strlit("complete");
    reveal_strlit("verification");
    assert("complete"@.len() == 8);
    assert("verification"@.len() == 12);
    let e10 = events.drop_last();
    let e9 = e10.drop_last();
    let e8 = e9.drop_last();
    let e7 = e8.drop_last();
    let e6 = e7.drop_last();
    let e5 = e6.drop_last();
    let e4 = e5.drop_last();
    let e3 = e4.drop_last();
    let e2 = e3.drop_last();
    let e1 = e2.drop_last();
    assert(e1.drop_last().len() == 0);
    assert(execution_after(e1.drop_last()) == ExecutionTurn::Next(Execution::OpenProxy));
    assert(execution_after(e1) == ExecutionTurn::Next(Execution::LookUp));
    assert(execution_after(e2) == ExecutionTurn::Next(Execution::Plan));
    assert(execution_after(e3) == ExecutionTurn::Next(Execution::OpenFiles));
    assert(execution_after(e4) == ExecutionTurn::Next(Execution::Stage));
    assert(execution_after(e5) == ExecutionTurn::Next(Execution::Window));
    assert(execution_after(e6) == ExecutionTurn::Next(Execution::OpenInstaller));
    assert(execution_after(e7) == ExecutionTurn::Next(Execution::Command));
    assert(execution_after(e8) == ExecutionTurn::Next(Execution::OpenVerifier { command }));
    assert(execution_after(e9) == ExecutionTurn::Next(Execution::Verify { command }));
    assert(execution_after(e10) is Next);
}

/// An installation that ends before anything is copied tells where and why, and nothing was
/// started.
pub proof fn installations_end_untouched(
    lookup: Result<bool, ()>,
    failure: UploadPlanFailure,
    plan: PlanOutcome,
)
    ensures
        ({
            let turn = Execution::OpenProxy.turn(ExecutionEvent::Opened(false));
            turn is Ended && turn->Ended_0.outcome is NotStarted && turn->Ended_0.stage.text()@
                == "alreadyInstalled"@ && turn->Ended_0.error_kind@ == "installation_proxy"@
        }),
        ({
            let turn = Execution::LookUp.turn(ExecutionEvent::LookedUp(lookup));
            &&& lookup == Ok::<bool, ()>(false) ==> turn == ExecutionTurn::Next(Execution::Plan)
            &&& lookup == Ok::<bool, ()>(true) ==> turn is Ended && turn->Ended_0.outcome
                is NotStarted && turn->Ended_0.stage.text()@ == "alreadyInstalled"@
                && turn->Ended_0.error_kind@ == "app_already_installed"@
            &&& lookup is Err ==> turn is Ended && turn->Ended_0.outcome is NotStarted
                && turn->Ended_0.stage.text()@ == "alreadyInstalled"@ && turn->Ended_0.error_kind@
                == "installed_app_lookup"@
        }),
        ({
            let turn = Execution::Plan.turn(ExecutionEvent::Planned(plan));
            &&& plan is Planned ==> turn == ExecutionTurn::Next(Execution::OpenFiles)
            &&& !(plan is Planned) ==> turn is Ended && turn->Ended_0.outcome is NotStarted
                && turn->Ended_0.install_command_count == 0 && turn->Ended_0.cleanup is NotNeeded
                && turn->Ended_0.stage.text()@ == "staging"@
            &&& plan == PlanOutcome::Failed(failure) ==> turn->Ended_0.error_kind@
                == failure.text()@
            &&& plan is TaskFailed ==> turn->Ended_0.error_kind@ == "local_task"@
            &&& plan is TimedOut ==> turn->Ended_0.error_kind@ == "timeout"@
        }),
        ({
            let turn = Execution::OpenFiles.turn(ExecutionEvent::Opened(false));
            turn is Ended && turn->Ended_0.outcome is NotStarted && turn->Ended_0.stage.text()@
                == "staging"@ && turn->Ended_0.error_kind@ == "afc_service"@
        }),
{
}

/// An installation that ends behind the copy and before the command removes the copy, tells where
/// and why, and nothing is installed. A command that cannot be verified has an unknown outcome
/// unless it was refused.
pub proof fn installations_end_uncommanded(
    failure: CopyFailure,
    command: Result<(), InstallCommandFailure>,
)
    ensures
        ({
            let turn = Execution::Stage.turn(ExecutionEvent::Copied(Err(failure)));
            &&& turn is Next && turn->Next_0 is Clean
            &&& turn->Next_0->ending.outcome is NotInstalled
            &&& turn->Next_0->ending.install_command_count == 0
            &&& turn->Next_0->ending.stage.text()@ == "staging"@
            &&& turn->Next_0->ending.error_kind@ == failure.text()@
        }),
        ({
            let turn = Execution::Window.turn(ExecutionEvent::InTime(false));
            &&& turn is Next && turn->Next_0 is Clean
            &&& turn->Next_0->ending.outcome is NotInstalled
            &&& turn->Next_0->ending.install_command_count == 0
            &&& turn->Next_0->ending.stage.text()@ == "install"@
            &&& turn->Next_0->ending.error_kind@ == "timeout"@
        }),
        ({
            let turn = Execution::OpenInstaller.turn(ExecutionEvent::Opened(false));
            &&& turn is Next && turn->Next_0 is Clean
            &&& turn->Next_0->ending.outcome is NotInstalled
            &&& turn->Next_0->ending.install_command_count == 0
            &&& turn->Next_0->ending.stage.text()@ == "install"@
            &&& turn->Next_0->ending.error_kind@ == "installation_proxy"@
        }),
        ({
            let turn = (Execution::OpenVerifier { command }).turn(ExecutionEvent::Opened(false));
            &&& turn is Next && turn->Next_0 is Clean
            &&& turn->Next_0->ending.install_command_count == 1
            &&& turn->Next_0->ending.stage.text()@ == "verification"@
            &&& turn->Next_0->ending.outcome is NotInstalled <==> command == Err::<
                (),
                InstallCommandFailure,
            >(InstallCommandFailure::Definitive)
            &&& turn->Next_0->ending.outcome is OutcomeUnknown <==> command != Err::<
                (),
                InstallCommandFailure,
            >(InstallCommandFailure::Definitive)
        }),
{
}

/// The same device is signed for and installed on: an installation goes from one session, in which
/// the device is identified, through signing to another, in which it is identified as the same, and
/// reports what was executed there for the app that was signed.
pub proof fn installations_report_what_was_executed(
    identity: SigningDeviceIdentity,
    second: SigningDeviceIdentity,
    preflight: AppleAccountPreflight,
    bundle_id: String,
    ending: Ending,
)
    requires
        session::same_identity(second, identity),
    ensures
        ({
            let turn = first_install_after(
                seq![
                    FirstInstallEvent::Opened,
                    FirstInstallEvent::Identified(identity),
                    FirstInstallEvent::Closed(true),
                    FirstInstallEvent::Signed { preflight, bundle_id: Some(bundle_id) },
                    FirstInstallEvent::Opened,
                    FirstInstallEvent::Identified(second),
                    FirstInstallEvent::Executed(ending),
                    FirstInstallEvent::Closed(true),
                ],
            );
            &&& turn is Reported
            &&& turn->Reported_0.outcome == ending.outcome
            &&& turn->Reported_0.stage == ending.stage
            &&& turn->Reported_0.cleanup == ending.cleanup
            &&& turn->Reported_0.error_kind == ending.error_kind
            &&& turn->Reported_0.install_command_count == ending.install_command_count
            &&& turn->Reported_0.bundle_id == Some(bundle_id)
            &&& turn->Reported_0.certificate_pressure == has_certificate_pressure(preflight)
            &&& turn->Reported_0.session_cleanup is Succeeded
        }),
{
    let events = seq![
        FirstInstallEvent::Opened,
        FirstInstallEvent::Identified(identity),
        FirstInstallEvent::Closed(true),
        FirstInstallEvent::Signed { preflight, bundle_id: Some(bundle_id) },
        FirstInstallEvent::Opened,
        FirstInstallEvent::Identified(second),
        FirstInstallEvent::Executed(ending),
        FirstInstallEvent::Closed(true),
    ];
    let initial = RsdSessionCleanup::Succeeded;
    let pressure = has_certificate_pressure(preflight);
    let e7 = events.drop_last();
    let e6 = e7.drop_last();
    let e5 = e6.drop_last();
    let e4 = e5.drop_last();
    let e3 = e4.drop_last();
    let e2 = e3.drop_last();
    let e1 = e2.drop_last();
    assert(e1.drop_last().len() == 0);
    assert(first_install_after(e1.drop_last()) == FirstInstallTurn::Next(FirstInstall::OpenFirst));
    assert(first_install_after(e1) == FirstInstallTurn::Next(FirstInstall::Identify));
    assert(first_install_after(e2) == FirstInstallTurn::Next(
        FirstInstall::CloseFirst { found: Ok(identity) },
    ));
    assert(first_install_after(e3) == FirstInstallTurn::Next(
        FirstInstall::Sign { identity, initial },
    ));
    assert(first_install_after(e4) == FirstInstallTurn::Next(
        FirstInstall::OpenSecond { identity, initial, pressure, bundle_id },
    ));
    assert(first_install_after(e5) == FirstInstallTurn::Next(
        FirstInstall::Reidentify { identity, initial, pressure, bundle_id },
    ));
    assert(first_install_after(e6) == FirstInstallTurn::Next(
        FirstInstall::Execute { initial, pressure, bundle_id },
    ));
    assert(first_install_after(e7) is Next);
}

/// An installation that is not executed tells the stage at which it ended and why: a session that
/// was not opened, a device that was not identified, or an app that was not signed. Whatever was
/// known of the account and the app is told with it.
pub proof fn unexecuted_installations_tell_why(
    state: FirstInstall,
    failure: RsdProbeFailure,
    stage: ReadOnlyProbeStage,
    asking: bool,
    error: SigningError,
    preflight: AppleAccountPreflight,
)
    ensures
        state is OpenFirst || state is OpenSecond ==> {
            let turn = state.turn(FirstInstallEvent::OpenFailed(failure));
            &&& turn is Reported
            &&& turn->Reported_0.outcome is NotStarted
            &&& turn->Reported_0.install_command_count == 0
            &&& turn->Reported_0.stage == failure.stage.install_stage()
            &&& turn->Reported_0.error_kind@ == "session_open"@
        },
        state is OpenFirst || state is OpenSecond ==> {
            let turn = state.turn(FirstInstallEvent::OpenTimedOut(stage));
            &&& turn is Reported
            &&& turn->Reported_0.outcome is NotStarted
            &&& turn->Reported_0.stage == stage.install_stage()
            &&& turn->Reported_0.error_kind@ == "timeout"@
            &&& stage is RsdHandshake ==> turn->Reported_0.session_cleanup is Failed
        },
        state is OpenFirst && !(stage is RsdHandshake) ==> state.turn(
            FirstInstallEvent::OpenTimedOut(stage),
        )->Reported_0.session_cleanup is NotNeeded,
        state is Sign ==> {
            let turn = state.turn(FirstInstallEvent::SigningFailed { asking, error });
            &&& turn is Reported
            &&& turn->Reported_0.outcome is NotStarted
            &&& asking ==> turn->Reported_0.stage.text()@ == "accountPreflight"@
            &&& !asking ==> turn->Reported_0.stage.text()@ == "signing"@
            &&& turn->Reported_0.error_kind@ == signing_kind(error)@
        },
        state is Sign ==> {
            let turn = state.turn(FirstInstallEvent::Signed { preflight, bundle_id: None });
            &&& turn is Reported
            &&& turn->Reported_0.outcome is NotStarted
            &&& turn->Reported_0.stage.text()@ == "accountPreflight"@
            &&& turn->Reported_0.error_kind@ == "device_registration_required"@
            &&& turn->Reported_0.certificate_pressure == has_certificate_pressure(preflight)
        },
        state is Sign ==> {
            let turn = state.turn(FirstInstallEvent::TaskFailed);
            &&& turn is Reported
            &&& turn->Reported_0.stage.text()@ == "signing"@
            &&& turn->Reported_0.error_kind@ == "local_task"@
        },
        state is Sign ==> {
            let turn = state.turn(FirstInstallEvent::TimedOut);
            &&& turn is Reported
            &&& turn->Reported_0.stage.text()@ == "signing"@
            &&& turn->Reported_0.error_kind@ == "timeout"@
        },
{
    reveal_strlit("session_open");
    reveal_strlit("timeout");
    reveal_strlit("local_task");
    reveal_strlit("device_registration_required");
    reveal_strlit("signing_not_ready");
    reveal_strlit("account_preflight");
    reveal_strlit("signed_metadata");
    reveal_strlit("signing_failed");
    assert("session_open"@.len() == 12);
    assert("timeout"@.len() == 7);
    assert("local_task"@.len() == 10);
    assert("device_registration_required"@.len() == 28);
    assert(signing_kind(error)@.len() > 0);
}

/// A device that is not identified, or not as the same one, is not installed on: its session is
/// closed and the reason is told.
pub proof fn unidentified_devices_are_left_alone(
    state: FirstInstall,
    second: SigningDeviceIdentity,
    failure: RsdIdentityFailure,
    closed: bool,
)
    ensures
        state is Identify ==> {
            let turn = state.turn(FirstInstallEvent::IdentityFailed(failure));
            &&& turn is Next
            &&& turn->Next_0.turn(FirstInstallEvent::Closed(closed)) is Reported
            &&& turn->Next_0.turn(FirstInstallEvent::Closed(closed))->Reported_0.stage.text()@
                == "identity"@
            &&& turn->Next_0.turn(FirstInstallEvent::Closed(closed))->Reported_0.error_kind@
                == failure.text()@
        },
        state is Identify ==> {
            let turn = state.turn(FirstInstallEvent::TimedOut);
            &&& turn is Next
            &&& turn->Next_0.turn(FirstInstallEvent::Closed(closed)) is Reported
            &&& turn->Next_0.turn(FirstInstallEvent::Closed(closed))->Reported_0.error_kind@
                == "timeout"@
        },
        state matches FirstInstall::Reidentify { identity, .. } ==> !session::same_identity(
            second,
            identity,
        ) ==> {
            let turn = state.turn(FirstInstallEvent::Identified(second));
            &&& turn is Next
            &&& turn->Next_0.turn(FirstInstallEvent::Closed(closed)) is Reported
            &&& turn->Next_0.turn(FirstInstallEvent::Closed(closed))->Reported_0.outcome
                is NotStarted
            &&& turn->Next_0.turn(FirstInstallEvent::Closed(closed))->Reported_0.stage.text()@
                == "identity"@
            &&& turn->Next_0.turn(FirstInstallEvent::Closed(closed))->Reported_0.error_kind@
                == "identity_changed"@
        },
        state is Reidentify ==> {
            let turn = state.turn(FirstInstallEvent::IdentityFailed(failure));
            &&& turn is Next
            &&& turn->Next_0.turn(FirstInstallEvent::Closed(closed)) is Reported
            &&& turn->Next_0.turn(FirstInstallEvent::Closed(closed))->Reported_0.error_kind@
                == failure.text()@
        },
        state is Reidentify ==> {
            let turn = state.turn(FirstInstallEvent::TimedOut);
            &&& turn is Next
            &&& turn->Next_0.turn(FirstInstallEvent::Closed(closed)) is Reported
            &&& turn->Next_0.turn(FirstInstallEvent::Closed(closed))->Reported_0.error_kind@
                == "timeout"@
        },
{
    reveal_strlit("identity_changed");
    reveal_strlit("timeout");
    reveal_strlit("handshake_identity");
    reveal_strlit("lockdown_service_lookup");
    reveal_strlit("lockdown_service_connect");
    reveal_strlit("lockdown_client_init");
    reveal_strlit("lockdown_identity");
    reveal_strlit("device_name");
    reveal_strlit("identity_mismatch");
    assert("identity_changed"@.len() == 16);
    assert("timeout"@.len() == 7);
    assert(failure.text()@.len() > 0);
}

/// A first session that cannot be closed ends the installation before anything is signed.
pub proof fn first_sessions_are_closed_before_signing(identity: SigningDeviceIdentity)
    ensures
        ({
            let state = FirstInstall::CloseFirst { found: Ok(identity) };
            let turn = state.turn(FirstInstallEvent::Closed(false));
            &&& turn is Reported
            &&& turn->Reported_0.outcome is NotStarted
            &&& turn->Reported_0.stage.text()@ == "sessionCleanup"@
            &&& turn->Reported_0.error_kind@ == "session_cleanup"@
            &&& turn->Reported_0.session_cleanup is Failed
        }),
{
}

} // verus!
