//! The answers to the requests on sign-ins, devices, pairing sessions and the trial of the wireless
//! paths, and where the server listens.
use vstd::prelude::*;
use vstd::string::*;

use crate::pairing::{ConfigError, PairingError, WirelessPairingConfig};
use crate::reply;
use crate::reply::Reply;
use crate::signing::SigningError;
use crate::stages::{
    ReadOnlyProbeFailure, ReadOnlyProbeService, RsdInstallOutcome, RsdInstallReport,
    RsdProbeFailure,
};
use crate::store;
use crate::text;

verus! {

// ---------------------------------------------------------------------------------------------
// The trial of the wireless paths.
// ---------------------------------------------------------------------------------------------

pub const SPIKE_AFC_PROBE_PATH: &'static str = "/api/spike/devices/{id}/afc-probe";

pub const SPIKE_RSD_PROBE_PATH: &'static str = "/api/spike/remote-pairing/rsd-probe";

pub const SPIKE_REMOTE_AFC_PROBE_PATH: &'static str = "/api/spike/remote-pairing/afc-probe";

pub const SPIKE_INSTALLATION_PROXY_PROBE_PATH: &'static str =
    "/api/spike/remote-pairing/installation-proxy-probe";

pub const SPIKE_RSD_INSTALL_PATH: &'static str = "/api/spike/remote-pairing/install";

/// The target under which the trial logs.
pub const SPIKE_DIAGNOSTICS_TARGET: &'static str = "iphoneloadly_api::spike_diagnostics";

/// The largest body of a request for an installation.
pub const MAX_INSTALL_BODY: usize = 1024;

/// The paths that are served only during the trial.
pub fn spike_route_paths(spike_mode: bool) -> (paths: Vec<&'static str>)
    ensures
        paths@ == if spike_mode {
            seq![
                SPIKE_AFC_PROBE_PATH,
                SPIKE_RSD_PROBE_PATH,
                SPIKE_REMOTE_AFC_PROBE_PATH,
                SPIKE_INSTALLATION_PROXY_PROBE_PATH,
                SPIKE_RSD_INSTALL_PATH,
            ]
        } else {
            Seq::<&'static str>::empty()
        },
{
    if spike_mode {
        vec![
            SPIKE_AFC_PROBE_PATH,
            SPIKE_RSD_PROBE_PATH,
            SPIKE_REMOTE_AFC_PROBE_PATH,
            SPIKE_INSTALLATION_PROXY_PROBE_PATH,
            SPIKE_RSD_INSTALL_PATH,
        ]
    } else {
        Vec::new()
    }
}

/// Whether what is logged under a target is written: during the trial only what is logged for it,
/// so that nothing that came from a device is.
pub fn spike_target_allowed(spike_mode: bool, target: &str) -> (allowed: bool)
    ensures
        allowed == (!spike_mode || target@ == SPIKE_DIAGNOSTICS_TARGET@),
{
    !spike_mode || text::same_text(target, SPIKE_DIAGNOSTICS_TARGET)
}

/// The answer to a probe of the file service over the lockdown transport.
#[derive(Debug, Clone, Copy, PartialEq, Eq)]
pub struct AfcProbeResponse {
    pub transport: &'static str,
    pub afc: &'static str,
}

/// The status and the body of the answer to a probe over the lockdown transport.
pub fn afc_probe_reply(reached: bool) -> (reply: (u16, AfcProbeResponse))
    ensures
        reply.0 == if reached {
            200u16
        } else {
            503u16
        },
        reply.1.transport == "lockdown",
        reply.1.afc == if reached {
            "ok"
        } else {
            "unavailable"
        },
{
    if reached {
        (200, AfcProbeResponse { transport: "lockdown", afc: "ok" })
    } else {
        (503, AfcProbeResponse { transport: "lockdown", afc: "unavailable" })
    }
}

/// The answer to a probe of the core device service that succeeded.
#[derive(Debug, Clone, Copy, PartialEq, Eq)]
pub struct RsdProbeSuccessResponse {
    pub transport: &'static str,
    pub remote_pairing: &'static str,
    pub rsd: &'static str,
    pub core_device: &'static str,
}

/// The answer to a probe of the core device service that failed.
#[derive(Debug, Clone, Copy, PartialEq, Eq)]
pub struct RsdProbeFailureResponse {
    pub transport: &'static str,
    pub status: &'static str,
    pub stage: &'static str,
}

/// The answer to a probe of the core device service: status 200 where it is `Ok` and 503 where it is
/// not.
pub fn rsd_probe_reply(result: Result<(), RsdProbeFailure>) -> (reply: Result<
    RsdProbeSuccessResponse,
    RsdProbeFailureResponse,
>)
    ensures
        reply == match result {
            Ok(()) => Ok::<RsdProbeSuccessResponse, RsdProbeFailureResponse>(
                RsdProbeSuccessResponse {
                    transport: "rsdCoreDevice",
                    remote_pairing: "ok",
                    rsd: "ok",
                    core_device: "ok",
                },
            ),
            Err(failure) => Err::<RsdProbeSuccessResponse, RsdProbeFailureResponse>(
                RsdProbeFailureResponse {
                    transport: "rsdCoreDevice",
                    status: "unavailable",
                    stage: failure.stage.text(),
                },
            ),
        },
{
    match result {
        Ok(()) => Ok(
            RsdProbeSuccessResponse {
                transport: "rsdCoreDevice",
                remote_pairing: "ok",
                rsd: "ok",
                core_device: "ok",
            },
        ),
        Err(failure) => Err(
            RsdProbeFailureResponse {
                transport: "rsdCoreDevice",
                status: "unavailable",
                stage: failure.stage.as_str(),
            },
        ),
    }
}

/// The answer to a probe that changes nothing and succeeded.
#[derive(Debug, Clone, Copy, PartialEq, Eq)]
pub struct ReadOnlyProbeSuccessResponse {
    pub transport: &'static str,
    pub service: &'static str,
    pub status: &'static str,
}

/// The answer to a probe that changes nothing and failed.
#[derive(Debug, Clone, Copy, PartialEq, Eq)]
pub struct ReadOnlyProbeFailureResponse {
    pub transport: &'static str,
    pub service: &'static str,
    pub status: &'static str,
    pub stage: &'static str,
}

/// The answer to a probe that changes nothing: status 200 where it is `Ok` and 503 where it is not.
pub fn read_only_probe_reply(
    service: ReadOnlyProbeService,
    result: Result<(), ReadOnlyProbeFailure>,
) -> (reply: Result<ReadOnlyProbeSuccessResponse, ReadOnlyProbeFailureResponse>)
    ensures
        reply == match result {
            Ok(()) => Ok::<ReadOnlyProbeSuccessResponse, ReadOnlyProbeFailureResponse>(
                ReadOnlyProbeSuccessResponse {
                    transport: "rsd",
                    service: service.text(),
                    status: "ok",
                },
            ),
            Err(failure) => Err::<ReadOnlyProbeSuccessResponse, ReadOnlyProbeFailureResponse>(
                ReadOnlyProbeFailureResponse {
                    transport: "rsd",
                    service: service.text(),
                    status: "unavailable",
                    stage: failure.stage.text(),
                },
            ),
        },
{
    match result {
        Ok(()) => Ok(
            ReadOnlyProbeSuccessResponse {
                transport: "rsd",
                service: service.as_str(),
                status: "ok",
            },
        ),
        Err(failure) => Err(
            ReadOnlyProbeFailureResponse {
                transport: "rsd",
                service: service.as_str(),
                status: "unavailable",
                stage: failure.stage.as_str(),
            },
        ),
    }
}

/// The steps of a request for an installation, in their order.
#[derive(Debug, Clone, Copy, PartialEq, Eq, Structural)]
pub enum InstallRequestStep {
    /// The request may change something.
    Action,
    /// Its body is not too large.
    Size,
    /// Its body names an app and nothing else.
    Body,
    /// No other installation runs.
    Single,
    /// The task of the installation came to its end.
    Task,
    /// The app is stored.
    App,
}

/// What comes after a step.
#[derive(Debug, Clone, Copy)]
pub enum InstallRequestTurn {
    Next(InstallRequestStep),
    Refuse(Reply),
    /// The installation is reported.
    Report,
}

impl InstallRequestStep {
    /// What comes after the step.
    pub open spec fn turn(self, succeeded: bool) -> InstallRequestTurn {
        match (self, succeeded) {
            (InstallRequestStep::Action, true) => InstallRequestTurn::Next(InstallRequestStep::Size),
            (InstallRequestStep::Size, true) => InstallRequestTurn::Next(InstallRequestStep::Body),
            (InstallRequestStep::Body, true) => InstallRequestTurn::Next(InstallRequestStep::Single),
            (InstallRequestStep::Single, true) => InstallRequestTurn::Next(InstallRequestStep::Task),
            (InstallRequestStep::Task, true) => InstallRequestTurn::Next(InstallRequestStep::App),
            (InstallRequestStep::App, true) => InstallRequestTurn::Report,
            (InstallRequestStep::Action, false) => InstallRequestTurn::Refuse(
                reply::action_reply(),
            ),
            (InstallRequestStep::Size, false) => InstallRequestTurn::Refuse(
                reply::told(400, "Invalid installation request."),
            ),
            (InstallRequestStep::Body, false) => InstallRequestTurn::Refuse(
                reply::told(400, "Invalid installation request."),
            ),
            (InstallRequestStep::Single, false) => InstallRequestTurn::Refuse(
                reply::told(409, "An RSD installation is already in progress."),
            ),
            (InstallRequestStep::Task, false) => InstallRequestTurn::Refuse(
                reply::told(500, "Installation request failed."),
            ),
            (InstallRequestStep::App, false) => InstallRequestTurn::Refuse(
                reply::told(404, "Uploaded IPA was not found."),
            ),
        }
    }

    /// What comes after the step.
    pub fn advance(self, succeeded: bool) -> (turn: InstallRequestTurn)
        ensures
            turn == self.turn(succeeded),
    {
        match (self, succeeded) {
            (InstallRequestStep::Action, true) => InstallRequestTurn::Next(InstallRequestStep::Size),
            (InstallRequestStep::Size, true) => InstallRequestTurn::Next(InstallRequestStep::Body),
            (InstallRequestStep::Body, true) => InstallRequestTurn::Next(InstallRequestStep::Single),
            (InstallRequestStep::Single, true) => InstallRequestTurn::Next(InstallRequestStep::Task),
            (InstallRequestStep::Task, true) => InstallRequestTurn::Next(InstallRequestStep::App),
            (InstallRequestStep::App, true) => InstallRequestTurn::Report,
            (InstallRequestStep::Action, false) => InstallRequestTurn::Refuse(
                reply::action_required(),
            ),
            (InstallRequestStep::Size, false) => InstallRequestTurn::Refuse(
                Reply::told(400, "Invalid installation request."),
            ),
            (InstallRequestStep::Body, false) => InstallRequestTurn::Refuse(
                Reply::told(400, "Invalid installation request."),
            ),
            (InstallRequestStep::Single, false) => InstallRequestTurn::Refuse(
                Reply::told(409, "An RSD installation is already in progress."),
            ),
            (InstallRequestStep::Task, false) => InstallRequestTurn::Refuse(
                Reply::told(500, "Installation request failed."),
            ),
            (InstallRequestStep::App, false) => InstallRequestTurn::Refuse(
                Reply::told(404, "Uploaded IPA was not found."),
            ),
        }
    }
}

/// Whether the body of a request for an installation is not too large.
pub fn is_install_body(length: usize) -> (accepted: bool)
    ensures
        accepted == (length <= MAX_INSTALL_BODY),
{
    length <= MAX_INSTALL_BODY
}

/// The status of the answer that reports an installation: an app that was found on the device is a
/// success, whatever could not be cleaned up.
pub open spec fn install_status(outcome: RsdInstallOutcome, error_kind: Seq<char>) -> u16 {
    if outcome == RsdInstallOutcome::Installed {
        200
    } else if error_kind == "device_registration_required"@ || error_kind
        == "app_already_installed"@ || error_kind == "signing_not_ready"@ {
        409
    } else if outcome == RsdInstallOutcome::NotStarted {
        503
    } else {
        502
    }
}

/// The status of the answer that reports an installation.
pub fn spike_install_status(report: &RsdInstallReport) -> (status: u16)
    ensures
        status == install_status(report.outcome, report.error_kind@),
{
    if report.outcome == RsdInstallOutcome::Installed {
        200
    } else if text::same_text(report.error_kind, "device_registration_required") || text::same_text(
        report.error_kind,
        "app_already_installed",
    ) || text::same_text(report.error_kind, "signing_not_ready") {
        409
    } else if report.outcome == RsdInstallOutcome::NotStarted {
        503
    } else {
        502
    }
}

/// The answer that reports an installation.
#[derive(Debug)]
pub struct SpikeRsdInstallResponse {
    pub transport: &'static str,
    pub outcome: &'static str,
    pub stage: &'static str,
    pub cleanup: &'static str,
    pub session_cleanup: &'static str,
    pub install_command_count: u8,
    pub error_kind: Option<&'static str>,
    pub bundle_id: Option<String>,
    pub certificate_pressure: bool,
}

/// The answer that reports an installation.
pub open spec fn answered_report(report: RsdInstallReport) -> SpikeRsdInstallResponse {
    SpikeRsdInstallResponse {
        transport: "rsd",
        outcome: report.outcome.text(),
        stage: report.stage.text(),
        cleanup: report.cleanup.text(),
        session_cleanup: report.session_cleanup.text(),
        install_command_count: report.install_command_count,
        error_kind: if report.error_kind@.len() == 0 {
            None
        } else {
            Some(report.error_kind)
        },
        bundle_id: report.bundle_id,
        certificate_pressure: report.certificate_pressure,
    }
}

/// The answer that reports an installation.
pub fn spike_install_response(report: RsdInstallReport) -> (response: SpikeRsdInstallResponse)
    ensures
        response == answered_report(report),
{
    SpikeRsdInstallResponse {
        transport: "rsd",
        outcome: report.outcome.as_str(),
        stage: report.stage.as_str(),
        cleanup: report.cleanup.as_str(),
        session_cleanup: report.session_cleanup.as_str(),
        install_command_count: report.install_command_count,
        error_kind: if report.error_kind.is_empty() {
            None
        } else {
            Some(report.error_kind)
        },
        bundle_id: report.bundle_id,
        certificate_pressure: report.certificate_pressure,
    }
}

// ---------------------------------------------------------------------------------------------
// Sign-ins.
// ---------------------------------------------------------------------------------------------

pub const CERTIFICATE_RECOVERY_MESSAGE: &'static str =
    "Certificate recovery is armed for one new Apple sign-in. Sign in again; if Apple reports a certificate limit, iPhoneLoadly will revoke one older development certificate and continue.";

/// The steps of a request for a sign-in, in their order.
#[derive(Debug, Clone, Copy, PartialEq, Eq, Structural)]
pub enum LoginRequestStep {
    /// The account is named and a password is given.
    Fields,
    /// The credentials are saved, where that was asked for.
    Save,
    /// The sign-in has begun.
    Begin,
}

/// Whether a request for a sign-in names an account and a password.
pub fn is_login_request(email: &str, password: &str) -> (accepted: bool)
    ensures
        accepted == (text::trimmed(email@).len() > 0 && password@.len() > 0),
{
    !text::trim(email).is_empty() && !password.is_empty()
}

/// The answer to a request for a sign-in that fails at a step, with the error of a sign-in that
/// could not begin.
pub open spec fn login_refused(step: LoginRequestStep, error: SigningError) -> Reply {
    match step {
        LoginRequestStep::Fields => reply::told(400, "Email and password are required."),
        LoginRequestStep::Save => reply::told(500, "Unable to save encrypted credentials."),
        LoginRequestStep::Begin => if error == SigningError::MissingAnisetteUrl {
            reply::told(
                503,
                "Configure IPHONELOADLY_ANISETTE_URL with a trusted anisette service before signing in.",
            )
        } else {
            reply::told(500, "Unable to start Apple sign-in.")
        },
    }
}

/// The answer to a request for a sign-in that fails at a step.
pub fn login_refusal(step: LoginRequestStep, error: SigningError) -> (answer: Reply)
    ensures
        answer == login_refused(step, error),
{
    match step {
        LoginRequestStep::Fields => Reply::told(400, "Email and password are required."),
        LoginRequestStep::Save => Reply::told(500, "Unable to save encrypted credentials."),
        LoginRequestStep::Begin => match error {
            SigningError::MissingAnisetteUrl => Reply::told(
                503,
                "Configure IPHONELOADLY_ANISETTE_URL with a trusted anisette service before signing in.",
            ),
            _ => Reply::told(500, "Unable to start Apple sign-in."),
        },
    }
}

/// What comes after a step of a request for a sign-in.
#[derive(Debug, Clone, Copy)]
pub enum LoginRequestTurn {
    Next(LoginRequestStep),
    Refuse(Reply),
    /// The sign-in is told, with status 202, and remembered as the saved one where that was asked
    /// for.
    Begun { remember: bool },
}

impl LoginRequestStep {
    /// What comes after the step, where `save` says that the credentials are to be saved.
    pub open spec fn turn(self, save: bool, result: Result<(), SigningError>) -> LoginRequestTurn {
        match result {
            Err(error) => LoginRequestTurn::Refuse(login_refused(self, error)),
            Ok(()) => match self {
                LoginRequestStep::Fields => LoginRequestTurn::Next(
                    if save {
                        LoginRequestStep::Save
                    } else {
                        LoginRequestStep::Begin
                    },
                ),
                LoginRequestStep::Save => LoginRequestTurn::Next(LoginRequestStep::Begin),
                LoginRequestStep::Begin => LoginRequestTurn::Begun { remember: save },
            },
        }
    }

    /// What comes after the step.
    pub fn advance(self, save: bool, result: Result<(), SigningError>) -> (turn: LoginRequestTurn)
        ensures
            turn == self.turn(save, result),
    {
        match result {
            Err(error) => LoginRequestTurn::Refuse(login_refusal(self, error)),
            Ok(()) => match self {
                LoginRequestStep::Fields => if save {
                    LoginRequestTurn::Next(LoginRequestStep::Save)
                } else {
                    LoginRequestTurn::Next(LoginRequestStep::Begin)
                },
                LoginRequestStep::Save => LoginRequestTurn::Next(LoginRequestStep::Begin),
                LoginRequestStep::Begin => LoginRequestTurn::Begun { remember: save },
            },
        }
    }
}

/// Where a request for a sign-in stands after some steps: the turn that the last one gave.
pub open spec fn login_request_after(
    save: bool,
    results: Seq<Result<(), SigningError>>,
) -> LoginRequestTurn
    decreases results.len(),
{
    if results.len() == 0 {
        LoginRequestTurn::Next(LoginRequestStep::Fields)
    } else {
        match login_request_after(save, results.drop_last()) {
            LoginRequestTurn::Next(step) => step.turn(save, results.last()),
            turn => turn,
        }
    }
}

/// Credentials are written to the disk, and a sign-in is remembered as the saved one, only where
/// that was asked for.
pub proof fn credentials_are_saved_only_where_asked(results: Seq<Result<(), SigningError>>)
    ensures
        login_request_after(false, results) != LoginRequestTurn::Next(LoginRequestStep::Save),
        login_request_after(false, results) != (LoginRequestTurn::Begun { remember: true }),
    decreases results.len(),
{
    if results.len() > 0 {
        credentials_are_saved_only_where_asked(results.drop_last());
    }
}

/// Where it was asked for, a sign-in begins only after the credentials were saved, and is then
/// remembered.
pub proof fn asked_credentials_are_saved_first(results: Seq<Result<(), SigningError>>)
    ensures
        login_request_after(true, results) == LoginRequestTurn::Next(LoginRequestStep::Save)
            ==> results.len() == 1,
        login_request_after(true, results) == LoginRequestTurn::Next(LoginRequestStep::Begin)
            ==> results.len() == 2 && results[1] is Ok,
        login_request_after(true, results) matches LoginRequestTurn::Begun { remember }
            ==> remember && results.len() >= 3 && results[1] is Ok,
    decreases results.len(),
{
    if results.len() > 0 {
        asked_credentials_are_saved_first(results.drop_last());
        if results.len() == 1 {
            assert(login_request_after(true, results.drop_last()) == LoginRequestTurn::Next(
                LoginRequestStep::Fields,
            ));
        }
    }
}

/// The answer to a response to a two-factor challenge.
pub open spec fn two_factor_answer(result: Result<(), SigningError>) -> Reply {
    match result {
        Ok(()) => reply::told(202, "Two-factor response accepted."),
        Err(SigningError::UnknownSession) => reply::told(
            404,
            "Apple login session was not found.",
        ),
        Err(SigningError::NoTwoFactorChallenge) => reply::told(
            409,
            "Apple is not currently requesting a two-factor response.",
        ),
        Err(_) => reply::told(400, "Invalid two-factor response."),
    }
}

/// The answer to a response to a two-factor challenge.
pub fn two_factor_reply(result: Result<(), SigningError>) -> (answer: Reply)
    ensures
        answer == two_factor_answer(result),
{
    match result {
        Ok(()) => Reply::told(202, "Two-factor response accepted."),
        Err(SigningError::UnknownSession) => Reply::told(404, "Apple login session was not found."),
        Err(SigningError::NoTwoFactorChallenge) => Reply::told(
            409,
            "Apple is not currently requesting a two-factor response.",
        ),
        Err(_) => Reply::told(400, "Invalid two-factor response."),
    }
}

/// Requests that fail in one way.
#[derive(Debug, Clone, Copy, PartialEq, Eq, Structural)]
pub enum RequestFailure {
    /// The saved sign-in is read.
    SavedLogin,
    /// The saved sign-in is removed.
    ForgetLogin,
    /// A sign-in is read.
    Login,
    /// The devices are listed.
    Devices,
    /// The apps of a device are listed.
    DeviceApps,
    /// A day of the refresh is set that cannot be set.
    RefreshRange,
    /// The day of the refresh is saved.
    SaveRefresh,
    /// A pairing session of another kind is asked for.
    PairingMode,
    /// A job is read that is not stored.
    MissingJob,
}

impl RequestFailure {
    /// The answer to the request.
    pub open spec fn answer(self) -> Reply {
        match self {
            RequestFailure::SavedLogin => reply::told(
                500,
                "Unable to read saved sign-in state.",
            ),
            RequestFailure::ForgetLogin => reply::told(
                500,
                "Unable to remove saved credentials.",
            ),
            RequestFailure::Login => reply::told(
                404,
                "Apple login session was not found.",
            ),
            RequestFailure::Devices => reply::told(
                503,
                "Wi-Fi device discovery is unavailable. Check netmuxd and the dedicated mux socket.",
            ),
            RequestFailure::DeviceApps => reply::told(
                503,
                "The selected trusted iPhone is not reachable over Wi-Fi.",
            ),
            RequestFailure::RefreshRange => reply::told(
                400,
                "Automatic refresh must be between day 1 and day 6.",
            ),
            RequestFailure::SaveRefresh => reply::told(
                500,
                "Unable to save refresh settings.",
            ),
            RequestFailure::PairingMode => reply::told(
                400,
                "Only wireless pairing is available in this spike.",
            ),
            RequestFailure::MissingJob => reply::told(404, "Installation job was not found."),
        }
    }

    /// The answer to the request.
    pub fn reply(self) -> (reply: Reply)
        ensures
            reply == self.answer(),
    {
        match self {
            RequestFailure::SavedLogin => Reply::told(
                500,
                "Unable to read saved sign-in state.",
            ),
            RequestFailure::ForgetLogin => Reply::told(
                500,
                "Unable to remove saved credentials.",
            ),
            RequestFailure::Login => Reply::told(
                404,
                "Apple login session was not found.",
            ),
            RequestFailure::Devices => Reply::told(
                503,
                "Wi-Fi device discovery is unavailable. Check netmuxd and the dedicated mux socket.",
            ),
            RequestFailure::DeviceApps => Reply::told(
                503,
                "The selected trusted iPhone is not reachable over Wi-Fi.",
            ),
            RequestFailure::RefreshRange => Reply::told(
                400,
                "Automatic refresh must be between day 1 and day 6.",
            ),
            RequestFailure::SaveRefresh => Reply::told(
                500,
                "Unable to save refresh settings.",
            ),
            RequestFailure::PairingMode => Reply::told(
                400,
                "Only wireless pairing is available in this spike.",
            ),
            RequestFailure::MissingJob => Reply::told(404, "Installation job was not found."),
        }
    }
}

/// The answer to a request that sets the day of the refresh, where the day cannot be set.
pub fn refresh_day_refusal(after_days: u8) -> (refusal: Option<Reply>)
    ensures
        refusal == if store::MIN_REFRESH_AFTER_DAYS <= after_days <= store::MAX_REFRESH_AFTER_DAYS {
            None::<Reply>
        } else {
            Some(RequestFailure::RefreshRange.answer())
        },
{
    if store::MIN_REFRESH_AFTER_DAYS <= after_days && after_days <= store::MAX_REFRESH_AFTER_DAYS {
        None
    } else {
        Some(RequestFailure::RefreshRange.reply())
    }
}

// ---------------------------------------------------------------------------------------------
// Pairing sessions.
// ---------------------------------------------------------------------------------------------

/// Why a request for a pairing session is refused before it is tried: its kind comes before the
/// header of an action.
pub fn pairing_request_refusal(mode: &str, action_allowed: bool) -> (refusal: Option<Reply>)
    ensures
        refusal == if mode@ != "wireless"@ {
            Some(RequestFailure::PairingMode.answer())
        } else if !action_allowed {
            Some(reply::action_reply())
        } else {
            None::<Reply>
        },
{
    if !text::same_text(mode, "wireless") {
        Some(RequestFailure::PairingMode.reply())
    } else if !action_allowed {
        Some(reply::action_required())
    } else {
        None
    }
}

/// A request on a pairing session.
#[derive(Debug, Clone, Copy, PartialEq, Eq, Structural)]
pub enum PairingRequest {
    Start,
    Read,
    Cancel,
}

/// The answer to a request on a pairing session that was refused.
pub open spec fn pairing_refused(request: PairingRequest, error: PairingError) -> Reply {
    match (request, error) {
        (PairingRequest::Start, PairingError::Disabled) => reply::told(
            404,
            "Wireless pairing is disabled.",
        ),
        (PairingRequest::Start, PairingError::Busy) => reply::told(
            409,
            "A wireless pairing session is already active.",
        ),
        (PairingRequest::Start, _) => reply::told(503, "Unable to start wireless pairing."),
        (_, PairingError::NotFound) => reply::told(404, "Wireless pairing session was not found."),
        (PairingRequest::Read, _) => reply::told(503, "Unable to read wireless pairing status."),
        (PairingRequest::Cancel, PairingError::Terminal) => reply::told(
            409,
            "Wireless pairing session is already finished.",
        ),
        (PairingRequest::Cancel, _) => reply::told(503, "Unable to cancel wireless pairing."),
    }
}

/// The answer to a request on a pairing session that was refused.
pub fn pairing_refusal(request: PairingRequest, error: PairingError) -> (answer: Reply)
    ensures
        answer == pairing_refused(request, error),
{
    match request {
        PairingRequest::Start => match error {
            PairingError::Disabled => Reply::told(404, "Wireless pairing is disabled."),
            PairingError::Busy => Reply::told(409, "A wireless pairing session is already active."),
            _ => Reply::told(503, "Unable to start wireless pairing."),
        },
        PairingRequest::Read => match error {
            PairingError::NotFound => Reply::told(404, "Wireless pairing session was not found."),
            _ => Reply::told(503, "Unable to read wireless pairing status."),
        },
        PairingRequest::Cancel => match error {
            PairingError::NotFound => Reply::told(404, "Wireless pairing session was not found."),
            PairingError::Terminal => Reply::told(
                409,
                "Wireless pairing session is already finished.",
            ),
            _ => Reply::told(503, "Unable to cancel wireless pairing."),
        },
    }
}

// ---------------------------------------------------------------------------------------------
// The server.
// ---------------------------------------------------------------------------------------------

/// The configuration of wireless pairing that is in effect: one that is refused is off, and one that
/// is on is off outside the trial.
pub fn effective_pairing(
    config: Result<WirelessPairingConfig, ConfigError>,
    spike_mode: bool,
    state_dir: String,
) -> (effective: WirelessPairingConfig)
    ensures
        match config {
            Ok(config) => effective == (WirelessPairingConfig {
                mode: config.mode.in_effect(spike_mode),
                ..config
            }),
            Err(_) => {
                &&& effective.mode == crate::pairing::WirelessPairingMode::Off
                &&& effective.pairing_port == crate::pairing::DEFAULT_PAIRING_PORT
                &&& effective.interface is None
                &&& effective.state_dir == state_dir
            },
        },
{
    match config {
        Ok(config) => config.limited(spike_mode),
        Err(_) => WirelessPairingConfig::disabled(state_dir),
    }
}

/// The directory of the server's data.
pub open spec fn data_directory_of(spike_mode: bool, configured: Option<Seq<char>>) -> Seq<char> {
    if spike_mode {
        match configured {
            Some(directory) => directory,
            None => "spike-data"@,
        }
    } else {
        "data"@
    }
}

/// The directory of the server's data: during the trial it can be configured.
pub fn data_directory(spike_mode: bool, configured: Option<String>) -> (directory: String)
    ensures
        directory@ == data_directory_of(spike_mode, text::text_view(configured)),
{
    if spike_mode {
        match configured {
            Some(directory) => directory,
            None => "spike-data".to_owned(),
        }
    } else {
        "data".to_owned()
    }
}

/// The address that the server listens on.
pub open spec fn api_address_of(spike_mode: bool, configured: Option<Seq<char>>) -> Seq<char> {
    if spike_mode {
        match configured {
            Some(address) => address,
            None => "127.0.0.1:18080"@,
        }
    } else {
        "127.0.0.1:8080"@
    }
}

/// The address that the server listens on: during the trial it can be configured.
pub fn api_address(spike_mode: bool, configured: Option<String>) -> (address: String)
    ensures
        address@ == api_address_of(spike_mode, text::text_view(configured)),
{
    if spike_mode {
        match configured {
            Some(address) => address,
            None => "127.0.0.1:18080".to_owned(),
        }
    } else {
        "127.0.0.1:8080".to_owned()
    }
}

/// Whether the server may listen on an address: during the trial only on one that leads back to this
/// host.
pub fn may_bind(spike_mode: bool, loopback: bool) -> (allowed: bool)
    ensures
        allowed == (!spike_mode || loopback),
{
    !spike_mode || loopback
}

/// Outside the trial nothing that is configured moves the server off its own address on this host,
/// or away from its data.
pub proof fn the_server_stays_local(configured: Option<Seq<char>>)
    ensures
        api_address_of(false, configured) == "127.0.0.1:8080"@,
        data_directory_of(false, configured) == "data"@,
{
}

/// A request for an installation goes through its steps in their order before it is reported.
pub proof fn installations_are_asked_for_in_order(step: InstallRequestStep)
    ensures
        InstallRequestStep::Action.turn(true) == InstallRequestTurn::Next(InstallRequestStep::Size),
        InstallRequestStep::Size.turn(true) == InstallRequestTurn::Next(InstallRequestStep::Body),
        InstallRequestStep::Body.turn(true) == InstallRequestTurn::Next(InstallRequestStep::Single),
        InstallRequestStep::Single.turn(true) == InstallRequestTurn::Next(InstallRequestStep::Task),
        InstallRequestStep::Task.turn(true) == InstallRequestTurn::Next(InstallRequestStep::App),
        step.turn(true) is Report <==> step is App,
{
}

/// A request for an installation that fails at a step is refused with the status and the sentence of
/// the step.
pub proof fn refused_installations_are_told(step: InstallRequestStep)
    ensures
        step.turn(false) is Refuse,
        step is Action ==> reply::says(
            step.turn(false)->Refuse_0,
            400,
            "JSON action header required."@,
        ),
        step is Size || step is Body ==> reply::says(
            step.turn(false)->Refuse_0,
            400,
            "Invalid installation request."@,
        ),
        step is Single ==> reply::says(
            step.turn(false)->Refuse_0,
            409,
            "An RSD installation is already in progress."@,
        ),
        step is Task ==> reply::says(
            step.turn(false)->Refuse_0,
            500,
            "Installation request failed."@,
        ),
        step is App ==> reply::says(
            step.turn(false)->Refuse_0,
            404,
            "Uploaded IPA was not found."@,
        ),
{
}

/// An installed app is answered with 200 whatever else went wrong. Else what the user can mend is a
/// conflict; one that was not started is unavailable, and one that was is a failure of the device.
pub proof fn installations_are_answered_by_their_outcome(
    outcome: RsdInstallOutcome,
    error_kind: Seq<char>,
)
    ensures
        outcome is Installed ==> install_status(outcome, error_kind) == 200,
        !(outcome is Installed) && (error_kind == "device_registration_required"@ || error_kind
            == "app_already_installed"@ || error_kind == "signing_not_ready"@) ==> install_status(
            outcome,
            error_kind,
        ) == 409,
        outcome is NotStarted && error_kind != "device_registration_required"@ && error_kind
            != "app_already_installed"@ && error_kind != "signing_not_ready"@ ==> install_status(
            outcome,
            error_kind,
        ) == 503,
        (outcome is NotInstalled || outcome is OutcomeUnknown) && error_kind
            != "device_registration_required"@ && error_kind != "app_already_installed"@
            && error_kind != "signing_not_ready"@ ==> install_status(outcome, error_kind) == 502,
{
}

/// A sign-in begins after its fields were checked and, where that was asked for, its credentials
/// saved. What fails is told with its status and sentence.
pub proof fn sign_ins_are_begun_in_order(save: bool, error: SigningError)
    ensures
        LoginRequestStep::Fields.turn(true, Ok(())) == LoginRequestTurn::Next(
            LoginRequestStep::Save,
        ),
        LoginRequestStep::Fields.turn(false, Ok(())) == LoginRequestTurn::Next(
            LoginRequestStep::Begin,
        ),
        LoginRequestStep::Save.turn(save, Ok(())) == LoginRequestTurn::Next(
            LoginRequestStep::Begin,
        ),
        LoginRequestStep::Begin.turn(save, Ok(())) == (LoginRequestTurn::Begun { remember: save }),
        ({
            let turn = LoginRequestStep::Fields.turn(save, Err(error));
            turn is Refuse && reply::says(
                turn->Refuse_0,
                400,
                "Email and password are required."@,
            )
        }),
        ({
            let turn = LoginRequestStep::Save.turn(save, Err(error));
            turn is Refuse && reply::says(
                turn->Refuse_0,
                500,
                "Unable to save encrypted credentials."@,
            )
        }),
        ({
            let turn = LoginRequestStep::Begin.turn(save, Err(error));
            turn is Refuse && (if error is MissingAnisetteUrl {
                reply::says(
                    turn->Refuse_0,
                    503,
                    "Configure IPHONELOADLY_ANISETTE_URL with a trusted anisette service before signing in."@,
                )
            } else {
                reply::says(turn->Refuse_0, 500, "Unable to start Apple sign-in."@)
            })
        }),
{
}

/// A two-factor response is accepted, or refused by its reason.
pub proof fn two_factor_responses_are_answered(error: SigningError)
    ensures
        reply::says(two_factor_answer(Ok(())), 202, "Two-factor response accepted."@),
        error is UnknownSession ==> reply::says(
            two_factor_answer(Err(error)),
            404,
            "Apple login session was not found."@,
        ),
        error is NoTwoFactorChallenge ==> reply::says(
            two_factor_answer(Err(error)),
            409,
            "Apple is not currently requesting a two-factor response."@,
        ),
        !(error is UnknownSession) && !(error is NoTwoFactorChallenge) ==> reply::says(
            two_factor_answer(Err(error)),
            400,
            "Invalid two-factor response."@,
        ),
{
}

/// The answers to the requests that fail in one way.
pub proof fn failed_requests_are_answered()
    ensures
        reply::says(
            RequestFailure::SavedLogin.answer(),
            500,
            "Unable to read saved sign-in state."@,
        ),
        reply::says(
            RequestFailure::ForgetLogin.answer(),
            500,
            "Unable to remove saved credentials."@,
        ),
        reply::says(RequestFailure::Login.answer(), 404, "Apple login session was not found."@),
        reply::says(
            RequestFailure::Devices.answer(),
            503,
            "Wi-Fi device discovery is unavailable. Check netmuxd and the dedicated mux socket."@,
        ),
        reply::says(
            RequestFailure::DeviceApps.answer(),
            503,
            "The selected trusted iPhone is not reachable over Wi-Fi."@,
        ),
        reply::says(
            RequestFailure::RefreshRange.answer(),
            400,
            "Automatic refresh must be between day 1 and day 6."@,
        ),
        reply::says(
            RequestFailure::SaveRefresh.answer(),
            500,
            "Unable to save refresh settings."@,
        ),
        reply::says(
            RequestFailure::PairingMode.answer(),
            400,
            "Only wireless pairing is available in this spike."@,
        ),
        reply::says(RequestFailure::MissingJob.answer(), 404, "Installation job was not found."@),
{
}

/// A request on a pairing session that is refused tells its reason: pairing that is off or a session
/// that is not there with 404, one that is in the way with 409, and anything else with 503.
pub proof fn refused_pairing_requests_are_told(request: PairingRequest, error: PairingError)
    ensures
        request is Start && error is Disabled ==> reply::says(
            pairing_refused(request, error),
            404,
            "Wireless pairing is disabled."@,
        ),
        request is Start && error is Busy ==> reply::says(
            pairing_refused(request, error),
            409,
            "A wireless pairing session is already active."@,
        ),
        request is Start && !(error is Disabled) && !(error is Busy) ==> reply::says(
            pairing_refused(request, error),
            503,
            "Unable to start wireless pairing."@,
        ),
        !(request is Start) && error is NotFound ==> reply::says(
            pairing_refused(request, error),
            404,
            "Wireless pairing session was not found."@,
        ),
        request is Read && !(error is NotFound) ==> reply::says(
            pairing_refused(request, error),
            503,
            "Unable to read wireless pairing status."@,
        ),
        request is Cancel && error is Terminal ==> reply::says(
            pairing_refused(request, error),
            409,
            "Wireless pairing session is already finished."@,
        ),
        request is Cancel && !(error is NotFound) && !(error is Terminal) ==> reply::says(
            pairing_refused(request, error),
            503,
            "Unable to cancel wireless pairing."@,
        ),
{
}

/// During the trial the server listens and stores where it is told to, and else on another port and
/// in another directory than outside it.
pub proof fn the_trial_is_configured(configured: Seq<char>)
    ensures
        api_address_of(true, Some(configured)) == configured,
        api_address_of(true, None) == "127.0.0.1:18080"@,
        data_directory_of(true, Some(configured)) == configured,
        data_directory_of(true, None) == "spike-data"@,
{
}

/// The paths of the trial and the target under which it logs.
pub proof fn the_trial_has_its_own_paths()
    ensures
        SPIKE_AFC_PROBE_PATH@ == "/api/spike/devices/{id}/afc-probe"@,
        SPIKE_RSD_PROBE_PATH@ == "/api/spike/remote-pairing/rsd-probe"@,
        SPIKE_REMOTE_AFC_PROBE_PATH@ == "/api/spike/remote-pairing/afc-probe"@,
        SPIKE_INSTALLATION_PROXY_PROBE_PATH@
            == "/api/spike/remote-pairing/installation-proxy-probe"@,
        SPIKE_RSD_INSTALL_PATH@ == "/api/spike/remote-pairing/install"@,
        SPIKE_DIAGNOSTICS_TARGET@ == "iphoneloadly_api::spike_diagnostics"@,
        MAX_INSTALL_BODY == 1024,
{
}

/// The answer that reports an installation tells each part of the report by its name; an empty kind
/// of error is none.
pub proof fn reports_are_answered_by_name(report: RsdInstallReport)
    ensures
        ({
            let answer = answered_report(report);
            &&& answer.transport@ == "rsd"@
            &&& answer.outcome@ == report.outcome.text()@
            &&& answer.stage@ == report.stage.text()@
            &&& answer.cleanup@ == report.cleanup.text()@
            &&& answer.session_cleanup@ == report.session_cleanup.text()@
            &&& answer.install_command_count == report.install_command_count
            &&& report.error_kind@.len() == 0 ==> answer.error_kind is None
            &&& report.error_kind@.len() > 0 ==> answer.error_kind == Some(report.error_kind)
            &&& answer.bundle_id == report.bundle_id
            &&& answer.certificate_pressure == report.certificate_pressure
        }),
{
}

} // verus!
