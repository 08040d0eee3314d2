//! The stages of the wireless paths to a device, the names under which they are reported, and what
//! a failure or an installation reports of them.
use vstd::prelude::*;

verus! {

/// The stages of a probe through the tunnel.
#[derive(Debug, Clone, Copy, PartialEq, Eq, Structural)]
pub enum RsdProbeStage {
    /// The device is looked for on the network.
    Discovery,
    /// The stored pairing is validated.
    ValidatePairing,
    /// The tunnel to the device is opened.
    Tunnel,
    /// The device tells which services it offers.
    RsdHandshake,
    /// The core device service is asked.
    CoreDeviceService,
}

impl RsdProbeStage {
    /// The stage's name.
    pub open spec fn text(self) -> &'static str {
        match self {
            RsdProbeStage::Discovery => "discovery",
            RsdProbeStage::ValidatePairing => "validatePairing",
            RsdProbeStage::Tunnel => "tunnel",
            RsdProbeStage::RsdHandshake => "rsdHandshake",
            RsdProbeStage::CoreDeviceService => "coreDeviceService",
        }
    }

    /// The stage's name.
    pub fn as_str(self) -> (text: &'static str)
        ensures
            text == self.text(),
    {
        match self {
            RsdProbeStage::Discovery => "discovery",
            RsdProbeStage::ValidatePairing => "validatePairing",
            RsdProbeStage::Tunnel => "tunnel",
            RsdProbeStage::RsdHandshake => "rsdHandshake",
            RsdProbeStage::CoreDeviceService => "coreDeviceService",
        }
    }
}

/// What became of the session to the device.
#[derive(Debug, Clone, Copy, PartialEq, Eq, Structural)]
pub enum RsdSessionCleanup {
    /// There was nothing to close.
    NotNeeded,
    /// It was closed.
    Succeeded,
    /// It could not be closed.
    Failed,
}

impl RsdSessionCleanup {
    /// The outcome's name.
    pub open spec fn text(self) -> &'static str {
        match self {
            RsdSessionCleanup::NotNeeded => "notNeeded",
            RsdSessionCleanup::Succeeded => "succeeded",
            RsdSessionCleanup::Failed => "failed",
        }
    }

    /// The outcome's name.
    pub fn as_str(self) -> (text: &'static str)
        ensures
            text == self.text(),
    {
        match self {
            RsdSessionCleanup::NotNeeded => "notNeeded",
            RsdSessionCleanup::Succeeded => "succeeded",
            RsdSessionCleanup::Failed => "failed",
        }
    }
}

/// The failure of a probe.
#[derive(Debug, Clone, Copy, PartialEq, Eq, Structural)]
pub struct RsdProbeFailure {
    /// The stage that failed.
    pub stage: RsdProbeStage,
    /// What became of the session.
    pub session_cleanup: RsdSessionCleanup,
}

/// The failure of a stage that had opened no session.
pub open spec fn sessionless(stage: RsdProbeStage) -> RsdProbeFailure {
    RsdProbeFailure { stage, session_cleanup: RsdSessionCleanup::NotNeeded }
}

/// The failure of a stage that had opened no session.
pub fn probe_failure(stage: RsdProbeStage) -> (failure: RsdProbeFailure)
    ensures
        failure == sessionless(stage),
{
    RsdProbeFailure { stage, session_cleanup: RsdSessionCleanup::NotNeeded }
}

/// The services that are probed without changing anything.
#[derive(Debug, Clone, Copy, PartialEq, Eq, Structural)]
pub enum ReadOnlyProbeService {
    /// The file service.
    Afc,
    /// The service that lists and installs apps.
    InstallationProxy,
}

impl ReadOnlyProbeService {
    /// The service's name.
    pub open spec fn text(self) -> &'static str {
        match self {
            ReadOnlyProbeService::Afc => "afc",
            ReadOnlyProbeService::InstallationProxy => "installationProxy",
        }
    }

    /// The service's name.
    pub fn as_str(self) -> (text: &'static str)
        ensures
            text == self.text(),
    {
        match self {
            ReadOnlyProbeService::Afc => "afc",
            ReadOnlyProbeService::InstallationProxy => "installationProxy",
        }
    }
}

/// The stages of a probe that changes nothing.
#[derive(Debug, Clone, Copy, PartialEq, Eq, Structural)]
pub enum ReadOnlyProbeStage {
    /// The device is looked for on the network.
    Discovery,
    /// The stored pairing is validated.
    ValidatePairing,
    /// The tunnel to the device is opened.
    Tunnel,
    /// The device tells which services it offers.
    RsdHandshake,
    /// The service is looked up.
    ServiceLookup,
    /// The service is connected to.
    ServiceConnect,
    /// The client of the service is set up.
    ClientInit,
    /// The file service is queried.
    AfcQuery,
    /// The installed apps are looked up.
    AppLookup,
    /// The session is closed.
    Cleanup,
}

impl ReadOnlyProbeStage {
    /// The stage's name.
    pub open spec fn text(self) -> &'static str {
        match self {
            ReadOnlyProbeStage::Discovery => "discovery",
            ReadOnlyProbeStage::ValidatePairing => "validatePairing",
            ReadOnlyProbeStage::Tunnel => "tunnel",
            ReadOnlyProbeStage::RsdHandshake => "rsdHandshake",
            ReadOnlyProbeStage::ServiceLookup => "serviceLookup",
            ReadOnlyProbeStage::ServiceConnect => "serviceConnect",
            ReadOnlyProbeStage::ClientInit => "clientInit",
            ReadOnlyProbeStage::AfcQuery => "afcQuery",
            ReadOnlyProbeStage::AppLookup => "appLookup",
            ReadOnlyProbeStage::Cleanup => "cleanup",
        }
    }

    /// The stage's name.
    pub fn as_str(self) -> (text: &'static str)
        ensures
            text == self.text(),
    {
        match self {
            ReadOnlyProbeStage::Discovery => "discovery",
            ReadOnlyProbeStage::ValidatePairing => "validatePairing",
            ReadOnlyProbeStage::Tunnel => "tunnel",
            ReadOnlyProbeStage::RsdHandshake => "rsdHandshake",
            ReadOnlyProbeStage::ServiceLookup => "serviceLookup",
            ReadOnlyProbeStage::ServiceConnect => "serviceConnect",
            ReadOnlyProbeStage::ClientInit => "clientInit",
            ReadOnlyProbeStage::AfcQuery => "afcQuery",
            ReadOnlyProbeStage::AppLookup => "appLookup",
            ReadOnlyProbeStage::Cleanup => "cleanup",
        }
    }
}

impl ReadOnlyProbeStage {
    /// The operation that the stage belongs to.
    pub open spec fn operation_text(self) -> &'static str {
        match self {
            ReadOnlyProbeStage::Discovery => "setup",
            ReadOnlyProbeStage::ValidatePairing => "setup",
            ReadOnlyProbeStage::Tunnel => "setup",
            ReadOnlyProbeStage::RsdHandshake => "setup",
            ReadOnlyProbeStage::ServiceLookup => "service_lookup",
            ReadOnlyProbeStage::ServiceConnect => "service_connect",
            ReadOnlyProbeStage::ClientInit => "client_init",
            ReadOnlyProbeStage::AfcQuery => "afc_query",
            ReadOnlyProbeStage::AppLookup => "app_lookup",
            ReadOnlyProbeStage::Cleanup => "cleanup",
        }
    }

    /// The operation that the stage belongs to.
    pub fn operation(self) -> (text: &'static str)
        ensures
            text == self.operation_text(),
    {
        match self {
            ReadOnlyProbeStage::Discovery => "setup",
            ReadOnlyProbeStage::ValidatePairing => "setup",
            ReadOnlyProbeStage::Tunnel => "setup",
            ReadOnlyProbeStage::RsdHandshake => "setup",
            ReadOnlyProbeStage::ServiceLookup => "service_lookup",
            ReadOnlyProbeStage::ServiceConnect => "service_connect",
            ReadOnlyProbeStage::ClientInit => "client_init",
            ReadOnlyProbeStage::AfcQuery => "afc_query",
            ReadOnlyProbeStage::AppLookup => "app_lookup",
            ReadOnlyProbeStage::Cleanup => "cleanup",
        }
    }
}

impl RsdProbeStage {
    /// The same stage among those of a probe that changes nothing.
    pub open spec fn read_only_stage(self) -> ReadOnlyProbeStage {
        match self {
            RsdProbeStage::Discovery => ReadOnlyProbeStage::Discovery,
            RsdProbeStage::ValidatePairing => ReadOnlyProbeStage::ValidatePairing,
            RsdProbeStage::Tunnel => ReadOnlyProbeStage::Tunnel,
            RsdProbeStage::RsdHandshake => ReadOnlyProbeStage::RsdHandshake,
            RsdProbeStage::CoreDeviceService => ReadOnlyProbeStage::ServiceConnect,
        }
    }
}

impl vstd::std_specs::convert::FromSpecImpl<RsdProbeStage> for ReadOnlyProbeStage {
    open spec fn obeys_from_spec() -> bool {
        true
    }

    open spec fn from_spec(stage: RsdProbeStage) -> Self {
        stage.read_only_stage()
    }
}

impl From<RsdProbeStage> for ReadOnlyProbeStage {
    /// The same stage among those of a probe that changes nothing.
    fn from(stage: RsdProbeStage) -> (converted: Self) {
        match stage {
            RsdProbeStage::Discovery => ReadOnlyProbeStage::Discovery,
            RsdProbeStage::ValidatePairing => ReadOnlyProbeStage::ValidatePairing,
            RsdProbeStage::Tunnel => ReadOnlyProbeStage::Tunnel,
            RsdProbeStage::RsdHandshake => ReadOnlyProbeStage::RsdHandshake,
            RsdProbeStage::CoreDeviceService => ReadOnlyProbeStage::ServiceConnect,
        }
    }
}

/// The failure of a probe that changes nothing.
#[derive(Debug, Clone, Copy, PartialEq, Eq, Structural)]
pub struct ReadOnlyProbeFailure {
    /// The stage that failed.
    pub stage: ReadOnlyProbeStage,
}

/// Why the device behind a session could not be identified.
#[derive(Debug, Clone, Copy, PartialEq, Eq, Structural)]
pub enum RsdIdentityFailure {
    /// The handshake named no device.
    HandshakeIdentity,
    /// The device offers no lockdown service.
    ServiceLookup,
    /// The lockdown service could not be connected to.
    ServiceConnect,
    /// The client of the lockdown service could not be set up.
    ClientInit,
    /// The lockdown service named no device.
    LockdownIdentity,
    /// The device has no usable name.
    DeviceName,
    /// The handshake and the lockdown service name different devices.
    IdentityMismatch,
}

impl RsdIdentityFailure {
    /// The failure's name.
    pub open spec fn text(self) -> &'static str {
        match self {
            RsdIdentityFailure::HandshakeIdentity => "handshake_identity",
            RsdIdentityFailure::ServiceLookup => "lockdown_service_lookup",
            RsdIdentityFailure::ServiceConnect => "lockdown_service_connect",
            RsdIdentityFailure::ClientInit => "lockdown_client_init",
            RsdIdentityFailure::LockdownIdentity => "lockdown_identity",
            RsdIdentityFailure::DeviceName => "device_name",
            RsdIdentityFailure::IdentityMismatch => "identity_mismatch",
        }
    }

    /// The failure's name.
    pub fn kind(self) -> (text: &'static str)
        ensures
            text == self.text(),
    {
        match self {
            RsdIdentityFailure::HandshakeIdentity => "handshake_identity",
            RsdIdentityFailure::ServiceLookup => "lockdown_service_lookup",
            RsdIdentityFailure::ServiceConnect => "lockdown_service_connect",
            RsdIdentityFailure::ClientInit => "lockdown_client_init",
            RsdIdentityFailure::LockdownIdentity => "lockdown_identity",
            RsdIdentityFailure::DeviceName => "device_name",
            RsdIdentityFailure::IdentityMismatch => "identity_mismatch",
        }
    }
}

/// How an installation ended.
#[derive(Debug, Clone, Copy, PartialEq, Eq, Structural)]
pub enum RsdInstallOutcome {
    /// No installation was started.
    NotStarted,
    /// The app was found on the device.
    Installed,
    /// The app is not on the device.
    NotInstalled,
    /// The device may have accepted the app.
    OutcomeUnknown,
}

impl RsdInstallOutcome {
    /// The outcome's name.
    pub open spec fn text(self) -> &'static str {
        match self {
            RsdInstallOutcome::NotStarted => "notStarted",
            RsdInstallOutcome::Installed => "installed",
            RsdInstallOutcome::NotInstalled => "notInstalled",
            RsdInstallOutcome::OutcomeUnknown => "outcomeUnknown",
        }
    }

    /// The outcome's name.
    pub fn as_str(self) -> (text: &'static str)
        ensures
            text == self.text(),
    {
        match self {
            RsdInstallOutcome::NotStarted => "notStarted",
            RsdInstallOutcome::Installed => "installed",
            RsdInstallOutcome::NotInstalled => "notInstalled",
            RsdInstallOutcome::OutcomeUnknown => "outcomeUnknown",
        }
    }
}

/// The stages of an installation through the tunnel.
#[derive(Debug, Clone, Copy, PartialEq, Eq, Structural)]
pub enum RsdInstallStage {
    /// The device is looked for on the network.
    Discovery,
    /// The stored pairing is validated.
    ValidatePairing,
    /// The tunnel to the device is opened.
    Tunnel,
    /// The device tells which services it offers.
    RsdHandshake,
    /// The device is identified.
    Identity,
    /// The account and the device's registration are checked.
    AccountPreflight,
    /// The app is signed.
    Signing,
    /// The app is looked for among those installed.
    AlreadyInstalled,
    /// The app is copied to the device.
    Staging,
    /// The installation is commanded.
    Install,
    /// The installed app is looked for.
    Verification,
    /// The copy on the device is removed.
    Cleanup,
    /// The session is closed.
    SessionCleanup,
    /// All is done.
    Complete,
}

impl RsdInstallStage {
    /// The stage's name.
    pub open spec fn text(self) -> &'static str {
        match self {
            RsdInstallStage::Discovery => "discovery",
            RsdInstallStage::ValidatePairing => "validatePairing",
            RsdInstallStage::Tunnel => "tunnel",
            RsdInstallStage::RsdHandshake => "rsdHandshake",
            RsdInstallStage::Identity => "identity",
            RsdInstallStage::AccountPreflight => "accountPreflight",
            RsdInstallStage::Signing => "signing",
            RsdInstallStage::AlreadyInstalled => "alreadyInstalled",
            RsdInstallStage::Staging => "staging",
            RsdInstallStage::Install => "install",
            RsdInstallStage::Verification => "verification",
            RsdInstallStage::Cleanup => "cleanup",
            RsdInstallStage::SessionCleanup => "sessionCleanup",
            RsdInstallStage::Complete => "complete",
        }
    }

    /// The stage's name.
    pub fn as_str(self) -> (text: &'static str)
        ensures
            text == self.text(),
    {
        match self {
            RsdInstallStage::Discovery => "discovery",
            RsdInstallStage::ValidatePairing => "validatePairing",
            RsdInstallStage::Tunnel => "tunnel",
            RsdInstallStage::RsdHandshake => "rsdHandshake",
            RsdInstallStage::Identity => "identity",
            RsdInstallStage::AccountPreflight => "accountPreflight",
            RsdInstallStage::Signing => "signing",
            RsdInstallStage::AlreadyInstalled => "alreadyInstalled",
            RsdInstallStage::Staging => "staging",
            RsdInstallStage::Install => "install",
            RsdInstallStage::Verification => "verification",
            RsdInstallStage::Cleanup => "cleanup",
            RsdInstallStage::SessionCleanup => "sessionCleanup",
            RsdInstallStage::Complete => "complete",
        }
    }
}

impl RsdProbeStage {
    /// The stage of an installation at which the probe's stage stands.
    pub open spec fn install_stage(self) -> RsdInstallStage {
        match self {
            RsdProbeStage::Discovery => RsdInstallStage::Discovery,
            RsdProbeStage::ValidatePairing => RsdInstallStage::ValidatePairing,
            RsdProbeStage::Tunnel => RsdInstallStage::Tunnel,
            RsdProbeStage::RsdHandshake => RsdInstallStage::RsdHandshake,
            RsdProbeStage::CoreDeviceService => RsdInstallStage::RsdHandshake,
        }
    }
}

impl vstd::std_specs::convert::FromSpecImpl<RsdProbeStage> for RsdInstallStage {
    open spec fn obeys_from_spec() -> bool {
        true
    }

    open spec fn from_spec(stage: RsdProbeStage) -> Self {
        stage.install_stage()
    }
}

impl From<RsdProbeStage> for RsdInstallStage {
    /// The stage of an installation at which the probe's stage stands.
    fn from(stage: RsdProbeStage) -> (converted: Self) {
        match stage {
            RsdProbeStage::Discovery => RsdInstallStage::Discovery,
            RsdProbeStage::ValidatePairing => RsdInstallStage::ValidatePairing,
            RsdProbeStage::Tunnel => RsdInstallStage::Tunnel,
            RsdProbeStage::RsdHandshake => RsdInstallStage::RsdHandshake,
            RsdProbeStage::CoreDeviceService => RsdInstallStage::RsdHandshake,
        }
    }
}

impl ReadOnlyProbeStage {
    /// The stage of an installation at which the probe's stage stands.
    pub open spec fn install_stage(self) -> RsdInstallStage {
        match self {
            ReadOnlyProbeStage::Discovery => RsdInstallStage::Discovery,
            ReadOnlyProbeStage::ValidatePairing => RsdInstallStage::ValidatePairing,
            ReadOnlyProbeStage::Tunnel => RsdInstallStage::Tunnel,
            ReadOnlyProbeStage::RsdHandshake => RsdInstallStage::RsdHandshake,
            ReadOnlyProbeStage::ServiceLookup => RsdInstallStage::RsdHandshake,
            ReadOnlyProbeStage::ServiceConnect => RsdInstallStage::RsdHandshake,
            ReadOnlyProbeStage::ClientInit => RsdInstallStage::RsdHandshake,
            ReadOnlyProbeStage::AfcQuery => RsdInstallStage::Staging,
            ReadOnlyProbeStage::AppLookup => RsdInstallStage::AlreadyInstalled,
            ReadOnlyProbeStage::Cleanup => RsdInstallStage::SessionCleanup,
        }
    }
}

impl vstd::std_specs::convert::FromSpecImpl<ReadOnlyProbeStage> for RsdInstallStage {
    open spec fn obeys_from_spec() -> bool {
        true
    }

    open spec fn from_spec(stage: ReadOnlyProbeStage) -> Self {
        stage.install_stage()
    }
}

impl From<ReadOnlyProbeStage> for RsdInstallStage {
    /// The stage of an installation at which the probe's stage stands.
    fn from(stage: ReadOnlyProbeStage) -> (converted: Self) {
        match stage {
            ReadOnlyProbeStage::Discovery => RsdInstallStage::Discovery,
            ReadOnlyProbeStage::ValidatePairing => RsdInstallStage::ValidatePairing,
            ReadOnlyProbeStage::Tunnel => RsdInstallStage::Tunnel,
            ReadOnlyProbeStage::RsdHandshake => RsdInstallStage::RsdHandshake,
            ReadOnlyProbeStage::ServiceLookup => RsdInstallStage::RsdHandshake,
            ReadOnlyProbeStage::ServiceConnect => RsdInstallStage::RsdHandshake,
            ReadOnlyProbeStage::ClientInit => RsdInstallStage::RsdHandshake,
            ReadOnlyProbeStage::AfcQuery => RsdInstallStage::Staging,
            ReadOnlyProbeStage::AppLookup => RsdInstallStage::AlreadyInstalled,
            ReadOnlyProbeStage::Cleanup => RsdInstallStage::SessionCleanup,
        }
    }
}

/// What became of the copy on the device.
#[derive(Debug, Clone, Copy, PartialEq, Eq, Structural)]
pub enum RsdStagingCleanup {
    /// Nothing was copied.
    NotNeeded,
    /// The copy was removed.
    Succeeded,
    /// The copy could not be removed.
    Failed,
}

impl RsdStagingCleanup {
    /// The outcome's name.
    pub open spec fn text(self) -> &'static str {
        match self {
            RsdStagingCleanup::NotNeeded => "notNeeded",
            RsdStagingCleanup::Succeeded => "succeeded",
            RsdStagingCleanup::Failed => "failed",
        }
    }

    /// The outcome's name.
    pub fn as_str(self) -> (text: &'static str)
        ensures
            text == self.text(),
    {
        match self {
            RsdStagingCleanup::NotNeeded => "notNeeded",
            RsdStagingCleanup::Succeeded => "succeeded",
            RsdStagingCleanup::Failed => "failed",
        }
    }
}

/// The report of an installation.
#[derive(Debug)]
pub struct RsdInstallReport {
    /// How the installation ended.
    pub outcome: RsdInstallOutcome,
    /// The stage at which it ended.
    pub stage: RsdInstallStage,
    /// What became of the copy on the device.
    pub cleanup: RsdStagingCleanup,
    /// What became of the session.
    pub session_cleanup: RsdSessionCleanup,
    /// How many installations were commanded.
    pub install_command_count: u8,
    /// The kind of the error, empty where there was none.
    pub error_kind: &'static str,
    /// The bundle identifier of the signed app.
    pub bundle_id: Option<String>,
    /// Whether the account had no room for another certificate.
    pub certificate_pressure: bool,
}

/// The operations of the core device probe.
#[derive(Debug, Clone, Copy, PartialEq, Eq, Structural)]
pub enum CoreDeviceServiceOperation {
    /// The service is looked up.
    ServiceLookup,
    /// The service is connected to.
    ServiceConnect,
    /// The client of the service is set up.
    ClientInit,
    /// The installed apps are listed.
    ListApps,
}

impl CoreDeviceServiceOperation {
    /// The operation's name.
    pub open spec fn text(self) -> &'static str {
        match self {
            CoreDeviceServiceOperation::ServiceLookup => "service_lookup",
            CoreDeviceServiceOperation::ServiceConnect => "service_connect",
            CoreDeviceServiceOperation::ClientInit => "client_init",
            CoreDeviceServiceOperation::ListApps => "list_apps",
        }
    }

    /// The operation's name.
    pub fn as_str(self) -> (text: &'static str)
        ensures
            text == self.text(),
    {
        match self {
            CoreDeviceServiceOperation::ServiceLookup => "service_lookup",
            CoreDeviceServiceOperation::ServiceConnect => "service_connect",
            CoreDeviceServiceOperation::ClientInit => "client_init",
            CoreDeviceServiceOperation::ListApps => "list_apps",
        }
    }
}

/// The names of the stages of a probe.
pub proof fn probe_stages_are_named()
    ensures
        RsdProbeStage::Discovery.text()@ == "discovery"@,
        RsdProbeStage::ValidatePairing.text()@ == "validatePairing"@,
        RsdProbeStage::Tunnel.text()@ == "tunnel"@,
        RsdProbeStage::RsdHandshake.text()@ == "rsdHandshake"@,
        RsdProbeStage::CoreDeviceService.text()@ == "coreDeviceService"@,
{
}

/// The names of what became of a session.
pub proof fn session_cleanups_are_named()
    ensures
        RsdSessionCleanup::NotNeeded.text()@ == "notNeeded"@,
        RsdSessionCleanup::Succeeded.text()@ == "succeeded"@,
        RsdSessionCleanup::Failed.text()@ == "failed"@,
{
}

/// The names of the services.
pub proof fn probed_services_are_named()
    ensures
        ReadOnlyProbeService::Afc.text()@ == "afc"@,
        ReadOnlyProbeService::InstallationProxy.text()@ == "installationProxy"@,
{
}

/// The names of the stages of a probe that changes nothing.
pub proof fn read_only_stages_are_named()
    ensures
        ReadOnlyProbeStage::Discovery.text()@ == "discovery"@,
        ReadOnlyProbeStage::ValidatePairing.text()@ == "validatePairing"@,
        ReadOnlyProbeStage::Tunnel.text()@ == "tunnel"@,
        ReadOnlyProbeStage::RsdHandshake.text()@ == "rsdHandshake"@,
        ReadOnlyProbeStage::ServiceLookup.text()@ == "serviceLookup"@,
        ReadOnlyProbeStage::ServiceConnect.text()@ == "serviceConnect"@,
        ReadOnlyProbeStage::ClientInit.text()@ == "clientInit"@,
        ReadOnlyProbeStage::AfcQuery.text()@ == "afcQuery"@,
        ReadOnlyProbeStage::AppLookup.text()@ == "appLookup"@,
        ReadOnlyProbeStage::Cleanup.text()@ == "cleanup"@,
{
}

/// The names of the operations that the stages belong to.
pub proof fn operations_are_named()
    ensures
        ReadOnlyProbeStage::Discovery.operation_text()@ == "setup"@,
        ReadOnlyProbeStage::ValidatePairing.operation_text()@ == "setup"@,
        ReadOnlyProbeStage::Tunnel.operation_text()@ == "setup"@,
        ReadOnlyProbeStage::RsdHandshake.operation_text()@ == "setup"@,
        ReadOnlyProbeStage::ServiceLookup.operation_text()@ == "service_lookup"@,
        ReadOnlyProbeStage::ServiceConnect.operation_text()@ == "service_connect"@,
        ReadOnlyProbeStage::ClientInit.operation_text()@ == "client_init"@,
        ReadOnlyProbeStage::AfcQuery.operation_text()@ == "afc_query"@,
        ReadOnlyProbeStage::AppLookup.operation_text()@ == "app_lookup"@,
        ReadOnlyProbeStage::Cleanup.operation_text()@ == "cleanup"@,
{
}

/// The names of the reasons why a device is not identified.
pub proof fn identity_failures_are_named()
    ensures
        RsdIdentityFailure::HandshakeIdentity.text()@ == "handshake_identity"@,
        RsdIdentityFailure::ServiceLookup.text()@ == "lockdown_service_lookup"@,
        RsdIdentityFailure::ServiceConnect.text()@ == "lockdown_service_connect"@,
        RsdIdentityFailure::ClientInit.text()@ == "lockdown_client_init"@,
        RsdIdentityFailure::LockdownIdentity.text()@ == "lockdown_identity"@,
        RsdIdentityFailure::DeviceName.text()@ == "device_name"@,
        RsdIdentityFailure::IdentityMismatch.text()@ == "identity_mismatch"@,
{
}

/// The names of how an installation ended.
pub proof fn install_outcomes_are_named()
    ensures
        RsdInstallOutcome::NotStarted.text()@ == "notStarted"@,
        RsdInstallOutcome::Installed.text()@ == "installed"@,
        RsdInstallOutcome::NotInstalled.text()@ == "notInstalled"@,
        RsdInstallOutcome::OutcomeUnknown.text()@ == "outcomeUnknown"@,
{
}

/// The names of the stages of an installation.
pub proof fn install_stages_are_named()
    ensures
        RsdInstallStage::Discovery.text()@ == "discovery"@,
        RsdInstallStage::ValidatePairing.text()@ == "validatePairing"@,
        RsdInstallStage::Tunnel.text()@ == "tunnel"@,
        RsdInstallStage::RsdHandshake.text()@ == "rsdHandshake"@,
        RsdInstallStage::Identity.text()@ == "identity"@,
        RsdInstallStage::AccountPreflight.text()@ == "accountPreflight"@,
        RsdInstallStage::Signing.text()@ == "signing"@,
        RsdInstallStage::AlreadyInstalled.text()@ == "alreadyInstalled"@,
        RsdInstallStage::Staging.text()@ == "staging"@,
        RsdInstallStage::Install.text()@ == "install"@,
        RsdInstallStage::Verification.text()@ == "verification"@,
        RsdInstallStage::Cleanup.text()@ == "cleanup"@,
        RsdInstallStage::SessionCleanup.text()@ == "sessionCleanup"@,
        RsdInstallStage::Complete.text()@ == "complete"@,
{
}

/// The names of what became of a copy.
pub proof fn staging_cleanups_are_named()
    ensures
        RsdStagingCleanup::NotNeeded.text()@ == "notNeeded"@,
        RsdStagingCleanup::Succeeded.text()@ == "succeeded"@,
        RsdStagingCleanup::Failed.text()@ == "failed"@,
{
}

/// The names of the operations of the core device probe.
pub proof fn core_device_operations_are_named()
    ensures
        CoreDeviceServiceOperation::ServiceLookup.text()@ == "service_lookup"@,
        CoreDeviceServiceOperation::ServiceConnect.text()@ == "service_connect"@,
        CoreDeviceServiceOperation::ClientInit.text()@ == "client_init"@,
        CoreDeviceServiceOperation::ListApps.text()@ == "list_apps"@,
{
}

/// A stage of a probe keeps its name in the probe that changes nothing and in an installation. The
/// core device service is a service that is connected to, and in an installation belongs to the
/// handshake.
pub proof fn stages_keep_their_names(stage: RsdProbeStage)
    ensures
        !(stage is CoreDeviceService) ==> stage.read_only_stage().text()@ == stage.text()@
            && stage.install_stage().text()@ == stage.text()@,
        stage is CoreDeviceService ==> stage.read_only_stage().text()@ == "serviceConnect"@
            && stage.install_stage().text()@ == "rsdHandshake"@,
{
}

/// A stage that both have keeps its name in an installation. What is done to open a service belongs
/// to the handshake, a query of files to the copy, the lookup of apps to the question whether the
/// app is installed, and cleaning up to closing the session.
pub proof fn read_only_stages_keep_their_names(stage: ReadOnlyProbeStage)
    ensures
        stage is Discovery || stage is ValidatePairing || stage is Tunnel || stage is RsdHandshake
            ==> stage.install_stage().text()@ == stage.text()@,
        stage is ServiceLookup || stage is ServiceConnect || stage is ClientInit
            ==> stage.install_stage().text()@ == "rsdHandshake"@,
        stage is AfcQuery ==> stage.install_stage().text()@ == "staging"@,
        stage is AppLookup ==> stage.install_stage().text()@ == "alreadyInstalled"@,
        stage is Cleanup ==> stage.install_stage().text()@ == "sessionCleanup"@,
{
}

/// A failure without a session names its stage and leaves nothing to close.
pub proof fn failures_without_a_session_leave_nothing(stage: RsdProbeStage)
    ensures
        sessionless(stage).stage == stage,
        sessionless(stage).session_cleanup.text()@ == "notNeeded"@,
{
}

} // verus!
