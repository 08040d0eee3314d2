//! A session to a paired device: the steps by which it is opened, what the service directory
//! offers, and the identity of the device behind it.
use vstd::prelude::*;
use vstd::string::*;
use vstd::utf8::*;

use crate::commitment;
use crate::commitment::TunnelReport;
use crate::faults::{CallOutcome, DeviceFault};
use crate::signing;
use crate::signing::SigningDeviceIdentity;
use crate::stages;
use crate::stages::{
    CoreDeviceServiceOperation, ReadOnlyProbeStage, RsdIdentityFailure, RsdProbeFailure,
    RsdProbeStage, RsdSessionCleanup,
};
use crate::text;

verus! {

pub const TUNNEL_SERVICE_NAME: &'static str =
    "com.apple.internal.dt.coredevice.untrusted.tunnelservice";

pub const CORE_DEVICE_APP_SERVICE_NAME: &'static str = "com.apple.coredevice.appservice";

pub const CORE_DEVICE_INFO_SERVICE_NAME: &'static str = "com.apple.coredevice.deviceinfo";

pub const MOBILE_IMAGE_MOUNTER_SERVICE_NAME: &'static str =
    "com.apple.mobile.mobile_image_mounter.shim.remote";

pub const INSTALLATION_PROXY_SERVICE_NAME: &'static str =
    "com.apple.mobile.installation_proxy.shim.remote";

pub const AFC_SERVICE_NAME: &'static str = "com.apple.afc.shim.remote";

pub const LOCKDOWN_REMOTE_TRUSTED_SERVICE_NAME: &'static str =
    "com.apple.mobile.lockdown.remote.trusted";

/// The steps by which a session is opened, in their order.
#[derive(Debug, Clone, Copy, PartialEq, Eq, Structural)]
pub enum OpenStep {
    /// The stored pairing is loaded.
    Material,
    /// A device was paired.
    Peer,
    /// The key of the pairing has its length.
    Key,
    /// The device is found on the network.
    Discover,
    /// The pairing is validated over one of its addresses.
    Validate,
    /// The device opens a listener for the tunnel.
    Listener,
    /// The listener is connected to.
    ListenerConnect,
    /// The tunnel is opened.
    TunnelOpen,
    /// The tunnel names a port and two addresses.
    TunnelInspect,
    /// The service directory is connected to.
    DirectoryConnect,
    /// The service directory is read.
    Handshake,
}

impl OpenStep {
    /// The step's number in the order.
    pub open spec fn number(self) -> int {
        match self {
            OpenStep::Material => 0,
            OpenStep::Peer => 1,
            OpenStep::Key => 2,
            OpenStep::Discover => 3,
            OpenStep::Validate => 4,
            OpenStep::Listener => 5,
            OpenStep::ListenerConnect => 6,
            OpenStep::TunnelOpen => 7,
            OpenStep::TunnelInspect => 8,
            OpenStep::DirectoryConnect => 9,
            OpenStep::Handshake => 10,
        }
    }
}

impl OpenStep {
    /// The stage that has failed where the step fails.
    pub open spec fn failing(self) -> RsdProbeStage {
        match self {
            OpenStep::Material => RsdProbeStage::Discovery,
            OpenStep::Peer => RsdProbeStage::Discovery,
            OpenStep::Key => RsdProbeStage::Discovery,
            OpenStep::Discover => RsdProbeStage::Discovery,
            OpenStep::Validate => RsdProbeStage::ValidatePairing,
            OpenStep::Listener => RsdProbeStage::Tunnel,
            OpenStep::ListenerConnect => RsdProbeStage::Tunnel,
            OpenStep::TunnelOpen => RsdProbeStage::Tunnel,
            OpenStep::TunnelInspect => RsdProbeStage::Tunnel,
            OpenStep::DirectoryConnect => RsdProbeStage::RsdHandshake,
            OpenStep::Handshake => RsdProbeStage::RsdHandshake,
        }
    }

    /// The stage that has failed where the step fails.
    pub fn failed_stage(self) -> (stage: RsdProbeStage)
        ensures
            stage == self.failing(),
    {
        match self {
            OpenStep::Material => RsdProbeStage::Discovery,
            OpenStep::Peer => RsdProbeStage::Discovery,
            OpenStep::Key => RsdProbeStage::Discovery,
            OpenStep::Discover => RsdProbeStage::Discovery,
            OpenStep::Validate => RsdProbeStage::ValidatePairing,
            OpenStep::Listener => RsdProbeStage::Tunnel,
            OpenStep::ListenerConnect => RsdProbeStage::Tunnel,
            OpenStep::TunnelOpen => RsdProbeStage::Tunnel,
            OpenStep::TunnelInspect => RsdProbeStage::Tunnel,
            OpenStep::DirectoryConnect => RsdProbeStage::RsdHandshake,
            OpenStep::Handshake => RsdProbeStage::RsdHandshake,
        }
    }
}

impl OpenStep {
    /// The stage at which a session stands while the step is taken.
    pub open spec fn progress(self) -> ReadOnlyProbeStage {
        match self {
            OpenStep::Material => ReadOnlyProbeStage::Discovery,
            OpenStep::Peer => ReadOnlyProbeStage::Discovery,
            OpenStep::Key => ReadOnlyProbeStage::Discovery,
            OpenStep::Discover => ReadOnlyProbeStage::Discovery,
            OpenStep::Validate => ReadOnlyProbeStage::ValidatePairing,
            OpenStep::Listener => ReadOnlyProbeStage::Tunnel,
            OpenStep::ListenerConnect => ReadOnlyProbeStage::Tunnel,
            OpenStep::TunnelOpen => ReadOnlyProbeStage::Tunnel,
            OpenStep::TunnelInspect => ReadOnlyProbeStage::Tunnel,
            OpenStep::DirectoryConnect => ReadOnlyProbeStage::RsdHandshake,
            OpenStep::Handshake => ReadOnlyProbeStage::RsdHandshake,
        }
    }

    /// The stage at which a session stands while the step is taken.
    pub fn current_stage(self) -> (stage: ReadOnlyProbeStage)
        ensures
            stage == self.progress(),
    {
        match self {
            OpenStep::Material => ReadOnlyProbeStage::Discovery,
            OpenStep::Peer => ReadOnlyProbeStage::Discovery,
            OpenStep::Key => ReadOnlyProbeStage::Discovery,
            OpenStep::Discover => ReadOnlyProbeStage::Discovery,
            OpenStep::Validate => ReadOnlyProbeStage::ValidatePairing,
            OpenStep::Listener => ReadOnlyProbeStage::Tunnel,
            OpenStep::ListenerConnect => ReadOnlyProbeStage::Tunnel,
            OpenStep::TunnelOpen => ReadOnlyProbeStage::Tunnel,
            OpenStep::TunnelInspect => ReadOnlyProbeStage::Tunnel,
            OpenStep::DirectoryConnect => ReadOnlyProbeStage::RsdHandshake,
            OpenStep::Handshake => ReadOnlyProbeStage::RsdHandshake,
        }
    }
}

impl OpenStep {
    /// The step behind it.
    pub open spec fn follower(self) -> Option<OpenStep> {
        match self {
            OpenStep::Material => Some(OpenStep::Peer),
            OpenStep::Peer => Some(OpenStep::Key),
            OpenStep::Key => Some(OpenStep::Discover),
            OpenStep::Discover => Some(OpenStep::Validate),
            OpenStep::Validate => Some(OpenStep::Listener),
            OpenStep::Listener => Some(OpenStep::ListenerConnect),
            OpenStep::ListenerConnect => Some(OpenStep::TunnelOpen),
            OpenStep::TunnelOpen => Some(OpenStep::TunnelInspect),
            OpenStep::TunnelInspect => Some(OpenStep::DirectoryConnect),
            OpenStep::DirectoryConnect => Some(OpenStep::Handshake),
            OpenStep::Handshake => None,
        }
    }

    /// The step behind it.
    pub fn next(self) -> (step: Option<OpenStep>)
        ensures
            step == self.follower(),
    {
        match self {
            OpenStep::Material => Some(OpenStep::Peer),
            OpenStep::Peer => Some(OpenStep::Key),
            OpenStep::Key => Some(OpenStep::Discover),
            OpenStep::Discover => Some(OpenStep::Validate),
            OpenStep::Validate => Some(OpenStep::Listener),
            OpenStep::Listener => Some(OpenStep::ListenerConnect),
            OpenStep::ListenerConnect => Some(OpenStep::TunnelOpen),
            OpenStep::TunnelOpen => Some(OpenStep::TunnelInspect),
            OpenStep::TunnelInspect => Some(OpenStep::DirectoryConnect),
            OpenStep::DirectoryConnect => Some(OpenStep::Handshake),
            OpenStep::Handshake => None,
        }
    }
}

/// What comes after a step.
#[derive(Debug, Clone, Copy, PartialEq, Eq, Structural)]
pub enum OpenTurn {
    /// The next step is to be taken.
    Next(OpenStep),
    /// The session is open.
    Opened,
    /// There is no session.
    Failed(RsdProbeFailure),
    /// The tunnel is open but of no use: it is to be closed.
    Close,
}

impl OpenStep {
    /// Whether the tunnel is open when the step is taken.
    pub open spec fn has_tunnel(self) -> bool {
        self.number() >= OpenStep::DirectoryConnect.number()
    }

    /// What comes after the step.
    pub open spec fn turn(self, succeeded: bool) -> OpenTurn {
        if succeeded {
            match self.follower() {
                Some(step) => OpenTurn::Next(step),
                None => OpenTurn::Opened,
            }
        } else if self.has_tunnel() {
            OpenTurn::Close
        } else {
            OpenTurn::Failed(stages::sessionless(self.failing()))
        }
    }

    /// What comes after the step.
    pub fn advance(self, succeeded: bool) -> (turn: OpenTurn)
        ensures
            turn == self.turn(succeeded),
    {
        if succeeded {
            return match self.next() {
                Some(step) => OpenTurn::Next(step),
                None => OpenTurn::Opened,
            };
        }
        match self {
            OpenStep::DirectoryConnect | OpenStep::Handshake => OpenTurn::Close,
            _ => OpenTurn::Failed(stages::probe_failure(self.failed_stage())),
        }
    }
}

/// The failure of a session whose tunnel had to be closed again.
pub open spec fn abandoned(closed: bool) -> RsdProbeFailure {
    RsdProbeFailure {
        stage: RsdProbeStage::RsdHandshake,
        session_cleanup: if closed {
            RsdSessionCleanup::Succeeded
        } else {
            RsdSessionCleanup::Failed
        },
    }
}

/// The failure of a session whose tunnel had to be closed again.
pub fn abandoned_session(closed: bool) -> (failure: RsdProbeFailure)
    ensures
        failure == abandoned(closed),
{
    RsdProbeFailure {
        stage: RsdProbeStage::RsdHandshake,
        session_cleanup: if closed {
            RsdSessionCleanup::Succeeded
        } else {
            RsdSessionCleanup::Failed
        },
    }
}

/// Where a session stands after some steps.
pub open spec fn session_after(outcomes: Seq<bool>) -> OpenTurn
    decreases outcomes.len(),
{
    if outcomes.len() == 0 {
        OpenTurn::Next(OpenStep::Material)
    } else {
        match session_after(outcomes.drop_last()) {
            OpenTurn::Next(step) => step.turn(outcomes.last()),
            turn => turn,
        }
    }
}

proof fn session_position(outcomes: Seq<bool>)
    ensures
        session_after(outcomes) matches OpenTurn::Next(step) ==> step.number() == outcomes.len()
            && forall|i: int| 0 <= i < outcomes.len() ==> outcomes[i],
        session_after(outcomes) is Opened ==> outcomes.len() >= 11 && forall|i: int|
            0 <= i < 11 ==> outcomes[i],
        session_after(outcomes) is Close ==> outcomes.len() >= 10 && forall|i: int|
            0 <= i < 9 ==> outcomes[i],
        session_after(outcomes) matches OpenTurn::Failed(failure) ==> failure.session_cleanup
            == RsdSessionCleanup::NotNeeded && failure.stage != RsdProbeStage::RsdHandshake,
    decreases outcomes.len(),
{
    if outcomes.len() > 0 {
        let before = outcomes.drop_last();
        session_position(before);
        assert forall|i: int| 0 <= i < before.len() && before[i] implies outcomes[i] by {}
    }
}

/// A session is open only after every step succeeded: a device had been paired, it was found and
/// validated, and it told its services through the tunnel.
pub proof fn open_sessions_took_every_step(outcomes: Seq<bool>)
    requires
        session_after(outcomes) is Opened,
    ensures
        outcomes.len() >= 11,
        forall|i: int| 0 <= i < 11 ==> outcomes[i],
{
    session_position(outcomes);
}

/// A tunnel is closed again exactly where it was opened and the service directory could not be
/// read. A failure before that has nothing to close.
pub proof fn opened_tunnels_are_closed(outcomes: Seq<bool>)
    ensures
        session_after(outcomes) is Close ==> outcomes.len() >= 10 && forall|i: int|
            0 <= i < 9 ==> outcomes[i],
        session_after(outcomes) matches OpenTurn::Failed(failure) ==> failure.session_cleanup
            == RsdSessionCleanup::NotNeeded && failure.stage != RsdProbeStage::RsdHandshake,
{
    session_position(outcomes);
}

/// Whether what a tunnel tells of itself can be used.
pub fn is_usable_tunnel(report: TunnelReport) -> (usable: bool)
    ensures
        usable == (commitment::tunnel_outcome(report) is Completed),
{
    report.rsd_port != 0 && report.host_address && report.peer_address
}

/// The largest segment that fits into a packet of the tunnel: 60 bytes are headers.
pub open spec fn segment_of(mtu: int) -> int {
    if mtu < 60 {
        0
    } else {
        mtu - 60
    }
}

/// The largest segment that fits into a packet of the tunnel.
pub fn segment_size(mtu: u16) -> (size: u16)
    ensures
        size == segment_of(mtu as int),
{
    if mtu < 60 {
        0
    } else {
        mtu - 60
    }
}

// ---------------------------------------------------------------------------------------------
// Validating the pairing over one of the addresses.
// ---------------------------------------------------------------------------------------------

/// The steps by which a pairing is validated over one address, in their order.
#[derive(Debug, Clone, Copy, PartialEq, Eq, Structural)]
pub enum WalkStep {
    /// The address is connected to.
    Connect,
    /// A verification is attempted.
    Attempt,
    /// The pairing is validated.
    Validate,
}

/// Where the validation stands: at a step over one of the addresses, by its position.
#[derive(Debug, Clone, Copy, PartialEq, Eq, Structural)]
pub struct ValidationWalk {
    pub target: usize,
    pub step: WalkStep,
}

/// What comes after a step.
#[derive(Debug, Clone, Copy, PartialEq, Eq, Structural)]
pub enum WalkTurn {
    /// The validation goes on.
    Next(ValidationWalk),
    /// The pairing is validated over this address.
    Validated(usize),
    /// It is not over any address.
    Failed(RsdProbeFailure),
}

/// The beginning of a validation over so many addresses.
pub open spec fn walk_beginning(count: nat) -> WalkTurn {
    if count == 0 {
        WalkTurn::Failed(stages::sessionless(RsdProbeStage::ValidatePairing))
    } else {
        WalkTurn::Next(ValidationWalk { target: 0, step: WalkStep::Connect })
    }
}

impl ValidationWalk {
    /// The beginning of a validation over so many addresses.
    pub fn begin(count: usize) -> (turn: WalkTurn)
        ensures
            turn == walk_beginning(count as nat),
    {
        if count == 0 {
            WalkTurn::Failed(stages::probe_failure(RsdProbeStage::ValidatePairing))
        } else {
            WalkTurn::Next(ValidationWalk { target: 0, step: WalkStep::Connect })
        }
    }

    /// What comes after the step: a step that fails gives its address up.
    pub open spec fn turn(self, count: nat, succeeded: bool) -> WalkTurn {
        if succeeded {
            match self.step {
                WalkStep::Connect => WalkTurn::Next(
                    ValidationWalk { step: WalkStep::Attempt, ..self },
                ),
                WalkStep::Attempt => WalkTurn::Next(
                    ValidationWalk { step: WalkStep::Validate, ..self },
                ),
                WalkStep::Validate => WalkTurn::Validated(self.target),
            }
        } else if self.target + 1 < count {
            WalkTurn::Next(
                ValidationWalk { target: (self.target + 1) as usize, step: WalkStep::Connect },
            )
        } else {
            WalkTurn::Failed(stages::sessionless(RsdProbeStage::ValidatePairing))
        }
    }

    /// What comes after the step.
    pub fn advance(self, count: usize, succeeded: bool) -> (turn: WalkTurn)
        ensures
            turn == self.turn(count as nat, succeeded),
    {
        if succeeded {
            match self.step {
                WalkStep::Connect => WalkTurn::Next(
                    ValidationWalk { target: self.target, step: WalkStep::Attempt },
                ),
                WalkStep::Attempt => WalkTurn::Next(
                    ValidationWalk { target: self.target, step: WalkStep::Validate },
                ),
                WalkStep::Validate => WalkTurn::Validated(self.target),
            }
        } else if count > 0 && self.target < count - 1 {
            WalkTurn::Next(ValidationWalk { target: self.target + 1, step: WalkStep::Connect })
        } else {
            WalkTurn::Failed(stages::probe_failure(RsdProbeStage::ValidatePairing))
        }
    }
}

/// Where a validation over so many addresses stands after some steps.
pub open spec fn walk_after(count: nat, outcomes: Seq<bool>) -> WalkTurn
    decreases outcomes.len(),
{
    if outcomes.len() == 0 {
        walk_beginning(count)
    } else {
        match walk_after(count, outcomes.drop_last()) {
            WalkTurn::Next(walk) => walk.turn(count, outcomes.last()),
            turn => turn,
        }
    }
}

/// A pairing is validated only over one of the addresses, and only where its validation was the
/// last step to succeed, right after a connection and an attempt.
pub proof fn validated_pairings_took_every_step(count: nat, outcomes: Seq<bool>)
    requires
        count <= usize::MAX,
    ensures
        walk_after(count, outcomes) matches WalkTurn::Next(walk) ==> {
            &&& walk.target < count
            &&& walk.step == WalkStep::Attempt ==> outcomes.len() >= 1 && outcomes.last()
            &&& walk.step == WalkStep::Validate ==> outcomes.len() >= 2 && outcomes.last()
                && outcomes[outcomes.len() - 2]
        },
        walk_after(count, outcomes) matches WalkTurn::Validated(target) ==> target < count
            && exists|end: int| #[trigger] three_in_a_row(outcomes, end),
    decreases outcomes.len(),
{
    if outcomes.len() > 0 {
        let before = outcomes.drop_last();
        validated_pairings_took_every_step(count, before);
        match walk_after(count, before) {
            WalkTurn::Validated(_) => {
                let end = choose|end: int| #[trigger] three_in_a_row(before, end);
                assert(three_in_a_row(outcomes, end));
            },
            WalkTurn::Next(walk) => {
                if walk.step == WalkStep::Validate && outcomes.last() {
                    assert(three_in_a_row(outcomes, outcomes.len() as int));
                }
            },
            _ => {},
        }
    }
}

/// Three steps in a row succeeded, the last of them right before position `end`.
pub open spec fn three_in_a_row(outcomes: Seq<bool>, end: int) -> bool {
    3 <= end <= outcomes.len() && outcomes[end - 3] && outcomes[end - 2] && outcomes[end - 1]
}

// ---------------------------------------------------------------------------------------------
// The service directory.
// ---------------------------------------------------------------------------------------------

/// A service that the directory names.
#[derive(Debug)]
pub struct DirectoryService {
    pub name: String,
    pub port: u16,
}

/// A service of the given name is in the directory.
pub open spec fn offers(services: Seq<DirectoryService>, name: Seq<char>) -> bool {
    exists|i: int| 0 <= i < services.len() && (#[trigger] services[i]).name@ == name
}

/// The port of the first service of the given name.
pub open spec fn port_of(services: Seq<DirectoryService>, name: Seq<char>) -> Option<u16>
    decreases services.len(),
{
    if services.len() == 0 {
        None
    } else if services[0].name@ == name {
        Some(services[0].port)
    } else {
        port_of(services.skip(1), name)
    }
}

proof fn offered_services_have_ports(services: Seq<DirectoryService>, name: Seq<char>)
    ensures
        port_of(services, name) is Some == offers(services, name),
    decreases services.len(),
{
    if services.len() > 0 && services[0].name@ != name {
        let rest = services.skip(1);
        offered_services_have_ports(rest, name);
        if offers(services, name) {
            let i = choose|i: int| 0 <= i < services.len() && (#[trigger] services[i]).name@ == name;
            assert(rest[i - 1] == services[i]);
        }
        if offers(rest, name) {
            let i = choose|i: int| 0 <= i < rest.len() && (#[trigger] rest[i]).name@ == name;
            assert(services[i + 1] == rest[i]);
        }
    }
}

/// The port of the service of the given name.
pub fn service_port(services: &Vec<DirectoryService>, name: &str) -> (port: Option<u16>)
    ensures
        port == port_of(services@, name@),
        port is Some == offers(services@, name@),
{
    proof {
        offered_services_have_ports(services@, name@);
        assert(services@.skip(0) == services@);
    }
    let mut i: usize = 0;
    while i < services.len()
        invariant
            i <= services.len(),
            port_of(services@, name@) == port_of(services@.skip(i as int), name@),
            port_of(services@, name@) is Some == offers(services@, name@),
        decreases services.len() - i,
    {
        if text::same_text(services[i].name.as_str(), name) {
            return Some(services[i].port);
        }
        proof {
            assert(services@.skip(i as int).skip(1) == services@.skip(i + 1));
        }
        i = i + 1;
    }
    None
}

/// The port of the service of the given name, where it is one.
pub open spec fn usable_port(services: Seq<DirectoryService>, name: Seq<char>) -> Option<u16> {
    match port_of(services, name) {
        Some(port) => if port != 0 {
            Some(port)
        } else {
            None
        },
        None => None,
    }
}

/// The port of the service of the given name, where it is one.
pub fn exact_rsd_service_port(services: &Vec<DirectoryService>, name: &str) -> (port: Option<u16>)
    ensures
        port == usable_port(services@, name@),
{
    match service_port(services, name) {
        Some(port) => if port != 0 {
            Some(port)
        } else {
            None
        },
        None => None,
    }
}

/// Which of six services the directory names.
#[derive(Debug, Clone, Copy, PartialEq, Eq, Structural)]
pub struct ParsedRsdServiceSummary {
    pub parsed_appservice_present: bool,
    pub parsed_deviceinfo_present: bool,
    pub parsed_untrusted_tunnelservice_present: bool,
    pub parsed_image_mounter_present: bool,
    pub parsed_installation_proxy_present: bool,
    pub parsed_afc_present: bool,
}

fn is_offered(services: &Vec<DirectoryService>, name: &str) -> (found: bool)
    ensures
        found == offers(services@, name@),
{
    match service_port(services, name) {
        Some(_) => true,
        None => false,
    }
}

/// Which of six services the directory names.
pub fn parsed_rsd_service_summary(services: &Vec<DirectoryService>) -> (summary:
    ParsedRsdServiceSummary)
    ensures
        summary == (ParsedRsdServiceSummary {
            parsed_appservice_present: offers(services@, CORE_DEVICE_APP_SERVICE_NAME@),
            parsed_deviceinfo_present: offers(services@, CORE_DEVICE_INFO_SERVICE_NAME@),
            parsed_untrusted_tunnelservice_present: offers(services@, TUNNEL_SERVICE_NAME@),
            parsed_image_mounter_present: offers(services@, MOBILE_IMAGE_MOUNTER_SERVICE_NAME@),
            parsed_installation_proxy_present: offers(services@, INSTALLATION_PROXY_SERVICE_NAME@),
            parsed_afc_present: offers(services@, AFC_SERVICE_NAME@),
        }),
{
    ParsedRsdServiceSummary {
        parsed_appservice_present: is_offered(services, CORE_DEVICE_APP_SERVICE_NAME),
        parsed_deviceinfo_present: is_offered(services, CORE_DEVICE_INFO_SERVICE_NAME),
        parsed_untrusted_tunnelservice_present: is_offered(services, TUNNEL_SERVICE_NAME),
        parsed_image_mounter_present: is_offered(services, MOBILE_IMAGE_MOUNTER_SERVICE_NAME),
        parsed_installation_proxy_present: is_offered(services, INSTALLATION_PROXY_SERVICE_NAME),
        parsed_afc_present: is_offered(services, AFC_SERVICE_NAME),
    }
}

// ---------------------------------------------------------------------------------------------
// The probe of the core device service.
// ---------------------------------------------------------------------------------------------

/// The failure of an operation on the core device service.
#[derive(Debug, Clone, Copy, PartialEq, Eq)]
pub struct CoreDeviceServiceFailure {
    pub operation: CoreDeviceServiceOperation,
    /// Whether the service was missing, took too long or went wrong.
    pub result: &'static str,
    pub error_kind: &'static str,
    /// Whether the directory names the service.
    pub appservice_present: bool,
}

/// The failure where the directory does not name the service.
pub open spec fn missing() -> CoreDeviceServiceFailure {
    CoreDeviceServiceFailure {
        operation: CoreDeviceServiceOperation::ServiceLookup,
        result: "missing",
        error_kind: "service_not_found",
        appservice_present: false,
    }
}

impl CoreDeviceServiceFailure {
    /// The failure where the directory does not name the service.
    pub fn missing_service() -> (failure: Self)
        ensures
            failure == missing(),
    {
        CoreDeviceServiceFailure {
            operation: CoreDeviceServiceOperation::ServiceLookup,
            result: "missing",
            error_kind: "service_not_found",
            appservice_present: false,
        }
    }

    /// The failure of an operation that took too long.
    pub fn timeout(operation: CoreDeviceServiceOperation, appservice_present: bool) -> (failure:
        Self)
        ensures
            failure == (CoreDeviceServiceFailure {
                operation,
                result: "timeout",
                error_kind: "timeout",
                appservice_present,
            }),
    {
        CoreDeviceServiceFailure {
            operation,
            result: "timeout",
            error_kind: "timeout",
            appservice_present,
        }
    }

    /// The failure of an operation on a fault of the device.
    pub fn from_error(
        operation: CoreDeviceServiceOperation,
        appservice_present: bool,
        fault: DeviceFault,
    ) -> (failure: Self)
        ensures
            failure == (CoreDeviceServiceFailure {
                operation,
                result: "error",
                error_kind: fault.core_device_text(),
                appservice_present,
            }),
    {
        CoreDeviceServiceFailure {
            operation,
            result: "error",
            error_kind: fault.core_device_kind(),
            appservice_present,
        }
    }
}

/// The port of the core device service.
pub fn core_device_appservice_port(services: &Vec<DirectoryService>) -> (port: Result<
    u16,
    CoreDeviceServiceFailure,
>)
    ensures
        port == match port_of(services@, CORE_DEVICE_APP_SERVICE_NAME@) {
            Some(port) => Ok::<u16, CoreDeviceServiceFailure>(port),
            None => Err::<u16, CoreDeviceServiceFailure>(missing()),
        },
{
    match service_port(services, CORE_DEVICE_APP_SERVICE_NAME) {
        Some(port) => Ok(port),
        None => Err(CoreDeviceServiceFailure::missing_service()),
    }
}

/// What comes after an operation on the core device service.
#[derive(Debug, Clone, Copy, PartialEq, Eq)]
pub enum CoreDeviceTurn {
    Next(CoreDeviceServiceOperation),
    Answered,
    Failed(CoreDeviceServiceFailure),
}

impl CoreDeviceServiceOperation {
    /// What comes after the operation. The lookup fails only where the service is missing.
    pub open spec fn turn(self, outcome: CallOutcome) -> CoreDeviceTurn {
        match outcome {
            CallOutcome::Completed => match self {
                CoreDeviceServiceOperation::ServiceLookup => CoreDeviceTurn::Next(
                    CoreDeviceServiceOperation::ServiceConnect,
                ),
                CoreDeviceServiceOperation::ServiceConnect => CoreDeviceTurn::Next(
                    CoreDeviceServiceOperation::ClientInit,
                ),
                CoreDeviceServiceOperation::ClientInit => CoreDeviceTurn::Next(
                    CoreDeviceServiceOperation::ListApps,
                ),
                CoreDeviceServiceOperation::ListApps => CoreDeviceTurn::Answered,
            },
            _ => CoreDeviceTurn::Failed(
                match (self, outcome) {
                    (CoreDeviceServiceOperation::ServiceLookup, _) => missing(),
                    (_, CallOutcome::Faulted(fault)) => CoreDeviceServiceFailure {
                        operation: self,
                        result: "error",
                        error_kind: fault.core_device_text(),
                        appservice_present: true,
                    },
                    _ => CoreDeviceServiceFailure {
                        operation: self,
                        result: "timeout",
                        error_kind: "timeout",
                        appservice_present: true,
                    },
                },
            ),
        }
    }

    /// What comes after the operation.
    pub fn advance(self, outcome: CallOutcome) -> (turn: CoreDeviceTurn)
        ensures
            turn == self.turn(outcome),
    {
        match outcome {
            CallOutcome::Completed => match self {
                CoreDeviceServiceOperation::ServiceLookup => CoreDeviceTurn::Next(
                    CoreDeviceServiceOperation::ServiceConnect,
                ),
                CoreDeviceServiceOperation::ServiceConnect => CoreDeviceTurn::Next(
                    CoreDeviceServiceOperation::ClientInit,
                ),
                CoreDeviceServiceOperation::ClientInit => CoreDeviceTurn::Next(
                    CoreDeviceServiceOperation::ListApps,
                ),
                CoreDeviceServiceOperation::ListApps => CoreDeviceTurn::Answered,
            },
            CallOutcome::Faulted(fault) => CoreDeviceTurn::Failed(
                match self {
                    CoreDeviceServiceOperation::ServiceLookup =>
                    CoreDeviceServiceFailure::missing_service(),
                    _ => CoreDeviceServiceFailure::from_error(self, true, fault),
                },
            ),
            CallOutcome::TimedOut => CoreDeviceTurn::Failed(
                match self {
                    CoreDeviceServiceOperation::ServiceLookup =>
                    CoreDeviceServiceFailure::missing_service(),
                    _ => CoreDeviceServiceFailure::timeout(self, true),
                },
            ),
        }
    }
}

/// The failure of the probe, whichever operation has failed.
pub fn core_device_probe_failure() -> (failure: RsdProbeFailure)
    ensures
        failure == stages::sessionless(RsdProbeStage::CoreDeviceService),
{
    stages::probe_failure(RsdProbeStage::CoreDeviceService)
}

// ---------------------------------------------------------------------------------------------
// The identity of the device.
// ---------------------------------------------------------------------------------------------

/// The steps by which a device is identified, in their order.
#[derive(Debug, Clone, Copy, PartialEq, Eq, Structural)]
pub enum IdentityStep {
    /// The lockdown service is looked up.
    Lookup,
    /// The service is connected to.
    Connect,
    /// The client is set up.
    Init,
    /// The identifier of the device is read.
    ReadIdentity,
    /// The name of the device is read.
    ReadName,
}

impl IdentityStep {
    /// Why the device is not identified where the step fails.
    pub open spec fn failing(self) -> RsdIdentityFailure {
        match self {
            IdentityStep::Lookup => RsdIdentityFailure::ServiceLookup,
            IdentityStep::Connect => RsdIdentityFailure::ServiceConnect,
            IdentityStep::Init => RsdIdentityFailure::ClientInit,
            IdentityStep::ReadIdentity => RsdIdentityFailure::LockdownIdentity,
            IdentityStep::ReadName => RsdIdentityFailure::DeviceName,
        }
    }

    /// Why the device is not identified where the step fails.
    pub fn failure(self) -> (failure: RsdIdentityFailure)
        ensures
            failure == self.failing(),
    {
        match self {
            IdentityStep::Lookup => RsdIdentityFailure::ServiceLookup,
            IdentityStep::Connect => RsdIdentityFailure::ServiceConnect,
            IdentityStep::Init => RsdIdentityFailure::ClientInit,
            IdentityStep::ReadIdentity => RsdIdentityFailure::LockdownIdentity,
            IdentityStep::ReadName => RsdIdentityFailure::DeviceName,
        }
    }
}

impl IdentityStep {
    /// The step behind it.
    pub open spec fn follower(self) -> Option<IdentityStep> {
        match self {
            IdentityStep::Lookup => Some(IdentityStep::Connect),
            IdentityStep::Connect => Some(IdentityStep::Init),
            IdentityStep::Init => Some(IdentityStep::ReadIdentity),
            IdentityStep::ReadIdentity => Some(IdentityStep::ReadName),
            IdentityStep::ReadName => None,
        }
    }

    /// The step behind it.
    pub fn next(self) -> (step: Option<IdentityStep>)
        ensures
            step == self.follower(),
    {
        match self {
            IdentityStep::Lookup => Some(IdentityStep::Connect),
            IdentityStep::Connect => Some(IdentityStep::Init),
            IdentityStep::Init => Some(IdentityStep::ReadIdentity),
            IdentityStep::ReadIdentity => Some(IdentityStep::ReadName),
            IdentityStep::ReadName => None,
        }
    }
}

/// What comes after a step.
#[derive(Debug, Clone, Copy, PartialEq, Eq, Structural)]
pub enum IdentityTurn {
    /// The next step is to be taken.
    Next(IdentityStep),
    /// What was read is to be validated.
    Validate,
    /// The device is not identified.
    Failed(RsdIdentityFailure),
}

impl IdentityStep {
    /// What comes after the step.
    pub open spec fn turn(self, succeeded: bool) -> IdentityTurn {
        if !succeeded {
            IdentityTurn::Failed(self.failing())
        } else {
            match self.follower() {
                Some(step) => IdentityTurn::Next(step),
                None => IdentityTurn::Validate,
            }
        }
    }

    /// What comes after the step.
    pub fn advance(self, succeeded: bool) -> (turn: IdentityTurn)
        ensures
            turn == self.turn(succeeded),
    {
        if !succeeded {
            return IdentityTurn::Failed(self.failure());
        }
        match self.next() {
            Some(step) => IdentityTurn::Next(step),
            None => IdentityTurn::Validate,
        }
    }
}

/// A text that identifies a device: present, not blank and not too long.
pub open spec fn identifies(value: Option<Seq<char>>) -> bool {
    value is Some && signing::is_identity_text(value->0)
}

fn is_identifying(value: Option<&str>) -> (result: bool)
    ensures
        result == identifies(text::str_view(value)),
{
    match value {
        Some(value) => !text::trim(value).is_empty() && value.as_bytes().len()
            <= signing::MAX_IDENTITY_BYTES,
        None => false,
    }
}

/// Why the device behind a session is not identified.
pub open spec fn identity_failure(
    handshake: Option<Seq<char>>,
    lockdown: Option<Seq<char>>,
    name: Option<Seq<char>>,
) -> Option<RsdIdentityFailure> {
    if !identifies(handshake) {
        Some(RsdIdentityFailure::HandshakeIdentity)
    } else if !identifies(lockdown) {
        Some(RsdIdentityFailure::LockdownIdentity)
    } else if handshake->0 != lockdown->0 {
        Some(RsdIdentityFailure::IdentityMismatch)
    } else if !identifies(name) {
        Some(RsdIdentityFailure::DeviceName)
    } else {
        None
    }
}

/// The identity of the device behind a session: the identifier that the handshake and the lockdown
/// service both give, and the name that the lockdown service gives. A value that is no text is
/// none.
pub fn validate_rsd_identity(
    handshake_identity: Option<&str>,
    lockdown_identity: Option<&str>,
    device_name: Option<&str>,
) -> (identity: Result<SigningDeviceIdentity, RsdIdentityFailure>)
    ensures
        match identity {
            Ok(identity) => {
                &&& identifies(text::str_view(handshake_identity))
                &&& identifies(text::str_view(lockdown_identity))
                &&& identifies(text::str_view(device_name))
                &&& identity.udid@ == handshake_identity->0@
                &&& identity.udid@ == lockdown_identity->0@
                &&& identity.name@ == device_name->0@
            },
            Err(failure) => identity_failure(
                text::str_view(handshake_identity),
                text::str_view(lockdown_identity),
                text::str_view(device_name),
            ) == Some(failure),
        },
        identity is Ok == identity_failure(
            text::str_view(handshake_identity),
            text::str_view(lockdown_identity),
            text::str_view(device_name),
        ) is None,
{
    let handshake_identity: &str = match handshake_identity {
        Some(value) if is_identifying(Some(value)) => value,
        _ => {
            return Err(RsdIdentityFailure::HandshakeIdentity);
        },
    };
    let lockdown_identity: &str = match lockdown_identity {
        Some(value) if is_identifying(Some(value)) => value,
        _ => {
            return Err(RsdIdentityFailure::LockdownIdentity);
        },
    };
    if !text::same_text(handshake_identity, lockdown_identity) {
        return Err(RsdIdentityFailure::IdentityMismatch);
    }
    let device_name: &str = match device_name {
        Some(value) if is_identifying(Some(value)) => value,
        _ => {
            return Err(RsdIdentityFailure::DeviceName);
        },
    };
    match SigningDeviceIdentity::new(device_name.to_owned(), lockdown_identity.to_owned()) {
        Ok(identity) => Ok(identity),
        Err(_) => Err(RsdIdentityFailure::DeviceName),
    }
}

/// Two identities of the same device under the same name.
pub open spec fn same_identity(a: SigningDeviceIdentity, b: SigningDeviceIdentity) -> bool {
    a.name@ == b.name@ && a.udid@ == b.udid@
}

/// Whether two identities are the same.
pub fn is_same_identity(a: &SigningDeviceIdentity, b: &SigningDeviceIdentity) -> (same: bool)
    ensures
        same == same_identity(*a, *b),
{
    text::same_text(a.name.as_str(), b.name.as_str()) && text::same_text(
        a.udid.as_str(),
        b.udid.as_str(),
    )
}

/// The steps of a session, in their order.
pub open spec fn open_steps() -> Seq<OpenStep> {
    seq![
        OpenStep::Material,
        OpenStep::Peer,
        OpenStep::Key,
        OpenStep::Discover,
        OpenStep::Validate,
        OpenStep::Listener,
        OpenStep::ListenerConnect,
        OpenStep::TunnelOpen,
        OpenStep::TunnelInspect,
        OpenStep::DirectoryConnect,
        OpenStep::Handshake,
    ]
}

proof fn lemma_steps_succeed(outcomes: Seq<bool>)
    requires
        outcomes.len() <= 11,
        forall|i: int| 0 <= i < outcomes.len() ==> outcomes[i],
    ensures
        outcomes.len() < 11 ==> session_after(outcomes) == OpenTurn::Next(
            open_steps()[outcomes.len() as int],
        ),
        outcomes.len() == 11 ==> session_after(outcomes) is Opened,
    decreases outcomes.len(),
{
    if outcomes.len() > 0 {
        lemma_steps_succeed(outcomes.drop_last());
    }
}

/// A session is open once its eleven steps succeeded.
pub proof fn eleven_steps_open_a_session(outcomes: Seq<bool>)
    requires
        outcomes.len() == 11,
        forall|i: int| 0 <= i < 11 ==> outcomes[i],
    ensures
        session_after(outcomes) is Opened,
{
    lemma_steps_succeed(outcomes);
}

/// A session fails at the first step that does, and tells its stage: discovery for the first four,
/// then the validation of the pairing, then the tunnel for four, and the handshake for the last
/// two, before which the tunnel has to be closed.
pub proof fn sessions_fail_at_the_first_step_that_does(outcomes: Seq<bool>, closed: bool)
    requires
        0 < outcomes.len() <= 11,
        forall|i: int| 0 <= i < outcomes.len() - 1 ==> outcomes[i],
        !outcomes.last(),
    ensures
        outcomes.len() <= 9 ==> session_after(outcomes) is Failed && session_after(
            outcomes,
        )->Failed_0.session_cleanup is NotNeeded,
        outcomes.len() <= 4 ==> session_after(outcomes)->Failed_0.stage.text()@ == "discovery"@,
        outcomes.len() == 5 ==> session_after(outcomes)->Failed_0.stage.text()@
            == "validatePairing"@,
        6 <= outcomes.len() <= 9 ==> session_after(outcomes)->Failed_0.stage.text()@ == "tunnel"@,
        10 <= outcomes.len() ==> session_after(outcomes) is Close,
        abandoned(closed).stage.text()@ == "rsdHandshake"@,
        abandoned(closed).session_cleanup is Succeeded <==> closed,
        abandoned(closed).session_cleanup is Failed <==> !closed,
{
    lemma_steps_succeed(outcomes.drop_last());
}

/// While a step is taken the session stands at the stage that fails with it.
pub proof fn sessions_stand_where_they_fail(step: OpenStep)
    ensures
        step.progress().text()@ == step.failing().text()@,
        step.progress() == step.failing().read_only_stage(),
{
}

/// A pairing is validated over the address at which a connection, an attempt and the validation
/// succeed one after the other. A step that fails gives the address up for the next, and behind the
/// last the pairing is not valid. Without an address it is not either.
pub proof fn addresses_are_tried_in_turn(count: nat, target: usize, step: WalkStep)
    requires
        target < count <= usize::MAX,
    ensures
        walk_beginning(count) == WalkTurn::Next(
            ValidationWalk { target: 0, step: WalkStep::Connect },
        ),
        (ValidationWalk { target, step: WalkStep::Connect }).turn(count, true) == WalkTurn::Next(
            ValidationWalk { target, step: WalkStep::Attempt },
        ),
        (ValidationWalk { target, step: WalkStep::Attempt }).turn(count, true) == WalkTurn::Next(
            ValidationWalk { target, step: WalkStep::Validate },
        ),
        (ValidationWalk { target, step: WalkStep::Validate }).turn(count, true)
            == WalkTurn::Validated(target),
        target + 1 < count ==> (ValidationWalk { target, step }).turn(count, false)
            == WalkTurn::Next(
            ValidationWalk { target: (target + 1) as usize, step: WalkStep::Connect },
        ),
        target + 1 == count ==> {
            let turn = (ValidationWalk { target, step }).turn(count, false);
            &&& turn is Failed
            &&& turn->Failed_0.stage.text()@ == "validatePairing"@
            &&& turn->Failed_0.session_cleanup is NotNeeded
        },
        walk_beginning(0) is Failed,
        walk_beginning(0)->Failed_0.stage.text()@ == "validatePairing"@,
{
}

/// The first service of a name gives the port, whatever other services are named and whatever
/// stands behind it. A port of zero is none.
pub proof fn the_first_service_gives_the_port(
    front: Seq<DirectoryService>,
    service: DirectoryService,
    back: Seq<DirectoryService>,
)
    requires
        forall|i: int| 0 <= i < front.len() ==> (#[trigger] front[i]).name@ != service.name@,
    ensures
        port_of(front + seq![service] + back, service.name@) == Some(service.port),
        offers(front + seq![service] + back, service.name@),
        service.port > 0 ==> usable_port(front + seq![service] + back, service.name@) == Some(
            service.port,
        ),
        service.port == 0 ==> usable_port(front + seq![service] + back, service.name@) is None,
        port_of(front, service.name@) is None,
        usable_port(front, service.name@) is None,
        !offers(front, service.name@),
    decreases front.len(),
{
    let all = front + seq![service] + back;
    assert(all[front.len() as int] == service);
    if front.len() > 0 {
        assert(all[0] == front[0]);
        assert(all.skip(1) =~= front.skip(1) + seq![service] + back);
        assert forall|i: int| 0 <= i < front.skip(1).len() implies (
        #[trigger] front.skip(1)[i]).name@ != service.name@ by {
            assert(front.skip(1)[i] == front[i + 1]);
        }
        the_first_service_gives_the_port(front.skip(1), service, back);
    }
}

/// The names of the services that are looked for.
pub proof fn services_are_known_by_their_names()
    ensures
        TUNNEL_SERVICE_NAME@ == "com.apple.internal.dt.coredevice.untrusted.tunnelservice"@,
        CORE_DEVICE_APP_SERVICE_NAME@ == "com.apple.coredevice.appservice"@,
        CORE_DEVICE_INFO_SERVICE_NAME@ == "com.apple.coredevice.deviceinfo"@,
        MOBILE_IMAGE_MOUNTER_SERVICE_NAME@ == "com.apple.mobile.mobile_image_mounter.shim.remote"@,
        INSTALLATION_PROXY_SERVICE_NAME@ == "com.apple.mobile.installation_proxy.shim.remote"@,
        AFC_SERVICE_NAME@ == "com.apple.afc.shim.remote"@,
        LOCKDOWN_REMOTE_TRUSTED_SERVICE_NAME@ == "com.apple.mobile.lockdown.remote.trusted"@,
{
}

/// The core device service answers after it was looked up, connected to, set up and asked, in this
/// order.
pub proof fn core_device_operations_are_in_order(operation: CoreDeviceServiceOperation)
    ensures
        CoreDeviceServiceOperation::ServiceLookup.turn(CallOutcome::Completed)
            == CoreDeviceTurn::Next(CoreDeviceServiceOperation::ServiceConnect),
        CoreDeviceServiceOperation::ServiceConnect.turn(CallOutcome::Completed)
            == CoreDeviceTurn::Next(CoreDeviceServiceOperation::ClientInit),
        CoreDeviceServiceOperation::ClientInit.turn(CallOutcome::Completed) == CoreDeviceTurn::Next(
            CoreDeviceServiceOperation::ListApps,
        ),
        operation.turn(CallOutcome::Completed) is Answered <==> operation is ListApps,
{
}

/// An operation of the core device service that fails is told with its name and why: the service
/// was missing, the device failed, or the time ran out.
pub proof fn core_device_failures_are_told(
    operation: CoreDeviceServiceOperation,
    fault: DeviceFault,
    outcome: CallOutcome,
)
    ensures
        !(outcome is Completed) && operation is ServiceLookup ==> {
            let turn = operation.turn(outcome);
            &&& turn is Failed
            &&& turn->Failed_0.operation is ServiceLookup
            &&& turn->Failed_0.result@ == "missing"@
            &&& turn->Failed_0.error_kind@ == "service_not_found"@
            &&& !turn->Failed_0.appservice_present
        },
        !(operation is ServiceLookup) ==> {
            let turn = operation.turn(CallOutcome::Faulted(fault));
            &&& turn is Failed
            &&& turn->Failed_0.operation == operation
            &&& turn->Failed_0.result@ == "error"@
            &&& turn->Failed_0.error_kind@ == fault.core_device_text()@
            &&& turn->Failed_0.appservice_present
        },
        !(operation is ServiceLookup) ==> {
            let turn = operation.turn(CallOutcome::TimedOut);
            &&& turn is Failed
            &&& turn->Failed_0.operation == operation
            &&& turn->Failed_0.result@ == "timeout"@
            &&& turn->Failed_0.error_kind@ == "timeout"@
            &&& turn->Failed_0.appservice_present
        },
{
}

/// A device is identified after its lockdown service was looked up, connected to and set up, and its
/// identifier and its name were read; the first step that fails is the reason why it is not.
pub proof fn devices_are_identified_in_order(step: IdentityStep)
    ensures
        IdentityStep::Lookup.turn(true) == IdentityTurn::Next(IdentityStep::Connect),
        IdentityStep::Connect.turn(true) == IdentityTurn::Next(IdentityStep::Init),
        IdentityStep::Init.turn(true) == IdentityTurn::Next(IdentityStep::ReadIdentity),
        IdentityStep::ReadIdentity.turn(true) == IdentityTurn::Next(IdentityStep::ReadName),
        step.turn(true) is Validate <==> step is ReadName,
        step.turn(false) is Failed,
        step is Lookup ==> step.turn(false)->Failed_0.text()@ == "lockdown_service_lookup"@,
        step is Connect ==> step.turn(false)->Failed_0.text()@ == "lockdown_service_connect"@,
        step is Init ==> step.turn(false)->Failed_0.text()@ == "lockdown_client_init"@,
        step is ReadIdentity ==> step.turn(false)->Failed_0.text()@ == "lockdown_identity"@,
        step is ReadName ==> step.turn(false)->Failed_0.text()@ == "device_name"@,
{
}

/// Identities are the same where both the name and the UDID are.
pub proof fn names_and_udids_make_an_identity(a: SigningDeviceIdentity, b: SigningDeviceIdentity)
    ensures
        same_identity(a, a),
        a.name@ != b.name@ ==> !same_identity(a, b),
        a.udid@ != b.udid@ ==> !same_identity(a, b),
        a.name@ == b.name@ && a.udid@ == b.udid@ ==> same_identity(a, b),
{
}

/// A text identifies a device where it is there, not blank, and has no more than 256 bytes.
pub proof fn short_texts_identify(value: Seq<char>)
    ensures
        identifies(Some(value)) <==> text::trimmed(value).len() > 0 && encode_utf8(value).len()
            <= 256,
        !identifies(None),
{
}

/// A packet is a segment and 60 bytes of headers, where there is room for them.
pub proof fn packets_are_segments_with_headers(mtu: int)
    ensures
        mtu >= 60 ==> segment_of(mtu) + 60 == mtu,
        mtu < 60 ==> segment_of(mtu) == 0,
{
}

/// A device is identified exactly where the handshake and the lockdown service name the same device
/// and it has a name; what fails first is told.
pub proof fn both_names_identify_a_device(udid: Seq<char>, other: Seq<char>, name: Seq<char>)
    requires
        identifies(Some(udid)),
        identifies(Some(other)),
        identifies(Some(name)),
    ensures
        identity_failure(Some(udid), Some(udid), Some(name)) is None,
        udid != other ==> identity_failure(Some(udid), Some(other), Some(name)) == Some(
            RsdIdentityFailure::IdentityMismatch,
        ),
        identity_failure(None, Some(udid), Some(name)) == Some(
            RsdIdentityFailure::HandshakeIdentity,
        ),
        identity_failure(Some(udid), None, Some(name)) == Some(
            RsdIdentityFailure::LockdownIdentity,
        ),
        identity_failure(Some(udid), Some(udid), None) == Some(RsdIdentityFailure::DeviceName),
{
}

} // verus!
