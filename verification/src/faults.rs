//! The faults of connections and of a device's services, and the kinds under which they are
//! reported. A kind never carries text that came from the device.
use vstd::prelude::*;

verus! {

/// A fault of a connection.
#[derive(Debug, Clone, Copy, PartialEq, Eq, Structural)]
pub enum IoFault {
    /// The other side refused the connection.
    ConnectionRefused,
    /// The other side reset the connection.
    ConnectionReset,
    /// The connection was aborted.
    ConnectionAborted,
    /// There was no connection.
    NotConnected,
    /// The address is not available.
    AddressNotAvailable,
    /// The operation timed out.
    TimedOut,
    /// A parameter was invalid.
    InvalidInput,
    /// The connection was closed for writing.
    BrokenPipe,
    /// The network is unreachable.
    NetworkUnreachable,
    /// Any other fault.
    Other,
}

impl IoFault {
    /// The kind of the fault.
    pub open spec fn text(self) -> &'static str {
        match self {
            IoFault::ConnectionRefused => "connection_refused",
            IoFault::ConnectionReset => "connection_reset",
            IoFault::ConnectionAborted => "connection_aborted",
            IoFault::NotConnected => "not_connected",
            IoFault::AddressNotAvailable => "address_not_available",
            IoFault::TimedOut => "timed_out",
            IoFault::InvalidInput => "invalid_input",
            IoFault::BrokenPipe => "other",
            IoFault::NetworkUnreachable => "other",
            IoFault::Other => "other",
        }
    }

    /// The kind of the fault.
    pub fn kind(self) -> (text: &'static str)
        ensures
            text == self.text(),
    {
        match self {
            IoFault::ConnectionRefused => "connection_refused",
            IoFault::ConnectionReset => "connection_reset",
            IoFault::ConnectionAborted => "connection_aborted",
            IoFault::NotConnected => "not_connected",
            IoFault::AddressNotAvailable => "address_not_available",
            IoFault::TimedOut => "timed_out",
            IoFault::InvalidInput => "invalid_input",
            IoFault::BrokenPipe => "other",
            IoFault::NetworkUnreachable => "other",
            IoFault::Other => "other",
        }
    }
}

/// A fault of the pairing protocol.
#[derive(Debug, Clone, Copy, PartialEq, Eq, Structural)]
pub enum PairingFault {
    /// An unknown component type.
    UnknownTlv,
    /// A malformed component.
    MalformedTlv,
    /// The device rejected the pairing.
    PairingRejected,
    /// A value is no base64.
    Base64Decode,
    /// The pairing could not be verified.
    PairVerifyFailed,
    /// The setup code was wrong.
    SrpAuthFailed,
    /// A message could not be sealed or opened.
    Encryption,
    /// Any other fault.
    Other,
}

impl PairingFault {
    /// The kind of the fault.
    pub open spec fn text(self) -> &'static str {
        match self {
            PairingFault::UnknownTlv => "remote_pairing_unknown_tlv",
            PairingFault::MalformedTlv => "remote_pairing_malformed_tlv",
            PairingFault::PairingRejected => "remote_pairing_rejected",
            PairingFault::Base64Decode => "remote_pairing_base64_decode",
            PairingFault::PairVerifyFailed => "remote_pairing_pair_verify_failed",
            PairingFault::SrpAuthFailed => "remote_pairing_srp_auth_failed",
            PairingFault::Encryption => "remote_pairing_encryption",
            PairingFault::Other => "remote_pairing_other",
        }
    }

    /// The kind of the fault.
    pub fn kind(self) -> (text: &'static str)
        ensures
            text == self.text(),
    {
        match self {
            PairingFault::UnknownTlv => "remote_pairing_unknown_tlv",
            PairingFault::MalformedTlv => "remote_pairing_malformed_tlv",
            PairingFault::PairingRejected => "remote_pairing_rejected",
            PairingFault::Base64Decode => "remote_pairing_base64_decode",
            PairingFault::PairVerifyFailed => "remote_pairing_pair_verify_failed",
            PairingFault::SrpAuthFailed => "remote_pairing_srp_auth_failed",
            PairingFault::Encryption => "remote_pairing_encryption",
            PairingFault::Other => "remote_pairing_other",
        }
    }
}

/// A fault of a service of the device.
#[derive(Debug, Clone, Copy, PartialEq, Eq, Structural)]
pub enum DeviceFault {
    /// The connection failed.
    Socket(IoFault),
    /// The device did not answer in time.
    Timeout,
    /// A property list could not be read or written.
    Plist,
    /// A text is no UTF-8.
    Utf8,
    /// An answer was too short.
    NotEnoughBytes,
    /// An answer was not the expected one.
    UnexpectedResponse,
    /// The client failed.
    InternalError,
    /// There is no session.
    SessionInactive,
    /// There is no connection.
    NoEstablishedConnection,
    /// The device does not offer the service.
    ServiceNotFound,
    /// The message protocol failed.
    Xpc,
    /// The core device service failed.
    CoreDevice,
    /// The pairing protocol failed; `subcode` is the number of its fault.
    RemotePairing { fault: PairingFault, subcode: i32 },
    /// The file service knows no such path.
    ObjectNotFound,
    /// The installation service refused the operation.
    OperationFailed,
    /// Any other fault.
    Other,
}

impl DeviceFault {
    /// The kind of the fault.
    pub open spec fn text(self) -> &'static str {
        match self {
            DeviceFault::Socket(_) => "socket",
            DeviceFault::Timeout => "timeout",
            DeviceFault::Plist => "plist",
            DeviceFault::Utf8 => "utf8",
            DeviceFault::NotEnoughBytes => "not_enough_bytes",
            DeviceFault::UnexpectedResponse => "unexpected_response",
            DeviceFault::InternalError => "internal_error",
            DeviceFault::SessionInactive => "session_inactive",
            DeviceFault::NoEstablishedConnection => "no_established_connection",
            DeviceFault::ServiceNotFound => "other",
            DeviceFault::Xpc => "other",
            DeviceFault::CoreDevice => "other",
            DeviceFault::RemotePairing { fault, .. } => fault.text(),
            DeviceFault::ObjectNotFound => "other",
            DeviceFault::OperationFailed => "other",
            DeviceFault::Other => "other",
        }
    }

    /// The kind of the fault.
    pub fn kind(self) -> (kind: &'static str)
        ensures
            kind == self.text(),
    {
        match self {
            DeviceFault::Socket(_) => "socket",
            DeviceFault::Timeout => "timeout",
            DeviceFault::Plist => "plist",
            DeviceFault::Utf8 => "utf8",
            DeviceFault::NotEnoughBytes => "not_enough_bytes",
            DeviceFault::UnexpectedResponse => "unexpected_response",
            DeviceFault::InternalError => "internal_error",
            DeviceFault::SessionInactive => "session_inactive",
            DeviceFault::NoEstablishedConnection => "no_established_connection",
            DeviceFault::ServiceNotFound => "other",
            DeviceFault::Xpc => "other",
            DeviceFault::CoreDevice => "other",
            DeviceFault::RemotePairing { fault, .. } => fault.kind(),
            DeviceFault::ObjectNotFound => "other",
            DeviceFault::OperationFailed => "other",
            DeviceFault::Other => "other",
        }
    }

    /// The kind of the fault where the core device service was asked, which tells more apart.
    pub open spec fn core_device_text(self) -> &'static str {
        match self {
            DeviceFault::Socket(fault) => fault.text(),
            DeviceFault::ServiceNotFound => "service_not_found",
            DeviceFault::Xpc => "xpc",
            DeviceFault::CoreDevice => "core_device",
            _ => self.text(),
        }
    }

    /// The kind of the fault where the core device service was asked, which tells more apart.
    pub fn core_device_kind(self) -> (kind: &'static str)
        ensures
            kind == self.core_device_text(),
    {
        match self {
            DeviceFault::Socket(fault) => fault.kind(),
            DeviceFault::ServiceNotFound => "service_not_found",
            DeviceFault::Xpc => "xpc",
            DeviceFault::CoreDevice => "core_device",
            _ => self.kind(),
        }
    }

    /// The number of the fault of the pairing protocol, where it was one.
    pub open spec fn subcode_of(self) -> Option<i32> {
        match self {
            DeviceFault::RemotePairing { subcode, .. } => Some(subcode),
            _ => None,
        }
    }

    /// The number of the fault of the pairing protocol, where it was one.
    pub fn remote_pairing_subcode(self) -> (subcode: Option<i32>)
        ensures
            subcode == self.subcode_of(),
    {
        match self {
            DeviceFault::RemotePairing { subcode, .. } => Some(subcode),
            _ => None,
        }
    }
}

/// How a call that was given some time has ended.
#[derive(Debug, Clone, Copy, PartialEq, Eq, Structural)]
pub enum CallOutcome {
    /// The call completed.
    Completed,
    /// The device's service failed.
    Faulted(DeviceFault),
    /// The call took too long.
    TimedOut,
}

/// Whether the connections of a session are closed: they could be closed, and afterwards nothing
/// more can be opened over them. `closed` is how closing them went, `reopened` how opening another
/// one went.
pub open spec fn shut(
    closed: Result<(), IoFault>,
    reopened: Result<(), IoFault>,
) -> Result<(), IoFault> {
    match (closed, reopened) {
        (Err(fault), _) => Err(fault),
        (Ok(()), Err(IoFault::BrokenPipe)) => Ok(()),
        (Ok(()), Err(IoFault::NetworkUnreachable)) => Ok(()),
        (Ok(()), Err(fault)) => Err(fault),
        (Ok(()), Ok(())) => Err(IoFault::Other),
    }
}

/// Tells whether the connections of a session are closed.
pub fn shutdown_outcome(closed: Result<(), IoFault>, reopened: Result<(), IoFault>) -> (outcome:
    Result<(), IoFault>)
    ensures
        outcome == shut(closed, reopened),
{
    match closed {
        Err(fault) => Err(fault),
        Ok(()) => match reopened {
            Ok(()) => Err(IoFault::Other),
            Err(IoFault::BrokenPipe) => Ok(()),
            Err(IoFault::NetworkUnreachable) => Ok(()),
            Err(fault) => Err(fault),
        },
    }
}

/// The kinds of the faults of a connection.
pub proof fn connection_faults_are_named()
    ensures
        IoFault::ConnectionRefused.text()@ == "connection_refused"@,
        IoFault::ConnectionReset.text()@ == "connection_reset"@,
        IoFault::ConnectionAborted.text()@ == "connection_aborted"@,
        IoFault::NotConnected.text()@ == "not_connected"@,
        IoFault::AddressNotAvailable.text()@ == "address_not_available"@,
        IoFault::TimedOut.text()@ == "timed_out"@,
        IoFault::InvalidInput.text()@ == "invalid_input"@,
        IoFault::BrokenPipe.text()@ == "other"@,
        IoFault::NetworkUnreachable.text()@ == "other"@,
        IoFault::Other.text()@ == "other"@,
{
}

/// The kinds of the faults of the pairing protocol.
pub proof fn pairing_faults_are_named()
    ensures
        PairingFault::UnknownTlv.text()@ == "remote_pairing_unknown_tlv"@,
        PairingFault::MalformedTlv.text()@ == "remote_pairing_malformed_tlv"@,
        PairingFault::PairingRejected.text()@ == "remote_pairing_rejected"@,
        PairingFault::Base64Decode.text()@ == "remote_pairing_base64_decode"@,
        PairingFault::PairVerifyFailed.text()@ == "remote_pairing_pair_verify_failed"@,
        PairingFault::SrpAuthFailed.text()@ == "remote_pairing_srp_auth_failed"@,
        PairingFault::Encryption.text()@ == "remote_pairing_encryption"@,
        PairingFault::Other.text()@ == "remote_pairing_other"@,
{
}

/// The kinds of the faults of a device's services. A fault of the pairing protocol keeps its own.
pub proof fn device_faults_are_named(fault: DeviceFault)
    ensures
        fault is Socket ==> fault.text()@ == "socket"@,
        fault is Timeout ==> fault.text()@ == "timeout"@,
        fault is Plist ==> fault.text()@ == "plist"@,
        fault is Utf8 ==> fault.text()@ == "utf8"@,
        fault is NotEnoughBytes ==> fault.text()@ == "not_enough_bytes"@,
        fault is UnexpectedResponse ==> fault.text()@ == "unexpected_response"@,
        fault is InternalError ==> fault.text()@ == "internal_error"@,
        fault is SessionInactive ==> fault.text()@ == "session_inactive"@,
        fault is NoEstablishedConnection ==> fault.text()@ == "no_established_connection"@,
        fault matches DeviceFault::RemotePairing { fault: inner, subcode } ==> fault.text()@
            == inner.text()@ && fault.subcode_of() == Some(subcode),
        fault is ServiceNotFound || fault is Xpc || fault is CoreDevice || fault is ObjectNotFound
            || fault is OperationFailed || fault is Other ==> fault.text()@ == "other"@,
        !(fault is RemotePairing) ==> fault.subcode_of() is None,
{
}

/// The core device service tells the faults of its connection, of its messages and of its own
/// apart; all others keep their kinds.
pub proof fn core_device_faults_are_told_apart(fault: DeviceFault)
    ensures
        fault matches DeviceFault::Socket(inner) ==> fault.core_device_text()@ == inner.text()@,
        fault is ServiceNotFound ==> fault.core_device_text()@ == "service_not_found"@,
        fault is Xpc ==> fault.core_device_text()@ == "xpc"@,
        fault is CoreDevice ==> fault.core_device_text()@ == "core_device"@,
        !(fault is Socket || fault is ServiceNotFound || fault is Xpc || fault is CoreDevice)
            ==> fault.core_device_text()@ == fault.text()@,
{
}

/// The connections of a session are closed exactly where closing them went well and another one
/// could not be opened for want of a way: the pipe was broken or the network unreachable. The first
/// fault is the one that is told.
pub proof fn sessions_are_shut_where_nothing_can_be_opened(
    closed: Result<(), IoFault>,
    reopened: Result<(), IoFault>,
)
    ensures
        shut(closed, reopened) is Ok <==> closed is Ok && (reopened == Err::<(), IoFault>(
            IoFault::BrokenPipe,
        ) || reopened == Err::<(), IoFault>(IoFault::NetworkUnreachable)),
        closed is Err ==> shut(closed, reopened) == closed,
        closed is Ok && reopened is Err && shut(closed, reopened) is Err ==> shut(closed, reopened)
            == reopened,
        closed is Ok && reopened is Ok ==> shut(closed, reopened) == Err::<(), IoFault>(
            IoFault::Other,
        ),
{
}

} // verus!
