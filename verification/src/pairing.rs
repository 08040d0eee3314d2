//! Wireless pairing: its configuration, the one session that can run at a time, and the course of a
//! pairing from the first connection to its commitment.
use vstd::prelude::*;

use crate::commitment::PostPairCommitFailure;
use crate::number;
use crate::record::RecordId;
use crate::text;
use time::format_description::well_known::Rfc3339;
use time::OffsetDateTime;

verus! {

pub const DEFAULT_PAIRING_PORT: u16 = 52345;

/// The name under which this service pairs.
pub const SERVICE_NAME: &'static str = "iPhoneLoadly";

/// The time that a session lives, in seconds.
pub const SESSION_LIFETIME: u64 = 300;

/// Whether wireless pairing is offered.
#[derive(Debug, Clone, Copy, PartialEq, Eq, Structural)]
pub enum WirelessPairingMode {
    /// Pairing is switched off.
    Off,
    /// Pairing is on trial.
    Experimental,
    /// Pairing is switched on.
    On,
}

impl WirelessPairingMode {
    /// Whether sessions can be started.
    pub open spec fn enabled(self) -> bool {
        self != WirelessPairingMode::Off
    }

    /// Whether sessions can be started.
    pub fn is_enabled(self) -> (result: bool)
        ensures
            result == self.enabled(),
    {
        match self {
            WirelessPairingMode::Off => false,
            _ => true,
        }
    }

    /// The mode that a setting gives: off unless it is one of two words, spaces around them aside.
    pub open spec fn of(value: Option<Seq<char>>) -> WirelessPairingMode {
        match value {
            Some(value) => if text::trimmed(value) == "experimental"@ {
                WirelessPairingMode::Experimental
            } else if text::trimmed(value) == "on"@ {
                WirelessPairingMode::On
            } else {
                WirelessPairingMode::Off
            },
            None => WirelessPairingMode::Off,
        }
    }

    /// The mode that a setting gives.
    pub fn parse(value: Option<&str>) -> (mode: WirelessPairingMode)
        ensures
            mode == WirelessPairingMode::of(text::str_view(value)),
    {
        match value {
            Some(value) => {
                let value: &str = text::trim(value);
                if text::same_text(value, "experimental") {
                    WirelessPairingMode::Experimental
                } else if text::same_text(value, "on") {
                    WirelessPairingMode::On
                } else {
                    WirelessPairingMode::Off
                }
            },
            None => WirelessPairingMode::Off,
        }
    }

    /// The mode in effect: outside a trial of the wireless paths, pairing that is on is off.
    pub open spec fn in_effect(self, trial: bool) -> WirelessPairingMode {
        if !trial && self == WirelessPairingMode::On {
            WirelessPairingMode::Off
        } else {
            self
        }
    }
}

/// Where wireless pairing listens and what it keeps.
#[derive(Debug)]
pub struct WirelessPairingConfig {
    pub mode: WirelessPairingMode,
    pub pairing_port: u16,
    /// The chosen network interface.
    pub interface: Option<String>,
    /// The directory of the pairing state.
    pub state_dir: String,
}

/// Why the configuration is refused.
#[derive(Debug, Clone, Copy, PartialEq, Eq, Structural)]
pub enum ConfigError {
    /// The port is reserved.
    InvalidPort,
    /// The port is no number of a port.
    InvalidPortNumber,
}

impl ConfigError {
    /// The sentence that tells the error.
    pub open spec fn sentence(self) -> &'static str {
        match self {
            ConfigError::InvalidPort => "wireless pairing port must be between 1024 and 65535",
            ConfigError::InvalidPortNumber => "wireless pairing port is not a valid number",
        }
    }

    /// The sentence that tells the error.
    pub fn message(self) -> (text: &'static str)
        ensures
            text == self.sentence(),
    {
        match self {
            ConfigError::InvalidPort => "wireless pairing port must be between 1024 and 65535",
            ConfigError::InvalidPortNumber => "wireless pairing port is not a valid number",
        }
    }
}

/// The ports that pairing may listen on.
pub open spec fn is_pairing_port(port: int) -> bool {
    1024 <= port <= 65535
}

/// Refuses a reserved port.
pub fn validate_pairing_port(port: u16) -> (result: Result<(), ConfigError>)
    ensures
        result == if is_pairing_port(port as int) {
            Ok::<(), ConfigError>(())
        } else {
            Err::<(), ConfigError>(ConfigError::InvalidPort)
        },
{
    if port >= 1024 {
        Ok(())
    } else {
        Err(ConfigError::InvalidPort)
    }
}

/// The port that a setting gives.
pub open spec fn configured_port(setting: Option<Seq<char>>) -> Result<u16, ConfigError> {
    match setting {
        Some(value) => match number::written_number(value) {
            Some(port) => if port > 65535 {
                Err(ConfigError::InvalidPortNumber)
            } else if is_pairing_port(port) {
                Ok(port as u16)
            } else {
                Err(ConfigError::InvalidPort)
            },
            None => Err(ConfigError::InvalidPortNumber),
        },
        None => Ok(DEFAULT_PAIRING_PORT),
    }
}

/// The text of a setting, where it is not blank.
pub open spec fn filled(setting: Option<Seq<char>>) -> Option<Seq<char>> {
    match setting {
        Some(value) => if text::trimmed(value).len() > 0 {
            Some(text::trimmed(value))
        } else {
            None
        },
        None => None,
    }
}

impl WirelessPairingConfig {
    /// The configuration that the settings of the environment give; where no directory is set, the
    /// default one is taken.
    pub fn from_env(
        port: Option<&str>,
        interface: Option<&str>,
        state_dir: Option<&str>,
        mode: Option<&str>,
        default_state_dir: String,
    ) -> (config: Result<WirelessPairingConfig, ConfigError>)
        ensures
            match (config, configured_port(text::str_view(port))) {
                (Ok(config), Ok(port)) => {
                    &&& config.mode == WirelessPairingMode::of(text::str_view(mode))
                    &&& config.pairing_port == port
                    &&& text::text_view(config.interface) == filled(text::str_view(interface))
                    &&& config.state_dir@ == match text::str_view(state_dir) {
                        Some(state_dir) => if state_dir.len() > 0 {
                            state_dir
                        } else {
                            default_state_dir@
                        },
                        None => default_state_dir@,
                    }
                },
                (Err(error), Err(expected)) => error == expected,
                _ => false,
            },
    {
        let pairing_port: u16 = match port {
            Some(value) => match number::parse_number(value, 65535) {
                Some(port) => port as u16,
                None => {
                    return Err(ConfigError::InvalidPortNumber);
                },
            },
            None => DEFAULT_PAIRING_PORT,
        };
        match validate_pairing_port(pairing_port) {
            Ok(()) => {},
            Err(error) => {
                return Err(error);
            },
        }
        let interface: Option<String> = match interface {
            Some(value) => {
                let value: &str = text::trim(value);
                if value.unicode_len() > 0 {
                    Some(value.to_owned())
                } else {
                    None
                }
            },
            None => None,
        };
        let state_dir: String = match state_dir {
            Some(state_dir) => if state_dir.unicode_len() > 0 {
                state_dir.to_owned()
            } else {
                default_state_dir
            },
            None => default_state_dir,
        };
        Ok(
            WirelessPairingConfig {
                mode: WirelessPairingMode::parse(mode),
                pairing_port,
                interface,
                state_dir,
            },
        )
    }

    /// The configuration where wireless pairing is off.
    pub fn disabled(state_dir: String) -> (config: WirelessPairingConfig)
        ensures
            config.mode == WirelessPairingMode::Off,
            config.pairing_port == DEFAULT_PAIRING_PORT,
            config.interface is None,
            config.state_dir == state_dir,
    {
        WirelessPairingConfig {
            mode: WirelessPairingMode::Off,
            pairing_port: DEFAULT_PAIRING_PORT,
            interface: None,
            state_dir,
        }
    }

    /// The same configuration with the mode that is in effect.
    pub fn limited(self, trial: bool) -> (config: WirelessPairingConfig)
        ensures
            config == (WirelessPairingConfig { mode: self.mode.in_effect(trial), ..self }),
    {
        WirelessPairingConfig {
            mode: if !trial && self.mode == WirelessPairingMode::On {
                WirelessPairingMode::Off
            } else {
                self.mode
            },
            pairing_port: self.pairing_port,
            interface: self.interface,
            state_dir: self.state_dir,
        }
    }
}

/// Why a request on a session is refused.
#[derive(Debug, Clone, Copy, PartialEq, Eq, Structural)]
pub enum PairingError {
    /// Wireless pairing is off.
    Disabled,
    /// A session is running.
    Busy,
    /// There is no such session.
    NotFound,
    /// The session has ended.
    Terminal,
    /// There is no address to pair under.
    Configuration,
    /// The pairing state cannot be read or written.
    Storage,
    /// The pairing state is not what was written.
    CorruptedState,
    /// No listener could be started.
    Listener,
    /// The service could not be announced.
    Advertisement,
}

impl PairingError {
    /// The sentence that tells the error.
    pub open spec fn sentence(self) -> &'static str {
        match self {
            PairingError::Disabled => "wireless pairing is disabled",
            PairingError::Busy => "another wireless pairing session is active",
            PairingError::NotFound => "pairing session was not found",
            PairingError::Terminal => "pairing session is already terminal",
            PairingError::Configuration => "pairing configuration is invalid",
            PairingError::Storage => "wireless pairing state is unavailable",
            PairingError::CorruptedState => "wireless pairing state is corrupted",
            PairingError::Listener => "pairing listener could not be started",
            PairingError::Advertisement => "pairable-host advertisement could not be started",
        }
    }

    /// The sentence that tells the error.
    pub fn message(self) -> (text: &'static str)
        ensures
            text == self.sentence(),
    {
        match self {
            PairingError::Disabled => "wireless pairing is disabled",
            PairingError::Busy => "another wireless pairing session is active",
            PairingError::NotFound => "pairing session was not found",
            PairingError::Terminal => "pairing session is already terminal",
            PairingError::Configuration => "pairing configuration is invalid",
            PairingError::Storage => "wireless pairing state is unavailable",
            PairingError::CorruptedState => "wireless pairing state is corrupted",
            PairingError::Listener => "pairing listener could not be started",
            PairingError::Advertisement => "pairable-host advertisement could not be started",
        }
    }
}

/// The phases of a session.
#[derive(Debug, Clone, Copy, PartialEq, Eq, Structural)]
pub enum PairingPhase {
    /// No device has connected.
    AwaitingDevice,
    /// The device is pairing.
    AwaitingCodeEntry,
    /// The device is paired; its transport is not verified.
    VerifyingTransport,
    /// The transport is verified.
    Ready,
    /// The pairing failed.
    Failed,
    /// The session was cancelled.
    Cancelled,
    /// The session took too long.
    Expired,
}

impl PairingPhase {
    /// The phase's name.
    pub open spec fn text(self) -> &'static str {
        match self {
            PairingPhase::AwaitingDevice => "awaitingDevice",
            PairingPhase::AwaitingCodeEntry => "awaitingCodeEntry",
            PairingPhase::VerifyingTransport => "verifyingTransport",
            PairingPhase::Ready => "ready",
            PairingPhase::Failed => "failed",
            PairingPhase::Cancelled => "cancelled",
            PairingPhase::Expired => "expired",
        }
    }

    /// The phase's name.
    pub fn as_str(self) -> (text: &'static str)
        ensures
            text == self.text(),
    {
        match self {
            PairingPhase::AwaitingDevice => "awaitingDevice",
            PairingPhase::AwaitingCodeEntry => "awaitingCodeEntry",
            PairingPhase::VerifyingTransport => "verifyingTransport",
            PairingPhase::Ready => "ready",
            PairingPhase::Failed => "failed",
            PairingPhase::Cancelled => "cancelled",
            PairingPhase::Expired => "expired",
        }
    }
}

impl PairingPhase {
    /// Whether the session has ended.
    pub open spec fn ended(self) -> bool {
        self == PairingPhase::Ready || self == PairingPhase::Failed || self
            == PairingPhase::Cancelled || self == PairingPhase::Expired
    }

    /// Whether the session has ended.
    pub fn is_terminal(self) -> (result: bool)
        ensures
            result == self.ended(),
    {
        match self {
            PairingPhase::Ready
            | PairingPhase::Failed
            | PairingPhase::Cancelled
            | PairingPhase::Expired => true,
            _ => false,
        }
    }
}

/// What is told of a session.
#[derive(Debug)]
pub struct PairingSessionStatus {
    pub id: RecordId,
    pub phase: PairingPhase,
    /// The second at which the session expires, since 1970.
    pub expires_at: u64,
    pub public_message: &'static str,
    /// The code to be entered on the device.
    pub setup_code: Option<String>,
}

impl Clone for PairingSessionStatus {
    fn clone(&self) -> (status: Self)
        ensures
            status == *self,
    {
        PairingSessionStatus {
            id: self.id,
            phase: self.phase,
            expires_at: self.expires_at,
            public_message: self.public_message,
            setup_code: match &self.setup_code {
                Some(code) => Some(code.clone()),
                None => None,
            },
        }
    }
}

/// The transports over which a paired device can be trusted.
#[derive(Debug, Clone, Copy, PartialEq, Eq, Structural)]
pub enum TransportKind {
    /// The lockdown transport.
    Lockdown,
    /// The core device transport.
    RsdCoreDevice,
}

/// How the verification of the transport ended.
#[derive(Debug, Clone, Copy, PartialEq, Eq, Structural)]
pub enum TransportVerificationResult {
    Verified(TransportKind),
    Rejected,
}

/// The RFC 3339 text of a moment, in seconds since 1970.
pub uninterp spec fn rfc3339_text(seconds: u64) -> Seq<char>;

/// The last second that has such a text, at the end of the year 9999.
pub const LAST_SECOND: u64 = 253_402_300_799;

/// `OffsetDateTime::from_unix_timestamp` and the `format` of its result with `Rfc3339`. Years behind
/// 9999 have no text.
#[verifier::external_body]
fn format_seconds(seconds: u64) -> (text: Option<String>)
    ensures
        text is Some == (seconds <= LAST_SECOND),
        text is Some ==> text->0@ == rfc3339_text(seconds),
{
    let moment = OffsetDateTime::from_unix_timestamp(i64::try_from(seconds).ok()?).ok()?;
    moment.format(&Rfc3339).ok()
}

/// The text under which a session's end is told; none for one behind the year 9999.
pub fn expiry_text(seconds: u64) -> (text: Option<String>)
    ensures
        text is Some == (seconds <= LAST_SECOND),
        text is Some ==> text->0@ == rfc3339_text(seconds),
{
    format_seconds(seconds)
}

/// Whether a session's time is over.
pub open spec fn is_over(status: PairingSessionStatus, now: u64) -> bool {
    now >= status.expires_at
}

/// Whether a session's time is over.
pub fn session_expired(status: &PairingSessionStatus, now: u64) -> (expired: bool)
    ensures
        expired == is_over(*status, now),
{
    now >= status.expires_at
}

/// The seconds that a session has left.
pub open spec fn seconds_left(expires_at: u64, now: u64) -> int {
    if now >= expires_at {
        0
    } else {
        expires_at - now
    }
}

/// The seconds that a session has left.
pub fn session_time(expires_at: u64, now: u64) -> (seconds: u64)
    ensures
        seconds == seconds_left(expires_at, now),
{
    if now >= expires_at {
        0
    } else {
        expires_at - now
    }
}

/// The same session in another phase, with its message and without a code.
pub open spec fn moved(
    status: PairingSessionStatus,
    phase: PairingPhase,
    public_message: &'static str,
) -> PairingSessionStatus {
    PairingSessionStatus { phase, public_message, setup_code: None, ..status }
}

/// The session once its time is over.
pub open spec fn expired(status: PairingSessionStatus) -> PairingSessionStatus {
    moved(status, PairingPhase::Expired, "The wireless pairing session expired.")
}

/// The session that a request finds: one that runs beyond its time has expired.
pub open spec fn current(status: PairingSessionStatus, now: u64) -> PairingSessionStatus {
    if !status.phase.ended() && is_over(status, now) {
        expired(status)
    } else {
        status
    }
}

/// The session after the verification of its transport.
pub open spec fn transported(
    status: PairingSessionStatus,
    result: TransportVerificationResult,
) -> PairingSessionStatus {
    match result {
        TransportVerificationResult::Verified(TransportKind::Lockdown) => moved(
            status,
            PairingPhase::Ready,
            "RemotePairing completed and Lockdown transport was verified.",
        ),
        TransportVerificationResult::Verified(TransportKind::RsdCoreDevice) => moved(
            status,
            PairingPhase::Ready,
            "RemotePairing completed and RSD/CoreDevice transport was verified.",
        ),
        TransportVerificationResult::Rejected => moved(
            status,
            PairingPhase::Failed,
            "RemotePairing completed but trusted transport could not be verified.",
        ),
    }
}

/// A session that was just opened.
pub open spec fn opened(id: RecordId, now: u64) -> PairingSessionStatus {
    PairingSessionStatus {
        id,
        phase: PairingPhase::AwaitingDevice,
        expires_at: (now + SESSION_LIFETIME) as u64,
        public_message: "Open pairing on the iPhone or iPad.",
        setup_code: None,
    }
}

/// The session once it was cancelled.
pub open spec fn cancelled(status: PairingSessionStatus) -> PairingSessionStatus {
    moved(status, PairingPhase::Cancelled, "The wireless pairing session was cancelled.")
}

/// The session whose pairing was not committed in time.
pub open spec fn uncompleted(status: PairingSessionStatus) -> PairingSessionStatus {
    moved(status, PairingPhase::Failed, "Wireless pairing could not be completed.")
}

/// The session once its committed pairing was to be saved.
pub open spec fn after_save(status: PairingSessionStatus, saved: bool) -> PairingSessionStatus {
    if saved {
        moved(
            status,
            PairingPhase::VerifyingTransport,
            "RemotePairing completed. Verifying trusted device transport.",
        )
    } else {
        moved(
            status,
            PairingPhase::Failed,
            "Wireless pairing completed but its state could not be saved.",
        )
    }
}

/// How a pairing that came to its end is concluded.
#[derive(Debug, Clone, Copy, PartialEq, Eq, Structural)]
pub enum Conclusion {
    /// The session is no longer this one, or has ended: nothing is done.
    Ignored,
    /// The session has failed: its advertisement is withdrawn.
    Withdrawn,
    /// The pairing is to be saved.
    Save,
}

/// The one session of the service.
#[derive(Debug)]
pub struct PairingDesk {
    pub mode: WirelessPairingMode,
    pub session: Option<PairingSessionStatus>,
}

impl PairingDesk {
    /// A desk without a session.
    pub fn new(mode: WirelessPairingMode) -> (desk: PairingDesk)
        ensures
            desk == (PairingDesk { mode, session: None }),
    {
        PairingDesk { mode, session: None }
    }

    /// The session has this identifier.
    pub open spec fn holds(self, id: RecordId) -> bool {
        self.session is Some && self.session->0.id == id
    }

    /// The session has this identifier and has not ended.
    pub open spec fn runs(self, id: RecordId) -> bool {
        self.holds(id) && !self.session->0.phase.ended()
    }

    /// What cancelling a session comes to.
    pub open spec fn cancellation(self, id: RecordId) -> Result<(), PairingError> {
        if !self.holds(id) {
            Err(PairingError::NotFound)
        } else if !self.runs(id) {
            Err(PairingError::Terminal)
        } else {
            Ok(())
        }
    }

    /// How a pairing that came to its end is concluded.
    pub open spec fn conclusion(
        self,
        id: RecordId,
        committed: bool,
        deadline: u64,
        now: u64,
    ) -> Conclusion {
        if !self.runs(id) {
            Conclusion::Ignored
        } else if !committed || now >= deadline {
            Conclusion::Withdrawn
        } else {
            Conclusion::Save
        }
    }

    fn is_held(&self, id: RecordId) -> (result: bool)
        ensures
            result == self.holds(id),
    {
        match &self.session {
            Some(status) => status.id == id,
            None => false,
        }
    }

    fn is_running(&self, id: RecordId) -> (result: bool)
        ensures
            result == self.runs(id),
    {
        match &self.session {
            Some(status) => status.id == id && !status.phase.is_terminal(),
            None => false,
        }
    }

    /// Moves the session to another phase, where there is one.
    fn shift(
        &mut self,
        phase: PairingPhase,
        public_message: &'static str,
        setup_code: Option<String>,
    )
        ensures
            final(self).mode == old(self).mode,
            final(self).session == match old(self).session {
                Some(status) => Some(
                    PairingSessionStatus { phase, public_message, setup_code, ..status },
                ),
                None => None::<PairingSessionStatus>,
            },
    {
        match self.session.take() {
            Some(status) => {
                self.session = Some(
                    PairingSessionStatus {
                        id: status.id,
                        phase,
                        expires_at: status.expires_at,
                        public_message,
                        setup_code,
                    },
                );
            },
            None => {},
        }
    }

    /// Makes room for a session: refused where pairing is off or a session runs. A session that
    /// runs beyond its time expires; the result then tells to abort it and withdraw its
    /// advertisement.
    pub fn make_room(&mut self, now: u64) -> (result: Result<bool, PairingError>)
        ensures
            final(self).mode == old(self).mode,
            match result {
                Ok(aborted) => {
                    &&& old(self).mode.enabled()
                    &&& old(self).session is Some ==> {
                        let status = old(self).session->0;
                        &&& status.phase.ended() || is_over(status, now)
                        &&& aborted == !status.phase.ended()
                        &&& final(self).session == Some(current(status, now))
                    }
                    &&& old(self).session is None ==> final(self).session is None && !aborted
                },
                Err(error) => {
                    &&& final(self).session == old(self).session
                    &&& error == if !old(self).mode.enabled() {
                        PairingError::Disabled
                    } else {
                        PairingError::Busy
                    }
                    &&& old(self).mode.enabled() ==> old(self).session is Some && !old(
                        self,
                    ).session->0.phase.ended() && !is_over(old(self).session->0, now)
                },
            },
    {
        if !self.mode.is_enabled() {
            return Err(PairingError::Disabled);
        }
        let (active, over): (bool, bool) = match &self.session {
            Some(status) => (!status.phase.is_terminal(), session_expired(status, now)),
            None => (false, false),
        };
        if !active {
            return Ok(false);
        }
        if !over {
            return Err(PairingError::Busy);
        }
        self.shift(PairingPhase::Expired, "The wireless pairing session expired.", None);
        Ok(true)
    }

    /// Opens a session that lives five minutes from `now`.
    pub fn open(&mut self, id: RecordId, now: u64) -> (status: PairingSessionStatus)
        requires
            now <= u64::MAX - SESSION_LIFETIME,
        ensures
            final(self).mode == old(self).mode,
            final(self).session == Some(status),
            status == opened(id, now),
    {
        let status: PairingSessionStatus = PairingSessionStatus {
            id,
            phase: PairingPhase::AwaitingDevice,
            expires_at: now + SESSION_LIFETIME,
            public_message: "Open pairing on the iPhone or iPad.",
            setup_code: None,
        };
        self.session = Some(status.clone());
        status
    }

    /// What is told of a session. One that runs beyond its time expires; the flag then tells to
    /// abort it and withdraw its advertisement.
    pub fn status(&mut self, id: RecordId, now: u64) -> (result: Result<
        (PairingSessionStatus, bool),
        PairingError,
    >)
        ensures
            final(self).mode == old(self).mode,
            match result {
                Ok((status, aborted)) => {
                    &&& old(self).holds(id)
                    &&& status == current(old(self).session->0, now)
                    &&& aborted == (old(self).runs(id) && is_over(old(self).session->0, now))
                    &&& final(self).session == Some(status)
                },
                Err(error) => {
                    &&& !old(self).holds(id)
                    &&& error == PairingError::NotFound
                    &&& final(self).session == old(self).session
                },
            },
    {
        if !self.is_held(id) {
            return Err(PairingError::NotFound);
        }
        let aborted: bool = match &self.session {
            Some(status) => !status.phase.is_terminal() && session_expired(status, now),
            None => false,
        };
        if aborted {
            self.shift(PairingPhase::Expired, "The wireless pairing session expired.", None);
        }
        match &self.session {
            Some(status) => Ok((status.clone(), aborted)),
            None => Err(PairingError::NotFound),
        }
    }

    /// Cancels a session. Where that succeeds the session is to be aborted and its advertisement
    /// withdrawn.
    pub fn cancel(&mut self, id: RecordId) -> (result: Result<(), PairingError>)
        ensures
            final(self).mode == old(self).mode,
            result == old(self).cancellation(id),
            final(self).session == if old(self).runs(id) {
                Some(cancelled(old(self).session->0))
            } else {
                old(self).session
            },
    {
        if !self.is_held(id) {
            return Err(PairingError::NotFound);
        }
        if !self.is_running(id) {
            return Err(PairingError::Terminal);
        }
        self.shift(PairingPhase::Cancelled, "The wireless pairing session was cancelled.", None);
        Ok(())
    }

    /// Records how the verification of the transport ended.
    pub fn record_transport_result(
        &mut self,
        id: RecordId,
        result: TransportVerificationResult,
    ) -> (answer: Result<PairingSessionStatus, PairingError>)
        ensures
            final(self).mode == old(self).mode,
            match answer {
                Ok(status) => {
                    &&& old(self).holds(id)
                    &&& old(self).session->0.phase == PairingPhase::VerifyingTransport
                    &&& status == transported(old(self).session->0, result)
                    &&& final(self).session == Some(status)
                },
                Err(error) => {
                    &&& final(self).session == old(self).session
                    &&& if old(self).holds(id) {
                        error == PairingError::Terminal && old(self).session->0.phase
                            != PairingPhase::VerifyingTransport
                    } else {
                        error == PairingError::NotFound
                    }
                },
            },
    {
        if !self.is_held(id) {
            return Err(PairingError::NotFound);
        }
        let verifying: bool = match &self.session {
            Some(status) => status.phase == PairingPhase::VerifyingTransport,
            None => false,
        };
        if !verifying {
            return Err(PairingError::Terminal);
        }
        match result {
            TransportVerificationResult::Verified(TransportKind::Lockdown) => self.shift(
                PairingPhase::Ready,
                "RemotePairing completed and Lockdown transport was verified.",
                None,
            ),
            TransportVerificationResult::Verified(TransportKind::RsdCoreDevice) => self.shift(
                PairingPhase::Ready,
                "RemotePairing completed and RSD/CoreDevice transport was verified.",
                None,
            ),
            TransportVerificationResult::Rejected => self.shift(
                PairingPhase::Failed,
                "RemotePairing completed but trusted transport could not be verified.",
                None,
            ),
        }
        match &self.session {
            Some(status) => Ok(status.clone()),
            None => Err(PairingError::NotFound),
        }
    }

    /// Moves a session to another phase, whatever its phase was.
    pub fn set_phase(
        &mut self,
        id: RecordId,
        phase: PairingPhase,
        public_message: &'static str,
        setup_code: Option<String>,
    ) -> (result: Result<(), PairingError>)
        ensures
            final(self).mode == old(self).mode,
            result == if old(self).holds(id) {
                Ok::<(), PairingError>(())
            } else {
                Err::<(), PairingError>(PairingError::NotFound)
            },
            final(self).session == if old(self).holds(id) {
                Some(
                    PairingSessionStatus {
                        phase,
                        public_message,
                        setup_code,
                        ..old(self).session->0
                    },
                )
            } else {
                old(self).session
            },
    {
        if !self.is_held(id) {
            return Err(PairingError::NotFound);
        }
        self.shift(phase, public_message, setup_code);
        Ok(())
    }

    /// Tells that the device is pairing; fails where the session is not this one.
    pub fn set_pairing_phase(&mut self, id: RecordId) -> (found: bool)
        ensures
            final(self).mode == old(self).mode,
            found == old(self).holds(id),
            final(self).session == if old(self).holds(id) {
                Some(
                    moved(
                        old(self).session->0,
                        PairingPhase::AwaitingCodeEntry,
                        "The iPhone or iPad is completing wireless pairing.",
                    ),
                )
            } else {
                old(self).session
            },
    {
        match self.set_phase(
            id,
            PairingPhase::AwaitingCodeEntry,
            "The iPhone or iPad is completing wireless pairing.",
            None,
        ) {
            Ok(()) => true,
            Err(_) => false,
        }
    }

    /// Shows the code to be entered on the device.
    pub fn set_setup_code(&mut self, id: RecordId, setup_code: String)
        ensures
            final(self).mode == old(self).mode,
            final(self).session == if old(self).holds(id) {
                Some(
                    PairingSessionStatus {
                        public_message:
                            "Enter the one-time pairing code shown for this session on the iPhone or iPad.",
                        setup_code: Some(setup_code),
                        ..old(self).session->0
                    },
                )
            } else {
                old(self).session
            },
    {
        let phase: PairingPhase = match &self.session {
            Some(status) => status.phase,
            None => PairingPhase::Failed,
        };
        if self.is_held(id) {
            self.shift(
                phase,
                "Enter the one-time pairing code shown for this session on the iPhone or iPad.",
                Some(setup_code),
            );
        }
    }

    /// Ends a session; its advertisement is withdrawn in any case.
    pub fn finish(&mut self, id: RecordId, phase: PairingPhase, public_message: &'static str)
        ensures
            final(self).mode == old(self).mode,
            final(self).session == if old(self).holds(id) {
                Some(moved(old(self).session->0, phase, public_message))
            } else {
                old(self).session
            },
    {
        let _ = self.set_phase(id, phase, public_message, None);
    }

    /// Ends a session that has not ended; the result tells to withdraw its advertisement.
    pub fn finish_if_active(
        &mut self,
        id: RecordId,
        phase: PairingPhase,
        public_message: &'static str,
    ) -> (ended: bool)
        ensures
            final(self).mode == old(self).mode,
            ended == old(self).runs(id),
            final(self).session == if old(self).runs(id) {
                Some(moved(old(self).session->0, phase, public_message))
            } else {
                old(self).session
            },
    {
        if !self.is_running(id) {
            return false;
        }
        self.shift(phase, public_message, None);
        true
    }

    /// The end of a pairing. One that was not committed, or not before its deadline, has failed;
    /// any other one is to be saved. A session that has ended in the meantime is left alone.
    pub fn conclude(
        &mut self,
        id: RecordId,
        commitment: Result<(), PostPairCommitFailure>,
        deadline: u64,
        now: u64,
    ) -> (conclusion: Conclusion)
        ensures
            final(self).mode == old(self).mode,
            conclusion == old(self).conclusion(id, commitment is Ok, deadline, now),
            final(self).session == if conclusion == Conclusion::Withdrawn {
                Some(uncompleted(old(self).session->0))
            } else {
                old(self).session
            },
    {
        if !self.is_running(id) {
            return Conclusion::Ignored;
        }
        let committed: bool = match commitment {
            Ok(()) => true,
            Err(_) => false,
        };
        if !committed || now >= deadline {
            self.shift(PairingPhase::Failed, "Wireless pairing could not be completed.", None);
            return Conclusion::Withdrawn;
        }
        Conclusion::Save
    }

    /// Records whether a committed pairing was saved. Its advertisement is withdrawn either way.
    pub fn record_save(&mut self, saved: bool)
        ensures
            final(self).mode == old(self).mode,
            final(self).session == match old(self).session {
                Some(status) => Some(after_save(status, saved)),
                None => None::<PairingSessionStatus>,
            },
    {
        if saved {
            self.shift(
                PairingPhase::VerifyingTransport,
                "RemotePairing completed. Verifying trusted device transport.",
                None,
            );
        } else {
            self.shift(
                PairingPhase::Failed,
                "Wireless pairing completed but its state could not be saved.",
                None,
            );
        }
    }
}

/// A session that has ended is told as it is, whenever it is asked for.
pub proof fn ended_sessions_stay_ended(status: PairingSessionStatus, now: u64)
    requires
        status.phase.ended(),
    ensures
        current(status, now) == status,
{
}

/// A session that has changed its phase shows no code.
pub proof fn phase_changes_hide_the_code(
    status: PairingSessionStatus,
    now: u64,
    result: TransportVerificationResult,
)
    ensures
        current(status, now).phase != status.phase ==> current(status, now).setup_code is None,
        transported(status, result).setup_code is None,
        transported(status, result).phase.ended(),
{
}

/// The steps by which a session is started, in their order.
#[derive(Debug, Clone, Copy, PartialEq, Eq, Structural)]
pub enum StartStep {
    /// Pairing is on, and there is room for a session.
    Room,
    /// The keys of the host are there.
    Material,
    /// The host has addresses to pair under.
    Addresses,
    /// The host listens on them.
    Listen,
    /// The host is announced.
    Advertise,
}

/// What comes after a step by which a session is started.
#[derive(Debug, Clone, Copy, PartialEq, Eq, Structural)]
pub enum StartTurn {
    Next(StartStep),
    Refuse(PairingError),
    /// The session is opened.
    Open,
}

impl StartStep {
    /// What comes after the step.
    pub open spec fn turn(self, result: Result<(), PairingError>) -> StartTurn {
        match result {
            Err(error) => StartTurn::Refuse(error),
            Ok(()) => match self {
                StartStep::Room => StartTurn::Next(StartStep::Material),
                StartStep::Material => StartTurn::Next(StartStep::Addresses),
                StartStep::Addresses => StartTurn::Next(StartStep::Listen),
                StartStep::Listen => StartTurn::Next(StartStep::Advertise),
                StartStep::Advertise => StartTurn::Open,
            },
        }
    }

    /// What comes after the step.
    pub fn advance(self, result: Result<(), PairingError>) -> (turn: StartTurn)
        ensures
            turn == self.turn(result),
    {
        match result {
            Err(error) => StartTurn::Refuse(error),
            Ok(()) => match self {
                StartStep::Room => StartTurn::Next(StartStep::Material),
                StartStep::Material => StartTurn::Next(StartStep::Addresses),
                StartStep::Addresses => StartTurn::Next(StartStep::Listen),
                StartStep::Listen => StartTurn::Next(StartStep::Advertise),
                StartStep::Advertise => StartTurn::Open,
            },
        }
    }
}

/// Where the start of a session stands after some steps: the turn that the last one gave.
pub open spec fn start_after(results: Seq<Result<(), PairingError>>) -> StartTurn
    decreases results.len(),
{
    if results.len() == 0 {
        StartTurn::Next(StartStep::Room)
    } else {
        match start_after(results.drop_last()) {
            StartTurn::Next(step) => step.turn(results.last()),
            turn => turn,
        }
    }
}

/// A session opens only where pairing is on, no other session runs, and the host has its keys,
/// listens and is announced. The first step that fails decides the error.
pub proof fn sessions_open_after_every_step(results: Seq<Result<(), PairingError>>)
    ensures
        start_after(results) is Open ==> results.len() >= 5 && forall|i: int|
            0 <= i < 5 ==> #[trigger] results[i] is Ok,
        start_after(results) matches StartTurn::Next(step) ==> results.len() == match step {
            StartStep::Room => 0int,
            StartStep::Material => 1,
            StartStep::Addresses => 2,
            StartStep::Listen => 3,
            StartStep::Advertise => 4,
        } && forall|i: int| 0 <= i < results.len() ==> #[trigger] results[i] is Ok,
        start_after(results) matches StartTurn::Refuse(error) ==> exists|i: int|
            0 <= i < results.len() && #[trigger] results[i] == Err::<(), PairingError>(error)
                && forall|k: int| 0 <= k < i ==> #[trigger] results[k] is Ok,
    decreases results.len(),
{
    if results.len() > 0 {
        let before = results.drop_last();
        sessions_open_after_every_step(before);
        assert forall|i: int| 0 <= i < before.len() implies before[i] == #[trigger] results[i] by {}
        match start_after(before) {
            StartTurn::Next(step) => {
                assert forall|k: int| 0 <= k < before.len() implies #[trigger] results[k] is Ok by {
                    assert(before[k] is Ok);
                }
                assert(results[results.len() - 1] == results.last());
            },
            StartTurn::Refuse(error) => {
                let i = choose|i: int|
                    0 <= i < before.len() && #[trigger] before[i] == Err::<(), PairingError>(error)
                        && forall|k: int| 0 <= k < i ==> #[trigger] before[k] is Ok;
                assert(results[i] == before[i]);
                assert forall|k: int| 0 <= k < i implies #[trigger] results[k] is Ok by {
                    assert(before[k] is Ok);
                }
            },
            StartTurn::Open => {
                assert forall|k: int| 0 <= k < 5 implies #[trigger] results[k] is Ok by {
                    assert(before[k] is Ok);
                }
            },
        }
    }
}

/// The steps of a pairing, in their order.
#[derive(Debug, Clone, Copy, PartialEq, Eq, Structural)]
pub enum PairingStep {
    /// A device connects.
    Accept,
    /// The session tells that the device is pairing.
    Announce,
    /// The device and this host exchange their keys.
    Handshake,
    /// The pairing is committed and concluded.
    Commit,
}

/// How a step of a pairing has ended.
#[derive(Debug, Clone, Copy, PartialEq, Eq, Structural)]
pub enum PairingOutcome {
    Done,
    Failed,
    TimedOut,
}

/// What comes after a step of a pairing.
#[derive(Debug, Clone, Copy, PartialEq, Eq)]
pub enum PairingTurn {
    /// The next step is to be taken.
    Next(PairingStep),
    /// The session ends; `failure` is the stage that is reported as failed.
    Finish { phase: PairingPhase, public_message: &'static str, failure: Option<&'static str> },
    /// Nothing more is done.
    Stop,
}

impl PairingStep {
    /// The step's number in the order.
    pub open spec fn number(self) -> int {
        match self {
            PairingStep::Accept => 0,
            PairingStep::Announce => 1,
            PairingStep::Handshake => 2,
            PairingStep::Commit => 3,
        }
    }

    /// What comes after the step.
    pub open spec fn turn(self, outcome: PairingOutcome) -> PairingTurn {
        match (self, outcome) {
            (PairingStep::Accept, PairingOutcome::Done) => PairingTurn::Next(PairingStep::Announce),
            (PairingStep::Accept, PairingOutcome::Failed) => PairingTurn::Finish {
                phase: PairingPhase::Expired,
                public_message: "The wireless pairing session expired.",
                failure: Some("tcp_accept"),
            },
            (PairingStep::Announce, PairingOutcome::Done) => PairingTurn::Next(
                PairingStep::Handshake,
            ),
            (PairingStep::Announce, _) => PairingTurn::Stop,
            (PairingStep::Handshake, PairingOutcome::Done) => PairingTurn::Next(
                PairingStep::Commit,
            ),
            (PairingStep::Handshake, PairingOutcome::Failed) => PairingTurn::Finish {
                phase: PairingPhase::Failed,
                public_message: "The iPhone or iPad rejected wireless pairing.",
                failure: Some("rppairing_accept"),
            },
            (PairingStep::Commit, _) => PairingTurn::Stop,
            (_, PairingOutcome::TimedOut) => PairingTurn::Finish {
                phase: PairingPhase::Expired,
                public_message: "The wireless pairing session expired.",
                failure: None,
            },
        }
    }

    /// What comes after the step.
    pub fn advance(self, outcome: PairingOutcome) -> (turn: PairingTurn)
        ensures
            turn == self.turn(outcome),
    {
        match self {
            PairingStep::Accept => match outcome {
                PairingOutcome::Done => PairingTurn::Next(PairingStep::Announce),
                PairingOutcome::Failed => PairingTurn::Finish {
                    phase: PairingPhase::Expired,
                    public_message: "The wireless pairing session expired.",
                    failure: Some("tcp_accept"),
                },
                PairingOutcome::TimedOut => PairingTurn::Finish {
                    phase: PairingPhase::Expired,
                    public_message: "The wireless pairing session expired.",
                    failure: None,
                },
            },
            PairingStep::Announce => match outcome {
                PairingOutcome::Done => PairingTurn::Next(PairingStep::Handshake),
                _ => PairingTurn::Stop,
            },
            PairingStep::Handshake => match outcome {
                PairingOutcome::Done => PairingTurn::Next(PairingStep::Commit),
                PairingOutcome::Failed => PairingTurn::Finish {
                    phase: PairingPhase::Failed,
                    public_message: "The iPhone or iPad rejected wireless pairing.",
                    failure: Some("rppairing_accept"),
                },
                PairingOutcome::TimedOut => PairingTurn::Finish {
                    phase: PairingPhase::Expired,
                    public_message: "The wireless pairing session expired.",
                    failure: None,
                },
            },
            PairingStep::Commit => PairingTurn::Stop,
        }
    }
}

/// Where a pairing stands after some steps.
pub open spec fn pairing_after(outcomes: Seq<PairingOutcome>) -> PairingTurn
    decreases outcomes.len(),
{
    if outcomes.len() == 0 {
        PairingTurn::Next(PairingStep::Accept)
    } else {
        match pairing_after(outcomes.drop_last()) {
            PairingTurn::Next(step) => step.turn(outcomes.last()),
            turn => turn,
        }
    }
}

/// A pairing is committed only after a device connected to a session that still was there and the
/// keys were exchanged; and every session that a pairing ends has ended.
pub proof fn pairings_are_committed_last(outcomes: Seq<PairingOutcome>)
    ensures
        pairing_after(outcomes) matches PairingTurn::Next(step) ==> step.number() == outcomes.len()
            && forall|i: int| 0 <= i < outcomes.len() ==> outcomes[i] == PairingOutcome::Done,
        pairing_after(outcomes) matches PairingTurn::Finish { phase, .. } ==> phase.ended(),
    decreases outcomes.len(),
{
    if outcomes.len() > 0 {
        let before = outcomes.drop_last();
        pairings_are_committed_last(before);
        assert forall|i: int|
            0 <= i < before.len() && before[i] == PairingOutcome::Done implies outcomes[i]
            == PairingOutcome::Done by {}
    }
}

/// The stage that is reported where a committed pairing could not be saved.
pub const PAIRING_STATE_SAVE_STAGE: &'static str = "pairing_state_save";

/// The sentences of the errors.
pub proof fn pairing_errors_are_told()
    ensures
        PairingError::Disabled.sentence()@ == "wireless pairing is disabled"@,
        PairingError::Busy.sentence()@ == "another wireless pairing session is active"@,
        PairingError::NotFound.sentence()@ == "pairing session was not found"@,
        PairingError::Terminal.sentence()@ == "pairing session is already terminal"@,
        PairingError::Configuration.sentence()@ == "pairing configuration is invalid"@,
        PairingError::Storage.sentence()@ == "wireless pairing state is unavailable"@,
        PairingError::CorruptedState.sentence()@ == "wireless pairing state is corrupted"@,
        PairingError::Listener.sentence()@ == "pairing listener could not be started"@,
        PairingError::Advertisement.sentence()@ == "pairable-host advertisement could not be started"@,
{
}

/// The names of the phases.
pub proof fn pairing_phases_are_named()
    ensures
        PairingPhase::AwaitingDevice.text()@ == "awaitingDevice"@,
        PairingPhase::AwaitingCodeEntry.text()@ == "awaitingCodeEntry"@,
        PairingPhase::VerifyingTransport.text()@ == "verifyingTransport"@,
        PairingPhase::Ready.text()@ == "ready"@,
        PairingPhase::Failed.text()@ == "failed"@,
        PairingPhase::Cancelled.text()@ == "cancelled"@,
        PairingPhase::Expired.text()@ == "expired"@,
{
}

/// Pairing is switched by the words `on` and `experimental`, whatever space stands around them, and
/// off without a setting. Outside a trial pairing that is on is off.
pub proof fn pairing_is_switched_by_two_words(
    left: Seq<char>,
    right: Seq<char>,
    mode: WirelessPairingMode,
)
    requires
        forall|i: int| 0 <= i < left.len() ==> text::is_white_space(#[trigger] left[i]),
        forall|i: int| 0 <= i < right.len() ==> text::is_white_space(#[trigger] right[i]),
    ensures
        WirelessPairingMode::of(Some(left + "on"@ + right)) is On,
        WirelessPairingMode::of(Some(left + "experimental"@ + right)) is Experimental,
        WirelessPairingMode::of(Some(left + right)) is Off,
        WirelessPairingMode::of(None) is Off,
        mode.enabled() <==> mode is On || mode is Experimental,
        mode.in_effect(true) == mode,
        mode is On ==> mode.in_effect(false) is Off,
        !(mode is On) ==> mode.in_effect(false) == mode,
{
    reveal_strlit("on");
    reveal_strlit("experimental");
    assert("on"@.len() == 2 && "on"@[0] == 'o' && "on"@.last() == 'n');
    assert("experimental"@.len() == 12 && "experimental"@[0] == 'e' && "experimental"@.last()
        == 'l');
    text::trimming_removes_the_space_around(left, "on"@, right);
    text::trimming_removes_the_space_around(left, "experimental"@, right);
    let empty = Seq::<char>::empty();
    assert(left + right =~= left + empty + right);
    text::trimming_removes_the_space_around(left, empty, right);
}

/// Pairing is on only for one of the two words.
pub proof fn other_words_leave_pairing_off(value: Seq<char>)
    ensures
        text::trimmed(value) != "on"@ && text::trimmed(value) != "experimental"@
            ==> WirelessPairingMode::of(Some(value)) is Off,
{
}

/// A port is taken where it is written as a number from 1024 to 65535. A smaller one is reserved,
/// and anything else is no port. Without a setting it is 52345.
pub proof fn ports_are_taken_in_their_range(value: Seq<char>, port: int)
    ensures
        number::written_number(value) == Some(port) && 1024 <= port <= 65535 ==> configured_port(
            Some(value),
        ) is Ok && configured_port(Some(value))->Ok_0 == port,
        number::written_number(value) == Some(port) && port < 1024 ==> configured_port(Some(value))
            == Err::<u16, ConfigError>(ConfigError::InvalidPort),
        number::written_number(value) == Some(port) && port > 65535 ==> configured_port(Some(value))
            == Err::<u16, ConfigError>(ConfigError::InvalidPortNumber),
        number::written_number(value) is None ==> configured_port(Some(value)) == Err::<
            u16,
            ConfigError,
        >(ConfigError::InvalidPortNumber),
        configured_port(None) == Ok::<u16, ConfigError>(52345),
        is_pairing_port(port) <==> 1024 <= port <= 65535,
        ConfigError::InvalidPort.sentence()@
            == "wireless pairing port must be between 1024 and 65535"@,
        ConfigError::InvalidPortNumber.sentence()@ == "wireless pairing port is not a valid number"@,
{
}

/// A setting gives its text without the space around it, and nothing where it is blank.
pub proof fn blank_settings_give_nothing(left: Seq<char>, core: Seq<char>, right: Seq<char>)
    requires
        forall|i: int| 0 <= i < left.len() ==> text::is_white_space(#[trigger] left[i]),
        forall|i: int| 0 <= i < right.len() ==> text::is_white_space(#[trigger] right[i]),
        core.len() > 0 ==> !text::is_white_space(core[0]) && !text::is_white_space(core.last()),
    ensures
        core.len() > 0 ==> filled(Some(left + core + right)) == Some(core),
        core.len() == 0 ==> filled(Some(left + core + right)) is None,
        filled(None) is None,
{
    text::trimming_removes_the_space_around(left, core, right);
}

/// A session has ended when it is ready, failed, cancelled or expired, and runs while a device is
/// awaited, pairs or is verified.
pub proof fn sessions_run_until_they_end(phase: PairingPhase)
    ensures
        phase is Ready || phase is Failed || phase is Cancelled || phase is Expired
            ==> phase.ended(),
        phase is AwaitingDevice || phase is AwaitingCodeEntry || phase is VerifyingTransport
            ==> !phase.ended(),
{
}

/// A session lives five minutes. What it has left and what has passed make up its time, and it is
/// over when nothing is left.
pub proof fn sessions_live_until_they_expire(status: PairingSessionStatus, now: u64)
    ensures
        SESSION_LIFETIME == 300,
        is_over(status, now) <==> seconds_left(status.expires_at, now) == 0,
        !is_over(status, now) ==> now + seconds_left(status.expires_at, now) == status.expires_at,
        now < status.expires_at ==> !is_over(status, now),
        now == status.expires_at ==> is_over(status, now),
{
}

/// A session that runs beyond its time has expired, and shows no code any more. One that is within
/// its time is told as it is.
pub proof fn overdue_sessions_have_expired(status: PairingSessionStatus, now: u64)
    ensures
        !status.phase.ended() && status.expires_at <= now ==> {
            let told = current(status, now);
            &&& told.phase is Expired
            &&& told.public_message@ == "The wireless pairing session expired."@
            &&& told.setup_code is None
            &&& told.id == status.id
            &&& told.expires_at == status.expires_at
        },
        now < status.expires_at ==> current(status, now) == status,
{
}

/// A session that moves to another phase stays the same session with the same end.
pub proof fn sessions_stay_the_same(
    status: PairingSessionStatus,
    phase: PairingPhase,
    message: &'static str,
)
    ensures
        moved(status, phase, message).id == status.id,
        moved(status, phase, message).expires_at == status.expires_at,
        moved(status, phase, message).phase == phase,
        moved(status, phase, message).public_message == message,
        moved(status, phase, message).setup_code is None,
{
}

/// A session is ready where its transport was verified, and tells over which; else it has failed.
pub proof fn verified_sessions_are_ready(status: PairingSessionStatus)
    ensures
        ({
            let told = transported(
                status,
                TransportVerificationResult::Verified(TransportKind::Lockdown),
            );
            &&& told.phase is Ready
            &&& told.id == status.id
            &&& told.public_message@
                == "RemotePairing completed and Lockdown transport was verified."@
        }),
        ({
            let told = transported(
                status,
                TransportVerificationResult::Verified(TransportKind::RsdCoreDevice),
            );
            &&& told.phase is Ready
            &&& told.id == status.id
            &&& told.public_message@
                == "RemotePairing completed and RSD/CoreDevice transport was verified."@
        }),
        ({
            let told = transported(status, TransportVerificationResult::Rejected);
            &&& told.phase is Failed
            &&& told.id == status.id
            &&& told.public_message@
                == "RemotePairing completed but trusted transport could not be verified."@
        }),
{
}

/// A desk holds the one session that it has, and that runs until it has ended.
pub proof fn desks_hold_one_session(desk: PairingDesk, id: RecordId, other: RecordId)
    ensures
        desk.session is None ==> !desk.holds(id) && !desk.runs(id),
        desk.session matches Some(status) ==> (desk.holds(id) <==> status.id == id),
        desk.holds(id) && desk.holds(other) ==> id == other,
        desk.runs(id) ==> desk.holds(id),
        desk.session matches Some(status) ==> status.id == id ==> (desk.runs(id)
            <==> !status.phase.ended()),
{
}

/// A session is opened after five steps that succeed, and refused with the error of the first that
/// does not.
pub proof fn five_steps_start_a_session(results: Seq<Result<(), PairingError>>)
    requires
        0 < results.len() <= 5,
        forall|i: int| 0 <= i < results.len() - 1 ==> #[trigger] results[i] is Ok,
    ensures
        results.len() == 5 && results.last() is Ok ==> start_after(results) is Open,
        results.last() matches Err(error) ==> start_after(results) == StartTurn::Refuse(error),
        results.len() == 1 && results.last() is Ok ==> start_after(results) == StartTurn::Next(
            StartStep::Material,
        ),
        results.len() == 2 && results.last() is Ok ==> start_after(results) == StartTurn::Next(
            StartStep::Addresses,
        ),
        results.len() == 3 && results.last() is Ok ==> start_after(results) == StartTurn::Next(
            StartStep::Listen,
        ),
        results.len() == 4 && results.last() is Ok ==> start_after(results) == StartTurn::Next(
            StartStep::Advertise,
        ),
    decreases results.len(),
{
    let before = results.drop_last();
    if before.len() > 0 {
        assert forall|i: int| 0 <= i < before.len() - 1 implies #[trigger] before[i] is Ok by {
            assert(before[i] == results[i]);
        }
        assert(before.last() == results[before.len() - 1]);
        five_steps_start_a_session(before);
    } else {
        assert(start_after(before) == StartTurn::Next(StartStep::Room));
    }
}

/// A pairing goes from the connection over the announcement and the exchange of keys to its
/// commitment. A device that never connects lets the session expire, one that rejects the pairing
/// lets it fail, and time that runs out lets it expire; each tells its stage and its message.
pub proof fn pairings_end_as_they_went(step: PairingStep)
    ensures
        PairingStep::Accept.turn(PairingOutcome::Done) == PairingTurn::Next(PairingStep::Announce),
        PairingStep::Announce.turn(PairingOutcome::Done) == PairingTurn::Next(
            PairingStep::Handshake,
        ),
        PairingStep::Handshake.turn(PairingOutcome::Done) == PairingTurn::Next(PairingStep::Commit),
        PairingStep::Commit.turn(PairingOutcome::Done) is Stop,
        PairingStep::Announce.turn(PairingOutcome::Failed) is Stop,
        ({
            let turn = PairingStep::Accept.turn(PairingOutcome::Failed);
            &&& turn is Finish
            &&& turn->phase is Expired
            &&& turn->public_message@ == "The wireless pairing session expired."@
            &&& turn->failure is Some && turn->failure->0@ == "tcp_accept"@
        }),
        ({
            let turn = PairingStep::Handshake.turn(PairingOutcome::Failed);
            &&& turn is Finish
            &&& turn->phase is Failed
            &&& turn->public_message@ == "The iPhone or iPad rejected wireless pairing."@
            &&& turn->failure is Some && turn->failure->0@ == "rppairing_accept"@
        }),
        step is Accept || step is Handshake ==> {
            let turn = step.turn(PairingOutcome::TimedOut);
            &&& turn is Finish
            &&& turn->phase is Expired
            &&& turn->public_message@ == "The wireless pairing session expired."@
            &&& turn->failure is None
        },
{
}

/// A session that is opened awaits a device for 300 seconds, without a code.
pub proof fn opened_sessions_await_a_device(id: RecordId, now: u64, later: u64)
    requires
        now <= u64::MAX - 300,
    ensures
        opened(id, now).id == id,
        opened(id, now).phase is AwaitingDevice,
        !opened(id, now).phase.ended(),
        opened(id, now).setup_code is None,
        opened(id, now).public_message@ == "Open pairing on the iPhone or iPad."@,
        is_over(opened(id, now), later) <==> later >= now + 300,
        seconds_left(opened(id, now).expires_at, now) == 300,
{
}

/// A session is cancelled while it runs; one that has ended, or that is not there, is told as such.
pub proof fn running_sessions_are_cancelled(desk: PairingDesk, id: RecordId)
    ensures
        desk.cancellation(id) is Ok <==> desk.runs(id),
        !desk.holds(id) ==> desk.cancellation(id) == Err::<(), PairingError>(
            PairingError::NotFound,
        ),
        desk.holds(id) && !desk.runs(id) ==> desk.cancellation(id) == Err::<(), PairingError>(
            PairingError::Terminal,
        ),
        desk.session matches Some(status) ==> {
            &&& cancelled(status).phase is Cancelled
            &&& cancelled(status).id == status.id
            &&& cancelled(status).setup_code is None
            &&& cancelled(status).public_message@ == "The wireless pairing session was cancelled."@
        },
{
}

/// A pairing is saved only where it was committed before its deadline, for a session that still
/// runs; else the session has failed. A session that has ended in the meantime is left alone.
pub proof fn committed_pairings_are_saved_in_time(
    desk: PairingDesk,
    id: RecordId,
    committed: bool,
    deadline: u64,
    now: u64,
)
    ensures
        desk.conclusion(id, committed, deadline, now) is Save <==> desk.runs(id) && committed && now
            < deadline,
        desk.conclusion(id, committed, deadline, now) is Ignored <==> !desk.runs(id),
        desk.session matches Some(status) ==> {
            &&& uncompleted(status).phase is Failed
            &&& uncompleted(status).id == status.id
            &&& uncompleted(status).public_message@ == "Wireless pairing could not be completed."@
            &&& after_save(status, true).phase is VerifyingTransport
            &&& after_save(status, true).public_message@
                == "RemotePairing completed. Verifying trusted device transport."@
            &&& after_save(status, false).phase is Failed
            &&& after_save(status, false).public_message@
                == "Wireless pairing completed but its state could not be saved."@
            &&& after_save(status, true).id == status.id
        },
{
}

} // verus!
