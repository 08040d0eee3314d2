//! Committing a new pairing: the device is reached again over the network, its tunnel is opened,
//! and the pairing is verified through the tunnel. The addresses of the device are tried one after
//! the other.
use vstd::prelude::*;

use crate::established;
use crate::established::EstablishedPairingVerificationStage;
use crate::faults::{DeviceFault, IoFault};

verus! {

/// The time that a device is looked for, in nanoseconds.
pub const DISCOVERY_TIME: u64 = 10_000_000_000;

pub const POST_PAIR_BOOTSTRAP_STAGE: &'static str = "post_pair_bootstrap";

pub const POST_PAIR_TUNNEL_STAGE: &'static str = "post_pair_tunnel";

pub const POST_PAIR_RSD_STAGE: &'static str = "post_pair_rsd";

pub const POST_PAIR_TUNNEL_SERVICE_STAGE: &'static str = "post_pair_tunnel_service";

pub const POST_PAIR_COMMIT_STAGE: &'static str = "post_pair_commit";

/// Why a new pairing was not committed.
#[derive(Debug, Clone, Copy, PartialEq, Eq)]
pub struct PostPairCommitFailure {
    /// The stage that failed.
    pub stage: &'static str,
    /// The kind of the error.
    pub error_kind: &'static str,
}

impl PostPairCommitFailure {
    /// The failure of a stage.
    pub fn new(stage: &'static str, error_kind: &'static str) -> (failure: Self)
        ensures
            failure == (PostPairCommitFailure { stage, error_kind }),
    {
        PostPairCommitFailure { stage, error_kind }
    }
}

/// The steps by which a pairing is committed over one address, in their order.
#[derive(Debug, Clone, Copy, PartialEq, Eq, Structural)]
pub enum CommitStep {
    /// The device is connected to.
    Connect,
    /// A verification of the pairing is attempted.
    AttemptVerify,
    /// The pairing is validated.
    ValidatePairing,
    /// The device opens a listener for the tunnel.
    CreateListener,
    /// The listener is connected to.
    ConnectListener,
    /// The tunnel is opened.
    OpenTunnel,
    /// What the tunnel tells of itself is checked.
    InspectTunnel,
    /// The service directory is connected to.
    ConnectRsd,
    /// The service directory is read.
    Handshake,
    /// The tunnel service is looked up in it.
    InspectServices,
    /// The tunnel service is connected to.
    ConnectService,
    /// A message channel is opened.
    OpenXpc,
    /// The channel's handshake is made.
    XpcHandshake,
    /// The channel's first message is received.
    XpcRoot,
    /// A verification through the tunnel is attempted.
    AttemptConfirm,
    /// The pairing is validated through the tunnel.
    ValidateConfirm,
}

impl CommitStep {
    /// The step's number in the order.
    pub open spec fn number(self) -> int {
        match self {
            CommitStep::Connect => 0,
            CommitStep::AttemptVerify => 1,
            CommitStep::ValidatePairing => 2,
            CommitStep::CreateListener => 3,
            CommitStep::ConnectListener => 4,
            CommitStep::OpenTunnel => 5,
            CommitStep::InspectTunnel => 6,
            CommitStep::ConnectRsd => 7,
            CommitStep::Handshake => 8,
            CommitStep::InspectServices => 9,
            CommitStep::ConnectService => 10,
            CommitStep::OpenXpc => 11,
            CommitStep::XpcHandshake => 12,
            CommitStep::XpcRoot => 13,
            CommitStep::AttemptConfirm => 14,
            CommitStep::ValidateConfirm => 15,
        }
    }
}

impl CommitStep {
    /// The stage that the step belongs to.
    pub open spec fn stage_text(self) -> &'static str {
        match self {
            CommitStep::Connect => POST_PAIR_BOOTSTRAP_STAGE,
            CommitStep::AttemptVerify => POST_PAIR_BOOTSTRAP_STAGE,
            CommitStep::ValidatePairing => POST_PAIR_BOOTSTRAP_STAGE,
            CommitStep::CreateListener => POST_PAIR_TUNNEL_STAGE,
            CommitStep::ConnectListener => POST_PAIR_TUNNEL_STAGE,
            CommitStep::OpenTunnel => POST_PAIR_TUNNEL_STAGE,
            CommitStep::InspectTunnel => POST_PAIR_TUNNEL_STAGE,
            CommitStep::ConnectRsd => POST_PAIR_RSD_STAGE,
            CommitStep::Handshake => POST_PAIR_RSD_STAGE,
            CommitStep::InspectServices => POST_PAIR_TUNNEL_SERVICE_STAGE,
            CommitStep::ConnectService => POST_PAIR_TUNNEL_SERVICE_STAGE,
            CommitStep::OpenXpc => POST_PAIR_TUNNEL_SERVICE_STAGE,
            CommitStep::XpcHandshake => POST_PAIR_TUNNEL_SERVICE_STAGE,
            CommitStep::XpcRoot => POST_PAIR_TUNNEL_SERVICE_STAGE,
            CommitStep::AttemptConfirm => POST_PAIR_COMMIT_STAGE,
            CommitStep::ValidateConfirm => POST_PAIR_COMMIT_STAGE,
        }
    }

    /// The stage that the step belongs to.
    pub fn stage(self) -> (stage: &'static str)
        ensures
            stage == self.stage_text(),
    {
        match self {
            CommitStep::Connect => POST_PAIR_BOOTSTRAP_STAGE,
            CommitStep::AttemptVerify => POST_PAIR_BOOTSTRAP_STAGE,
            CommitStep::ValidatePairing => POST_PAIR_BOOTSTRAP_STAGE,
            CommitStep::CreateListener => POST_PAIR_TUNNEL_STAGE,
            CommitStep::ConnectListener => POST_PAIR_TUNNEL_STAGE,
            CommitStep::OpenTunnel => POST_PAIR_TUNNEL_STAGE,
            CommitStep::InspectTunnel => POST_PAIR_TUNNEL_STAGE,
            CommitStep::ConnectRsd => POST_PAIR_RSD_STAGE,
            CommitStep::Handshake => POST_PAIR_RSD_STAGE,
            CommitStep::InspectServices => POST_PAIR_TUNNEL_SERVICE_STAGE,
            CommitStep::ConnectService => POST_PAIR_TUNNEL_SERVICE_STAGE,
            CommitStep::OpenXpc => POST_PAIR_TUNNEL_SERVICE_STAGE,
            CommitStep::XpcHandshake => POST_PAIR_TUNNEL_SERVICE_STAGE,
            CommitStep::XpcRoot => POST_PAIR_TUNNEL_SERVICE_STAGE,
            CommitStep::AttemptConfirm => POST_PAIR_COMMIT_STAGE,
            CommitStep::ValidateConfirm => POST_PAIR_COMMIT_STAGE,
        }
    }
}

impl CommitStep {
    /// The kind of the error where the step takes too long.
    pub open spec fn overtime(self) -> &'static str {
        match self {
            CommitStep::Connect => "tcp_connect_timeout",
            CommitStep::AttemptVerify => "attempt_pair_verify_timeout",
            CommitStep::ValidatePairing => "validate_pairing_timeout",
            CommitStep::CreateListener => "create_tcp_listener_timeout",
            CommitStep::ConnectListener => "tunnel_listener_connect_timeout",
            CommitStep::OpenTunnel => "tunnel_timeout",
            CommitStep::InspectTunnel => "tunnel_timeout",
            CommitStep::ConnectRsd => "rsd_connect_timeout",
            CommitStep::Handshake => "rsd_handshake_timeout",
            CommitStep::InspectServices => "rsd_handshake_timeout",
            CommitStep::ConnectService => "service_connect_timeout",
            CommitStep::OpenXpc => "remote_xpc_new_timeout",
            CommitStep::XpcHandshake => "remote_xpc_handshake_timeout",
            CommitStep::XpcRoot => "remote_xpc_root_timeout",
            CommitStep::AttemptConfirm => "attempt_pair_verify_timeout",
            CommitStep::ValidateConfirm => "validate_pairing_timeout",
        }
    }

    /// The kind of the error where the step takes too long.
    pub fn overtime_kind(self) -> (kind: &'static str)
        ensures
            kind == self.overtime(),
    {
        match self {
            CommitStep::Connect => "tcp_connect_timeout",
            CommitStep::AttemptVerify => "attempt_pair_verify_timeout",
            CommitStep::ValidatePairing => "validate_pairing_timeout",
            CommitStep::CreateListener => "create_tcp_listener_timeout",
            CommitStep::ConnectListener => "tunnel_listener_connect_timeout",
            CommitStep::OpenTunnel => "tunnel_timeout",
            CommitStep::InspectTunnel => "tunnel_timeout",
            CommitStep::ConnectRsd => "rsd_connect_timeout",
            CommitStep::Handshake => "rsd_handshake_timeout",
            CommitStep::InspectServices => "rsd_handshake_timeout",
            CommitStep::ConnectService => "service_connect_timeout",
            CommitStep::OpenXpc => "remote_xpc_new_timeout",
            CommitStep::XpcHandshake => "remote_xpc_handshake_timeout",
            CommitStep::XpcRoot => "remote_xpc_root_timeout",
            CommitStep::AttemptConfirm => "attempt_pair_verify_timeout",
            CommitStep::ValidateConfirm => "validate_pairing_timeout",
        }
    }
}

impl CommitStep {
    /// The step behind it.
    pub open spec fn follower(self) -> Option<CommitStep> {
        match self {
            CommitStep::Connect => Some(CommitStep::AttemptVerify),
            CommitStep::AttemptVerify => Some(CommitStep::ValidatePairing),
            CommitStep::ValidatePairing => Some(CommitStep::CreateListener),
            CommitStep::CreateListener => Some(CommitStep::ConnectListener),
            CommitStep::ConnectListener => Some(CommitStep::OpenTunnel),
            CommitStep::OpenTunnel => Some(CommitStep::InspectTunnel),
            CommitStep::InspectTunnel => Some(CommitStep::ConnectRsd),
            CommitStep::ConnectRsd => Some(CommitStep::Handshake),
            CommitStep::Handshake => Some(CommitStep::InspectServices),
            CommitStep::InspectServices => Some(CommitStep::ConnectService),
            CommitStep::ConnectService => Some(CommitStep::OpenXpc),
            CommitStep::OpenXpc => Some(CommitStep::XpcHandshake),
            CommitStep::XpcHandshake => Some(CommitStep::XpcRoot),
            CommitStep::XpcRoot => Some(CommitStep::AttemptConfirm),
            CommitStep::AttemptConfirm => Some(CommitStep::ValidateConfirm),
            CommitStep::ValidateConfirm => None,
        }
    }

    /// The step behind it.
    pub fn next(self) -> (step: Option<CommitStep>)
        ensures
            step == self.follower(),
    {
        match self {
            CommitStep::Connect => Some(CommitStep::AttemptVerify),
            CommitStep::AttemptVerify => Some(CommitStep::ValidatePairing),
            CommitStep::ValidatePairing => Some(CommitStep::CreateListener),
            CommitStep::CreateListener => Some(CommitStep::ConnectListener),
            CommitStep::ConnectListener => Some(CommitStep::OpenTunnel),
            CommitStep::OpenTunnel => Some(CommitStep::InspectTunnel),
            CommitStep::InspectTunnel => Some(CommitStep::ConnectRsd),
            CommitStep::ConnectRsd => Some(CommitStep::Handshake),
            CommitStep::Handshake => Some(CommitStep::InspectServices),
            CommitStep::InspectServices => Some(CommitStep::ConnectService),
            CommitStep::ConnectService => Some(CommitStep::OpenXpc),
            CommitStep::OpenXpc => Some(CommitStep::XpcHandshake),
            CommitStep::XpcHandshake => Some(CommitStep::XpcRoot),
            CommitStep::XpcRoot => Some(CommitStep::AttemptConfirm),
            CommitStep::AttemptConfirm => Some(CommitStep::ValidateConfirm),
            CommitStep::ValidateConfirm => None,
        }
    }
}

impl CommitStep {
    /// Whether the commitment ends where no time is left for the step. Beyond the tunnel only the
    /// address is given up.
    pub open spec fn ends_with_the_session(self) -> bool {
        self.number() < CommitStep::ConnectRsd.number()
    }

    fn is_before_the_tunnel(self) -> (result: bool)
        ensures
            result == self.ends_with_the_session(),
    {
        match self {
            CommitStep::Connect
            | CommitStep::AttemptVerify
            | CommitStep::ValidatePairing
            | CommitStep::CreateListener
            | CommitStep::ConnectListener
            | CommitStep::OpenTunnel
            | CommitStep::InspectTunnel => true,
            _ => false,
        }
    }

    /// The step only looks at what an earlier one brought: it needs no time.
    pub open spec fn is_inspection(self) -> bool {
        self is InspectTunnel || self is InspectServices
    }

    /// The stage of a verification that the step is, where it is one.
    pub open spec fn verification_stage(self) -> Option<EstablishedPairingVerificationStage> {
        match self {
            CommitStep::AttemptVerify | CommitStep::AttemptConfirm => Some(
                EstablishedPairingVerificationStage::AttemptPairVerify,
            ),
            CommitStep::ValidatePairing | CommitStep::ValidateConfirm => Some(
                EstablishedPairingVerificationStage::ValidatePairing,
            ),
            _ => None,
        }
    }
}

/// The steps that verify the pairing fail with the kinds of a verification.
pub proof fn verifications_keep_their_kinds(step: CommitStep)
    requires
        step.verification_stage() is Some,
    ensures
        step.overtime() == step.verification_stage()->0.overtime(),
{
}

/// How a step has ended.
#[derive(Debug, Clone, Copy, PartialEq, Eq)]
pub enum CommitOutcome {
    /// It completed.
    Completed,
    /// What it brought was refused; the text is the kind of the error.
    Rejected(&'static str),
    /// A connection failed.
    Io(IoFault),
    /// A service of the device failed.
    Device(DeviceFault),
    /// It took too long.
    TimedOut,
    /// No time was left for it.
    Expired,
}

/// What a tunnel tells of itself: the port of the service directory, and whether the addresses of
/// its two ends are addresses.
#[derive(Debug, Clone, Copy, PartialEq, Eq, Structural)]
pub struct TunnelReport {
    pub rsd_port: u16,
    pub host_address: bool,
    pub peer_address: bool,
}

/// How the inspection of a tunnel ends.
pub open spec fn tunnel_outcome(report: TunnelReport) -> CommitOutcome {
    if report.rsd_port == 0 {
        CommitOutcome::Rejected("missing_rsd_port")
    } else if !report.host_address {
        CommitOutcome::Rejected("invalid_host_address")
    } else if !report.peer_address {
        CommitOutcome::Rejected("invalid_peer_address")
    } else {
        CommitOutcome::Completed
    }
}

/// How the inspection of a tunnel ends.
pub fn inspect_tunnel(report: TunnelReport) -> (outcome: CommitOutcome)
    ensures
        outcome == tunnel_outcome(report),
{
    if report.rsd_port == 0 {
        CommitOutcome::Rejected("missing_rsd_port")
    } else if !report.host_address {
        CommitOutcome::Rejected("invalid_host_address")
    } else if !report.peer_address {
        CommitOutcome::Rejected("invalid_peer_address")
    } else {
        CommitOutcome::Completed
    }
}

/// How the lookup of the tunnel service ends.
pub open spec fn services_outcome(tunnel_service_port: Option<u16>) -> CommitOutcome {
    match tunnel_service_port {
        Some(_) => CommitOutcome::Completed,
        None => CommitOutcome::Rejected("service_not_found"),
    }
}

/// How the lookup of the tunnel service ends.
pub fn inspect_services(tunnel_service_port: Option<u16>) -> (outcome: CommitOutcome)
    ensures
        outcome == services_outcome(tunnel_service_port),
{
    match tunnel_service_port {
        Some(_) => CommitOutcome::Completed,
        None => CommitOutcome::Rejected("service_not_found"),
    }
}

/// Where a commitment stands: at a step over one of the addresses, by its position.
#[derive(Debug, Clone, Copy, PartialEq, Eq, Structural)]
pub struct Commitment {
    pub target: usize,
    pub step: CommitStep,
}

/// What comes after a step.
#[derive(Debug, Clone, Copy, PartialEq, Eq)]
pub enum CommitTurn {
    /// The commitment goes on.
    Next(Commitment),
    /// The pairing is committed.
    Committed,
    /// It is not.
    Failed(PostPairCommitFailure),
}

/// The beginning of a commitment over so many addresses.
pub open spec fn beginning(count: nat) -> CommitTurn {
    if count == 0 {
        CommitTurn::Failed(
            PostPairCommitFailure {
                stage: POST_PAIR_BOOTSTRAP_STAGE,
                error_kind: "no_candidate",
            },
        )
    } else {
        CommitTurn::Next(Commitment { target: 0, step: CommitStep::Connect })
    }
}

/// The kind of the error where a step does not complete.
pub open spec fn failure_kind(step: CommitStep, outcome: CommitOutcome) -> &'static str {
    match outcome {
        CommitOutcome::Completed => "",
        CommitOutcome::Rejected(kind) => kind,
        CommitOutcome::Io(fault) => fault.text(),
        CommitOutcome::Device(fault) => fault.text(),
        CommitOutcome::TimedOut => step.overtime(),
        CommitOutcome::Expired => "session_expired",
    }
}

impl Commitment {
    /// The failure of the step.
    pub open spec fn failure(self, outcome: CommitOutcome) -> PostPairCommitFailure {
        PostPairCommitFailure {
            stage: self.step.stage_text(),
            error_kind: failure_kind(self.step, outcome),
        }
    }

    /// What comes after the step. A step that does not complete gives its address up, and the next
    /// address is begun with; the last address's failure is that of the commitment. Where the time
    /// ran out before the tunnel was open, no other address is tried.
    pub open spec fn turn(self, count: nat, outcome: CommitOutcome) -> CommitTurn {
        if outcome is Completed {
            match self.step.follower() {
                Some(step) => CommitTurn::Next(Commitment { target: self.target, step }),
                None => CommitTurn::Committed,
            }
        } else if (outcome is Expired && self.step.ends_with_the_session()) || self.target + 1
            >= count {
            CommitTurn::Failed(self.failure(outcome))
        } else {
            CommitTurn::Next(
                Commitment { target: (self.target + 1) as usize, step: CommitStep::Connect },
            )
        }
    }

    /// The beginning of a commitment over so many addresses.
    pub fn begin(count: usize) -> (turn: CommitTurn)
        ensures
            turn == beginning(count as nat),
    {
        if count == 0 {
            CommitTurn::Failed(
                PostPairCommitFailure::new(POST_PAIR_BOOTSTRAP_STAGE, "no_candidate"),
            )
        } else {
            CommitTurn::Next(Commitment { target: 0, step: CommitStep::Connect })
        }
    }

    /// The time that the step is given, or how it ends where none is left. An inspection takes
    /// place whatever time is left.
    pub fn time(self, deadline: u64, now: u64) -> (time: Result<u64, CommitOutcome>)
        ensures
            time == match established::given_time(deadline, now) {
                Some(time) => Ok::<u64, CommitOutcome>(time),
                None => if self.step.is_inspection() {
                    Ok::<u64, CommitOutcome>(0)
                } else {
                    Err::<u64, CommitOutcome>(CommitOutcome::Expired)
                },
            },
    {
        match established::call_time(deadline, now) {
            Some(time) => Ok(time),
            None => match self.step {
                CommitStep::InspectTunnel | CommitStep::InspectServices => Ok(0),
                _ => Err(CommitOutcome::Expired),
            },
        }
    }

    /// What comes after the step.
    pub fn advance(self, count: usize, outcome: CommitOutcome) -> (turn: CommitTurn)
        ensures
            turn == self.turn(count as nat, outcome),
    {
        let mut expired: bool = false;
        let error_kind: &'static str = match outcome {
            CommitOutcome::Completed => {
                return match self.step.next() {
                    Some(step) => CommitTurn::Next(Commitment { target: self.target, step }),
                    None => CommitTurn::Committed,
                };
            },
            CommitOutcome::Rejected(kind) => kind,
            CommitOutcome::Io(fault) => fault.kind(),
            CommitOutcome::Device(fault) => fault.kind(),
            CommitOutcome::TimedOut => self.step.overtime_kind(),
            CommitOutcome::Expired => {
                expired = true;
                "session_expired"
            },
        };
        let failure: PostPairCommitFailure = PostPairCommitFailure::new(
            self.step.stage(),
            error_kind,
        );
        if (expired && self.step.is_before_the_tunnel()) || count == 0 || self.target >= count - 1 {
            CommitTurn::Failed(failure)
        } else {
            CommitTurn::Next(Commitment { target: self.target + 1, step: CommitStep::Connect })
        }
    }
}

/// Where a commitment over so many addresses stands after some steps.
pub open spec fn commitment_after(count: nat, outcomes: Seq<CommitOutcome>) -> CommitTurn
    decreases outcomes.len(),
{
    if outcomes.len() == 0 {
        beginning(count)
    } else {
        match commitment_after(count, outcomes.drop_last()) {
            CommitTurn::Next(commitment) => commitment.turn(count, outcomes.last()),
            turn => turn,
        }
    }
}

/// The steps that completed last: as many as lie before the step that a commitment stands at.
proof fn commitment_position(count: nat, outcomes: Seq<CommitOutcome>)
    requires
        count <= usize::MAX,
    ensures
        match commitment_after(count, outcomes) {
            CommitTurn::Next(commitment) => {
                let done = commitment.step.number();
                &&& commitment.target < count
                &&& done <= outcomes.len()
                &&& outcomes.len() <= commitment.target * 16 + done
                &&& forall|i: int|
                    outcomes.len() - done <= i < outcomes.len() ==> (#[trigger] outcomes[i])
                        is Completed
            },
            _ => true,
        },
    decreases outcomes.len(),
{
    if outcomes.len() > 0 {
        let before = outcomes.drop_last();
        commitment_position(count, before);
        match commitment_after(count, before) {
            CommitTurn::Next(commitment) => {
                let done = commitment.step.number();
                assert forall|i: int|
                    before.len() - done <= i < before.len() implies (#[trigger] outcomes[i])
                    is Completed by {
                    assert(before[i] is Completed);
                }
            },
            _ => {},
        }
    }
}

/// Sixteen steps in a row completed, the last of them right before position `end`.
pub open spec fn is_full_run(outcomes: Seq<CommitOutcome>, end: int) -> bool {
    &&& 16 <= end <= outcomes.len()
    &&& forall|i: int| end - 16 <= i < end ==> (#[trigger] outcomes[i]) is Completed
}

/// A pairing is committed only by a run of all sixteen steps over one address: it was verified
/// when the device was reached again, and once more through the tunnel.
pub proof fn committed_pairings_pass_every_step(count: nat, outcomes: Seq<CommitOutcome>)
    requires
        count <= usize::MAX,
        commitment_after(count, outcomes) is Committed,
    ensures
        exists|end: int| is_full_run(outcomes, end),
    decreases outcomes.len(),
{
    let before = outcomes.drop_last();
    if commitment_after(count, before) is Committed {
        committed_pairings_pass_every_step(count, before);
        let end = choose|end: int| is_full_run(before, end);
        assert forall|i: int| end - 16 <= i < end implies (#[trigger] outcomes[i]) is Completed by {
            assert(before[i] is Completed);
        }
        assert(is_full_run(outcomes, end));
    } else {
        commitment_position(count, before);
        let end = outcomes.len() as int;
        assert forall|i: int| end - 16 <= i < end implies (#[trigger] outcomes[i]) is Completed by {
            if i < before.len() {
                assert(before[i] is Completed);
            }
        }
        assert(is_full_run(outcomes, end));
    }
}

/// A commitment ends: no more than sixteen steps are taken over each address.
pub proof fn commitments_end(count: nat, outcomes: Seq<CommitOutcome>)
    requires
        count <= usize::MAX,
        outcomes.len() >= count * 16,
    ensures
        !(commitment_after(count, outcomes) is Next),
{
    commitment_position(count, outcomes);
    if let CommitTurn::Next(commitment) = commitment_after(count, outcomes) {
        assert(commitment.target * 16 + 16 <= count * 16) by (nonlinear_arith)
            requires
                commitment.target + 1 <= count,
        ;
    }
}

/// The moment until which a device is looked for: no later than the pairing ends.
pub open spec fn discovery_end(deadline: u64, now: u64) -> int {
    if deadline <= now + DISCOVERY_TIME {
        deadline as int
    } else {
        now + DISCOVERY_TIME
    }
}

/// The moment until which a device is looked for.
pub fn discovery_deadline(deadline: u64, now: u64) -> (end: u64)
    ensures
        end == discovery_end(deadline, now),
{
    if deadline <= now || deadline - now <= DISCOVERY_TIME {
        deadline
    } else {
        now + DISCOVERY_TIME
    }
}

/// The failure of a commitment for which no device was found.
pub open spec fn undiscovered(deadline: u64, now: u64) -> PostPairCommitFailure {
    PostPairCommitFailure {
        stage: POST_PAIR_BOOTSTRAP_STAGE,
        error_kind: if now >= deadline {
            "discovery_timeout"
        } else {
            "discovery"
        },
    }
}

/// The failure of a commitment for which no device was found.
pub fn discovery_failure(deadline: u64, now: u64) -> (failure: PostPairCommitFailure)
    ensures
        failure == undiscovered(deadline, now),
{
    if now >= deadline {
        PostPairCommitFailure::new(POST_PAIR_BOOTSTRAP_STAGE, "discovery_timeout")
    } else {
        PostPairCommitFailure::new(POST_PAIR_BOOTSTRAP_STAGE, "discovery")
    }
}

/// The steps of a commitment over one address, in their order.
pub open spec fn commit_steps() -> Seq<CommitStep> {
    seq![
        CommitStep::Connect,
        CommitStep::AttemptVerify,
        CommitStep::ValidatePairing,
        CommitStep::CreateListener,
        CommitStep::ConnectListener,
        CommitStep::OpenTunnel,
        CommitStep::InspectTunnel,
        CommitStep::ConnectRsd,
        CommitStep::Handshake,
        CommitStep::InspectServices,
        CommitStep::ConnectService,
        CommitStep::OpenXpc,
        CommitStep::XpcHandshake,
        CommitStep::XpcRoot,
        CommitStep::AttemptConfirm,
        CommitStep::ValidateConfirm,
    ]
}

/// Over an address the steps that complete lead from one to the next, and the last commits the
/// pairing.
pub proof fn completed_steps_lead_on(count: nat, target: usize, at: int)
    requires
        0 <= at < 16,
    ensures
        at < 15 ==> (Commitment { target, step: commit_steps()[at] }).turn(
            count,
            CommitOutcome::Completed,
        ) == CommitTurn::Next(Commitment { target, step: commit_steps()[at + 1] }),
        at == 15 ==> (Commitment { target, step: commit_steps()[at] }).turn(
            count,
            CommitOutcome::Completed,
        ) is Committed,
{
}

/// A pairing whose sixteen steps complete over the first address is committed.
pub proof fn sixteen_steps_commit_a_pairing(count: nat, outcomes: Seq<CommitOutcome>)
    requires
        0 < count <= usize::MAX,
        0 < outcomes.len() <= 16,
        forall|i: int| 0 <= i < outcomes.len() ==> (#[trigger] outcomes[i]) is Completed,
    ensures
        outcomes.len() < 16 ==> commitment_after(count, outcomes) == CommitTurn::Next(
            Commitment { target: 0, step: commit_steps()[outcomes.len() as int] },
        ),
        outcomes.len() == 16 ==> commitment_after(count, outcomes) is Committed,
    decreases outcomes.len(),
{
    let before = outcomes.drop_last();
    if before.len() > 0 {
        assert forall|i: int| 0 <= i < before.len() implies (#[trigger] before[i])
            is Completed by {
            assert(before[i] == outcomes[i]);
        }
        sixteen_steps_commit_a_pairing(count, before);
    } else {
        assert(commitment_after(count, before) == beginning(count));
    }
    assert(outcomes.last() is Completed);
}

/// A step that does not complete gives up its address for the next, and fails the commitment where
/// it is the last. Before the tunnel is open, time that ran out fails it over any address.
pub proof fn failed_addresses_are_given_up(
    count: nat,
    commitment: Commitment,
    outcome: CommitOutcome,
    at: int,
)
    requires
        commitment.target < count <= usize::MAX,
        !(outcome is Completed),
        0 <= at < 16,
        commitment.step == commit_steps()[at],
    ensures
        commitment.target + 1 == count ==> commitment.turn(count, outcome) is Failed,
        commitment.target + 1 < count && !(outcome is Expired) ==> commitment.turn(count, outcome)
            == CommitTurn::Next(
            Commitment { target: (commitment.target + 1) as usize, step: CommitStep::Connect },
        ),
        commitment.target + 1 < count && outcome is Expired && at >= 7 ==> commitment.turn(
            count,
            outcome,
        ) == CommitTurn::Next(
            Commitment { target: (commitment.target + 1) as usize, step: CommitStep::Connect },
        ),
        outcome is Expired && at < 7 ==> commitment.turn(count, outcome) is Failed,
        commitment.turn(count, outcome) matches CommitTurn::Failed(failure) ==> {
            &&& at < 3 ==> failure.stage@ == "post_pair_bootstrap"@
            &&& 3 <= at < 7 ==> failure.stage@ == "post_pair_tunnel"@
            &&& 7 <= at < 9 ==> failure.stage@ == "post_pair_rsd"@
            &&& 9 <= at < 14 ==> failure.stage@ == "post_pair_tunnel_service"@
            &&& 14 <= at ==> failure.stage@ == "post_pair_commit"@
            &&& outcome is Expired ==> failure.error_kind@ == "session_expired"@
            &&& outcome is Rejected ==> failure.error_kind@ == outcome->Rejected_0@
            &&& outcome is Io ==> failure.error_kind@ == outcome->Io_0.text()@
            &&& outcome is Device ==> failure.error_kind@ == outcome->Device_0.text()@
            &&& outcome is TimedOut ==> failure.error_kind@ == commitment.step.overtime()@
        },
{
}

/// The kinds by which a step that takes too long is told.
pub proof fn overdue_steps_are_named()
    ensures
        CommitStep::Connect.overtime()@ == "tcp_connect_timeout"@,
        CommitStep::AttemptVerify.overtime()@ == "attempt_pair_verify_timeout"@,
        CommitStep::ValidatePairing.overtime()@ == "validate_pairing_timeout"@,
        CommitStep::CreateListener.overtime()@ == "create_tcp_listener_timeout"@,
        CommitStep::ConnectListener.overtime()@ == "tunnel_listener_connect_timeout"@,
        CommitStep::OpenTunnel.overtime()@ == "tunnel_timeout"@,
        CommitStep::ConnectRsd.overtime()@ == "rsd_connect_timeout"@,
        CommitStep::Handshake.overtime()@ == "rsd_handshake_timeout"@,
        CommitStep::ConnectService.overtime()@ == "service_connect_timeout"@,
        CommitStep::OpenXpc.overtime()@ == "remote_xpc_new_timeout"@,
        CommitStep::XpcHandshake.overtime()@ == "remote_xpc_handshake_timeout"@,
        CommitStep::XpcRoot.overtime()@ == "remote_xpc_root_timeout"@,
        CommitStep::AttemptConfirm.overtime()@ == "attempt_pair_verify_timeout"@,
        CommitStep::ValidateConfirm.overtime()@ == "validate_pairing_timeout"@,
{
}

/// Only what an earlier step brought is looked at without time.
pub proof fn inspections_need_no_time(step: CommitStep)
    ensures
        step.is_inspection() <==> step is InspectTunnel || step is InspectServices,
{
}

/// A tunnel can be used where it tells a port and the addresses of both its ends; what is missing
/// first is told.
pub proof fn tunnels_tell_a_port_and_two_addresses(report: TunnelReport)
    ensures
        tunnel_outcome(report) is Completed <==> report.rsd_port > 0 && report.host_address
            && report.peer_address,
        report.rsd_port == 0 ==> tunnel_outcome(report) is Rejected && tunnel_outcome(
            report,
        )->Rejected_0@ == "missing_rsd_port"@,
        report.rsd_port > 0 && !report.host_address ==> tunnel_outcome(report) is Rejected
            && tunnel_outcome(report)->Rejected_0@ == "invalid_host_address"@,
        report.rsd_port > 0 && report.host_address && !report.peer_address ==> tunnel_outcome(
            report,
        ) is Rejected && tunnel_outcome(report)->Rejected_0@ == "invalid_peer_address"@,
{
}

/// The tunnel service is there where the directory gives it a port.
pub proof fn tunnel_services_have_a_port(port: Option<u16>)
    ensures
        services_outcome(port) is Completed <==> port is Some,
        port is None ==> services_outcome(port) is Rejected && services_outcome(port)->Rejected_0@
            == "service_not_found"@,
{
}

/// A commitment begins with the connection to the first address, and fails without one.
pub proof fn commitments_begin_with_the_first_address(count: nat)
    ensures
        count > 0 ==> beginning(count) == CommitTurn::Next(
            Commitment { target: 0, step: CommitStep::Connect },
        ),
        count == 0 ==> beginning(count) is Failed && beginning(count)->Failed_0.stage@
            == "post_pair_bootstrap"@ && beginning(count)->Failed_0.error_kind@ == "no_candidate"@,
{
}

/// A device is looked for ten seconds, but no longer than its session lives. A session that is over
/// by then is told as such.
pub proof fn devices_are_looked_for_ten_seconds(deadline: u64, now: u64)
    ensures
        deadline >= now + 10_000_000_000 ==> discovery_end(deadline, now) == now + 10_000_000_000,
        deadline < now + 10_000_000_000 ==> discovery_end(deadline, now) == deadline,
        undiscovered(deadline, now).stage@ == "post_pair_bootstrap"@,
        deadline <= now ==> undiscovered(deadline, now).error_kind@ == "discovery_timeout"@,
        now < deadline ==> undiscovered(deadline, now).error_kind@ == "discovery"@,
{
}

} // verus!
