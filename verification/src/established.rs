//! Verifying a pairing that was established before: an attempt at it and its validation, each with
//! a time of its own.
use vstd::prelude::*;

use crate::faults::{CallOutcome, DeviceFault};

verus! {

/// The time that a call to the device is given, in nanoseconds.
pub const CONNECT_TIME: u64 = 10_000_000_000;

/// The time that a call before `deadline` is given: what is left, at most the time of a call, and
/// nothing where no time is left. All are nanoseconds of one clock.
pub open spec fn given_time(deadline: u64, now: u64) -> Option<u64> {
    if now >= deadline {
        None
    } else if deadline - now > CONNECT_TIME {
        Some(CONNECT_TIME)
    } else {
        Some((deadline - now) as u64)
    }
}

/// The time that a call before `deadline` is given.
pub fn call_time(deadline: u64, now: u64) -> (time: Option<u64>)
    ensures
        time == given_time(deadline, now),
{
    if now >= deadline {
        None
    } else if deadline - now > CONNECT_TIME {
        Some(CONNECT_TIME)
    } else {
        Some(deadline - now)
    }
}

/// The stages of a verification, in their order.
#[derive(Debug, Clone, Copy, PartialEq, Eq, Structural)]
pub enum EstablishedPairingVerificationStage {
    /// A verification is attempted.
    AttemptPairVerify,
    /// The pairing is validated.
    ValidatePairing,
}

impl EstablishedPairingVerificationStage {
    /// The stage's name.
    pub open spec fn text(self) -> &'static str {
        match self {
            EstablishedPairingVerificationStage::AttemptPairVerify => "attempt_pair_verify",
            EstablishedPairingVerificationStage::ValidatePairing => "validate_pairing",
        }
    }

    /// The stage's name.
    pub fn as_str(self) -> (text: &'static str)
        ensures
            text == self.text(),
    {
        match self {
            EstablishedPairingVerificationStage::AttemptPairVerify => "attempt_pair_verify",
            EstablishedPairingVerificationStage::ValidatePairing => "validate_pairing",
        }
    }
}

impl EstablishedPairingVerificationStage {
    /// The kind of the error where the stage takes too long.
    pub open spec fn overtime(self) -> &'static str {
        match self {
            EstablishedPairingVerificationStage::AttemptPairVerify => "attempt_pair_verify_timeout",
            EstablishedPairingVerificationStage::ValidatePairing => "validate_pairing_timeout",
        }
    }

    /// The kind of the error where the stage takes too long.
    pub fn overtime_kind(self) -> (text: &'static str)
        ensures
            text == self.overtime(),
    {
        match self {
            EstablishedPairingVerificationStage::AttemptPairVerify => "attempt_pair_verify_timeout",
            EstablishedPairingVerificationStage::ValidatePairing => "validate_pairing_timeout",
        }
    }
}

/// The failure of a verification.
#[derive(Debug, Clone, Copy, PartialEq, Eq)]
pub struct EstablishedPairingVerificationFailure {
    /// The stage that failed.
    pub stage: EstablishedPairingVerificationStage,
    /// Whether it took too long or went wrong.
    pub result: &'static str,
    /// The kind of the error.
    pub error_kind: &'static str,
    /// The number of the fault of the pairing protocol, where it was one.
    pub remote_pairing_subcode: Option<i32>,
}

/// The failure of a stage on a fault of the device.
pub open spec fn faulted(
    stage: EstablishedPairingVerificationStage,
    fault: DeviceFault,
) -> EstablishedPairingVerificationFailure {
    EstablishedPairingVerificationFailure {
        stage,
        result: "error",
        error_kind: fault.text(),
        remote_pairing_subcode: fault.subcode_of(),
    }
}

/// The failure of a stage that took too long.
pub open spec fn overdue(
    stage: EstablishedPairingVerificationStage,
) -> EstablishedPairingVerificationFailure {
    EstablishedPairingVerificationFailure {
        stage,
        result: "timeout",
        error_kind: stage.overtime(),
        remote_pairing_subcode: None,
    }
}

/// The failure of a stage for which no time was left.
pub open spec fn outlived(
    stage: EstablishedPairingVerificationStage,
) -> EstablishedPairingVerificationFailure {
    EstablishedPairingVerificationFailure {
        stage,
        result: "timeout",
        error_kind: "session_expired",
        remote_pairing_subcode: None,
    }
}

impl EstablishedPairingVerificationFailure {
    /// The failure of a stage on a fault of the device.
    pub fn from_error(
        stage: EstablishedPairingVerificationStage,
        fault: DeviceFault,
    ) -> (failure: Self)
        ensures
            failure == faulted(stage, fault),
    {
        EstablishedPairingVerificationFailure {
            stage,
            result: "error",
            error_kind: fault.kind(),
            remote_pairing_subcode: fault.remote_pairing_subcode(),
        }
    }

    /// The failure of a stage that took too long.
    pub fn timeout(stage: EstablishedPairingVerificationStage) -> (failure: Self)
        ensures
            failure == overdue(stage),
    {
        EstablishedPairingVerificationFailure {
            stage,
            result: "timeout",
            error_kind: stage.overtime_kind(),
            remote_pairing_subcode: None,
        }
    }

    /// The failure of a stage for which no time was left.
    pub fn expired(stage: EstablishedPairingVerificationStage) -> (failure: Self)
        ensures
            failure == outlived(stage),
    {
        EstablishedPairingVerificationFailure {
            stage,
            result: "timeout",
            error_kind: "session_expired",
            remote_pairing_subcode: None,
        }
    }
}

/// The time that a verification has.
#[derive(Debug, Clone, Copy, PartialEq, Eq, Structural)]
pub enum EstablishedPairingVerificationTiming {
    /// It ends at a moment, in nanoseconds.
    Deadline(u64),
    /// Each stage is given this many nanoseconds.
    PerStep(u64),
}

impl EstablishedPairingVerificationTiming {
    /// The time that a stage is given, or its failure where none is left.
    pub open spec fn allowance(
        self,
        stage: EstablishedPairingVerificationStage,
        now: u64,
    ) -> Result<u64, EstablishedPairingVerificationFailure> {
        match self {
            EstablishedPairingVerificationTiming::Deadline(deadline) => match given_time(
                deadline,
                now,
            ) {
                Some(time) => Ok(time),
                None => Err(outlived(stage)),
            },
            EstablishedPairingVerificationTiming::PerStep(time) => Ok(time),
        }
    }

    /// The time that a stage is given, or its failure where none is left.
    pub fn timeout_for(
        self,
        stage: EstablishedPairingVerificationStage,
        now: u64,
    ) -> (time: Result<u64, EstablishedPairingVerificationFailure>)
        ensures
            time == self.allowance(stage, now),
    {
        match self {
            EstablishedPairingVerificationTiming::Deadline(deadline) => match call_time(
                deadline,
                now,
            ) {
                Some(time) => Ok(time),
                None => Err(EstablishedPairingVerificationFailure::expired(stage)),
            },
            EstablishedPairingVerificationTiming::PerStep(time) => Ok(time),
        }
    }
}

/// What comes after a stage.
#[derive(Debug, Clone, Copy, PartialEq, Eq)]
pub enum VerificationTurn {
    /// The next stage is to be taken.
    Next(EstablishedPairingVerificationStage),
    /// The pairing is verified.
    Verified,
    /// It is not.
    Failed(EstablishedPairingVerificationFailure),
}

impl EstablishedPairingVerificationStage {
    /// What comes after the stage.
    pub open spec fn turn(self, outcome: CallOutcome) -> VerificationTurn {
        match outcome {
            CallOutcome::Completed => match self {
                EstablishedPairingVerificationStage::AttemptPairVerify => VerificationTurn::Next(
                    EstablishedPairingVerificationStage::ValidatePairing,
                ),
                EstablishedPairingVerificationStage::ValidatePairing => VerificationTurn::Verified,
            },
            CallOutcome::Faulted(fault) => VerificationTurn::Failed(faulted(self, fault)),
            CallOutcome::TimedOut => VerificationTurn::Failed(overdue(self)),
        }
    }

    /// What comes after the stage.
    pub fn advance(self, outcome: CallOutcome) -> (turn: VerificationTurn)
        ensures
            turn == self.turn(outcome),
    {
        match outcome {
            CallOutcome::Completed => match self {
                EstablishedPairingVerificationStage::AttemptPairVerify => VerificationTurn::Next(
                    EstablishedPairingVerificationStage::ValidatePairing,
                ),
                EstablishedPairingVerificationStage::ValidatePairing => VerificationTurn::Verified,
            },
            CallOutcome::Faulted(fault) => VerificationTurn::Failed(
                EstablishedPairingVerificationFailure::from_error(self, fault),
            ),
            CallOutcome::TimedOut => VerificationTurn::Failed(
                EstablishedPairingVerificationFailure::timeout(self),
            ),
        }
    }
}

/// Where a verification stands after some calls.
pub open spec fn verification_after(outcomes: Seq<CallOutcome>) -> VerificationTurn
    decreases outcomes.len(),
{
    if outcomes.len() == 0 {
        VerificationTurn::Next(EstablishedPairingVerificationStage::AttemptPairVerify)
    } else {
        match verification_after(outcomes.drop_last()) {
            VerificationTurn::Next(stage) => stage.turn(outcomes.last()),
            turn => turn,
        }
    }
}

/// A pairing is verified exactly where both the attempt and the validation complete.
pub proof fn verified_pairings_pass_both_stages(attempt: CallOutcome, validation: CallOutcome)
    ensures
        verification_after(seq![attempt, validation]) is Verified <==> attempt
            == CallOutcome::Completed && validation == CallOutcome::Completed,
{
    let both = seq![attempt, validation];
    assert(both.drop_last() == seq![attempt]);
    assert(seq![attempt].drop_last() == Seq::<CallOutcome>::empty());
    reveal_with_fuel(verification_after, 3);
}

/// A call is given the time that is left, but no more than ten seconds, and is not made where none
/// is left.
pub proof fn calls_are_given_what_is_left(deadline: u64, now: u64)
    ensures
        deadline <= now ==> given_time(deadline, now) is None,
        now < deadline <= now + 10_000_000_000 ==> given_time(deadline, now) == Some(
            (deadline - now) as u64,
        ),
        deadline > now + 10_000_000_000 ==> given_time(deadline, now) == Some(10_000_000_000u64),
{
}

/// A verification with a deadline gives each stage what is left, and fails as expired where nothing
/// is; one without gives each stage the same time.
pub proof fn stages_are_given_their_time(
    stage: EstablishedPairingVerificationStage,
    time: u64,
    deadline: u64,
    now: u64,
)
    ensures
        EstablishedPairingVerificationTiming::PerStep(time).allowance(stage, now) == Ok::<
            u64,
            EstablishedPairingVerificationFailure,
        >(time),
        given_time(deadline, now) is Some ==> EstablishedPairingVerificationTiming::Deadline(
            deadline,
        ).allowance(stage, now) == Ok::<u64, EstablishedPairingVerificationFailure>(
            given_time(deadline, now)->0,
        ),
        deadline <= now ==> {
            let result = EstablishedPairingVerificationTiming::Deadline(deadline).allowance(
                stage,
                now,
            );
            &&& result is Err
            &&& result->Err_0.stage == stage
            &&& result->Err_0.result@ == "timeout"@
            &&& result->Err_0.error_kind@ == "session_expired"@
            &&& result->Err_0.remote_pairing_subcode is None
        },
{
}

/// A stage that fails is told with its name and why: the kind of the fault and its number, or that
/// the stage took too long.
pub proof fn failed_stages_are_told(
    stage: EstablishedPairingVerificationStage,
    fault: DeviceFault,
)
    ensures
        EstablishedPairingVerificationStage::AttemptPairVerify.text()@ == "attempt_pair_verify"@,
        EstablishedPairingVerificationStage::ValidatePairing.text()@ == "validate_pairing"@,
        ({
            let turn = stage.turn(CallOutcome::Faulted(fault));
            &&& turn is Failed
            &&& turn->Failed_0.stage == stage
            &&& turn->Failed_0.result@ == "error"@
            &&& turn->Failed_0.error_kind@ == fault.text()@
            &&& turn->Failed_0.remote_pairing_subcode == fault.subcode_of()
        }),
        ({
            let turn = stage.turn(CallOutcome::TimedOut);
            &&& turn is Failed
            &&& turn->Failed_0.stage == stage
            &&& turn->Failed_0.result@ == "timeout"@
            &&& turn->Failed_0.error_kind@ == stage.text()@ + "_timeout"@
            &&& turn->Failed_0.remote_pairing_subcode is None
        }),
{
    reveal_strlit("attempt_pair_verify");
    reveal_strlit("validate_pairing");
    reveal_strlit("attempt_pair_verify_timeout");
    reveal_strlit("validate_pairing_timeout");
    reveal_strlit("_timeout");
    assert("attempt_pair_verify"@ + "_timeout"@ =~= "attempt_pair_verify_timeout"@);
    assert("validate_pairing"@ + "_timeout"@ =~= "validate_pairing_timeout"@);
}

} // verus!
