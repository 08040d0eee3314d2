//! Probes of the device's services that change nothing: one service is looked up, connected to and
//! asked once, and the session is closed in any case.
use vstd::prelude::*;

use crate::established;
use crate::faults::{CallOutcome, IoFault};
use crate::stages::{
    ReadOnlyProbeFailure, ReadOnlyProbeService, ReadOnlyProbeStage, RsdProbeFailure,
};

verus! {

/// The time that a service is given to answer, in nanoseconds.
pub const QUERY_TIME: u64 = 20_000_000_000;

/// The time that a whole probe is given, in nanoseconds.
pub const PROBE_TIME: u64 = 60_000_000_000;

/// What is logged of a probe that failed.
#[derive(Debug, Clone, Copy, PartialEq, Eq)]
pub struct ProbeDiagnostic {
    pub service: ReadOnlyProbeService,
    pub stage: ReadOnlyProbeStage,
    pub operation: &'static str,
    pub result: &'static str,
    pub error_kind: &'static str,
}

impl ProbeDiagnostic {
    /// The failure that is told.
    pub fn failure(self) -> (failure: ReadOnlyProbeFailure)
        ensures
            failure.stage == self.stage,
    {
        ReadOnlyProbeFailure { stage: self.stage }
    }
}

/// The probe of a service to which no session could be opened.
pub fn unopened(service: ReadOnlyProbeService, failure: RsdProbeFailure) -> (diagnostic:
    ProbeDiagnostic)
    ensures
        diagnostic.service == service,
        diagnostic.stage == failure.stage.read_only_stage(),
        diagnostic.operation == "setup",
        diagnostic.result == "error",
        diagnostic.error_kind == "unavailable",
{
    ProbeDiagnostic {
        service,
        stage: ReadOnlyProbeStage::from(failure.stage),
        operation: "setup",
        result: "error",
        error_kind: "unavailable",
    }
}

/// A probe whose whole time ran out at a stage.
pub open spec fn overdue(
    service: ReadOnlyProbeService,
    stage: ReadOnlyProbeStage,
) -> ProbeDiagnostic {
    ProbeDiagnostic {
        service,
        stage,
        operation: stage.operation_text(),
        result: "timeout",
        error_kind: "timeout",
    }
}

/// A probe whose whole time ran out at a stage.
pub fn out_of_time(service: ReadOnlyProbeService, stage: ReadOnlyProbeStage) -> (diagnostic:
    ProbeDiagnostic)
    ensures
        diagnostic == overdue(service, stage),
{
    ProbeDiagnostic {
        service,
        stage,
        operation: stage.operation(),
        result: "timeout",
        error_kind: "timeout",
    }
}

/// The steps of a probe, in their order.
#[derive(Debug, Clone, Copy, PartialEq, Eq, Structural)]
pub enum ProbeStep {
    /// The service is looked up.
    Lookup,
    /// The service is connected to.
    Connect,
    /// The client is set up.
    Init,
    /// The service is asked.
    Query,
}

/// What comes after a step.
#[derive(Debug, Clone, Copy, PartialEq, Eq)]
pub enum ProbeTurn {
    /// The next step is to be taken.
    Next(ProbeStep),
    /// The service has answered.
    Answered,
    /// The service cannot be used.
    Failed(ProbeDiagnostic),
}

impl ProbeStep {
    /// The step's number in the order.
    pub open spec fn number(self) -> int {
        match self {
            ProbeStep::Lookup => 0,
            ProbeStep::Connect => 1,
            ProbeStep::Init => 2,
            ProbeStep::Query => 3,
        }
    }

    /// The stage that the step belongs to.
    pub open spec fn stage_of(self, service: ReadOnlyProbeService) -> ReadOnlyProbeStage {
        match self {
            ProbeStep::Lookup => ReadOnlyProbeStage::ServiceLookup,
            ProbeStep::Connect => ReadOnlyProbeStage::ServiceConnect,
            ProbeStep::Init => ReadOnlyProbeStage::ClientInit,
            ProbeStep::Query => match service {
                ReadOnlyProbeService::Afc => ReadOnlyProbeStage::AfcQuery,
                ReadOnlyProbeService::InstallationProxy => ReadOnlyProbeStage::AppLookup,
            },
        }
    }

    /// The stage that the step belongs to.
    pub fn stage(self, service: ReadOnlyProbeService) -> (stage: ReadOnlyProbeStage)
        ensures
            stage == self.stage_of(service),
    {
        match self {
            ProbeStep::Lookup => ReadOnlyProbeStage::ServiceLookup,
            ProbeStep::Connect => ReadOnlyProbeStage::ServiceConnect,
            ProbeStep::Init => ReadOnlyProbeStage::ClientInit,
            ProbeStep::Query => match service {
                ReadOnlyProbeService::Afc => ReadOnlyProbeStage::AfcQuery,
                ReadOnlyProbeService::InstallationProxy => ReadOnlyProbeStage::AppLookup,
            },
        }
    }

    /// The time that the step is given, in nanoseconds.
    pub fn time(self) -> (time: u64)
        ensures
            time == if self is Query {
                QUERY_TIME
            } else {
                established::CONNECT_TIME
            },
    {
        match self {
            ProbeStep::Query => QUERY_TIME,
            _ => established::CONNECT_TIME,
        }
    }

    /// What is logged where the step does not complete. The lookup fails only where the service is
    /// missing.
    pub open spec fn diagnosis(
        self,
        service: ReadOnlyProbeService,
        outcome: CallOutcome,
    ) -> ProbeDiagnostic {
        let stage = self.stage_of(service);
        match (self, outcome) {
            (ProbeStep::Lookup, _) => ProbeDiagnostic {
                service,
                stage,
                operation: "service_lookup",
                result: "missing",
                error_kind: "service_not_found",
            },
            (_, CallOutcome::Faulted(fault)) => ProbeDiagnostic {
                service,
                stage,
                operation: stage.operation_text(),
                result: "error",
                error_kind: fault.text(),
            },
            _ => overdue(service, stage),
        }
    }

    /// What comes after the step.
    pub open spec fn turn(self, service: ReadOnlyProbeService, outcome: CallOutcome) -> ProbeTurn {
        if outcome is Completed {
            match self {
                ProbeStep::Lookup => ProbeTurn::Next(ProbeStep::Connect),
                ProbeStep::Connect => ProbeTurn::Next(ProbeStep::Init),
                ProbeStep::Init => ProbeTurn::Next(ProbeStep::Query),
                ProbeStep::Query => ProbeTurn::Answered,
            }
        } else {
            ProbeTurn::Failed(self.diagnosis(service, outcome))
        }
    }

    /// What comes after the step.
    pub fn advance(self, service: ReadOnlyProbeService, outcome: CallOutcome) -> (turn: ProbeTurn)
        ensures
            turn == self.turn(service, outcome),
    {
        let stage: ReadOnlyProbeStage = self.stage(service);
        let missing: bool = match self {
            ProbeStep::Lookup => true,
            _ => false,
        };
        match outcome {
            CallOutcome::Completed => match self {
                ProbeStep::Lookup => ProbeTurn::Next(ProbeStep::Connect),
                ProbeStep::Connect => ProbeTurn::Next(ProbeStep::Init),
                ProbeStep::Init => ProbeTurn::Next(ProbeStep::Query),
                ProbeStep::Query => ProbeTurn::Answered,
            },
            _ if missing => ProbeTurn::Failed(
                ProbeDiagnostic {
                    service,
                    stage,
                    operation: "service_lookup",
                    result: "missing",
                    error_kind: "service_not_found",
                },
            ),
            CallOutcome::Faulted(fault) => ProbeTurn::Failed(
                ProbeDiagnostic {
                    service,
                    stage,
                    operation: stage.operation(),
                    result: "error",
                    error_kind: fault.kind(),
                },
            ),
            CallOutcome::TimedOut => ProbeTurn::Failed(out_of_time(service, stage)),
        }
    }
}

/// How closing the session has ended.
#[derive(Debug, Clone, Copy, PartialEq, Eq, Structural)]
pub enum CloseOutcome {
    Closed,
    Failed(IoFault),
    TimedOut,
}

/// What is logged where the session could not be closed.
pub open spec fn unclosed(service: ReadOnlyProbeService, outcome: CloseOutcome) -> Option<
    ProbeDiagnostic,
> {
    match outcome {
        CloseOutcome::Closed => None,
        CloseOutcome::Failed(fault) => Some(
            ProbeDiagnostic {
                service,
                stage: ReadOnlyProbeStage::Cleanup,
                operation: "cleanup",
                result: "error",
                error_kind: fault.text(),
            },
        ),
        CloseOutcome::TimedOut => Some(overdue(service, ReadOnlyProbeStage::Cleanup)),
    }
}

/// What is logged where the session could not be closed.
pub fn cleanup_diagnostic(service: ReadOnlyProbeService, outcome: CloseOutcome) -> (diagnostic:
    Option<ProbeDiagnostic>)
    ensures
        diagnostic == unclosed(service, outcome),
{
    match outcome {
        CloseOutcome::Closed => None,
        CloseOutcome::Failed(fault) => Some(
            ProbeDiagnostic {
                service,
                stage: ReadOnlyProbeStage::Cleanup,
                operation: "cleanup",
                result: "error",
                error_kind: fault.kind(),
            },
        ),
        CloseOutcome::TimedOut => Some(out_of_time(service, ReadOnlyProbeStage::Cleanup)),
    }
}

/// The result of a probe whose session was to be closed: the probe's own failure comes before that
/// of closing.
pub open spec fn completed(
    primary: Result<(), ReadOnlyProbeFailure>,
    closed: CloseOutcome,
) -> Result<(), ReadOnlyProbeFailure> {
    match primary {
        Err(failure) => Err(failure),
        Ok(()) => if closed is Closed {
            Ok(())
        } else {
            Err(ReadOnlyProbeFailure { stage: ReadOnlyProbeStage::Cleanup })
        },
    }
}

/// The result of a probe whose session was to be closed, and what is logged of closing it.
pub fn complete_read_only_probe(
    service: ReadOnlyProbeService,
    primary: Result<(), ReadOnlyProbeFailure>,
    closed: CloseOutcome,
) -> (result: (Result<(), ReadOnlyProbeFailure>, Option<ProbeDiagnostic>))
    ensures
        result.0 == completed(primary, closed),
        result.1 == unclosed(service, closed),
{
    let diagnostic: Option<ProbeDiagnostic> = cleanup_diagnostic(service, closed);
    let outcome: Result<(), ReadOnlyProbeFailure> = match primary {
        Err(failure) => Err(failure),
        Ok(()) => match diagnostic {
            Some(diagnostic) => Err(diagnostic.failure()),
            None => Ok(()),
        },
    };
    (outcome, diagnostic)
}

/// A probe succeeds exactly where the service answered and the session was closed.
pub proof fn probes_close_their_sessions(
    primary: Result<(), ReadOnlyProbeFailure>,
    closed: CloseOutcome,
)
    ensures
        completed(primary, closed) is Ok <==> primary is Ok && closed is Closed,
        primary is Err ==> completed(primary, closed) == primary,
{
}

/// A service is looked up, connected to, set up and asked, in this order, and then has answered.
pub proof fn services_are_asked_in_order(service: ReadOnlyProbeService, step: ProbeStep)
    ensures
        ProbeStep::Lookup.turn(service, CallOutcome::Completed) == ProbeTurn::Next(
            ProbeStep::Connect,
        ),
        ProbeStep::Connect.turn(service, CallOutcome::Completed) == ProbeTurn::Next(
            ProbeStep::Init,
        ),
        ProbeStep::Init.turn(service, CallOutcome::Completed) == ProbeTurn::Next(ProbeStep::Query),
        step.turn(service, CallOutcome::Completed) is Answered <==> step is Query,
{
}

/// A step that does not complete is told with its service, its stage and why: the service was
/// missing, the device failed, or the time ran out.
pub proof fn failed_probes_are_told(
    service: ReadOnlyProbeService,
    step: ProbeStep,
    outcome: CallOutcome,
)
    requires
        !(outcome is Completed),
    ensures
        ({
            let turn = step.turn(service, outcome);
            let told = turn->Failed_0;
            &&& turn is Failed
            &&& told.service == service
            &&& step is Lookup ==> told.stage.text()@ == "serviceLookup"@ && told.operation@
                == "service_lookup"@ && told.result@ == "missing"@ && told.error_kind@
                == "service_not_found"@
            &&& step is Connect ==> told.stage.text()@ == "serviceConnect"@ && told.operation@
                == "service_connect"@
            &&& step is Init ==> told.stage.text()@ == "clientInit"@ && told.operation@
                == "client_init"@
            &&& step is Query && service is Afc ==> told.stage.text()@ == "afcQuery"@
                && told.operation@ == "afc_query"@
            &&& step is Query && service is InstallationProxy ==> told.stage.text()@
                == "appLookup"@ && told.operation@ == "app_lookup"@
            &&& !(step is Lookup) && outcome is TimedOut ==> told.result@ == "timeout"@
                && told.error_kind@ == "timeout"@
            &&& !(step is Lookup) && outcome is Faulted ==> told.result@ == "error"@
                && told.error_kind@ == outcome->Faulted_0.text()@
        }),
{
}

/// A probe that takes too long, or a session that is not closed, is told at its stage.
pub proof fn overdue_probes_are_told(
    service: ReadOnlyProbeService,
    stage: ReadOnlyProbeStage,
    closed: CloseOutcome,
    primary: Result<(), ReadOnlyProbeFailure>,
)
    ensures
        overdue(service, stage).service == service,
        overdue(service, stage).stage == stage,
        overdue(service, stage).operation@ == stage.operation_text()@,
        overdue(service, stage).result@ == "timeout"@,
        overdue(service, stage).error_kind@ == "timeout"@,
        closed is Closed ==> unclosed(service, closed) is None,
        !(closed is Closed) ==> unclosed(service, closed) is Some && unclosed(
            service,
            closed,
        )->0.stage.text()@ == "cleanup"@ && unclosed(service, closed)->0.operation@ == "cleanup"@
            && unclosed(service, closed)->0.service == service,
        closed matches CloseOutcome::Failed(fault) ==> unclosed(service, closed)->0.result@
            == "error"@ && unclosed(service, closed)->0.error_kind@ == fault.text()@,
        closed is TimedOut ==> unclosed(service, closed)->0.result@ == "timeout"@,
        primary is Ok && !(closed is Closed) ==> completed(primary, closed)->Err_0.stage.text()@
            == "cleanup"@,
        QUERY_TIME == 20_000_000_000,
        PROBE_TIME == 60_000_000_000,
{
}

} // verus!
