//! Installation jobs: how they are requested, what they record, and what is told of them.
use crate::devices;
use crate::devices::{DeviceSummary, TransportError};
use crate::record;
use crate::record::RecordId;
use crate::reply;
use crate::reply::Reply;
use crate::store;
use crate::store::{RefreshTarget, StoredJob};
use crate::text;
use vstd::prelude::*;
use vstd::string::*;

verus! {

/// The phase of a job that was just created. Later phases are stored as texts.
#[derive(Debug, Clone, Copy, PartialEq, Eq, Structural)]
pub enum JobPhase {
    Queued,
}

/// A job as it is answered when it is created.
#[derive(Debug)]
pub struct InstallJob {
    pub id: RecordId,
    pub phase: JobPhase,
    pub progress_percent: Option<u8>,
    pub public_message: String,
}

/// A job for an app as it is answered when it is created.
pub fn queued_job(id: RecordId, app_id: RecordId) -> (job: InstallJob)
    ensures
        job.id == id,
        job.phase is Queued,
        job.progress_percent is None,
        job.public_message@ == "Signing and installation job queued for app "@ + record::uuid_text(
            app_id.bits,
        ) + "."@,
{
    let mut public_message: String = "Signing and installation job queued for app ".to_owned();
    public_message.append(app_id.text().as_str());
    public_message.append(".");
    InstallJob { id, phase: JobPhase::Queued, progress_percent: None, public_message }
}

// ---------------------------------------------------------------------------------------------
// Requests.
// ---------------------------------------------------------------------------------------------

/// The steps by which a job is requested, in their order.
#[derive(Debug, Clone, Copy, PartialEq, Eq, Structural)]
pub enum JobRequestStep {
    /// A signing session is there.
    Session,
    /// The devices were listed.
    Devices,
    /// The device is among them.
    Device,
    /// The IPA is stored, and the job with it.
    Store,
}

#[derive(Debug, Clone, Copy)]
pub enum JobRequestTurn {
    Next(JobRequestStep),
    Refuse(Reply),
    /// The job runs: status 202.
    Accepted,
}

impl JobRequestStep {
    pub open spec fn turn(self, succeeded: bool) -> JobRequestTurn {
        match (self, succeeded) {
            (JobRequestStep::Session, true) => JobRequestTurn::Next(JobRequestStep::Devices),
            (JobRequestStep::Devices, true) => JobRequestTurn::Next(JobRequestStep::Device),
            (JobRequestStep::Device, true) => JobRequestTurn::Next(JobRequestStep::Store),
            (JobRequestStep::Store, true) => JobRequestTurn::Accepted,
            (JobRequestStep::Session, false) => JobRequestTurn::Refuse(
                reply::told(
                    409,
                    "Apple signing is not ready. Sign in before creating an installation job.",
                ),
            ),
            (JobRequestStep::Devices, false) => JobRequestTurn::Refuse(
                reply::told(
                    503,
                    "Wi-Fi device discovery is unavailable. Check netmuxd and try again.",
                ),
            ),
            (JobRequestStep::Device, false) => JobRequestTurn::Refuse(
                reply::told(
                    404,
                    "The requested iPhone was not found on the trusted Wi-Fi transport.",
                ),
            ),
            (JobRequestStep::Store, false) => JobRequestTurn::Refuse(
                reply::told(404, "Uploaded IPA was not found."),
            ),
        }
    }

    /// What comes after the step.
    pub fn advance(self, succeeded: bool) -> (turn: JobRequestTurn)
        ensures
            turn == self.turn(succeeded),
    {
        match (self, succeeded) {
            (JobRequestStep::Session, true) => JobRequestTurn::Next(JobRequestStep::Devices),
            (JobRequestStep::Devices, true) => JobRequestTurn::Next(JobRequestStep::Device),
            (JobRequestStep::Device, true) => JobRequestTurn::Next(JobRequestStep::Store),
            (JobRequestStep::Store, true) => JobRequestTurn::Accepted,
            (JobRequestStep::Session, false) => JobRequestTurn::Refuse(
                Reply::told(
                    409,
                    "Apple signing is not ready. Sign in before creating an installation job.",
                ),
            ),
            (JobRequestStep::Devices, false) => JobRequestTurn::Refuse(
                Reply::told(
                    503,
                    "Wi-Fi device discovery is unavailable. Check netmuxd and try again.",
                ),
            ),
            (JobRequestStep::Device, false) => JobRequestTurn::Refuse(
                Reply::told(
                    404,
                    "The requested iPhone was not found on the trusted Wi-Fi transport.",
                ),
            ),
            (JobRequestStep::Store, false) => JobRequestTurn::Refuse(
                Reply::told(404, "Uploaded IPA was not found."),
            ),
        }
    }
}

/// Where a request stands after some steps: the turn that the last one gave.
pub open spec fn job_request_after(outcomes: Seq<bool>) -> JobRequestTurn
    decreases outcomes.len(),
{
    if outcomes.len() == 0 {
        JobRequestTurn::Next(JobRequestStep::Session)
    } else {
        match job_request_after(outcomes.drop_last()) {
            JobRequestTurn::Next(step) => step.turn(outcomes.last()),
            turn => turn,
        }
    }
}

/// A job runs only after every step has succeeded: there was a signing session, the device was
/// among those on the network, and the IPA was stored.
pub proof fn jobs_take_every_step(outcomes: Seq<bool>)
    ensures
        job_request_after(outcomes) matches JobRequestTurn::Next(step) ==> outcomes.len() == match step {
            JobRequestStep::Session => 0int,
            JobRequestStep::Devices => 1,
            JobRequestStep::Device => 2,
            JobRequestStep::Store => 3,
        } && forall|i: int| 0 <= i < outcomes.len() ==> outcomes[i],
        job_request_after(outcomes) is Accepted ==> outcomes.len() >= 4 && forall|i: int|
            0 <= i < 4 ==> outcomes[i],
    decreases outcomes.len(),
{
    if outcomes.len() > 0 {
        let before = outcomes.drop_last();
        jobs_take_every_step(before);
        assert forall|i: int| 0 <= i < before.len() && before[i] implies outcomes[i] by {}
    }
}

// ---------------------------------------------------------------------------------------------
// Refreshes.
// ---------------------------------------------------------------------------------------------

/// The steps of a request for a refresh before a job is queued, in their order.
#[derive(Debug, Clone, Copy, PartialEq, Eq, Structural)]
pub enum RefreshStep {
    /// A signing session is there.
    Session,
    /// The devices were listed.
    Devices,
    /// The installations whose refresh is due were read.
    Targets,
}

/// What comes after a step of a request for a refresh.
#[derive(Debug, Clone, Copy)]
pub enum RefreshTurn {
    Next(RefreshStep),
    Refuse(Reply),
    /// The targets are gone through.
    Queue,
}

impl RefreshStep {
    /// The answer to a request that fails at the step.
    pub open spec fn refusal(self) -> Reply {
        match self {
            RefreshStep::Session => reply::told(
                409,
                "Apple signing is not ready. Sign in before refreshing apps.",
            ),
            RefreshStep::Devices => reply::told(
                503,
                "Wi-Fi device discovery is unavailable. Check netmuxd and try again.",
            ),
            RefreshStep::Targets => reply::told(500, "Unable to read refresh targets."),
        }
    }

    /// What comes after the step.
    pub open spec fn turn(self, succeeded: bool) -> RefreshTurn {
        if succeeded {
            match self {
                RefreshStep::Session => RefreshTurn::Next(RefreshStep::Devices),
                RefreshStep::Devices => RefreshTurn::Next(RefreshStep::Targets),
                RefreshStep::Targets => RefreshTurn::Queue,
            }
        } else {
            RefreshTurn::Refuse(self.refusal())
        }
    }

    /// What comes after the step.
    pub fn advance(self, succeeded: bool) -> (turn: RefreshTurn)
        ensures
            turn == self.turn(succeeded),
    {
        match (self, succeeded) {
            (RefreshStep::Session, true) => RefreshTurn::Next(RefreshStep::Devices),
            (RefreshStep::Devices, true) => RefreshTurn::Next(RefreshStep::Targets),
            (RefreshStep::Targets, true) => RefreshTurn::Queue,
            (RefreshStep::Session, false) => RefreshTurn::Refuse(
                Reply::told(409, "Apple signing is not ready. Sign in before refreshing apps."),
            ),
            (RefreshStep::Devices, false) => RefreshTurn::Refuse(
                Reply::told(
                    503,
                    "Wi-Fi device discovery is unavailable. Check netmuxd and try again.",
                ),
            ),
            (RefreshStep::Targets, false) => RefreshTurn::Refuse(
                Reply::told(500, "Unable to read refresh targets."),
            ),
        }
    }
}

/// What came of a target of a refresh.
#[derive(Debug, Clone, Copy, PartialEq, Eq, Structural)]
pub enum TargetOutcome {
    /// Its device is not among those on the network.
    Unreachable,
    /// A job for it is active, or that could not be read.
    Busy,
    /// Its job could not be stored.
    Unstored,
    /// It got a job.
    Queued,
}

/// What a refresh needs next.
#[derive(Debug, Clone, Copy, PartialEq, Eq, Structural)]
pub enum RefreshAsk {
    /// Whether a job for the target is active.
    Active { target: usize },
    /// A job for the target is stored, under the name of its device.
    Insert { target: usize, device: usize },
    /// The refresh is told, with status 202 and the number of its jobs.
    Told { queued: usize },
}

/// What a refresh learns.
#[derive(Debug, Clone, Copy, PartialEq, Eq, Structural)]
pub enum RefreshAnswer {
    /// Whether a job for the target is active, where that could be read.
    Active(Option<bool>),
    /// Whether the job was stored.
    Inserted(bool),
}

/// A refresh that goes through its targets in their order.
#[derive(Debug)]
pub struct RefreshRun {
    pub devices: Vec<DeviceSummary>,
    pub targets: Vec<RefreshTarget>,
    /// What came of the targets that were gone through.
    pub outcomes: Vec<TargetOutcome>,
    /// No job for the next target is active.
    pub free: bool,
}

/// The outcomes with those of the next targets whose devices are not on the network.
pub open spec fn passed_unreachable(
    devices: Seq<DeviceSummary>,
    targets: Seq<RefreshTarget>,
    outcomes: Seq<TargetOutcome>,
) -> Seq<TargetOutcome>
    decreases targets.len() - outcomes.len(),
{
    if outcomes.len() < targets.len() && !devices::is_listed(
        devices,
        targets[outcomes.len() as int].device_id,
    ) {
        passed_unreachable(devices, targets, outcomes.push(TargetOutcome::Unreachable))
    } else {
        outcomes
    }
}

/// How many targets got a job.
pub open spec fn queued_count(outcomes: Seq<TargetOutcome>) -> nat
    decreases outcomes.len(),
{
    if outcomes.len() == 0 {
        0
    } else {
        queued_count(outcomes.drop_last()) + if outcomes.last() == TargetOutcome::Queued {
            1nat
        } else {
            0
        }
    }
}

/// How far a refresh has come.
pub struct RefreshState {
    pub outcomes: Seq<TargetOutcome>,
    pub free: bool,
}

/// Where a refresh begins.
pub open spec fn refresh_begun(
    devices: Seq<DeviceSummary>,
    targets: Seq<RefreshTarget>,
) -> RefreshState {
    RefreshState {
        outcomes: passed_unreachable(devices, targets, Seq::empty()),
        free: false,
    }
}

/// How far a refresh has come with an answer. An answer to something else changes nothing.
pub open spec fn refresh_answered(
    devices: Seq<DeviceSummary>,
    targets: Seq<RefreshTarget>,
    state: RefreshState,
    answer: RefreshAnswer,
) -> RefreshState {
    if state.outcomes.len() >= targets.len() {
        state
    } else {
        match (state.free, answer) {
            (false, RefreshAnswer::Active(Some(false))) => RefreshState { free: true, ..state },
            (false, RefreshAnswer::Active(_)) => RefreshState {
                outcomes: passed_unreachable(
                    devices,
                    targets,
                    state.outcomes.push(TargetOutcome::Busy),
                ),
                free: false,
            },
            (true, RefreshAnswer::Inserted(stored)) => RefreshState {
                outcomes: passed_unreachable(
                    devices,
                    targets,
                    state.outcomes.push(
                        if stored {
                            TargetOutcome::Queued
                        } else {
                            TargetOutcome::Unstored
                        },
                    ),
                ),
                free: false,
            },
            _ => state,
        }
    }
}

/// A state that a refresh can be in: exactly the targets whose devices are not on the network were
/// passed by as unreachable, and the next one can be reached.
pub open spec fn is_refresh_state(
    devices: Seq<DeviceSummary>,
    targets: Seq<RefreshTarget>,
    state: RefreshState,
) -> bool {
    &&& state.outcomes.len() <= targets.len()
    &&& state.outcomes.len() < targets.len() ==> devices::is_listed(
        devices,
        targets[state.outcomes.len() as int].device_id,
    )
    &&& state.free ==> state.outcomes.len() < targets.len()
    &&& forall|i: int|
        0 <= i < state.outcomes.len() ==> (#[trigger] state.outcomes[i]
            == TargetOutcome::Unreachable) == !devices::is_listed(devices, targets[i].device_id)
}

proof fn lemma_passed_unreachable(
    devices: Seq<DeviceSummary>,
    targets: Seq<RefreshTarget>,
    outcomes: Seq<TargetOutcome>,
)
    requires
        outcomes.len() <= targets.len(),
        forall|i: int|
            0 <= i < outcomes.len() ==> (#[trigger] outcomes[i] == TargetOutcome::Unreachable)
                == !devices::is_listed(devices, targets[i].device_id),
    ensures
        is_refresh_state(
            devices,
            targets,
            RefreshState {
                outcomes: passed_unreachable(devices, targets, outcomes),
                free: false,
            },
        ),
        queued_count(passed_unreachable(devices, targets, outcomes)) == queued_count(outcomes),
        outcomes.is_prefix_of(passed_unreachable(devices, targets, outcomes)),
    decreases targets.len() - outcomes.len(),
{
    if outcomes.len() < targets.len() && !devices::is_listed(
        devices,
        targets[outcomes.len() as int].device_id,
    ) {
        let next = outcomes.push(TargetOutcome::Unreachable);
        assert(next.drop_last() == outcomes);
        lemma_passed_unreachable(devices, targets, next);
        let passed = passed_unreachable(devices, targets, next);
        assert(outcomes == passed.subrange(0, outcomes.len() as int)) by {
            assert(next == passed.subrange(0, next.len() as int));
            assert forall|i: int| 0 <= i < outcomes.len() implies outcomes[i] == passed[i] by {
                assert(next[i] == passed.subrange(0, next.len() as int)[i]);
            }
        }
    } else {
        assert(outcomes == outcomes.subrange(0, outcomes.len() as int));
    }
}

impl RefreshRun {
    /// How far the refresh has come.
    pub open spec fn state(self) -> RefreshState {
        RefreshState { outcomes: self.outcomes@, free: self.free }
    }

    pub open spec fn well_formed(self) -> bool {
        is_refresh_state(self.devices@, self.targets@, self.state())
    }

    /// Passes by the next targets whose devices are not on the network.
    fn pass_unreachable(&mut self)
        requires
            old(self).outcomes@.len() <= old(self).targets@.len(),
        ensures
            final(self).devices == old(self).devices,
            final(self).targets == old(self).targets,
            final(self).free == old(self).free,
            final(self).outcomes@ == passed_unreachable(
                old(self).devices@,
                old(self).targets@,
                old(self).outcomes@,
            ),
    {
        while self.outcomes.len() < self.targets.len() && devices::find_device(
            &self.devices,
            self.targets[self.outcomes.len()].device_id,
        ).is_none()
            invariant
                self.outcomes@.len() <= self.targets@.len(),
                self.devices == old(self).devices,
                self.targets == old(self).targets,
                self.free == old(self).free,
                passed_unreachable(self.devices@, self.targets@, self.outcomes@)
                    == passed_unreachable(
                    old(self).devices@,
                    old(self).targets@,
                    old(self).outcomes@,
                ),
            decreases self.targets@.len() - self.outcomes@.len(),
        {
            self.outcomes.push(TargetOutcome::Unreachable);
        }
    }

    /// A refresh of some targets over the devices on the network.
    pub fn new(devices: Vec<DeviceSummary>, targets: Vec<RefreshTarget>) -> (run: RefreshRun)
        ensures
            run.devices == devices,
            run.targets == targets,
            run.state() == refresh_begun(devices@, targets@),
            run.well_formed(),
    {
        let mut run: RefreshRun = RefreshRun {
            devices,
            targets,
            outcomes: Vec::new(),
            free: false,
        };
        run.pass_unreachable();
        proof {
            lemma_passed_unreachable(devices@, targets@, Seq::empty());
        }
        run
    }

    /// What the refresh needs next. Once every target was gone through it is told, with the number
    /// of targets that got a job.
    pub fn ask(&self) -> (ask: RefreshAsk)
        requires
            self.well_formed(),
        ensures
            match ask {
                RefreshAsk::Told { queued } => {
                    &&& self.outcomes@.len() == self.targets@.len()
                    &&& queued == queued_count(self.outcomes@)
                },
                RefreshAsk::Active { target } => {
                    &&& target == self.outcomes@.len()
                    &&& target < self.targets@.len()
                    &&& !self.free
                },
                RefreshAsk::Insert { target, device } => {
                    &&& target == self.outcomes@.len()
                    &&& target < self.targets@.len()
                    &&& self.free
                    &&& device < self.devices@.len()
                    &&& self.devices@[device as int].id == self.targets@[target as int].device_id
                    &&& forall|k: int|
                        0 <= k < device ==> (#[trigger] self.devices@[k]).id
                            != self.targets@[target as int].device_id
                },
            },
    {
        let target: usize = self.outcomes.len();
        if target < self.targets.len() {
            match devices::find_device(&self.devices, self.targets[target].device_id) {
                Some(device) if self.free => RefreshAsk::Insert { target, device },
                _ => RefreshAsk::Active { target },
            }
        } else {
            let mut queued: usize = 0;
            let mut i: usize = 0;
            while i < target
                invariant
                    i <= target,
                    target == self.outcomes@.len(),
                    queued <= i,
                    queued == queued_count(self.outcomes@.take(i as int)),
                decreases target - i,
            {
                proof {
                    assert(self.outcomes@.take(i + 1).drop_last() == self.outcomes@.take(i as int));
                }
                if self.outcomes[i] == TargetOutcome::Queued {
                    queued = queued + 1;
                }
                i = i + 1;
            }
            proof {
                assert(self.outcomes@.take(target as int) == self.outcomes@);
            }
            RefreshAsk::Told { queued }
        }
    }

    /// Takes in what the refresh asked for.
    pub fn answer(&mut self, answer: RefreshAnswer)
        requires
            old(self).well_formed(),
        ensures
            final(self).devices == old(self).devices,
            final(self).targets == old(self).targets,
            final(self).state() == refresh_answered(
                old(self).devices@,
                old(self).targets@,
                old(self).state(),
                answer,
            ),
            final(self).well_formed(),
    {
        proof {
            lemma_refresh_states(self.devices@, self.targets@, self.state(), answer);
        }
        if self.outcomes.len() >= self.targets.len() {
            return;
        }
        match (self.free, answer) {
            (false, RefreshAnswer::Active(Some(false))) => {
                self.free = true;
            },
            (false, RefreshAnswer::Active(_)) => {
                self.outcomes.push(TargetOutcome::Busy);
                self.pass_unreachable();
            },
            (true, RefreshAnswer::Inserted(stored)) => {
                self.free = false;
                self.outcomes.push(
                    if stored {
                        TargetOutcome::Queued
                    } else {
                        TargetOutcome::Unstored
                    },
                );
                self.pass_unreachable();
            },
            _ => {},
        }
    }
}

proof fn lemma_refresh_states(
    devices: Seq<DeviceSummary>,
    targets: Seq<RefreshTarget>,
    state: RefreshState,
    answer: RefreshAnswer,
)
    requires
        is_refresh_state(devices, targets, state),
    ensures
        is_refresh_state(devices, targets, refresh_answered(devices, targets, state, answer)),
        queued_count(refresh_answered(devices, targets, state, answer).outcomes) == queued_count(
            state.outcomes,
        ) + if state.free && answer == RefreshAnswer::Inserted(true) {
            1nat
        } else {
            0
        },
{
    if state.outcomes.len() < targets.len() {
        let busy = state.outcomes.push(TargetOutcome::Busy);
        let queued = state.outcomes.push(TargetOutcome::Queued);
        let unstored = state.outcomes.push(TargetOutcome::Unstored);
        assert(busy.drop_last() == state.outcomes);
        assert(queued.drop_last() == state.outcomes);
        assert(unstored.drop_last() == state.outcomes);
        lemma_passed_unreachable(devices, targets, busy);
        lemma_passed_unreachable(devices, targets, queued);
        lemma_passed_unreachable(devices, targets, unstored);
    }
}

/// How far a refresh has come with some answers.
pub open spec fn refresh_after(
    devices: Seq<DeviceSummary>,
    targets: Seq<RefreshTarget>,
    answers: Seq<RefreshAnswer>,
) -> RefreshState
    decreases answers.len(),
{
    if answers.len() == 0 {
        refresh_begun(devices, targets)
    } else {
        refresh_answered(
            devices,
            targets,
            refresh_after(devices, targets, answers.drop_last()),
            answers.last(),
        )
    }
}

/// How many jobs a refresh stored by some answers: those that it asked for and that were stored.
pub open spec fn jobs_added(
    devices: Seq<DeviceSummary>,
    targets: Seq<RefreshTarget>,
    answers: Seq<RefreshAnswer>,
) -> nat
    decreases answers.len(),
{
    if answers.len() == 0 {
        0
    } else {
        jobs_added(devices, targets, answers.drop_last()) + if refresh_after(
            devices,
            targets,
            answers.drop_last(),
        ).free && answers.last() == RefreshAnswer::Inserted(true) {
            1nat
        } else {
            0
        }
    }
}

/// The number that a refresh tells is the number of jobs that were stored for it. A target goes
/// without a question exactly where its device is not on the network.
pub proof fn refreshes_tell_the_jobs_they_added(
    devices: Seq<DeviceSummary>,
    targets: Seq<RefreshTarget>,
    answers: Seq<RefreshAnswer>,
)
    ensures
        queued_count(refresh_after(devices, targets, answers).outcomes) == jobs_added(
            devices,
            targets,
            answers,
        ),
        is_refresh_state(devices, targets, refresh_after(devices, targets, answers)),
    decreases answers.len(),
{
    if answers.len() == 0 {
        lemma_passed_unreachable(devices, targets, Seq::empty());
    } else {
        let before = answers.drop_last();
        refreshes_tell_the_jobs_they_added(devices, targets, before);
        lemma_refresh_states(
            devices,
            targets,
            refresh_after(devices, targets, before),
            answers.last(),
        );
    }
}

/// A job is stored for a target only where its device is on the network and it was just read that
/// no job for it is active.
pub proof fn only_free_targets_get_a_job(
    devices: Seq<DeviceSummary>,
    targets: Seq<RefreshTarget>,
    answers: Seq<RefreshAnswer>,
)
    requires
        refresh_after(devices, targets, answers).free,
    ensures
        ({
            let at = refresh_after(devices, targets, answers).outcomes.len() as int;
            &&& at < targets.len()
            &&& devices::is_listed(devices, targets[at].device_id)
            &&& exists|k: int|
                {
                    &&& 0 <= k < answers.len()
                    &&& #[trigger] answers[k] == RefreshAnswer::Active(Some(false))
                    &&& refresh_after(devices, targets, answers.take(k)).outcomes.len() == at
                }
        }),
    decreases answers.len(),
{
    refreshes_tell_the_jobs_they_added(devices, targets, answers);
    let before = answers.drop_last();
    let last = answers.len() - 1;
    let state = refresh_after(devices, targets, before);
    if state.free {
        only_free_targets_get_a_job(devices, targets, before);
        let k = choose|k: int|
            {
                &&& 0 <= k < before.len()
                &&& #[trigger] before[k] == RefreshAnswer::Active(Some(false))
                &&& refresh_after(devices, targets, before.take(k)).outcomes.len()
                    == state.outcomes.len()
            };
        assert(before.take(k) == answers.take(k));
        assert(answers[k] == before[k]);
    } else {
        assert(answers.take(last) == before);
        assert(answers[last] == RefreshAnswer::Active(Some(false)));
    }
}

/// A target whose device is on the network, for which no job is active and whose job could be
/// stored gets one.
pub proof fn free_targets_get_a_job(
    devices: Seq<DeviceSummary>,
    targets: Seq<RefreshTarget>,
    state: RefreshState,
)
    requires
        is_refresh_state(devices, targets, state),
        state.outcomes.len() < targets.len(),
        !state.free,
    ensures
        ({
            let read = refresh_answered(
                devices,
                targets,
                state,
                RefreshAnswer::Active(Some(false)),
            );
            let stored = refresh_answered(devices, targets, read, RefreshAnswer::Inserted(true));
            &&& read.free
            &&& stored.outcomes.len() > state.outcomes.len()
            &&& stored.outcomes[state.outcomes.len() as int] == TargetOutcome::Queued
        }),
{
    let queued = state.outcomes.push(TargetOutcome::Queued);
    lemma_passed_unreachable(devices, targets, queued);
    let passed = passed_unreachable(devices, targets, queued);
    assert(queued[state.outcomes.len() as int] == passed.subrange(
        0,
        queued.len() as int,
    )[state.outcomes.len() as int]);
}

/// What comes of a target where every question is answered and every job is stored: it gets a job
/// where its device is on the network and no job for it is active.
pub open spec fn expected_outcome(
    devices: Seq<DeviceSummary>,
    targets: Seq<RefreshTarget>,
    active: spec_fn(int) -> bool,
    at: int,
) -> TargetOutcome {
    if !devices::is_listed(devices, targets[at].device_id) {
        TargetOutcome::Unreachable
    } else if active(at) {
        TargetOutcome::Busy
    } else {
        TargetOutcome::Queued
    }
}

/// The answers to a refresh where everything can be read and stored, and `active` says for which
/// targets a job is active when that is asked.
pub open spec fn are_full_answers(
    devices: Seq<DeviceSummary>,
    targets: Seq<RefreshTarget>,
    active: spec_fn(int) -> bool,
    answers: Seq<RefreshAnswer>,
) -> bool
    decreases answers.len(),
{
    answers.len() == 0 || {
        let before = answers.drop_last();
        let state = refresh_after(devices, targets, before);
        &&& are_full_answers(devices, targets, active, before)
        &&& answers.last() == if state.free {
            RefreshAnswer::Inserted(true)
        } else {
            RefreshAnswer::Active(Some(active(state.outcomes.len() as int)))
        }
    }
}

proof fn lemma_passed_as_expected(
    devices: Seq<DeviceSummary>,
    targets: Seq<RefreshTarget>,
    active: spec_fn(int) -> bool,
    outcomes: Seq<TargetOutcome>,
)
    requires
        outcomes.len() <= targets.len(),
        forall|i: int|
            0 <= i < outcomes.len() ==> #[trigger] outcomes[i] == expected_outcome(
                devices,
                targets,
                active,
                i,
            ),
    ensures
        forall|i: int|
            0 <= i < passed_unreachable(devices, targets, outcomes).len()
                ==> #[trigger] passed_unreachable(devices, targets, outcomes)[i]
                == expected_outcome(devices, targets, active, i),
    decreases targets.len() - outcomes.len(),
{
    if outcomes.len() < targets.len() && !devices::is_listed(
        devices,
        targets[outcomes.len() as int].device_id,
    ) {
        lemma_passed_as_expected(
            devices,
            targets,
            active,
            outcomes.push(TargetOutcome::Unreachable),
        );
    }
}

/// Where everything can be read and stored, a job is stored for exactly the targets whose device is
/// on the network and for which no job is active.
pub proof fn refreshes_reach_every_free_target(
    devices: Seq<DeviceSummary>,
    targets: Seq<RefreshTarget>,
    active: spec_fn(int) -> bool,
    answers: Seq<RefreshAnswer>,
)
    requires
        are_full_answers(devices, targets, active, answers),
    ensures
        forall|i: int|
            0 <= i < refresh_after(devices, targets, answers).outcomes.len() ==> {
                (#[trigger] refresh_after(devices, targets, answers).outcomes[i]
                    == TargetOutcome::Queued) == (!active(i) && exists|d: int|
                    0 <= d < devices.len() && (#[trigger] devices[d]).id == targets[i].device_id)
            },
        forall|i: int|
            0 <= i < refresh_after(devices, targets, answers).outcomes.len() ==> #[trigger]
            refresh_after(devices, targets, answers).outcomes[i] == expected_outcome(
                devices,
                targets,
                active,
                i,
            ),
        refresh_after(devices, targets, answers).free ==> !active(
            refresh_after(devices, targets, answers).outcomes.len() as int,
        ),
    decreases answers.len(),
{
    refreshes_tell_the_jobs_they_added(devices, targets, answers);
    if answers.len() == 0 {
        lemma_passed_as_expected(devices, targets, active, Seq::empty());
    } else {
        let before = answers.drop_last();
        let state = refresh_after(devices, targets, before);
        refreshes_tell_the_jobs_they_added(devices, targets, before);
        refreshes_reach_every_free_target(devices, targets, active, before);
        if state.outcomes.len() < targets.len() {
            let at = state.outcomes.len() as int;
            if state.free {
                lemma_passed_as_expected(
                    devices,
                    targets,
                    active,
                    state.outcomes.push(TargetOutcome::Queued),
                );
            } else if active(at) {
                lemma_passed_as_expected(
                    devices,
                    targets,
                    active,
                    state.outcomes.push(TargetOutcome::Busy),
                );
            }
        }
    }
}

/// Where a request for a refresh stands after some steps: the turn that the last one gave.
pub open spec fn refresh_request_after(steps: Seq<bool>) -> RefreshTurn
    decreases steps.len(),
{
    if steps.len() == 0 {
        RefreshTurn::Next(RefreshStep::Session)
    } else {
        match refresh_request_after(steps.drop_last()) {
            RefreshTurn::Next(step) => step.turn(steps.last()),
            turn => turn,
        }
    }
}

/// How many jobs a request for a refresh stored.
pub open spec fn refresh_jobs(
    steps: Seq<bool>,
    devices: Seq<DeviceSummary>,
    targets: Seq<RefreshTarget>,
    answers: Seq<RefreshAnswer>,
) -> nat {
    if refresh_request_after(steps) is Queue {
        jobs_added(devices, targets, answers)
    } else {
        0
    }
}

/// Without a signing session, a list of the devices or the targets a request for a refresh is
/// refused, whatever else succeeds, and stores no job.
pub proof fn refused_refreshes_queue_nothing(
    steps: Seq<bool>,
    devices: Seq<DeviceSummary>,
    targets: Seq<RefreshTarget>,
    answers: Seq<RefreshAnswer>,
)
    ensures
        steps.len() == 0 ==> refresh_request_after(steps) == RefreshTurn::Next(
            RefreshStep::Session,
        ),
        steps.len() == 1 && steps[0] ==> refresh_request_after(steps) == RefreshTurn::Next(
            RefreshStep::Devices,
        ),
        steps.len() == 2 && steps[0] && steps[1] ==> refresh_request_after(steps)
            == RefreshTurn::Next(RefreshStep::Targets),
        steps.len() >= 3 && steps[0] && steps[1] && steps[2] ==> {
            &&& refresh_request_after(steps) is Queue
            &&& refresh_jobs(steps, devices, targets, answers) == jobs_added(
                devices,
                targets,
                answers,
            )
        },
        steps.len() >= 1 && !steps[0] ==> {
            &&& refresh_request_after(steps) == RefreshTurn::Refuse(RefreshStep::Session.refusal())
            &&& refresh_jobs(steps, devices, targets, answers) == 0
        },
        steps.len() >= 2 && steps[0] && !steps[1] ==> {
            &&& refresh_request_after(steps) == RefreshTurn::Refuse(RefreshStep::Devices.refusal())
            &&& refresh_jobs(steps, devices, targets, answers) == 0
        },
        steps.len() >= 3 && steps[0] && steps[1] && !steps[2] ==> {
            &&& refresh_request_after(steps) == RefreshTurn::Refuse(RefreshStep::Targets.refusal())
            &&& refresh_jobs(steps, devices, targets, answers) == 0
        },
    decreases steps.len(),
{
    if steps.len() > 0 {
        refused_refreshes_queue_nothing(steps.drop_last(), devices, targets, answers);
    }
}

// ---------------------------------------------------------------------------------------------
// Running.
// ---------------------------------------------------------------------------------------------

/// What happens to a job while it runs.
#[derive(Debug, Clone, Copy, PartialEq, Eq, Structural)]
pub enum JobEvent {
    Begun,
    Progress(u8),
    Installed,
    Failed(TransportError),
}

/// What is recorded of a job.
#[derive(Debug, Clone, Copy)]
pub enum JobUpdate {
    Status { phase: &'static str, progress: Option<u8> },
    /// The identifier under which the app was installed.
    InstalledBundle,
    /// The installation is managed again.
    Managed,
    Failure(&'static str),
}

/// The code under which a failure is recorded.
pub open spec fn failure_code_of(error: TransportError) -> &'static str {
    match error {
        TransportError::Unavailable => "iphone_unavailable",
        TransportError::DeviceInfoFailed => "device_info_failed",
        TransportError::DeveloperTeamFailed => "developer_team_failed",
        TransportError::DeviceRegistrationFailed => "device_registration_failed",
        TransportError::IpaSigningFailed => "ipa_signing_failed",
        TransportError::SignedMetadataFailed => "signed_metadata_failed",
        TransportError::DeviceInstallFailed => "device_install_failed",
    }
}

pub fn failure_code(error: TransportError) -> (code: &'static str)
    ensures
        code == failure_code_of(error),
{
    match error {
        TransportError::Unavailable => "iphone_unavailable",
        TransportError::DeviceInfoFailed => "device_info_failed",
        TransportError::DeveloperTeamFailed => "developer_team_failed",
        TransportError::DeviceRegistrationFailed => "device_registration_failed",
        TransportError::IpaSigningFailed => "ipa_signing_failed",
        TransportError::SignedMetadataFailed => "signed_metadata_failed",
        TransportError::DeviceInstallFailed => "device_install_failed",
    }
}

/// What an event records, in its order.
pub open spec fn updates_of(event: JobEvent) -> Seq<JobUpdate> {
    match event {
        JobEvent::Begun => seq![
            JobUpdate::Status { phase: "connecting", progress: Some(0u8) },
            JobUpdate::Status { phase: "signing", progress: Some(1u8) },
        ],
        JobEvent::Progress(progress) => seq![
            JobUpdate::Status {
                phase: if progress >= 40 {
                    "transferring"
                } else {
                    "signing"
                },
                progress: Some(progress),
            },
        ],
        JobEvent::Installed => seq![
            JobUpdate::InstalledBundle,
            JobUpdate::Managed,
            JobUpdate::Status { phase: "succeeded", progress: Some(100u8) },
        ],
        JobEvent::Failed(error) => seq![
            JobUpdate::Failure(failure_code_of(error)),
            JobUpdate::Status { phase: "failed", progress: None },
        ],
    }
}

/// What an event records, in its order.
pub fn job_updates(event: JobEvent) -> (updates: Vec<JobUpdate>)
    ensures
        updates@ == updates_of(event),
{
    match event {
        JobEvent::Begun => vec![
            JobUpdate::Status { phase: "connecting", progress: Some(0u8) },
            JobUpdate::Status { phase: "signing", progress: Some(1u8) },
        ],
        JobEvent::Progress(progress) => vec![
            JobUpdate::Status {
                phase: if progress >= 40 {
                    "transferring"
                } else {
                    "signing"
                },
                progress: Some(progress),
            },
        ],
        JobEvent::Installed => vec![
            JobUpdate::InstalledBundle,
            JobUpdate::Managed,
            JobUpdate::Status { phase: "succeeded", progress: Some(100u8) },
        ],
        JobEvent::Failed(error) => vec![
            JobUpdate::Failure(failure_code(error)),
            JobUpdate::Status { phase: "failed", progress: None },
        ],
    }
}

/// The last phase that an event records.
pub open spec fn last_phase(event: JobEvent) -> Seq<char> {
    match updates_of(event).last() {
        JobUpdate::Status { phase, .. } => phase@,
        _ => Seq::empty(),
    }
}

/// A job ends with its installation or its failure and not before: only these record a final
/// phase, and the others an active one.
pub proof fn jobs_end_once(event: JobEvent)
    ensures
        (event is Installed || event is Failed) ==> store::is_final_phase(last_phase(event)),
        (event is Begun || event is Progress) ==> store::is_active_phase(last_phase(event)),
{
}

/// A success manages the installation again before it is recorded.
pub proof fn successes_are_managed(event: JobEvent)
    requires
        last_phase(event) == "succeeded"@,
    ensures
        updates_of(event).contains(JobUpdate::Managed),
        updates_of(event).contains(JobUpdate::InstalledBundle),
{
    reveal_strlit("succeeded");
    reveal_strlit("signing");
    reveal_strlit("transferring");
    reveal_strlit("failed");
    assert("succeeded"@.len() == 9);
    assert("signing"@.len() == 7);
    assert("transferring"@.len() == 12);
    assert("failed"@.len() == 6);
    assert(event is Installed);
    assert(updates_of(event)[0] == JobUpdate::InstalledBundle);
    assert(updates_of(event)[1] == JobUpdate::Managed);
}

proof fn lemma_phases_differ()
    ensures
        "succeeded"@ != "failed"@,
        "succeeded"@ != "signing"@,
        "succeeded"@ != "connecting"@,
        "succeeded"@ != "transferring"@,
        "succeeded"@ != "installing"@,
        "succeeded"@ != "queued"@,
        "failed"@ != "signing"@,
        "failed"@ != "connecting"@,
        "failed"@ != "transferring"@,
        "failed"@ != "installing"@,
        "failed"@ != "queued"@,
        "queued"@ != "signing"@,
        "queued"@ != "connecting"@,
        "queued"@ != "transferring"@,
        "queued"@ != "installing"@,
        "connecting"@ != "signing"@,
        "connecting"@ != "transferring"@,
        "connecting"@ != "installing"@,
        "signing"@ != "transferring"@,
        "signing"@ != "installing"@,
        "transferring"@ != "installing"@,
{
    reveal_strlit("queued");
    reveal_strlit("connecting");
    reveal_strlit("signing");
    reveal_strlit("transferring");
    reveal_strlit("installing");
    reveal_strlit("succeeded");
    reveal_strlit("failed");
    assert("queued"@.len() == 6 && "queued"@[0] == 'q');
    assert("failed"@.len() == 6 && "failed"@[0] == 'f');
    assert("succeeded"@.len() == 9);
    assert("connecting"@.len() == 10 && "connecting"@[0] == 'c');
    assert("signing"@.len() == 7);
    assert("transferring"@.len() == 12);
    assert("installing"@.len() == 10 && "installing"@[0] == 'i');
}

/// The update records a phase.
pub open spec fn records_phase(update: JobUpdate, phase: Seq<char>) -> bool {
    update matches JobUpdate::Status { phase: recorded, .. } && recorded@ == phase
}

/// A job is recorded as it ended. An installation ends with the phase `succeeded` and all of its
/// progress, a failure with the phase `failed` and its reason before that, and nothing else records
/// either phase.
pub proof fn jobs_end_as_they_went(event: JobEvent, at: int)
    ensures
        updates_of(event).len() > 0,
        event is Installed ==> records_phase(updates_of(event).last(), "succeeded"@),
        event is Installed ==> (updates_of(event).last() matches JobUpdate::Status {
            progress,
            ..
        } && progress == Some(100u8)),
        event is Failed ==> records_phase(updates_of(event).last(), "failed"@),
        event is Failed ==> exists|i: int|
            0 <= i < updates_of(event).len() - 1 && #[trigger] updates_of(event)[i] is Failure,
        0 <= at < updates_of(event).len() ==> {
            &&& records_phase(updates_of(event)[at], "succeeded"@) ==> event is Installed
            &&& records_phase(updates_of(event)[at], "failed"@) ==> event is Failed
            &&& updates_of(event)[at] is Failure ==> event is Failed
            &&& updates_of(event)[at] is Managed || updates_of(event)[at] is InstalledBundle
                ==> event is Installed
        },
{
    lemma_phases_differ();
    if event is Failed {
        assert(updates_of(event)[0] is Failure);
    }
}

/// A job whose app was installed counts as a success from then on, and one that failed, or is still
/// at work, does not.
pub proof fn installed_jobs_count_as_successes(event: JobEvent, row: store::JobRow)
    requires
        row.phase@ == last_phase(event),
    ensures
        store::succeeded(row) <==> event is Installed,
        row.phase@ == "succeeded"@ <==> event is Installed,
        row.phase@ == "failed"@ <==> event is Failed,
{
    lemma_phases_differ();
}

/// While a job is at work its progress is recorded as it is told. Up to forty percent it is signing,
/// and from there on it is transferring.
pub proof fn progress_is_recorded(told: u8)
    ensures
        updates_of(JobEvent::Progress(told)).len() == 1,
        updates_of(JobEvent::Progress(told))[0] matches JobUpdate::Status { progress, .. }
            && progress == Some(told),
        told < 40 ==> records_phase(updates_of(JobEvent::Progress(told))[0], "signing"@),
        told >= 40 ==> records_phase(updates_of(JobEvent::Progress(told))[0], "transferring"@),
        records_phase(updates_of(JobEvent::Begun)[0], "connecting"@),
        records_phase(updates_of(JobEvent::Begun).last(), "signing"@),
{
}

/// Each reason for a failure has a code and a sentence of its own.
pub proof fn failures_are_told_apart(one: TransportError, other: TransportError)
    requires
        one != other,
    ensures
        failure_code_of(one)@ != failure_code_of(other)@,
        failure_message_of(failure_code_of(one)@)@ != failure_message_of(
            failure_code_of(other)@,
        )@,
{
    reveal_strlit("iphone_unavailable");
    reveal_strlit("device_info_failed");
    reveal_strlit("developer_team_failed");
    reveal_strlit("device_registration_failed");
    reveal_strlit("ipa_signing_failed");
    reveal_strlit("signed_metadata_failed");
    reveal_strlit("device_install_failed");
    assert("iphone_unavailable"@.len() == 18 && "iphone_unavailable"@[1] == 'p');
    assert("device_info_failed"@.len() == 18 && "device_info_failed"@[0] == 'd');
    assert("developer_team_failed"@.len() == 21 && "developer_team_failed"@[4] == 'l');
    assert("device_registration_failed"@.len() == 26);
    assert("ipa_signing_failed"@.len() == 18 && "ipa_signing_failed"@[0] == 'i'
        && "ipa_signing_failed"@[2] == 'a');
    assert("iphone_unavailable"@[2] == 'h');
    assert("signed_metadata_failed"@.len() == 22);
    assert("device_install_failed"@.len() == 21 && "device_install_failed"@[4] == 'c');
    reveal_strlit("The selected trusted iPhone is not reachable over Wi-Fi.");
    reveal_strlit(
        "Could not read the selected iPhone information over the trusted Wi-Fi connection.",
    );
    reveal_strlit("Apple developer team information could not be prepared.");
    reveal_strlit("The iPhone could not be registered for this signing session.");
    reveal_strlit("The IPA could not be signed.");
    reveal_strlit("The signed IPA metadata could not be validated.");
    reveal_strlit(
        "Signing completed, but transfer/installation on the iPhone failed. Keep the phone unlocked, reachable, and check free storage.",
    );
    assert("The selected trusted iPhone is not reachable over Wi-Fi."@.len() == 56);
    assert("Could not read the selected iPhone information over the trusted Wi-Fi connection."@.len()
        == 81);
    assert("Apple developer team information could not be prepared."@.len() == 55);
    assert("The iPhone could not be registered for this signing session."@.len() == 60);
    assert("The IPA could not be signed."@.len() == 28);
    assert("The signed IPA metadata could not be validated."@.len() == 47);
    assert("Signing completed, but transfer/installation on the iPhone failed. Keep the phone unlocked, reachable, and check free storage."@.len()
        == 126);
}

/// A job is told as installed exactly where it succeeded, and with the sentence of a failure exactly
/// where it failed.
pub proof fn messages_tell_how_jobs_ended(phase: Seq<char>, code: Option<Seq<char>>)
    ensures
        message_of(phase, code)@ == "IPA was signed and installed."@ <==> phase == "succeeded"@,
        message_of(phase, None)@ == "Installation failed."@ <==> phase == "failed"@,
        phase == "failed"@ && code is Some ==> message_of(phase, code) == failure_message_of(
            code->0,
        ),
        phase == "queued"@ || phase == "connecting"@ || phase == "signing"@ || phase
            == "transferring"@ || phase == "installing"@ || phase == "succeeded"@ || phase
            == "failed"@ ==> message_of(phase, code)@ != "Installation job status is unavailable."@,
{
    lemma_phases_differ();
    reveal_strlit("IPA was signed and installed.");
    reveal_strlit("Installation failed.");
    reveal_strlit("Installation job is queued.");
    reveal_strlit("Connecting to the trusted iPhone over Wi-Fi.");
    reveal_strlit("Signing the IPA.");
    reveal_strlit("Transferring and installing the IPA on the iPhone.");
    reveal_strlit("Installation job status is unavailable.");
    reveal_strlit("The selected trusted iPhone is not reachable over Wi-Fi.");
    reveal_strlit(
        "Could not read the selected iPhone information over the trusted Wi-Fi connection.",
    );
    reveal_strlit("Apple developer team information could not be prepared.");
    reveal_strlit("The iPhone could not be registered for this signing session.");
    reveal_strlit("The IPA could not be signed.");
    reveal_strlit("The signed IPA metadata could not be validated.");
    reveal_strlit(
        "Signing completed, but transfer/installation on the iPhone failed. Keep the phone unlocked, reachable, and check free storage.",
    );
    assert("IPA was signed and installed."@.len() == 29);
    assert("Installation failed."@.len() == 20);
    assert("Installation job is queued."@.len() == 27);
    assert("Connecting to the trusted iPhone over Wi-Fi."@.len() == 44);
    assert("Signing the IPA."@.len() == 16);
    assert("Transferring and installing the IPA on the iPhone."@.len() == 50);
    assert("Installation job status is unavailable."@.len() == 39);
    assert("The selected trusted iPhone is not reachable over Wi-Fi."@.len() == 56);
    assert("Could not read the selected iPhone information over the trusted Wi-Fi connection."@.len()
        == 81);
    assert("Apple developer team information could not be prepared."@.len() == 55);
    assert("The iPhone could not be registered for this signing session."@.len() == 60);
    assert("The IPA could not be signed."@.len() == 28);
    assert("The signed IPA metadata could not be validated."@.len() == 47);
    assert("Signing completed, but transfer/installation on the iPhone failed. Keep the phone unlocked, reachable, and check free storage."@.len()
        == 126);
}

/// A request for a job, or for a refresh, that fails at a step is told as a failure: without a
/// signing session as a conflict, without a list of the devices as unavailable, and without the
/// device or the IPA as not found.
pub proof fn refused_jobs_are_told(step: JobRequestStep, refresh: RefreshStep)
    ensures
        step.turn(false) matches JobRequestTurn::Refuse(answer) && answer.message is Some
            && answer.status == (if step is Session {
            409u16
        } else if step is Devices {
            503u16
        } else {
            404u16
        }),
        !(step.turn(true) is Refuse),
        refresh.turn(false) matches RefreshTurn::Refuse(answer) && answer.message is Some
            && answer.status == (if refresh is Session {
            409u16
        } else if refresh is Devices {
            503u16
        } else {
            500u16
        }),
        !(refresh.turn(true) is Refuse),
{
}

// ---------------------------------------------------------------------------------------------
// Telling.
// ---------------------------------------------------------------------------------------------

/// What is told of a failed job.
pub open spec fn failure_message_of(code: Seq<char>) -> &'static str {
    if code == "iphone_unavailable"@ {
        "The selected trusted iPhone is not reachable over Wi-Fi."
    } else if code == "device_info_failed"@ {
        "Could not read the selected iPhone information over the trusted Wi-Fi connection."
    } else if code == "developer_team_failed"@ {
        "Apple developer team information could not be prepared."
    } else if code == "device_registration_failed"@ {
        "The iPhone could not be registered for this signing session."
    } else if code == "ipa_signing_failed"@ {
        "The IPA could not be signed."
    } else if code == "signed_metadata_failed"@ {
        "The signed IPA metadata could not be validated."
    } else if code == "device_install_failed"@ {
        "Signing completed, but transfer/installation on the iPhone failed. Keep the phone unlocked, reachable, and check free storage."
    } else {
        "Installation failed."
    }
}

/// What is told of a job. A failed one without a code has just failed.
pub open spec fn message_of(phase: Seq<char>, code: Option<Seq<char>>) -> &'static str {
    if phase == "failed"@ {
        match code {
            Some(code) => failure_message_of(code),
            None => "Installation failed.",
        }
    } else if phase == "queued"@ {
        "Installation job is queued."
    } else if phase == "connecting"@ {
        "Connecting to the trusted iPhone over Wi-Fi."
    } else if phase == "signing"@ {
        "Signing the IPA."
    } else if phase == "transferring"@ || phase == "installing"@ {
        "Transferring and installing the IPA on the iPhone."
    } else if phase == "succeeded"@ {
        "IPA was signed and installed."
    } else {
        "Installation job status is unavailable."
    }
}

fn failure_message(code: &str) -> (message: &'static str)
    ensures
        message == failure_message_of(code@),
{
    if text::same_text(code, "iphone_unavailable") {
        "The selected trusted iPhone is not reachable over Wi-Fi."
    } else if text::same_text(code, "device_info_failed") {
        "Could not read the selected iPhone information over the trusted Wi-Fi connection."
    } else if text::same_text(code, "developer_team_failed") {
        "Apple developer team information could not be prepared."
    } else if text::same_text(code, "device_registration_failed") {
        "The iPhone could not be registered for this signing session."
    } else if text::same_text(code, "ipa_signing_failed") {
        "The IPA could not be signed."
    } else if text::same_text(code, "signed_metadata_failed") {
        "The signed IPA metadata could not be validated."
    } else if text::same_text(code, "device_install_failed") {
        "Signing completed, but transfer/installation on the iPhone failed. Keep the phone unlocked, reachable, and check free storage."
    } else {
        "Installation failed."
    }
}

/// What is told of a job.
pub fn job_message(phase: &str, failure_code: Option<&str>) -> (message: &'static str)
    ensures
        message == message_of(phase@, text::str_view(failure_code)),
{
    if text::same_text(phase, "failed") {
        match failure_code {
            Some(code) => failure_message(code),
            None => "Installation failed.",
        }
    } else if text::same_text(phase, "queued") {
        "Installation job is queued."
    } else if text::same_text(phase, "connecting") {
        "Connecting to the trusted iPhone over Wi-Fi."
    } else if text::same_text(phase, "signing") {
        "Signing the IPA."
    } else if text::same_text(phase, "transferring") || text::same_text(phase, "installing") {
        "Transferring and installing the IPA on the iPhone."
    } else if text::same_text(phase, "succeeded") {
        "IPA was signed and installed."
    } else {
        "Installation job status is unavailable."
    }
}

/// Every failure that a job can record has a sentence of its own.
pub proof fn recorded_failures_are_explained(error: TransportError)
    ensures
        message_of("failed"@, Some(failure_code_of(error)@)) == failure_message_of(
            failure_code_of(error)@,
        ),
        failure_message_of(failure_code_of(error)@) != "Installation failed.",
{
    reveal_strlit("iphone_unavailable");
    reveal_strlit("device_info_failed");
    reveal_strlit("developer_team_failed");
    reveal_strlit("device_registration_failed");
    reveal_strlit("ipa_signing_failed");
    reveal_strlit("signed_metadata_failed");
    reveal_strlit("device_install_failed");
    reveal_strlit("Installation failed.");
    reveal_strlit("The selected trusted iPhone is not reachable over Wi-Fi.");
    reveal_strlit(
        "Could not read the selected iPhone information over the trusted Wi-Fi connection.",
    );
    reveal_strlit("Apple developer team information could not be prepared.");
    reveal_strlit("The iPhone could not be registered for this signing session.");
    reveal_strlit("The IPA could not be signed.");
    reveal_strlit("The signed IPA metadata could not be validated.");
    reveal_strlit(
        "Signing completed, but transfer/installation on the iPhone failed. Keep the phone unlocked, reachable, and check free storage.",
    );
    assert("Installation failed."@.len() == 20);
    assert("The selected trusted iPhone is not reachable over Wi-Fi."@.len() == 56);
    assert("Could not read the selected iPhone information over the trusted Wi-Fi connection."@[0]
        == 'C');
    assert("Apple developer team information could not be prepared."@[0] == 'A');
    assert("The iPhone could not be registered for this signing session."@[0] == 'T');
    assert("The IPA could not be signed."@[0] == 'T');
    assert("The signed IPA metadata could not be validated."@[0] == 'T');
    assert("Signing completed, but transfer/installation on the iPhone failed. Keep the phone unlocked, reachable, and check free storage."@[0]
        == 'S');
    assert("Installation failed."@[0] == 'I');
}

/// A job as it is told.
#[derive(Debug)]
pub struct InstallJobBody {
    pub id: RecordId,
    pub app_id: RecordId,
    pub device_id: RecordId,
    pub device_label: String,
    pub phase: String,
    pub progress_percent: Option<u8>,
    pub app_display_name: String,
    pub app_version: Option<String>,
    pub created_at: String,
    pub completed_at: Option<String>,
    pub failure_code: Option<String>,
    pub public_message: &'static str,
}

/// A job as it is told: its own fields, and a sentence for its phase.
pub fn install_job_json(job: StoredJob) -> (body: InstallJobBody)
    ensures
        body.id == job.id,
        body.app_id == job.app_id,
        body.device_id == job.device_id,
        body.device_label == job.device_label,
        body.phase == job.phase,
        body.progress_percent == job.progress_percent,
        body.app_display_name == job.app_display_name,
        body.app_version == job.app_version,
        body.created_at == job.created_at,
        body.completed_at == job.completed_at,
        body.failure_code == job.failure_code,
        body.public_message == message_of(job.phase@, text::text_view(job.failure_code)),
{
    let code: Option<&str> = match &job.failure_code {
        Some(code) => Some(code.as_str()),
        None => None,
    };
    let public_message: &'static str = job_message(job.phase.as_str(), code);
    InstallJobBody {
        id: job.id,
        app_id: job.app_id,
        device_id: job.device_id,
        device_label: job.device_label,
        phase: job.phase,
        progress_percent: job.progress_percent,
        app_display_name: job.app_display_name,
        app_version: job.app_version,
        created_at: job.created_at,
        completed_at: job.completed_at,
        failure_code: job.failure_code,
        public_message,
    }
}

/// Each failure is recorded under the code of its stage, and that code is told by its sentence.
pub proof fn failures_are_recorded_by_their_stage(error: TransportError)
    ensures
        ({
            let updates = updates_of(JobEvent::Failed(error));
            let code = failure_code_of(error)@;
            let told = message_of("failed"@, Some(code))@;
            &&& updates.len() == 2
            &&& updates[0] is Failure && updates[0]->Failure_0@ == code
            &&& error is Unavailable ==> code == "iphone_unavailable"@ && told
                == "The selected trusted iPhone is not reachable over Wi-Fi."@
            &&& error is DeviceInfoFailed ==> code == "device_info_failed"@ && told
                == "Could not read the selected iPhone information over the trusted Wi-Fi connection."@
            &&& error is DeveloperTeamFailed ==> code == "developer_team_failed"@ && told
                == "Apple developer team information could not be prepared."@
            &&& error is DeviceRegistrationFailed ==> code == "device_registration_failed"@ && told
                == "The iPhone could not be registered for this signing session."@
            &&& error is IpaSigningFailed ==> code == "ipa_signing_failed"@ && told
                == "The IPA could not be signed."@
            &&& error is SignedMetadataFailed ==> code == "signed_metadata_failed"@ && told
                == "The signed IPA metadata could not be validated."@
            &&& error is DeviceInstallFailed ==> code == "device_install_failed"@ && told
                == "Signing completed, but transfer/installation on the iPhone failed. Keep the phone unlocked, reachable, and check free storage."@
        }),
{
    reveal_strlit("iphone_unavailable");
    reveal_strlit("device_info_failed");
    reveal_strlit("developer_team_failed");
    reveal_strlit("device_registration_failed");
    reveal_strlit("ipa_signing_failed");
    reveal_strlit("signed_metadata_failed");
    reveal_strlit("device_install_failed");
    assert("iphone_unavailable"@.len() == 18 && "iphone_unavailable"@[0] == 'i');
    assert("device_info_failed"@.len() == 18 && "device_info_failed"@[0] == 'd');
    assert("developer_team_failed"@.len() == 21 && "developer_team_failed"@[3] == 'e');
    assert("device_registration_failed"@.len() == 26);
    assert("ipa_signing_failed"@.len() == 18 && "ipa_signing_failed"@[0] == 'i');
    assert("ipa_signing_failed"@[1] == 'p' && "ipa_signing_failed"@[2] == 'a');
    assert("iphone_unavailable"@[2] == 'h');
    assert("signed_metadata_failed"@.len() == 22);
    assert("device_install_failed"@.len() == 21 && "device_install_failed"@[3] == 'i');
}

/// What is told of a job that has not failed, by its phase.
pub proof fn phases_are_told(code: Option<Seq<char>>)
    ensures
        message_of("queued"@, code)@ == "Installation job is queued."@,
        message_of("connecting"@, code)@ == "Connecting to the trusted iPhone over Wi-Fi."@,
        message_of("signing"@, code)@ == "Signing the IPA."@,
        message_of("transferring"@, code)@ == "Transferring and installing the IPA on the iPhone."@,
        message_of("installing"@, code)@ == "Transferring and installing the IPA on the iPhone."@,
        message_of("succeeded"@, code)@ == "IPA was signed and installed."@,
{
    lemma_phases_differ();
}

/// What is told of a job under a phase or a code that is not known.
pub proof fn unknown_phases_are_told(phase: Seq<char>, code: Seq<char>)
    ensures
        phase != "failed"@ && phase != "queued"@ && phase != "connecting"@ && phase != "signing"@
            && phase != "transferring"@ && phase != "installing"@ && phase != "succeeded"@
            ==> message_of(phase, Some(code))@ == "Installation job status is unavailable."@,
        (forall|error: TransportError| code != (#[trigger] failure_code_of(error))@)
            ==> failure_message_of(code)@ == "Installation failed."@,
{
    if forall|error: TransportError| code != (#[trigger] failure_code_of(error))@ {
        assert(code != failure_code_of(TransportError::Unavailable)@);
        assert(code != failure_code_of(TransportError::DeviceInfoFailed)@);
        assert(code != failure_code_of(TransportError::DeveloperTeamFailed)@);
        assert(code != failure_code_of(TransportError::DeviceRegistrationFailed)@);
        assert(code != failure_code_of(TransportError::IpaSigningFailed)@);
        assert(code != failure_code_of(TransportError::SignedMetadataFailed)@);
        assert(code != failure_code_of(TransportError::DeviceInstallFailed)@);
    }
}

/// A job that begins connects at nothing and signs at one percent.
pub proof fn jobs_begin_with_the_connection()
    ensures
        ({
            let updates = updates_of(JobEvent::Begun);
            &&& updates.len() == 2
            &&& updates[0] is Status && updates[0]->progress == Some(0u8)
            &&& updates[1] is Status && updates[1]->progress == Some(1u8)
        }),
        updates_of(JobEvent::Installed).len() == 3,
        updates_of(JobEvent::Installed)[0] is InstalledBundle,
        updates_of(JobEvent::Installed)[1] is Managed,
{
}

/// A job is accepted once its four steps succeeded, in their order, and refused at the first that
/// fails with the sentence of the step.
pub proof fn four_steps_accept_a_job(outcomes: Seq<bool>, step: JobRequestStep)
    ensures
        outcomes.len() == 4 && outcomes[0] && outcomes[1] && outcomes[2] && outcomes[3]
            ==> job_request_after(outcomes) is Accepted,
        JobRequestStep::Session.turn(true) == JobRequestTurn::Next(JobRequestStep::Devices),
        JobRequestStep::Devices.turn(true) == JobRequestTurn::Next(JobRequestStep::Device),
        JobRequestStep::Device.turn(true) == JobRequestTurn::Next(JobRequestStep::Store),
        step.turn(true) is Accepted <==> step is Store,
        step is Session ==> reply::says(
            step.turn(false)->Refuse_0,
            409,
            "Apple signing is not ready. Sign in before creating an installation job."@,
        ),
        step is Devices ==> reply::says(
            step.turn(false)->Refuse_0,
            503,
            "Wi-Fi device discovery is unavailable. Check netmuxd and try again."@,
        ),
        step is Device ==> reply::says(
            step.turn(false)->Refuse_0,
            404,
            "The requested iPhone was not found on the trusted Wi-Fi transport."@,
        ),
        step is Store ==> reply::says(
            step.turn(false)->Refuse_0,
            404,
            "Uploaded IPA was not found."@,
        ),
{
    if outcomes.len() == 4 && outcomes[0] && outcomes[1] && outcomes[2] && outcomes[3] {
        let three = outcomes.drop_last();
        let two = three.drop_last();
        let one = two.drop_last();
        assert(one.drop_last().len() == 0);
        assert(job_request_after(one.drop_last()) == JobRequestTurn::Next(JobRequestStep::Session));
        assert(job_request_after(one) == JobRequestTurn::Next(JobRequestStep::Devices));
        assert(job_request_after(two) == JobRequestTurn::Next(JobRequestStep::Device));
        assert(job_request_after(three) == JobRequestTurn::Next(JobRequestStep::Store));
    }
}

/// The sentences with which a refresh is refused.
pub proof fn refused_refreshes_are_told()
    ensures
        reply::says(
            RefreshStep::Session.refusal(),
            409,
            "Apple signing is not ready. Sign in before refreshing apps."@,
        ),
        reply::says(
            RefreshStep::Devices.refusal(),
            503,
            "Wi-Fi device discovery is unavailable. Check netmuxd and try again."@,
        ),
        reply::says(RefreshStep::Targets.refusal(), 500, "Unable to read refresh targets."@),
{
}

/// A target for which a job is active, or of which that could not be read, gets no job, and neither
/// does one whose job could not be stored; the refresh goes on behind it.
pub proof fn busy_targets_are_passed_by(
    devices: Seq<DeviceSummary>,
    targets: Seq<RefreshTarget>,
    state: RefreshState,
    active: Option<bool>,
)
    requires
        is_refresh_state(devices, targets, state),
        state.outcomes.len() < targets.len(),
    ensures
        !state.free && active != Some(false) ==> {
            let after = refresh_answered(devices, targets, state, RefreshAnswer::Active(active));
            &&& !after.free
            &&& after.outcomes.len() > state.outcomes.len()
            &&& after.outcomes[state.outcomes.len() as int] == TargetOutcome::Busy
        },
        state.free ==> {
            let after = refresh_answered(devices, targets, state, RefreshAnswer::Inserted(false));
            &&& !after.free
            &&& after.outcomes.len() > state.outcomes.len()
            &&& after.outcomes[state.outcomes.len() as int] == TargetOutcome::Unstored
        },
{
    let at = state.outcomes.len() as int;
    assert(devices::is_listed(devices, targets[at].device_id));
    let busy = state.outcomes.push(TargetOutcome::Busy);
    let unstored = state.outcomes.push(TargetOutcome::Unstored);
    assert forall|i: int| 0 <= i < busy.len() implies (#[trigger] busy[i]
        == TargetOutcome::Unreachable) == !devices::is_listed(devices, targets[i].device_id) by {
        if i < at {
            assert(busy[i] == state.outcomes[i]);
        }
    }
    assert forall|i: int| 0 <= i < unstored.len() implies (#[trigger] unstored[i]
        == TargetOutcome::Unreachable) == !devices::is_listed(devices, targets[i].device_id) by {
        if i < at {
            assert(unstored[i] == state.outcomes[i]);
        }
    }
    lemma_passed_unreachable(devices, targets, busy);
    lemma_passed_unreachable(devices, targets, unstored);
    assert(busy[at] == TargetOutcome::Busy && unstored[at] == TargetOutcome::Unstored);
}

/// Each target that got a job counts once, and no other.
pub proof fn queued_targets_count_once(
    front: Seq<TargetOutcome>,
    outcome: TargetOutcome,
    back: Seq<TargetOutcome>,
)
    ensures
        queued_count(Seq::empty()) == 0,
        outcome is Queued ==> queued_count(front + seq![outcome] + back) == queued_count(
            front + back,
        ) + 1,
        !(outcome is Queued) ==> queued_count(front + seq![outcome] + back) == queued_count(
            front + back,
        ),
    decreases back.len(),
{
    let all = front + seq![outcome] + back;
    if back.len() == 0 {
        assert(all.drop_last() =~= front);
        assert(all.last() == outcome);
        assert(front + back =~= front);
    } else {
        queued_targets_count_once(front, outcome, back.drop_last());
        assert(all.drop_last() =~= front + seq![outcome] + back.drop_last());
        assert(all.last() == back.last());
        assert((front + back).drop_last() =~= front + back.drop_last());
        assert((front + back).last() == back.last());
    }
}

} // verus!
