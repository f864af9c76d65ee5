//! A request from its arrival to its answer: it is checked, its job is taken into the queue and
//! handed to the worker, and the client is answered.
use crate::admission;
use crate::admission::{Admission, AdmissionModel, AdmissionWorld, PendingModel};
use crate::effects::{Action, ActionModel, Event, EventModel};
use crate::jobs::{Job, JobModel, Rejection, RejectionModel};
use crate::queue;
use crate::queue::{EnqueueReply, QueueModel, QueueState, ReplyModel};
use vstd::prelude::*;

verus! {

/// How far a request has come.
#[derive(Debug, PartialEq, Eq)]
enum Stage {
    Checking(Admission),
    /// The job waits at the given position and is to be handed to the worker.
    Sending(Job, usize),
    Answered(EnqueueReply),
}

/// A request that is being dealt with.
#[derive(Debug, PartialEq, Eq)]
pub struct Intake {
    stage: Stage,
}

/// What the runtime is to do next for a request.
#[derive(Debug, PartialEq, Eq)]
pub enum IntakeAction {
    /// Carry out an action of the checks.
    Perform(Action),
    /// Hand the job to the worker.
    Send(Job),
    /// Nothing: the request is answered.
    Nothing,
}

/// What came of that.
#[derive(Debug, PartialEq, Eq)]
pub enum IntakeEvent {
    /// What came of the action of the checks.
    Came(Event),
    /// Whether the job could be handed to the worker.
    Sent(bool),
}

/// The model of [`Intake`].
#[verifier::ext_equal]
pub enum IntakeModel {
    Checking(AdmissionModel),
    Sending(JobModel, nat),
    Answered(ReplyModel),
}

/// The model of [`IntakeAction`].
#[verifier::ext_equal]
pub enum IntakeActionModel {
    Perform(ActionModel),
    Send(JobModel),
    Nothing,
}

/// The model of [`IntakeEvent`].
#[verifier::ext_equal]
pub enum IntakeEventModel {
    Came(EventModel),
    Sent(bool),
}

impl View for Intake {
    type V = IntakeModel;

    closed spec fn view(&self) -> IntakeModel {
        match self.stage {
            Stage::Checking(a) => IntakeModel::Checking(a@),
            Stage::Sending(job, position) => IntakeModel::Sending(job@, position as nat),
            Stage::Answered(reply) => IntakeModel::Answered(reply@),
        }
    }
}

impl View for IntakeAction {
    type V = IntakeActionModel;

    open spec fn view(&self) -> IntakeActionModel {
        match *self {
            IntakeAction::Perform(action) => IntakeActionModel::Perform(action@),
            IntakeAction::Send(job) => IntakeActionModel::Send(job@),
            IntakeAction::Nothing => IntakeActionModel::Nothing,
        }
    }
}

impl View for IntakeEvent {
    type V = IntakeEventModel;

    open spec fn view(&self) -> IntakeEventModel {
        match *self {
            IntakeEvent::Came(event) => IntakeEventModel::Came(event@),
            IntakeEvent::Sent(sent) => IntakeEventModel::Sent(sent),
        }
    }
}

/// What a request waits for.
pub open spec fn intake_action(m: IntakeModel) -> IntakeActionModel {
    match m {
        IntakeModel::Checking(a) => IntakeActionModel::Perform(admission::admission_action(a)),
        IntakeModel::Sending(job, _) => IntakeActionModel::Send(job),
        IntakeModel::Answered(_) => IntakeActionModel::Nothing,
    }
}

/// The request whose checks have come to the given point: a job is taken into the queue, and a
/// refusal is the answer.
pub open spec fn with_checks(a: AdmissionModel, q: QueueModel) -> (IntakeModel, QueueModel) {
    match a {
        AdmissionModel::Finished(Ok(job)) => (
            IntakeModel::Sending(job, q.enqueue(job.id).queued.len()),
            q.enqueue(job.id),
        ),
        AdmissionModel::Finished(Err(rejection)) => (
            IntakeModel::Answered(ReplyModel::Refused(rejection)),
            q,
        ),
        _ => (IntakeModel::Checking(a), q),
    }
}

/// The request and the queue that follow. An event that does not answer what the request waits
/// for changes nothing.
pub open spec fn intake_next(m: IntakeModel, q: QueueModel, e: IntakeEventModel) -> (
    IntakeModel,
    QueueModel,
) {
    match (m, e) {
        (IntakeModel::Checking(a), IntakeEventModel::Came(e)) => with_checks(
            admission::admission_next(a, e),
            q,
        ),
        (IntakeModel::Sending(job, position), IntakeEventModel::Sent(sent)) => if sent {
            (IntakeModel::Answered(ReplyModel::Accepted(job.id, position)), q)
        } else {
            (IntakeModel::Answered(ReplyModel::Refused(queue::unavailable())), q.withdraw(job.id))
        },
        (m, _) => (m, q),
    }
}

/// Takes the job of a request that has passed the checks into the queue, and gives it with its
/// position there. A refused request leaves the queue alone.
pub fn take_in(queue: &mut QueueState, result: Result<Job, Rejection>) -> (r: Result<
    (Job, usize),
    Rejection,
>)
    ensures
        match result {
            Ok(job) => final(queue)@ == old(queue)@.enqueue(job.id) && (r matches Ok(taken)
                && taken.0 == job && taken.1 == final(queue)@.queued.len()),
            Err(rejection) => final(queue)@ == old(queue)@ && r == Err::<(Job, usize), Rejection>(
                rejection,
            ),
        },
{
    match result {
        Ok(job) => {
            let position: usize = queue.enqueue(job.id);
            Ok((job, position))
        },
        Err(rejection) => Err(rejection),
    }
}

impl Intake {
    /// Begins with a request that is being checked.
    pub fn new(admission: Admission) -> (r: Intake)
        ensures
            r@ == IntakeModel::Checking(admission@),
    {
        Intake { stage: Stage::Checking(admission) }
    }

    /// What the request waits for.
    pub fn action(&self) -> (r: IntakeAction)
        ensures
            r@ == intake_action(self@),
    {
        match &self.stage {
            Stage::Checking(a) => IntakeAction::Perform(a.action()),
            Stage::Sending(job, _) => IntakeAction::Send(job.clone()),
            Stage::Answered(_) => IntakeAction::Nothing,
        }
    }

    /// Goes on with what came of it.
    pub fn step(self, queue: &mut QueueState, event: IntakeEvent) -> (r: Intake)
        ensures
            (r@, final(queue)@) == intake_next(self@, old(queue)@, event@),
    {
        let stage: Stage = match (self.stage, event) {
            (Stage::Checking(a), IntakeEvent::Came(event)) => match a.step(event) {
                Admission::Finished(result) => match take_in(queue, result) {
                    Ok((job, position)) => Stage::Sending(job, position),
                    Err(rejection) => Stage::Answered(EnqueueReply::Refused(rejection)),
                },
                a => Stage::Checking(a),
            },
            (Stage::Sending(job, position), IntakeEvent::Sent(sent)) => Stage::Answered(
                queue::enqueue_job(queue, job.id, position, sent),
            ),
            (stage, _) => stage,
        };
        Intake { stage }
    }

    /// The checks that the request is going through.
    pub fn checks(&self) -> (r: Option<&Admission>)
        ensures
            match r {
                Some(a) => self@ == IntakeModel::Checking(a@),
                None => !(self@ is Checking),
            },
    {
        match &self.stage {
            Stage::Checking(a) => Some(a),
            _ => None,
        }
    }

    /// The answer, or the request again where it has not come so far.
    pub fn answer(self) -> (r: Result<EnqueueReply, Intake>)
        ensures
            match r {
                Ok(reply) => self@ == IntakeModel::Answered(reply@),
                Err(intake) => intake == self && !(self@ is Answered),
            },
    {
        match self.stage {
            Stage::Answered(reply) => Ok(reply),
            stage => Err(Intake { stage }),
        }
    }
}

/// What the runtime answers to what a request waits for.
pub open spec fn intake_answer(m: IntakeModel, w: AdmissionWorld, sent: bool) -> IntakeEventModel {
    match m {
        IntakeModel::Checking(a) => IntakeEventModel::Came(admission::admission_answer(a, w)),
        _ => IntakeEventModel::Sent(sent),
    }
}

/// An upper bound on what is left to do.
pub open spec fn intake_rank(m: IntakeModel) -> nat {
    match m {
        IntakeModel::Checking(a) => admission::admission_rank(a) + 2,
        IntakeModel::Sending(_, _) => 1,
        IntakeModel::Answered(_) => 0,
    }
}

/// The answer and the queue at the end of a request that is carried to its end.
pub open spec fn intake_run(m: IntakeModel, q: QueueModel, w: AdmissionWorld, sent: bool) -> (
    ReplyModel,
    QueueModel,
)
    decreases intake_rank(m),
{
    match m {
        IntakeModel::Answered(reply) => (reply, q),
        _ => {
            let (next, q) = intake_next(m, q, intake_answer(m, w, sent));
            intake_run(next, q, w, sent)
        },
    }
}

/// How a request is answered, and the queue that it leaves behind.
pub open spec fn intake_verdict(p: PendingModel, q: QueueModel, w: AdmissionWorld, sent: bool) -> (
    ReplyModel,
    QueueModel,
) {
    match admission::admission_verdict(p, w) {
        Err(rejection) => (ReplyModel::Refused(rejection), q),
        Ok(_) => if sent {
            (ReplyModel::Accepted(p.id, q.queued.len() + 1), q.enqueue(p.id))
        } else {
            (ReplyModel::Refused(queue::unavailable()), q.enqueue(p.id).withdraw(p.id))
        },
    }
}

proof fn lemma_run_checks(a: AdmissionModel, q: QueueModel, w: AdmissionWorld, sent: bool)
    requires
        !(a is Finished),
    ensures
        intake_run(IntakeModel::Checking(a), q, w, sent) == match admission::admission_run(a, w) {
            Err(rejection) => (ReplyModel::Refused(rejection), q),
            Ok(job) => if sent {
                (ReplyModel::Accepted(job.id, q.queued.len() + 1), q.enqueue(job.id))
            } else {
                (ReplyModel::Refused(queue::unavailable()), q.enqueue(job.id).withdraw(job.id))
            },
        },
    decreases admission::admission_rank(a),
{
    let next = admission::admission_next(a, admission::admission_answer(a, w));
    reveal_with_fuel(intake_run, 3);
    reveal_with_fuel(admission::admission_run, 2);
    if !(next is Finished) {
        lemma_run_checks(next, q, w, sent);
    }
}

/// A request that passes the checks waits behind all others, and its client is told that
/// position, where its job could be handed to the worker; where it could not, the job waits no
/// more. A request that is refused leaves the queue alone.
pub proof fn intake_result(p: PendingModel, q: QueueModel, w: AdmissionWorld, sent: bool)
    ensures
        intake_run(
            IntakeModel::Checking(AdmissionModel::CheckInput(p)),
            q,
            w,
            sent,
        ) == intake_verdict(p, q, w, sent),
{
    lemma_run_checks(AdmissionModel::CheckInput(p), q, w, sent);
    admission::admission_result(p, w);
}

/// A job is taken into the queue before it is handed to the worker, in the step that ends the
/// checks, and its position is the length of the queue then. No other step adds to the queue,
/// and only a job that could not be handed over is taken out.
pub proof fn jobs_wait_before_they_are_sent(m: IntakeModel, q: QueueModel, e: IntakeEventModel)
    ensures
        ({
            let (next, after) = intake_next(m, q, e);
            match (intake_action(m), intake_action(next)) {
                (IntakeActionModel::Perform(_), IntakeActionModel::Send(job)) => {
                    &&& after == q.enqueue(job.id)
                    &&& next == IntakeModel::Sending(job, after.queued.len())
                },
                (IntakeActionModel::Send(job), IntakeActionModel::Nothing) => {
                    ||| e == IntakeEventModel::Sent(true) && after == q
                    ||| e == IntakeEventModel::Sent(false) && after == q.withdraw(job.id)
                },
                _ => after == q && (intake_action(next) is Send ==> next == m),
            }
        }),
{
}

/// The course of a request behind the checks. A job is taken in as the last of the queue and
/// then sent. Where it was sent, the client is told its id and the length of the queue at that
/// time; where it could not be, the client gets status 500 and the job waits no more. A refusal
/// is answered as it is, and leaves the queue alone.
pub proof fn course_behind_the_checks(
    a: AdmissionModel,
    q: QueueModel,
    later: QueueModel,
    e: EventModel,
)
    ensures
        ({
            let m = IntakeModel::Checking(a);
            let came = IntakeEventModel::Came(e);
            &&& intake_action(m) == IntakeActionModel::Perform(admission::admission_action(a))
            &&& match admission::admission_next(a, e) {
                AdmissionModel::Finished(Ok(job)) => {
                    let (sending, queue) = intake_next(m, q, came);
                    &&& queue.queued == q.queued.push(job.id)
                    &&& queue.running == q.running
                    &&& intake_action(sending) == IntakeActionModel::Send(job)
                    &&& intake_next(sending, later, IntakeEventModel::Sent(true)) == (
                        IntakeModel::Answered(
                            ReplyModel::Accepted(job.id, (q.queued.len() + 1) as nat),
                        ),
                        later,
                    )
                    &&& intake_next(sending, later, IntakeEventModel::Sent(false)) == (
                        IntakeModel::Answered(
                            ReplyModel::Refused(
                                RejectionModel {
                                    status: 500,
                                    body: seq![("error"@, "queue is unavailable"@)],
                                },
                            ),
                        ),
                        later.withdraw(job.id),
                    )
                },
                AdmissionModel::Finished(Err(rejection)) => intake_next(m, q, came) == (
                    IntakeModel::Answered(ReplyModel::Refused(rejection)),
                    q,
                ),
                checking => intake_next(m, q, came) == (IntakeModel::Checking(checking), q),
            }
        }),
{
}

/// The models of what a request waits for and is told say the same.
pub proof fn intake_models(action: IntakeAction, event: IntakeEvent)
    ensures
        match action {
            IntakeAction::Perform(a) => action@ == IntakeActionModel::Perform(a@),
            IntakeAction::Send(job) => action@ == IntakeActionModel::Send(job@),
            IntakeAction::Nothing => action@ == IntakeActionModel::Nothing,
        },
        match event {
            IntakeEvent::Came(e) => event@ == IntakeEventModel::Came(e@),
            IntakeEvent::Sent(sent) => event@ == IntakeEventModel::Sent(sent),
        },
{
}

} // verus!
