//! The worker: it receives the jobs one after the other, and carries each of them to its end
//! before it receives the next.
use crate::command;
use crate::command::Cli;
use crate::effects::{Action, ActionModel, Event, EventModel};
use crate::job_run;
use crate::job_run::{JobError, JobErrorModel, JobRun, JobRunModel, JobWorld, RunPhase, RunPhaseModel};
use crate::jobs::{Job, JobModel};
use crate::path::UnixPath;
use crate::queue;
use crate::queue::{QueueModel, QueueState};
use vstd::prelude::*;

verus! {

/// What the worker is at.
#[derive(Debug, PartialEq, Eq)]
enum Stage {
    Idle,
    Working(JobRun),
    Stopped,
}

/// The worker.
#[derive(Debug, PartialEq, Eq)]
pub struct Worker {
    cli_bin: String,
    config_dir: UnixPath,
    stage: Stage,
}

/// What the runtime is to do next for the worker.
#[derive(Debug, PartialEq, Eq)]
pub enum WorkerAction {
    /// Wait for the next job.
    Receive,
    /// Carry out an action of the job that is worked on.
    Perform(Action),
    /// Nothing: there will be no more jobs.
    Stop,
}

/// What came of that.
#[derive(Debug, PartialEq, Eq)]
pub enum WorkerEvent {
    /// The next job.
    Received(Job),
    /// No job will come any more.
    Closed,
    /// What came of the action of the job that is worked on.
    Came(Event),
}

/// A job that has come to its end.
#[derive(Debug, PartialEq, Eq)]
pub struct Ended {
    pub job: Job,
    /// The path that the tagged file was moved to, or none where there was nothing to move.
    pub outcome: Result<Option<UnixPath>, JobError>,
}

/// The model of what the worker is at.
#[verifier::ext_equal]
pub enum StageModel {
    Idle,
    Working(JobRunModel),
    Stopped,
}

/// The model of [`Worker`].
#[verifier::ext_equal]
pub struct WorkerModel {
    pub cli_bin: Seq<char>,
    pub config_dir: Seq<u8>,
    pub stage: StageModel,
}

/// The model of [`WorkerAction`].
#[verifier::ext_equal]
pub enum WorkerActionModel {
    Receive,
    Perform(ActionModel),
    Stop,
}

/// The model of [`WorkerEvent`].
#[verifier::ext_equal]
pub enum WorkerEventModel {
    Received(JobModel),
    Closed,
    Came(EventModel),
}

/// The model of [`Ended`].
#[verifier::ext_equal]
pub struct EndedModel {
    pub job: JobModel,
    pub outcome: Result<Option<Seq<u8>>, JobErrorModel>,
}

impl View for Stage {
    type V = StageModel;

    closed spec fn view(&self) -> StageModel {
        match *self {
            Stage::Idle => StageModel::Idle,
            Stage::Working(run) => StageModel::Working(run@),
            Stage::Stopped => StageModel::Stopped,
        }
    }
}

impl View for Worker {
    type V = WorkerModel;

    closed spec fn view(&self) -> WorkerModel {
        WorkerModel {
            cli_bin: self.cli_bin@,
            config_dir: self.config_dir@,
            stage: self.stage@,
        }
    }
}

impl View for WorkerAction {
    type V = WorkerActionModel;

    open spec fn view(&self) -> WorkerActionModel {
        match *self {
            WorkerAction::Receive => WorkerActionModel::Receive,
            WorkerAction::Perform(action) => WorkerActionModel::Perform(action@),
            WorkerAction::Stop => WorkerActionModel::Stop,
        }
    }
}

impl View for WorkerEvent {
    type V = WorkerEventModel;

    open spec fn view(&self) -> WorkerEventModel {
        match *self {
            WorkerEvent::Received(job) => WorkerEventModel::Received(job@),
            WorkerEvent::Closed => WorkerEventModel::Closed,
            WorkerEvent::Came(event) => WorkerEventModel::Came(event@),
        }
    }
}

impl View for Ended {
    type V = EndedModel;

    open spec fn view(&self) -> EndedModel {
        EndedModel { job: self.job@, outcome: job_run::job_outcome(self.outcome) }
    }
}

/// The worker at its beginning.
pub open spec fn idle_worker(cli_bin: Seq<char>, config_dir: Seq<u8>) -> WorkerModel {
    WorkerModel { cli_bin, config_dir, stage: StageModel::Idle }
}

/// What the worker waits for: the next job only where it works on none.
pub open spec fn worker_action(w: WorkerModel) -> WorkerActionModel {
    match w.stage {
        StageModel::Idle => WorkerActionModel::Receive,
        StageModel::Working(run) => WorkerActionModel::Perform(job_run::job_action(run)),
        StageModel::Stopped => WorkerActionModel::Stop,
    }
}

/// The worker waits for a call of the tagger.
pub open spec fn waits_for_tagger(w: WorkerModel) -> bool {
    worker_action(w) matches WorkerActionModel::Perform(action) && action is Run
}

/// The job that is worked on, after an event.
pub open spec fn run_next(run: JobRunModel, e: EventModel) -> JobRunModel {
    JobRunModel { phase: job_run::job_next(run, e), ..run }
}

/// The worker that follows. An event that does not answer what the worker waits for changes
/// nothing.
pub open spec fn worker_next(w: WorkerModel, e: WorkerEventModel) -> WorkerModel {
    let stage = match (w.stage, e) {
        (StageModel::Idle, WorkerEventModel::Received(job)) => StageModel::Working(
            job_run::job_run(w.cli_bin, w.config_dir, job),
        ),
        (StageModel::Idle, WorkerEventModel::Closed) => StageModel::Stopped,
        (StageModel::Working(run), WorkerEventModel::Came(e)) => if run_next(
            run,
            e,
        ).phase is Finished {
            StageModel::Idle
        } else {
            StageModel::Working(run_next(run, e))
        },
        (stage, _) => stage,
    };
    WorkerModel { stage, ..w }
}

/// What the event does to the queue that clients see: the job that the worker begins is the
/// one that runs, and when it has come to its end, none runs.
pub open spec fn queue_next(w: WorkerModel, q: QueueModel, e: WorkerEventModel) -> QueueModel {
    match (w.stage, e) {
        (StageModel::Idle, WorkerEventModel::Received(job)) => q.start(job.id),
        (StageModel::Working(run), WorkerEventModel::Came(e)) => if run_next(
            run,
            e,
        ).phase is Finished {
            q.finish()
        } else {
            q
        },
        _ => q,
    }
}

/// The job that comes to its end with the event, and its outcome.
pub open spec fn ended_by(w: WorkerModel, e: WorkerEventModel) -> Option<EndedModel> {
    match (w.stage, e) {
        (StageModel::Working(run), WorkerEventModel::Came(e)) => match run_next(run, e).phase {
            RunPhaseModel::Finished(outcome) => Some(EndedModel { job: run.job, outcome }),
            _ => None,
        },
        _ => None,
    }
}

/// The job that is worked on has not come to its end, and is carried out as the worker was set
/// up.
pub open spec fn sound(w: WorkerModel) -> bool {
    w.stage matches StageModel::Working(run) ==> {
        &&& !(run.phase is Finished)
        &&& run.cli_bin == w.cli_bin
        &&& run.config_dir == w.config_dir
        &&& job_run::consistent(run)
    }
}

impl Worker {
    #[verifier::type_invariant]
    spec fn inv(self) -> bool {
        sound(self@)
    }

    /// A worker that works on no job yet.
    pub fn new(cli: &Cli) -> (r: Worker)
        ensures
            r@ == idle_worker(cli.cli_bin@, cli.config_dir@),
    {
        Worker {
            cli_bin: cli.cli_bin.clone(),
            config_dir: cli.config_dir.clone(),
            stage: Stage::Idle,
        }
    }

    /// The job that is worked on.
    pub fn current(&self) -> (r: Option<&JobRun>)
        ensures
            match r {
                Some(run) => self@.stage == StageModel::Working(run@) && !(run@.phase is Finished),
                None => !(self@.stage is Working),
            },
    {
        proof {
            use_type_invariant(self);
        }
        match &self.stage {
            Stage::Working(run) => Some(run),
            _ => None,
        }
    }

    /// What the worker waits for.
    pub fn action(&self) -> (r: WorkerAction)
        ensures
            r@ == worker_action(self@),
    {
        match &self.stage {
            Stage::Idle => WorkerAction::Receive,
            Stage::Working(run) => WorkerAction::Perform(run.action()),
            Stage::Stopped => WorkerAction::Stop,
        }
    }

    /// Goes on with what came of it, and notes in the queue which job runs. Gives the job that
    /// has come to its end, if one has.
    pub fn step(self, queue: &mut QueueState, event: WorkerEvent) -> (r: (Worker, Option<Ended>))
        ensures
            r.0@ == worker_next(self@, event@),
            final(queue)@ == queue_next(self@, old(queue)@, event@),
            match r.1 {
                Some(ended) => ended_by(self@, event@) == Some(ended@),
                None => ended_by(self@, event@) is None,
            },
    {
        proof {
            use_type_invariant(&self);
            steps_keep_sound(self@, event@);
        }
        let Worker { cli_bin, config_dir, stage } = self;
        let (stage, ended): (Stage, Option<Ended>) = match (stage, event) {
            (Stage::Idle, WorkerEvent::Received(job)) => {
                queue.start(job.id);
                (Stage::Working(job_run::begin_run(&cli_bin, &config_dir, job)), None)
            },
            (Stage::Idle, WorkerEvent::Closed) => (Stage::Stopped, None),
            (Stage::Working(run), WorkerEvent::Came(event)) => {
                let JobRun { cli_bin, config_dir, job, phase } = run.step(event);
                match phase {
                    RunPhase::Finished(outcome) => {
                        queue.finish();
                        (Stage::Idle, Some(Ended { job, outcome }))
                    },
                    phase => (Stage::Working(JobRun { cli_bin, config_dir, job, phase }), None),
                }
            },
            (stage, _) => (stage, None),
        };
        (Worker { cli_bin, config_dir, stage }, ended)
    }
}

/// Every step keeps the worker sound.
pub proof fn steps_keep_sound(w: WorkerModel, e: WorkerEventModel)
    requires
        sound(w),
    ensures
        sound(worker_next(w, e)),
{
    match (w.stage, e) {
        (StageModel::Working(run), WorkerEventModel::Came(e)) => {
            job_run::steps_keep_consistent(run, e);
        },
        _ => {},
    }
}

/// The id of the job that is worked on.
pub open spec fn current_id(w: WorkerModel) -> Option<u128> {
    match w.stage {
        StageModel::Working(run) => Some(run.job.id),
        _ => None,
    }
}

/// The job that clients see running is the one that the worker works on; none runs where it
/// works on none. Every step of the worker keeps this, and so does a job that is taken into the
/// queue or out of it.
pub proof fn running_job_is_the_current_one(
    w: WorkerModel,
    q: QueueModel,
    e: WorkerEventModel,
    id: u128,
)
    requires
        q.running == current_id(w),
    ensures
        queue_next(w, q, e).running == current_id(worker_next(w, e)),
        q.enqueue(id).running == current_id(w),
        q.withdraw(id).running == current_id(w),
{
}

/// The worker touches the jobs that wait only when it begins one: that one waits no more, and
/// the others keep their order.
pub proof fn worker_leaves_the_waiting_alone(w: WorkerModel, q: QueueModel, e: WorkerEventModel)
    ensures
        queue_next(w, q, e).queued == match (worker_action(w), e) {
            (WorkerActionModel::Receive, WorkerEventModel::Received(job)) => q.queued.filter(
                queue::other_than(job.id),
            ),
            _ => q.queued,
        },
{
}

/// A job is begun only where the worker works on none and receives it; and a job that has
/// called the tagger does not call it again.
pub proof fn jobs_begin_when_none_is_worked_on(w: WorkerModel, e: WorkerEventModel)
    requires
        sound(w),
    ensures
        worker_next(w, e).stage matches StageModel::Working(run) ==> {
            ||| w.stage is Idle && e == WorkerEventModel::Received(run.job) && run
                == job_run::job_run(w.cli_bin, w.config_dir, run.job)
            ||| w.stage matches StageModel::Working(before) && before.job == run.job && (
            run.phase is Launch ==> before == run)
        },
{
}

/// The worker leaves a job only at its end: when nothing of it is left to do, which for a job
/// with a playlist means that the removal of the playlist was answered. Until then it is the one
/// that runs.
pub proof fn jobs_are_left_at_their_end(w: WorkerModel, q: QueueModel, e: WorkerEventModel)
    requires
        sound(w),
        w.stage is Working,
    ensures
        ({
            let run = w.stage->Working_0;
            match ended_by(w, e) {
                None => {
                    &&& worker_next(w, e).stage matches StageModel::Working(after) && after.job
                        == run.job
                    &&& queue_next(w, q, e) == q
                },
                Some(ended) => {
                    &&& e matches WorkerEventModel::Came(came) && job_run::job_next(run, came)
                        == RunPhaseModel::Finished(ended.outcome)
                    &&& ended.job == run.job
                    &&& worker_next(w, e).stage is Idle
                    &&& queue_next(w, q, e) == q.finish()
                    &&& run.job.temp_playlist matches Some(playlist) ==> worker_action(w)
                        == WorkerActionModel::Perform(ActionModel::RemoveFile(playlist))
                },
            }
        }),
{
}

/// The tagger is called at the beginning of the job that is worked on, for this job, and at no
/// other time.
pub proof fn tagger_is_called_for_the_current_job(w: WorkerModel)
    requires
        sound(w),
    ensures
        waits_for_tagger(w) <==> (w.stage matches StageModel::Working(run) && run.phase is Launch),
        waits_for_tagger(w) ==> worker_action(w) == WorkerActionModel::Perform(
            command::tagger_call(w.cli_bin, w.config_dir, w.stage->Working_0.job),
        ),
{
    match w.stage {
        StageModel::Working(run) => {
            job_run::job_effects(run);
        },
        _ => {},
    }
}

/// What a worker has done so far.
#[verifier::ext_equal]
pub struct CourseModel {
    pub worker: WorkerModel,
    /// The jobs that it began, in that order.
    pub begun: Seq<JobModel>,
    /// The calls of the tagger that are over, in that order.
    pub calls: Seq<ActionModel>,
    /// The jobs that have come to their end, in that order.
    pub ended: Seq<EndedModel>,
}

/// The job that is begun with the event.
pub open spec fn begun_by(w: WorkerModel, e: WorkerEventModel) -> Option<JobModel> {
    match (w.stage, e) {
        (StageModel::Idle, WorkerEventModel::Received(job)) => Some(job),
        _ => None,
    }
}

/// The call of the tagger that is over with the event: the tagger has ended, or could not be
/// run.
pub open spec fn call_over_by(w: WorkerModel, e: WorkerEventModel) -> Option<ActionModel> {
    match (worker_action(w), e) {
        (
            WorkerActionModel::Perform(ActionModel::Run(program, args)),
            WorkerEventModel::Came(e),
        ) => if command::run_verdict(e) is Some {
            Some(ActionModel::Run(program, args))
        } else {
            None
        },
        _ => None,
    }
}

/// A sequence, with one more element at its end if there is one.
pub open spec fn with_last<A>(s: Seq<A>, more: Option<A>) -> Seq<A> {
    match more {
        Some(a) => s.push(a),
        None => s,
    }
}

impl CourseModel {
    /// Nothing has been done yet.
    pub open spec fn beginning(cli_bin: Seq<char>, config_dir: Seq<u8>) -> CourseModel {
        CourseModel {
            worker: idle_worker(cli_bin, config_dir),
            begun: seq![],
            calls: seq![],
            ended: seq![],
        }
    }

    /// The course after one more event.
    pub open spec fn next(self, e: WorkerEventModel) -> CourseModel {
        CourseModel {
            worker: worker_next(self.worker, e),
            begun: with_last(self.begun, begun_by(self.worker, e)),
            calls: with_last(self.calls, call_over_by(self.worker, e)),
            ended: with_last(self.ended, ended_by(self.worker, e)),
        }
    }

    /// The course after some events.
    pub open spec fn after(self, events: Seq<WorkerEventModel>) -> CourseModel
        decreases events.len(),
    {
        if events.len() == 0 {
            self
        } else {
            self.after(events.drop_last()).next(events.last())
        }
    }

    /// The jobs that have come to their end.
    pub open spec fn ended_jobs(self) -> Seq<JobModel> {
        self.ended.map_values(|ended: EndedModel| ended.job)
    }

    /// The job that is worked on, if there is one.
    pub open spec fn current(self) -> Seq<JobModel> {
        match self.worker.stage {
            StageModel::Working(run) => seq![run.job],
            _ => seq![],
        }
    }

    /// The job that is worked on, if there is one whose call of the tagger is over.
    pub open spec fn current_after_call(self) -> Seq<JobModel> {
        match self.worker.stage {
            StageModel::Working(run) => if run.phase is Launch {
                seq![]
            } else {
                seq![run.job]
            },
            _ => seq![],
        }
    }

    /// The calls of the tagger for some jobs.
    pub open spec fn calls_for(self, jobs: Seq<JobModel>) -> Seq<ActionModel> {
        jobs.map_values(
            |job: JobModel|
                command::tagger_call(self.worker.cli_bin, self.worker.config_dir, job),
        )
    }

    /// One job after the other: the jobs that were begun have all come to their end, in the same
    /// order, but for the one that is worked on; and for each of them the tagger was called
    /// once, in the same order.
    pub open spec fn serial(self) -> bool {
        &&& sound(self.worker)
        &&& self.begun == self.ended_jobs() + self.current()
        &&& self.calls == self.calls_for(self.ended_jobs() + self.current_after_call())
    }
}

/// Every event keeps the jobs one after the other.
pub proof fn steps_keep_serial(c: CourseModel, e: WorkerEventModel)
    requires
        c.serial(),
    ensures
        c.next(e).serial(),
{
    let d = c.next(e);
    steps_keep_sound(c.worker, e);
    tagger_is_called_for_the_current_job(c.worker);
    match ended_by(c.worker, e) {
        Some(ended) => {
            assert(d.ended_jobs() =~= c.ended_jobs().push(ended.job));
        },
        None => {
            assert(d.ended_jobs() =~= c.ended_jobs());
        },
    }
    assert(d.begun =~= d.ended_jobs() + d.current());
    assert(d.calls =~= d.calls_for(d.ended_jobs() + d.current_after_call()));
}

/// One job at a time: whatever events come, the jobs that were begun have come to their end, in
/// the order in which they were begun, but for at most the one that is worked on; and for each
/// of them the tagger was called once, in that order.
pub proof fn one_job_at_a_time(
    cli_bin: Seq<char>,
    config_dir: Seq<u8>,
    events: Seq<WorkerEventModel>,
)
    ensures
        CourseModel::beginning(cli_bin, config_dir).after(events).serial(),
    decreases events.len(),
{
    let start = CourseModel::beginning(cli_bin, config_dir);
    if events.len() == 0 {
        assert(start.begun =~= start.ended_jobs() + start.current());
        assert(start.calls =~= start.calls_for(start.ended_jobs() + start.current_after_call()));
    } else {
        one_job_at_a_time(cli_bin, config_dir, events.drop_last());
        steps_keep_serial(start.after(events.drop_last()), events.last());
    }
}

/// When the tagger is called for a job, every job that was begun before it has come to its end,
/// with its call of the tagger, its move and the removal of its playlist; so no two calls of the
/// tagger overlap.
pub proof fn next_call_waits_for_the_former_job(c: CourseModel)
    requires
        c.serial(),
        waits_for_tagger(c.worker),
    ensures
        c.begun.len() > 0,
        worker_action(c.worker) == WorkerActionModel::Perform(
            command::tagger_call(c.worker.cli_bin, c.worker.config_dir, c.begun.last()),
        ),
        c.ended_jobs() == c.begun.drop_last(),
        c.calls == c.calls_for(c.begun.drop_last()),
{
    tagger_is_called_for_the_current_job(c.worker);
    assert(c.ended_jobs() + c.current_after_call() =~= c.ended_jobs());
    assert(c.begun.drop_last() =~= c.ended_jobs());
}

/// The worker, the queue and the outcome after the job that is worked on was carried to its end.
pub open spec fn carried_out(w: WorkerModel, q: QueueModel, world: JobWorld) -> (
    WorkerModel,
    QueueModel,
    Option<EndedModel>,
)
    decreases
            match w.stage {
                StageModel::Working(run) => job_run::job_rank(run),
                _ => 0,
            },
{
    match w.stage {
        StageModel::Working(run) => {
            let e = WorkerEventModel::Came(job_run::job_answer(run, world));
            if ended_by(w, e) is Some {
                (worker_next(w, e), queue_next(w, q, e), ended_by(w, e))
            } else if run.phase is Finished {
                (w, q, None)
            } else {
                carried_out(worker_next(w, e), queue_next(w, q, e), world)
            }
        },
        _ => (w, q, None),
    }
}

/// The worker, the queue and the outcomes after some jobs were received and carried to their
/// end, one after the other.
pub open spec fn served(
    w: WorkerModel,
    q: QueueModel,
    jobs: Seq<JobModel>,
    worlds: Seq<JobWorld>,
) -> (WorkerModel, QueueModel, Seq<EndedModel>)
    decreases jobs.len(),
{
    if jobs.len() == 0 {
        (w, q, seq![])
    } else {
        let (w0, q0, ended) = served(w, q, jobs.drop_last(), worlds.drop_last());
        let e = WorkerEventModel::Received(jobs.last());
        let (w1, q1, last) = carried_out(worker_next(w0, e), queue_next(w0, q0, e), worlds.last());
        (w1, q1, with_last(ended, last))
    }
}

proof fn lemma_carried_out(w: WorkerModel, q: QueueModel, world: JobWorld)
    requires
        w.stage is Working,
        !(w.stage->Working_0.phase is Finished),
    ensures
        carried_out(w, q, world) == (
            WorkerModel { stage: StageModel::Idle, ..w },
            q.finish(),
            Some(
                EndedModel {
                    job: w.stage->Working_0.job,
                    outcome: job_run::job_run_through(w.stage->Working_0, world),
                },
            ),
        ),
    decreases job_run::job_rank(w.stage->Working_0),
{
    let run = w.stage->Working_0;
    let e = job_run::job_answer(run, world);
    let next = run_next(run, e);
    reveal_with_fuel(job_run::job_run_through, 2);
    if !(next.phase is Finished) {
        lemma_carried_out(worker_next(w, WorkerEventModel::Came(e)), q, world);
    }
}

/// Jobs that are received one after the other are all carried out, each to its own outcome and
/// in their order, whether those before them failed or not. The worker then waits for the next
/// job, and the queue is that in which these jobs have run.
pub proof fn every_job_is_carried_out(
    w: WorkerModel,
    q: QueueModel,
    jobs: Seq<JobModel>,
    worlds: Seq<JobWorld>,
)
    requires
        w.stage is Idle,
        jobs.len() == worlds.len(),
    ensures
        served(w, q, jobs, worlds).0 == w,
        served(w, q, jobs, worlds).1 == queue::run_all(
            q,
            jobs.map_values(|job: JobModel| job.id),
        ),
        served(w, q, jobs, worlds).2 == Seq::new(
            jobs.len(),
            |i: int|
                EndedModel { job: jobs[i], outcome: job_run::job_verdict(jobs[i], worlds[i]) },
        ),
    decreases jobs.len(),
{
    let ids = jobs.map_values(|job: JobModel| job.id);
    if jobs.len() > 0 {
        every_job_is_carried_out(w, q, jobs.drop_last(), worlds.drop_last());
        assert(jobs.drop_last().map_values(|job: JobModel| job.id) =~= ids.drop_last());
        let (w0, q0, ended) = served(w, q, jobs.drop_last(), worlds.drop_last());
        let e = WorkerEventModel::Received(jobs.last());
        lemma_carried_out(worker_next(w0, e), queue_next(w0, q0, e), worlds.last());
        job_run::job_result(w.cli_bin, w.config_dir, jobs.last(), worlds.last());
    }
    assert(served(w, q, jobs, worlds).2 =~= Seq::new(
        jobs.len(),
        |i: int| EndedModel { job: jobs[i], outcome: job_run::job_verdict(jobs[i], worlds[i]) },
    ));
}

/// The course of the worker: it waits for a job, begins the one that it receives, which then
/// runs and waits no more, and does what that job does until the job has come to its end; then
/// no job runs, the outcome of the job is told, and the worker waits for the next. Where no job
/// will come any more, it stops.
pub proof fn worker_course(w: WorkerModel, q: QueueModel, job: JobModel, e: EventModel)
    ensures
        w.stage is Idle ==> {
            let begun = worker_next(w, WorkerEventModel::Received(job));
            let queue = queue_next(w, q, WorkerEventModel::Received(job));
            &&& worker_action(w) == WorkerActionModel::Receive
            &&& begun.stage == StageModel::Working(
                job_run::job_run(w.cli_bin, w.config_dir, job),
            )
            &&& queue.running == Some(job.id)
            &&& !queue.queued.contains(job.id)
            &&& worker_action(worker_next(w, WorkerEventModel::Closed)) == WorkerActionModel::Stop
            &&& queue_next(w, q, WorkerEventModel::Closed) == q
        },
        w.stage matches StageModel::Working(run) ==> {
            let came = WorkerEventModel::Came(e);
            &&& worker_action(w) == WorkerActionModel::Perform(job_run::job_action(run))
            &&& match job_run::job_next(run, e) {
                RunPhaseModel::Finished(outcome) => {
                    &&& worker_action(worker_next(w, came)) == WorkerActionModel::Receive
                    &&& queue_next(w, q, came).running is None
                    &&& queue_next(w, q, came).queued == q.queued
                    &&& ended_by(w, came) == Some(EndedModel { job: run.job, outcome })
                },
                phase => {
                    &&& worker_next(w, came).stage == StageModel::Working(
                        JobRunModel { phase, ..run },
                    )
                    &&& queue_next(w, q, came) == q
                    &&& ended_by(w, came) is None
                },
            }
        },
        worker_next(w, WorkerEventModel::Came(e)).cli_bin == w.cli_bin,
        worker_next(w, WorkerEventModel::Came(e)).config_dir == w.config_dir,
{
    queue::withdraw_removes(q, job.id, job.id);
}

/// The models of what the worker waits for, is told and gives say the same.
pub proof fn worker_models(action: WorkerAction, event: WorkerEvent, ended: Ended)
    ensures
        match action {
            WorkerAction::Receive => action@ == WorkerActionModel::Receive,
            WorkerAction::Perform(a) => action@ == WorkerActionModel::Perform(a@),
            WorkerAction::Stop => action@ == WorkerActionModel::Stop,
        },
        match event {
            WorkerEvent::Received(job) => event@ == WorkerEventModel::Received(job@),
            WorkerEvent::Closed => event@ == WorkerEventModel::Closed,
            WorkerEvent::Came(e) => event@ == WorkerEventModel::Came(e@),
        },
        ended@.job == ended.job@,
        ended@.outcome == job_run::job_outcome(ended.outcome),
{
}

/// A new worker waits for its first job.
pub proof fn new_workers(cli_bin: Seq<char>, config_dir: Seq<u8>)
    ensures
        idle_worker(cli_bin, config_dir).cli_bin == cli_bin,
        idle_worker(cli_bin, config_dir).config_dir == config_dir,
        worker_action(idle_worker(cli_bin, config_dir)) == WorkerActionModel::Receive,
{
}

} // verus!
