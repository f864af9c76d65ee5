//! The worker as a whole: requests that are taken in, the channel to the worker, and the job
//! that it carries out, beside the queue that clients see.
use crate::intake;
use crate::intake::{IntakeActionModel, IntakeEventModel, IntakeModel};
use crate::jobs::JobModel;
use crate::queue;
use crate::queue::QueueModel;
use crate::worker;
use crate::worker::{CourseModel, StageModel, WorkerActionModel, WorkerEventModel};
use vstd::prelude::*;

verus! {

/// The state of the worker as a whole.
#[verifier::ext_equal]
pub struct SystemModel {
    /// The queue that clients see.
    pub queue: QueueModel,
    /// The jobs that were taken in and not yet handed to the worker.
    pub in_flight: Set<u128>,
    /// The jobs that were handed to the worker and that it has not received, first in, first
    /// out.
    pub channel: Seq<JobModel>,
    /// The jobs that were ever handed to the worker, in that order.
    pub handed_over: Seq<JobModel>,
    /// What the worker has done, and what it is at.
    pub course: CourseModel,
}

/// What can happen.
pub enum SystemEvent {
    /// A job is taken into the queue.
    TakenIn(u128),
    /// A job that was taken in is handed to the worker.
    HandedOver(JobModel),
    /// A job that was taken in cannot be handed to the worker.
    GivenUp(u128),
    /// The worker goes on.
    Worked(WorkerEventModel),
}

/// The ids of some jobs.
pub open spec fn ids(jobs: Seq<JobModel>) -> Seq<u128> {
    jobs.map_values(|job: JobModel| job.id)
}

impl SystemModel {
    /// Nothing waits, nothing runs and nothing has run.
    pub open spec fn beginning(cli_bin: Seq<char>, config_dir: Seq<u8>) -> SystemModel {
        SystemModel {
            queue: QueueModel::idle(),
            in_flight: Set::empty(),
            channel: seq![],
            handed_over: seq![],
            course: CourseModel::beginning(cli_bin, config_dir),
        }
    }

    /// The id of the job that the worker works on.
    pub open spec fn current_id(self) -> Option<u128> {
        worker::current_id(self.course.worker)
    }

    /// An id that no job has that waits or runs.
    pub open spec fn fresh(self, id: u128) -> bool {
        &&& !self.in_flight.contains(id)
        &&& !ids(self.channel).contains(id)
        &&& self.current_id() != Some(id)
    }

    /// Whether an event can come now. A job that is taken in has a fresh id, and is handed over
    /// or given up once. The worker is told what it waits for: the next job, in the order in
    /// which the jobs were handed over, only where it works on none.
    pub open spec fn possible(self, e: SystemEvent) -> bool {
        match e {
            SystemEvent::TakenIn(id) => self.fresh(id),
            SystemEvent::HandedOver(job) => self.in_flight.contains(job.id),
            SystemEvent::GivenUp(id) => self.in_flight.contains(id),
            SystemEvent::Worked(e) => match (worker::worker_action(self.course.worker), e) {
                (WorkerActionModel::Receive, WorkerEventModel::Received(job)) => self.channel.len()
                    > 0 && self.channel.first() == job,
                (WorkerActionModel::Receive, WorkerEventModel::Closed) => self.channel.len() == 0,
                (WorkerActionModel::Perform(_), WorkerEventModel::Came(_)) => true,
                _ => false,
            },
        }
    }

    /// The state that follows.
    pub open spec fn next(self, e: SystemEvent) -> SystemModel {
        match e {
            SystemEvent::TakenIn(id) => SystemModel {
                queue: self.queue.enqueue(id),
                in_flight: self.in_flight.insert(id),
                ..self
            },
            SystemEvent::HandedOver(job) => SystemModel {
                in_flight: self.in_flight.remove(job.id),
                channel: self.channel.push(job),
                handed_over: self.handed_over.push(job),
                ..self
            },
            SystemEvent::GivenUp(id) => SystemModel {
                queue: self.queue.withdraw(id),
                in_flight: self.in_flight.remove(id),
                ..self
            },
            SystemEvent::Worked(e) => SystemModel {
                queue: worker::queue_next(self.course.worker, self.queue, e),
                channel: if e is Received {
                    self.channel.drop_first()
                } else {
                    self.channel
                },
                course: self.course.next(e),
                ..self
            },
        }
    }

    /// Whether the events can come one after the other.
    pub open spec fn all_possible(self, events: Seq<SystemEvent>) -> bool
        decreases events.len(),
    {
        events.len() > 0 ==> self.all_possible(events.drop_last()) && self.after(
            events.drop_last(),
        ).possible(events.last())
    }

    /// The state after some events.
    pub open spec fn after(self, events: Seq<SystemEvent>) -> SystemModel
        decreases events.len(),
    {
        if events.len() == 0 {
            self
        } else {
            self.after(events.drop_last()).next(events.last())
        }
    }

    /// What clients see is the truth: the running job is the one that the worker works on, and
    /// the jobs that wait are those that were taken in and are still to be begun, each of them
    /// once; the running job is none of them.
    pub open spec fn truthful(self) -> bool {
        &&& self.queue.running == self.current_id()
        &&& self.queue.running matches Some(id) ==> !self.queue.queued.contains(id)
        &&& self.queue.queued.no_duplicates()
        &&& ids(self.channel).no_duplicates()
        &&& forall|id: u128|
            self.in_flight.contains(id) ==> !(#[trigger] ids(self.channel).contains(id))
        &&& forall|id: u128| #[trigger]
            self.queue.queued.contains(id) <==> self.in_flight.contains(id) || ids(
                self.channel,
            ).contains(id)
    }

    /// The jobs that the worker began are the first of those that were handed over, in the same
    /// order, and the others are still to come.
    pub open spec fn first_in_first_out(self) -> bool {
        self.handed_over == self.course.begun + self.channel
    }

    /// What holds at all times: clients see the truth, the jobs are begun in the order in which
    /// they were handed over, and they are carried out one after the other.
    pub open spec fn valid(self) -> bool {
        self.truthful() && self.first_in_first_out() && self.course.serial()
    }

    /// The jobs wait in the order in which they will be begun.
    pub open spec fn orderly(self) -> bool {
        self.valid() && self.in_flight == Set::<u128>::empty() && self.queue.queued == ids(
            self.channel,
        )
    }
}

proof fn lemma_take_in(s: SystemModel, id: u128)
    requires
        s.truthful(),
        s.fresh(id),
    ensures
        s.next(SystemEvent::TakenIn(id)).truthful(),
{
    let before = s.queue.queued;
    let after = before.push(id);
    assert(!before.contains(id));
    assert forall|x: u128| #[trigger] after.contains(x) <==> before.contains(x) || x == id by {
        lemma_push_contains(before, id, x);
    }
    lemma_push_no_duplicates(before, id);
}

proof fn lemma_hand_over(s: SystemModel, job: JobModel)
    requires
        s.truthful(),
        s.in_flight.contains(job.id),
    ensures
        s.next(SystemEvent::HandedOver(job)).truthful(),
{
    let before = ids(s.channel);
    assert(ids(s.channel.push(job)) =~= before.push(job.id));
    assert forall|x: u128| #[trigger]
        before.push(job.id).contains(x) <==> before.contains(x) || x == job.id by {
        lemma_push_contains(before, job.id, x);
    }
    lemma_push_no_duplicates(before, job.id);
}

proof fn lemma_give_up(s: SystemModel, id: u128)
    requires
        s.truthful(),
        s.in_flight.contains(id),
    ensures
        s.next(SystemEvent::GivenUp(id)).truthful(),
{
    let next = s.next(SystemEvent::GivenUp(id));
    assert forall|x: u128| #[trigger]
        next.queue.queued.contains(x) <==> s.queue.queued.contains(x) && x != id by {
        queue::withdraw_removes(s.queue, id, x);
    }
    lemma_filter_no_duplicates(s.queue.queued, id);
}

proof fn lemma_work(s: SystemModel, e: WorkerEventModel)
    requires
        s.truthful(),
        s.possible(SystemEvent::Worked(e)),
    ensures
        s.next(SystemEvent::Worked(e)).truthful(),
{
    let next = s.next(SystemEvent::Worked(e));
    match e {
        WorkerEventModel::Received(job) => {
            let id = job.id;
            let before = ids(s.channel);
            let after = ids(s.channel.drop_first());
            assert(after =~= before.drop_first());
            assert(before[0] == id);
            assert forall|x: u128| #[trigger]
                after.contains(x) <==> before.contains(x) && x != id by {
                lemma_drop_first_contains(before, x);
            }
            assert forall|x: u128| #[trigger]
                next.queue.queued.contains(x) <==> s.queue.queued.contains(x) && x != id by {
                queue::withdraw_removes(s.queue, id, x);
            }
            assert(before.contains(id));
            lemma_filter_no_duplicates(s.queue.queued, id);
        },
        _ => {},
    }
}

/// Whatever can happen keeps what holds at all times.
pub proof fn steps_keep_valid(s: SystemModel, e: SystemEvent)
    requires
        s.valid(),
        s.possible(e),
    ensures
        s.next(e).valid(),
{
    let next = s.next(e);
    match e {
        SystemEvent::TakenIn(id) => {
            lemma_take_in(s, id);
        },
        SystemEvent::HandedOver(job) => {
            lemma_hand_over(s, job);
            assert((s.course.begun + s.channel).push(job) =~= s.course.begun + s.channel.push(job));
        },
        SystemEvent::GivenUp(id) => {
            lemma_give_up(s, id);
        },
        SystemEvent::Worked(e) => {
            lemma_work(s, e);
            worker::steps_keep_serial(s.course, e);
            if e is Received {
                assert(s.course.begun.push(s.channel.first()) + s.channel.drop_first()
                    =~= s.course.begun + s.channel);
            }
        },
    }
}

/// At all times, whatever has happened: clients see the truth, the jobs are begun in the order
/// in which they were handed to the worker, and they are carried out one after the other.
pub proof fn always_valid(cli_bin: Seq<char>, config_dir: Seq<u8>, events: Seq<SystemEvent>)
    requires
        SystemModel::beginning(cli_bin, config_dir).all_possible(events),
    ensures
        SystemModel::beginning(cli_bin, config_dir).after(events).valid(),
    decreases events.len(),
{
    let start = SystemModel::beginning(cli_bin, config_dir);
    if events.len() == 0 {
        lemma_beginning(cli_bin, config_dir);
    } else {
        always_valid(cli_bin, config_dir, events.drop_last());
        steps_keep_valid(start.after(events.drop_last()), events.last());
    }
}

proof fn lemma_beginning(cli_bin: Seq<char>, config_dir: Seq<u8>)
    ensures
        SystemModel::beginning(cli_bin, config_dir).orderly(),
{
    let s = SystemModel::beginning(cli_bin, config_dir);
    worker::one_job_at_a_time(cli_bin, config_dir, seq![]);
    assert(ids(s.channel) =~= seq![]);
    assert(s.course.begun + s.channel =~= s.handed_over);
}

/// The job that is worked on runs from its beginning to its end: before the tagger is called for
/// it, clients see it running and not waiting, and whatever happens they go on doing so until it
/// has come to its end. Then no job runs until the next one is begun.
pub proof fn running_until_the_end(s: SystemModel, e: SystemEvent)
    requires
        s.valid(),
        s.possible(e),
    ensures
        match s.course.worker.stage {
            StageModel::Working(run) => {
                let id = run.job.id;
                &&& s.queue.running == Some(id)
                &&& !s.queue.queued.contains(id)
                &&& s.next(e).queue.running == Some(id) || {
                    &&& s.next(e).queue.running is None
                    &&& e matches SystemEvent::Worked(came) && (worker::ended_by(
                        s.course.worker,
                        came,
                    ) matches Some(ended) && ended.job == run.job)
                }
            },
            _ => {
                &&& s.queue.running is None
                &&& s.next(e).queue.running matches Some(id) ==> {
                    &&& e matches SystemEvent::Worked(WorkerEventModel::Received(job)) && job.id
                        == id
                    &&& s.channel.len() > 0 && s.channel.first().id == id
                }
            },
        },
{
}

/// A job that is handed to the worker when `n` jobs were handed over before is begun when those
/// `n` were begun, and when the tagger is called for it all of them have come to their end.
pub proof fn jobs_are_begun_in_order(s: SystemModel, n: int)
    requires
        s.valid(),
        0 <= n < s.handed_over.len(),
    ensures
        n < s.course.begun.len() ==> s.course.begun[n] == s.handed_over[n],
        n == s.course.begun.len() ==> s.channel.first() == s.handed_over[n],
        n + 1 == s.course.begun.len() && worker::waits_for_tagger(s.course.worker)
            ==> s.course.ended_jobs() == s.handed_over.take(n),
{
    if n + 1 == s.course.begun.len() && worker::waits_for_tagger(s.course.worker) {
        worker::next_call_waits_for_the_former_job(s.course);
        assert(s.course.begun.drop_last() =~= s.handed_over.take(n));
    }
}

/// The jobs that wait keep their order: a job that is taken in goes to the end, and one that is
/// begun or given up leaves the others as they are.
pub proof fn waiting_jobs_keep_their_order(s: SystemModel, e: SystemEvent)
    requires
        s.possible(e),
    ensures
        s.next(e).queue.queued == match e {
            SystemEvent::TakenIn(id) => s.queue.queued.push(id),
            SystemEvent::GivenUp(id) => s.queue.queued.filter(queue::other_than(id)),
            SystemEvent::Worked(WorkerEventModel::Received(job)) => s.queue.queued.filter(
                queue::other_than(job.id),
            ),
            _ => s.queue.queued,
        },
{
}

/// Where each job is handed to the worker as soon as it was taken in, the jobs wait in the
/// order in which they are begun: the one at the front of the queue is next, and a job that
/// arrives goes to the end.
pub proof fn order_is_kept(s: SystemModel, job: JobModel, e: WorkerEventModel)
    requires
        s.orderly(),
    ensures
        s.fresh(job.id) ==> s.next(SystemEvent::TakenIn(job.id)).next(
            SystemEvent::HandedOver(job),
        ).orderly(),
        s.fresh(job.id) ==> s.next(SystemEvent::TakenIn(job.id)).next(
            SystemEvent::GivenUp(job.id),
        ).orderly(),
        s.possible(SystemEvent::Worked(e)) ==> {
            &&& s.next(SystemEvent::Worked(e)).orderly()
            &&& e is Received ==> s.next(SystemEvent::Worked(e)).queue.running == Some(
                s.queue.queued.first(),
            )
        },
{
    if s.fresh(job.id) {
        let taken_in = s.next(SystemEvent::TakenIn(job.id));
        steps_keep_valid(s, SystemEvent::TakenIn(job.id));
        steps_keep_valid(taken_in, SystemEvent::HandedOver(job));
        steps_keep_valid(taken_in, SystemEvent::GivenUp(job.id));
        queue::withdraw_undoes_enqueue(s.queue, job.id);
        assert(ids(s.channel.push(job)) =~= ids(s.channel).push(job.id));
        assert(s.in_flight.insert(job.id).remove(job.id) =~= s.in_flight);
    }
    if s.possible(SystemEvent::Worked(e)) {
        steps_keep_valid(s, SystemEvent::Worked(e));
        if e is Received {
            assert(ids(s.channel)[0] == s.channel.first().id);
            queue::start_takes_the_front(s.queue);
            assert(ids(s.channel.drop_first()) =~= ids(s.channel).drop_first());
        }
    }
}

/// What a request does to the queue is to take its job in, and to give it up where it could not
/// be handed over.
pub proof fn requests_act_so_on_the_queue(s: SystemModel, m: IntakeModel, e: IntakeEventModel)
    ensures
        ({
            let (next, after) = intake::intake_next(m, s.queue, e);
            match (intake::intake_action(m), intake::intake_action(next)) {
                (IntakeActionModel::Perform(_), IntakeActionModel::Send(job)) => after == s.next(
                    SystemEvent::TakenIn(job.id),
                ).queue,
                (IntakeActionModel::Send(job), IntakeActionModel::Nothing) => {
                    ||| e == IntakeEventModel::Sent(true) && after == s.next(
                        SystemEvent::HandedOver(job),
                    ).queue
                    ||| e == IntakeEventModel::Sent(false) && after == s.next(
                        SystemEvent::GivenUp(job.id),
                    ).queue
                },
                _ => after == s.queue,
            }
        }),
{
}

proof fn lemma_push_contains(s: Seq<u128>, id: u128, x: u128)
    ensures
        s.push(id).contains(x) <==> s.contains(x) || x == id,
{
    let t = s.push(id);
    if s.contains(x) {
        let i = s.index_of(x);
        assert(t[i] == x);
    }
    if x == id {
        assert(t[s.len() as int] == x);
    }
    if t.contains(x) {
        let i = t.index_of(x);
        if i < s.len() {
            assert(s[i] == x);
        }
    }
}

proof fn lemma_push_no_duplicates(s: Seq<u128>, id: u128)
    requires
        s.no_duplicates(),
        !s.contains(id),
    ensures
        s.push(id).no_duplicates(),
{
    assert forall|i: int, j: int|
        0 <= i < s.push(id).len() && 0 <= j < s.push(id).len() && i != j implies s.push(id)[i]
        != s.push(id)[j] by {
        if i < s.len() {
            assert(s.contains(s[i]));
        }
        if j < s.len() {
            assert(s.contains(s[j]));
        }
    }
}

proof fn lemma_drop_first_contains(s: Seq<u128>, x: u128)
    requires
        s.no_duplicates(),
        s.len() > 0,
    ensures
        s.drop_first().contains(x) <==> s.contains(x) && x != s[0],
{
    let t = s.drop_first();
    if t.contains(x) {
        let i = t.index_of(x);
        assert(s[i + 1] == x);
    }
    if s.contains(x) && x != s[0] {
        let i = s.index_of(x);
        assert(t[i - 1] == x);
    }
}

proof fn lemma_filter_no_duplicates(s: Seq<u128>, id: u128)
    requires
        s.no_duplicates(),
    ensures
        s.filter(queue::other_than(id)).no_duplicates(),
    decreases s.len(),
{
    reveal_with_fuel(Seq::filter, 1);
    if s.len() > 0 {
        let front = s.drop_last();
        let pred = queue::other_than(id);
        lemma_filter_no_duplicates(front, id);
        let kept = front.filter(pred);
        assert(!kept.contains(s.last())) by {
            if kept.contains(s.last()) {
                front.lemma_filter_contains_rev(pred, s.last());
                let i = front.index_of(s.last());
                assert(s[i] == s[s.len() - 1]);
            }
        }
        if pred(s.last()) {
            lemma_push_no_duplicates(kept, s.last());
        }
    }
}

} // verus!
