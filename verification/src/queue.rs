//! The queue as clients see it: the running job and those that wait, in the order in which
//! they were taken in.
use crate::jobs;
use crate::jobs::{JobAccepted, Rejection, RejectionModel};
use std::collections::VecDeque;
use vstd::prelude::*;
use vstd::string::*;

verus! {

/// Which jobs run and wait.
#[derive(Debug, PartialEq, Eq)]
pub struct QueueState {
    running: Option<u128>,
    queued: VecDeque<u128>,
}

/// A snapshot of the queue for clients.
#[derive(Debug, PartialEq, Eq)]
pub struct StatusResponse {
    pub running: Option<u128>,
    pub queued: Vec<u128>,
}

/// The model of [`QueueState`] and [`StatusResponse`].
#[verifier::ext_equal]
pub struct QueueModel {
    pub running: Option<u128>,
    pub queued: Seq<u128>,
}

impl View for QueueState {
    type V = QueueModel;

    closed spec fn view(&self) -> QueueModel {
        QueueModel { running: self.running, queued: self.queued@ }
    }
}

impl View for StatusResponse {
    type V = QueueModel;

    open spec fn view(&self) -> QueueModel {
        QueueModel { running: self.running, queued: self.queued@ }
    }
}

/// The test for ids other than the given one.
pub open spec fn other_than(id: u128) -> spec_fn(u128) -> bool {
    |x: u128| x != id
}

impl QueueModel {
    /// No job waits and none runs.
    pub open spec fn idle() -> QueueModel {
        QueueModel { running: None, queued: seq![] }
    }

    /// A job is taken in behind those that wait.
    pub open spec fn enqueue(self, id: u128) -> QueueModel {
        QueueModel { queued: self.queued.push(id), ..self }
    }

    /// A job waits no more.
    pub open spec fn withdraw(self, id: u128) -> QueueModel {
        QueueModel { queued: self.queued.filter(other_than(id)), ..self }
    }

    /// A job waits no more and runs.
    pub open spec fn start(self, id: u128) -> QueueModel {
        QueueModel { running: Some(id), ..self.withdraw(id) }
    }

    /// No job runs any more.
    pub open spec fn finish(self) -> QueueModel {
        QueueModel { running: None, ..self }
    }
}

/// What a client is told about its request once it has passed the checks.
#[derive(Debug, PartialEq, Eq)]
pub enum EnqueueReply {
    Accepted(JobAccepted),
    Refused(Rejection),
}

/// The model of [`EnqueueReply`].
#[verifier::ext_equal]
pub enum ReplyModel {
    /// The id and the position of the job.
    Accepted(u128, nat),
    Refused(RejectionModel),
}

impl View for EnqueueReply {
    type V = ReplyModel;

    open spec fn view(&self) -> ReplyModel {
        match *self {
            EnqueueReply::Accepted(answer) => ReplyModel::Accepted(
                answer.id,
                answer.queue_position as nat,
            ),
            EnqueueReply::Refused(rejection) => ReplyModel::Refused(rejection@),
        }
    }
}

/// The answer where a job could not be handed to the worker.
pub open spec fn unavailable() -> RejectionModel {
    RejectionModel {
        status: jobs::INTERNAL_SERVER_ERROR,
        body: seq![("error"@, "queue is unavailable"@)],
    }
}

impl Default for QueueState {
    fn default() -> (r: Self)
        ensures
            r@ == QueueModel::idle(),
    {
        QueueState { running: None, queued: VecDeque::new() }
    }
}

impl QueueState {
    /// Takes a job in behind those that wait, and says how many wait then: the position of
    /// the job in the queue.
    pub fn enqueue(&mut self, id: u128) -> (position: usize)
        ensures
            final(self)@ == old(self)@.enqueue(id),
            position == final(self)@.queued.len(),
    {
        self.queued.push_back(id);
        self.queued.len()
    }

    /// Takes a job out of those that wait.
    pub fn withdraw(&mut self, id: u128)
        ensures
            final(self)@ == old(self)@.withdraw(id),
    {
        let ghost pred = other_than(id);
        let ghost before = self.queued@;
        let mut kept: VecDeque<u128> = VecDeque::new();
        let mut i: usize = 0;
        assert(before.take(0).filter(pred) =~= Seq::<u128>::empty()) by {
            reveal_with_fuel(Seq::filter, 1);
        }
        while i < self.queued.len()
            invariant
                *self == *old(self),
                before == self.queued@,
                i <= before.len(),
                pred == other_than(id),
                kept@ == before.take(i as int).filter(pred),
            decreases before.len() - i,
        {
            let x: u128 = self.queued[i];
            proof {
                before.take(i as int).lemma_filter_push(x, pred);
                assert(before.take(i + 1) =~= before.take(i as int).push(x));
            }
            if x != id {
                kept.push_back(x);
            }
            i = i + 1;
        }
        assert(before.take(i as int) =~= before);
        self.queued = kept;
    }

    /// Notes that a job has left the queue and runs.
    pub(crate) fn start(&mut self, id: u128)
        ensures
            final(self)@ == old(self)@.start(id),
    {
        self.withdraw(id);
        self.running = Some(id);
    }

    /// Notes that no job runs any more.
    pub(crate) fn finish(&mut self)
        ensures
            final(self)@ == old(self)@.finish(),
    {
        self.running = None;
    }

    /// The queue as clients see it.
    pub fn status(&self) -> (r: StatusResponse)
        ensures
            r@ == self@,
    {
        let mut queued: Vec<u128> = Vec::new();
        let mut i: usize = 0;
        while i < self.queued.len()
            invariant
                i <= self.queued@.len(),
                queued@ == self.queued@.take(i as int),
            decreases self.queued@.len() - i,
        {
            queued.push(self.queued[i]);
            i = i + 1;
            assert(queued@ =~= self.queued@.take(i as int));
        }
        assert(self.queued@.take(i as int) =~= self.queued@);
        StatusResponse { running: self.running, queued }
    }
}

/// Answers a client whose job was taken in at a position and then handed to the worker, or
/// could not be: then the job waits no more.
pub fn enqueue_job(queue: &mut QueueState, id: u128, queue_position: usize, sent: bool) -> (r:
    EnqueueReply)
    ensures
        sent ==> final(queue)@ == old(queue)@ && r@ == ReplyModel::Accepted(
            id,
            queue_position as nat,
        ),
        !sent ==> final(queue)@ == old(queue)@.withdraw(id) && r@ == ReplyModel::Refused(
            unavailable(),
        ),
{
    if sent {
        EnqueueReply::Accepted(JobAccepted { id, queue_position })
    } else {
        queue.withdraw(id);
        let body: Vec<(String, String)> = vec![
            ("error".to_string(), "queue is unavailable".to_string()),
        ];
        let rejection: Rejection = Rejection { status: jobs::INTERNAL_SERVER_ERROR, body };
        assert(rejection@.body =~= unavailable().body);
        EnqueueReply::Refused(rejection)
    }
}

impl EnqueueReply {
    /// The HTTP status of the answer.
    pub fn status(&self) -> (r: u16)
        ensures
            r == match *self {
                EnqueueReply::Accepted(_) => jobs::ACCEPTED,
                EnqueueReply::Refused(rejection) => rejection.status,
            },
    {
        match self {
            EnqueueReply::Accepted(_) => jobs::ACCEPTED,
            EnqueueReply::Refused(rejection) => rejection.status,
        }
    }
}

proof fn lemma_filter_out_absent(s: Seq<u128>, id: u128)
    requires
        !s.contains(id),
    ensures
        s.filter(other_than(id)) == s,
    decreases s.len(),
{
    reveal_with_fuel(Seq::filter, 1);
    if s.len() > 0 {
        let front = s.drop_last();
        assert(s.last() == s[s.len() - 1]);
        assert(!front.contains(id)) by {
            if front.contains(id) {
                let i = front.index_of(id);
                assert(s[i] == id);
            }
        }
        lemma_filter_out_absent(front, id);
        assert(front.push(s.last()) =~= s);
    }
}

/// Taking back a job that had just been taken in leaves the queue as it was.
pub proof fn withdraw_undoes_enqueue(q: QueueModel, id: u128)
    requires
        !q.queued.contains(id),
    ensures
        q.enqueue(id).withdraw(id) == q,
{
    let pred = other_than(id);
    q.queued.lemma_filter_push(id, pred);
    lemma_filter_out_absent(q.queued, id);
}

/// A job that was withdrawn waits no more, and every other job waits as before.
pub proof fn withdraw_removes(q: QueueModel, id: u128, other: u128)
    ensures
        !q.withdraw(id).queued.contains(id),
        other != id ==> (q.withdraw(id).queued.contains(other) <==> q.queued.contains(other)),
{
    let pred = other_than(id);
    let kept = q.queued.filter(pred);
    if kept.contains(id) {
        let i = kept.index_of(id);
        q.queued.lemma_filter_pred(pred, i);
    }
    if other != id {
        if q.queued.contains(other) {
            let i = q.queued.index_of(other);
            q.queued.lemma_filter_contains(pred, i);
        }
        if kept.contains(other) {
            q.queued.lemma_filter_contains_rev(pred, other);
        }
    }
}

/// Starting the job at the front of the queue takes exactly that job off the front.
pub proof fn start_takes_the_front(q: QueueModel)
    requires
        q.queued.len() > 0,
        q.queued.no_duplicates(),
    ensures
        q.start(q.queued.first()).running == Some(q.queued.first()),
        q.start(q.queued.first()).queued == q.queued.drop_first(),
{
    let id = q.queued.first();
    let rest = q.queued.drop_first();
    let pred = other_than(id);
    assert(!rest.contains(id)) by {
        if rest.contains(id) {
            let i = rest.index_of(id);
            assert(q.queued[i + 1] == q.queued[0]);
        }
    }
    lemma_filter_out_absent(rest, id);
    assert(seq![id] + rest =~= q.queued);
    Seq::filter_distributes_over_add(seq![id], rest, pred);
    reveal_with_fuel(Seq::filter, 2);
    assert(seq![id].filter(pred) =~= Seq::<u128>::empty());
    assert(Seq::<u128>::empty() + rest =~= rest);
}

/// The queue after some jobs were taken in, one after the other.
pub open spec fn enqueue_all(q: QueueModel, ids: Seq<u128>) -> QueueModel
    decreases ids.len(),
{
    if ids.len() == 0 {
        q
    } else {
        enqueue_all(q, ids.drop_last()).enqueue(ids.last())
    }
}

/// The queue after some jobs were run, one after the other.
pub open spec fn run_all(q: QueueModel, ids: Seq<u128>) -> QueueModel
    decreases ids.len(),
{
    if ids.len() == 0 {
        q
    } else {
        run_all(q, ids.drop_last()).start(ids.last()).finish()
    }
}

/// Jobs that are taken in wait in that order behind those that waited before.
pub proof fn enqueue_keeps_order(q: QueueModel, ids: Seq<u128>)
    ensures
        enqueue_all(q, ids).queued == q.queued + ids,
        enqueue_all(q, ids).running == q.running,
    decreases ids.len(),
{
    if ids.len() == 0 {
        assert(q.queued + ids =~= q.queued);
    } else {
        enqueue_keeps_order(q, ids.drop_last());
        assert((q.queued + ids.drop_last()).push(ids.last()) =~= q.queued + ids);
    }
}

/// First in, first out: when jobs are run from the front of the queue, then the jobs that
/// wait are each time those behind the ones that were run, in their old order. So the job
/// that was told position `n + 1` is next when `n` jobs have been run.
pub proof fn first_in_first_out(q: QueueModel, n: int)
    requires
        q.queued.no_duplicates(),
        0 <= n <= q.queued.len(),
    ensures
        run_all(q, q.queued.take(n)).queued == q.queued.skip(n),
        n > 0 ==> run_all(q, q.queued.take(n)).running is None,
        n < q.queued.len() ==> run_all(q, q.queued.take(n)).queued.first() == q.queued[n],
    decreases n,
{
    let ids = q.queued;
    if n == 0 {
        assert(ids.take(0) =~= Seq::<u128>::empty());
        assert(ids.skip(0) =~= ids);
    } else {
        first_in_first_out(q, n - 1);
        assert(ids.take(n).drop_last() =~= ids.take(n - 1));
        let before = run_all(q, ids.take(n - 1));
        assert(before.queued.no_duplicates());
        start_takes_the_front(before);
        assert(ids.skip(n - 1).drop_first() =~= ids.skip(n));
        assert(ids.take(n).last() == ids[n - 1]);
    }
}

/// A job that arrives while another one is started does not overtake those that wait: it
/// makes no difference which of the two comes first.
pub proof fn arrivals_queue_up(q: QueueModel, started: u128, arriving: u128)
    requires
        started != arriving,
    ensures
        q.start(started).enqueue(arriving) == q.enqueue(arriving).start(started),
{
    q.queued.lemma_filter_push(arriving, other_than(started));
}

/// What the operations on the queue do. A job that is taken in stands behind all others, and
/// those stay where they are. A job that is withdrawn or started is taken out from between the
/// others, which keep their order; only starting and finishing change which job runs.
pub proof fn queue_operations(q: QueueModel, front: Seq<u128>, id: u128, back: Seq<u128>)
    requires
        q.queued == front + seq![id] + back,
        !front.contains(id),
        !back.contains(id),
    ensures
        QueueModel::idle().queued.len() == 0,
        QueueModel::idle().running is None,
        q.enqueue(id).queued.len() == q.queued.len() + 1,
        q.enqueue(id).queued.last() == id,
        q.enqueue(id).queued.drop_last() == q.queued,
        q.enqueue(id).running == q.running,
        q.withdraw(id).queued == front + back,
        q.withdraw(id).running == q.running,
        q.start(id).queued == front + back,
        q.start(id).running == Some(id),
        q.finish().queued == q.queued,
        q.finish().running is None,
{
    let pred = other_than(id);
    assert(q.enqueue(id).queued.drop_last() =~= q.queued);
    Seq::filter_distributes_over_add(front + seq![id], back, pred);
    Seq::filter_distributes_over_add(front, seq![id], pred);
    lemma_filter_out_absent(front, id);
    lemma_filter_out_absent(back, id);
    reveal_with_fuel(Seq::filter, 2);
    assert(seq![id].filter(pred) =~= Seq::<u128>::empty());
    assert(front + Seq::<u128>::empty() =~= front);
}

/// To take out a job that does not wait changes nothing, and to start one takes no other out.
pub proof fn absent_jobs(q: QueueModel, id: u128)
    requires
        !q.queued.contains(id),
    ensures
        q.withdraw(id) == q,
        q.start(id).queued == q.queued,
        q.start(id).running == Some(id),
{
    lemma_filter_out_absent(q.queued, id);
}

/// The answer where a job could not be handed to the worker.
pub proof fn answer_without_a_worker()
    ensures
        unavailable().status == 500,
        unavailable().body == seq![("error"@, "queue is unavailable"@)],
{
}

/// The models of the snapshot for clients and of the answers leave nothing out.
pub proof fn queue_models(status: StatusResponse, reply: EnqueueReply)
    ensures
        status@.running == status.running,
        status@.queued == status.queued@,
        match reply {
            EnqueueReply::Accepted(answer) => reply@ == ReplyModel::Accepted(
                answer.id,
                answer.queue_position as nat,
            ),
            EnqueueReply::Refused(rejection) => reply@ == ReplyModel::Refused(rejection@),
        },
{
}

} // verus!
