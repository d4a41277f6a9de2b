//! The decisions of a fixed-size worker pool.
//!
//! Threads, locks and the closures themselves live with the caller; this
//! module decides which message each worker receives next, when a job may be
//! submitted, and how teardown hands one termination signal to every worker.
use std::collections::VecDeque;
use vstd::prelude::*;

verus! {

/// What a worker takes off the shared dispatch channel.
#[derive(Debug, Clone, Copy, PartialEq, Eq, Structural)]
pub enum Message {
    /// Run the job with this identifier.
    NewJob(u64),
    /// Leave the worker loop.
    Terminate,
}

/// Where a worker stands in its life: idle and waiting, running a job, or stopped.
#[derive(Debug, Clone, Copy, PartialEq, Eq, Structural)]
pub enum WorkerState {
    Idle,
    Running(u64),
    Stopped,
}

/// Why the pool refused a request.
#[derive(Debug, Clone, Copy, PartialEq, Eq, Structural)]
pub enum PoolError {
    /// A pool needs at least one worker.
    ZeroSize,
    /// Teardown has begun: the job would never run.
    ShuttingDown,
    /// Every job identifier has been handed out.
    JobIdsExhausted,
}

pub open spec fn is_live(s: WorkerState) -> bool {
    !(s is Stopped)
}

/// Number of workers that have not stopped.
pub open spec fn live_count(ws: Seq<WorkerState>) -> nat
    decreases ws.len(),
{
    if ws.len() == 0 {
        0
    } else {
        live_count(ws.drop_last()) + if is_live(ws.last()) { 1nat } else { 0nat }
    }
}

/// Number of workers that are running a job.
pub open spec fn running_count(ws: Seq<WorkerState>) -> nat
    decreases ws.len(),
{
    if ws.len() == 0 {
        0
    } else {
        running_count(ws.drop_last()) + if ws.last() is Running { 1nat } else { 0nat }
    }
}

/// The job identifiers `start`, `start + 1`, ... up to `end` (exclusive).
pub open spec fn id_range(start: nat, end: nat) -> Seq<u64> {
    Seq::new((end - start) as nat, |i: int| (start + i) as u64)
}

/// Replacing one worker's state changes the live count only by what that
/// worker's liveness changed.
pub proof fn lemma_live_count_update(ws: Seq<WorkerState>, i: int, s: WorkerState)
    requires
        0 <= i < ws.len(),
    ensures
        live_count(ws.update(i, s)) + (if is_live(ws[i]) { 1int } else { 0int })
            == live_count(ws) + (if is_live(s) { 1int } else { 0int }),
    decreases ws.len(),
{
    if i == ws.len() - 1 {
        assert(ws.update(i, s).drop_last() =~= ws.drop_last());
    } else {
        lemma_live_count_update(ws.drop_last(), i, s);
        assert(ws.update(i, s).drop_last() =~= ws.drop_last().update(i, s));
    }
}

/// Running workers are live, live workers are at most all of them, and the
/// two extremes of the live count mean all live or all stopped.
pub proof fn lemma_counts_bounded(ws: Seq<WorkerState>)
    ensures
        running_count(ws) <= live_count(ws) <= ws.len(),
        live_count(ws) == ws.len() <==> (forall|k: int| 0 <= k < ws.len() ==> is_live(#[trigger] ws[k])),
        live_count(ws) == 0 <==> (forall|k: int| 0 <= k < ws.len() ==> (#[trigger] ws[k]) is Stopped),
    decreases ws.len(),
{
    if ws.len() > 0 {
        lemma_counts_bounded(ws.drop_last());
        let p = ws.drop_last();
        assert forall|k: int| 0 <= k < p.len() implies #[trigger] p[k] == ws[k] by {}
        if live_count(ws) == ws.len() {
            assert forall|k: int| 0 <= k < ws.len() implies is_live(#[trigger] ws[k]) by {
                if k < p.len() {
                    assert(p[k] == ws[k]);
                }
            }
        }
        if live_count(ws) == 0 {
            assert forall|k: int| 0 <= k < ws.len() implies (#[trigger] ws[k]) is Stopped by {
                if k < p.len() {
                    assert(p[k] == ws[k]);
                }
            }
        }
        if forall|k: int| 0 <= k < ws.len() ==> is_live(#[trigger] ws[k]) {
            assert(is_live(ws[ws.len() - 1]));
        }
        if forall|k: int| 0 <= k < ws.len() ==> (#[trigger] ws[k]) is Stopped {
            assert(ws[ws.len() - 1] is Stopped);
        }
    }
}

/// The pool: a fixed set of workers and one FIFO dispatch channel.
pub struct ThreadPool {
    size: usize,
    workers: Vec<WorkerState>,
    /// Jobs submitted and not yet taken by a worker, oldest first.
    queue: VecDeque<u64>,
    /// Termination signals waiting behind the queued jobs.
    terminates: usize,
    /// Identifier of the next job to be submitted.
    next_job: u64,
    /// How many jobs workers have taken so far.
    dispatched: u64,
    shutting_down: bool,
}

impl ThreadPool {
    pub closed spec fn spec_size(&self) -> nat {
        self.size as nat
    }

    pub closed spec fn spec_workers(&self) -> Seq<WorkerState> {
        self.workers@
    }

    /// Jobs waiting in the channel, oldest first.
    pub closed spec fn spec_queue(&self) -> Seq<u64> {
        self.queue@
    }

    pub closed spec fn spec_terminates(&self) -> nat {
        self.terminates as nat
    }

    /// How many jobs were accepted by `submit`.
    pub closed spec fn spec_submitted(&self) -> nat {
        self.next_job as nat
    }

    /// How many jobs workers have taken off the channel.
    pub closed spec fn spec_dispatched(&self) -> nat {
        self.dispatched as nat
    }

    pub closed spec fn spec_shutting_down(&self) -> bool {
        self.shutting_down
    }

    pub closed spec fn wf(&self) -> bool {
        &&& self.size >= 1
        &&& self.workers@.len() == self.size
        &&& self.dispatched <= self.next_job
        &&& self.queue@ == id_range(self.dispatched as nat, self.next_job as nat)
        &&& (!self.shutting_down ==> self.terminates == 0 && live_count(self.workers@) == self.size)
        &&& (self.shutting_down ==> self.terminates == live_count(self.workers@))
        &&& (live_count(self.workers@) < self.size ==> self.queue@.len() == 0)
        &&& (forall|k: int| #![trigger self.workers@[k]] 0 <= k < self.workers@.len() && self.workers@[k] is Running
            ==> self.workers@[k]->Running_0 < self.dispatched)
        &&& (forall|k: int, l: int| #![trigger self.workers@[k], self.workers@[l]]
            0 <= k < self.workers@.len() && 0 <= l < self.workers@.len() && k != l
            && self.workers@[k] is Running && self.workers@[l] is Running
            ==> self.workers@[k]->Running_0 != self.workers@[l]->Running_0)
    }

    /// A pool of `size` idle workers; a size of zero is refused.
    pub fn new(size: usize) -> (r: Result<ThreadPool, PoolError>)
        ensures
            size == 0 <==> r is Err,
            r is Err ==> r->Err_0 == PoolError::ZeroSize,
            r is Ok ==> ({
                let p = r->Ok_0;
                &&& p.wf()
                &&& p.spec_size() == size
                &&& p.spec_workers() == Seq::new(size as nat, |i: int| WorkerState::Idle)
                &&& live_count(p.spec_workers()) == size
                &&& p.spec_queue().len() == 0
                &&& p.spec_terminates() == 0
                &&& p.spec_submitted() == 0
                &&& p.spec_dispatched() == 0
                &&& !p.spec_shutting_down()
            }),
    {
        if size == 0 {
            return Err(PoolError::ZeroSize);
        }
        let mut workers: Vec<WorkerState> = Vec::new();
        let mut i: usize = 0;
        while i < size
            invariant
                i <= size,
                workers@ == Seq::new(i as nat, |k: int| WorkerState::Idle),
                live_count(workers@) == i,
            decreases size - i,
        {
            proof {
                let next = workers@.push(WorkerState::Idle);
                assert(next.drop_last() =~= workers@);
            }
            workers.push(WorkerState::Idle);
            i = i + 1;
            assert(workers@ =~= Seq::new(i as nat, |k: int| WorkerState::Idle));
        }
        let pool = ThreadPool {
            size,
            workers,
            queue: VecDeque::new(),
            terminates: 0,
            next_job: 0,
            dispatched: 0,
            shutting_down: false,
        };
        assert(pool.queue@ =~= id_range(0, 0));
        Ok(pool)
    }
    /// The number of workers.
    pub fn size(&self) -> (r: usize)
        ensures
            r == self.spec_size(),
    {
        self.size
    }

    /// Where worker `w` stands.
    pub fn worker_state(&self, w: usize) -> (r: WorkerState)
        requires
            self.wf(),
            w < self.spec_size(),
        ensures
            r == self.spec_workers()[w as int],
    {
        self.workers[w]
    }

    /// Whether teardown has begun.
    pub fn is_shutting_down(&self) -> (r: bool)
        ensures
            r == self.spec_shutting_down(),
    {
        self.shutting_down
    }

    /// How many jobs wait in the channel.
    pub fn pending(&self) -> (r: usize)
        ensures
            r == self.spec_queue().len(),
    {
        self.queue.len()
    }

    /// Enqueues the next job and returns its identifier. Refused once teardown
    /// has begun, so no job is left behind in a channel nobody reads.
    pub fn submit(&mut self) -> (r: Result<u64, PoolError>)
        requires
            old(self).wf(),
        ensures
            final(self).wf(),
            old(self).spec_shutting_down() <==> r == Err::<u64, PoolError>(PoolError::ShuttingDown),
            (!old(self).spec_shutting_down() && old(self).spec_submitted() == u64::MAX)
                <==> r == Err::<u64, PoolError>(PoolError::JobIdsExhausted),
            r is Ok <==> (!old(self).spec_shutting_down() && old(self).spec_submitted() < u64::MAX),
            r is Err ==> *final(self) == *old(self),
            r is Ok ==> {
                &&& r->Ok_0 == old(self).spec_submitted()
                &&& final(self).spec_submitted() == old(self).spec_submitted() + 1
                &&& final(self).spec_queue() == old(self).spec_queue().push(r->Ok_0)
                &&& final(self).spec_workers() == old(self).spec_workers()
                &&& final(self).spec_dispatched() == old(self).spec_dispatched()
                &&& final(self).spec_terminates() == old(self).spec_terminates()
                &&& final(self).spec_size() == old(self).spec_size()
                &&& final(self).spec_shutting_down() == old(self).spec_shutting_down()
            },
    {
        if self.shutting_down {
            return Err(PoolError::ShuttingDown);
        }
        if self.next_job == u64::MAX {
            return Err(PoolError::JobIdsExhausted);
        }
        let id = self.next_job;
        self.queue.push_back(id);
        self.next_job = self.next_job + 1;
        assert(self.queue@ =~= id_range(self.dispatched as nat, self.next_job as nat));
        Ok(id)
    }

    /// Begins teardown: one termination signal for every worker still running
    /// its loop, queued behind the jobs already submitted. A second call
    /// changes nothing.
    pub fn shutdown(&mut self)
        requires
            old(self).wf(),
        ensures
            final(self).wf(),
            final(self).spec_shutting_down(),
            final(self).spec_terminates() == live_count(final(self).spec_workers()),
            final(self).spec_queue() == old(self).spec_queue(),
            final(self).spec_workers() == old(self).spec_workers(),
            final(self).spec_submitted() == old(self).spec_submitted(),
            final(self).spec_dispatched() == old(self).spec_dispatched(),
            final(self).spec_size() == old(self).spec_size(),
            old(self).spec_shutting_down() ==> *final(self) == *old(self),
            !old(self).spec_shutting_down() ==> final(self).spec_terminates() == old(self).spec_size(),
    {
        if !self.shutting_down {
            self.terminates = self.size;
            self.shutting_down = true;
        }
    }

    /// Worker `w`, idle, takes the next message off the channel: the oldest
    /// queued job, or, once no job is left, a termination signal. `None` means
    /// the channel is empty and the worker keeps waiting.
    pub fn receive(&mut self, w: usize) -> (r: Option<Message>)
        requires
            old(self).wf(),
            w < old(self).spec_size(),
            old(self).spec_workers()[w as int] is Idle,
        ensures
            final(self).wf(),
            final(self).spec_size() == old(self).spec_size(),
            final(self).spec_submitted() == old(self).spec_submitted(),
            final(self).spec_shutting_down() == old(self).spec_shutting_down(),
            (old(self).spec_queue().len() == 0 && old(self).spec_terminates() == 0) <==> r is None,
            r is None ==> *final(self) == *old(self),
            old(self).spec_queue().len() > 0 ==> {
                &&& r == Some(Message::NewJob(old(self).spec_queue()[0]))
                &&& old(self).spec_queue()[0] == old(self).spec_dispatched()
                &&& final(self).spec_queue() == old(self).spec_queue().drop_first()
                &&& final(self).spec_dispatched() == old(self).spec_dispatched() + 1
                &&& final(self).spec_terminates() == old(self).spec_terminates()
                &&& final(self).spec_workers()
                    == old(self).spec_workers().update(w as int, WorkerState::Running(old(self).spec_queue()[0]))
            },
            (old(self).spec_queue().len() == 0 && old(self).spec_terminates() > 0) ==> {
                &&& r == Some(Message::Terminate)
                &&& final(self).spec_queue() == old(self).spec_queue()
                &&& final(self).spec_dispatched() == old(self).spec_dispatched()
                &&& final(self).spec_terminates() + 1 == old(self).spec_terminates()
                &&& final(self).spec_workers() == old(self).spec_workers().update(w as int, WorkerState::Stopped)
            },
    {
        if self.queue.len() == 0 {
            if self.terminates == 0 {
                return None;
            }
            proof {
                lemma_live_count_update(self.workers@, w as int, WorkerState::Stopped);
            }
            self.workers.set(w, WorkerState::Stopped);
            self.terminates = self.terminates - 1;
            return Some(Message::Terminate);
        }
        match self.queue.pop_front() {
            Some(id) => {
                proof {
                    lemma_live_count_update(self.workers@, w as int, WorkerState::Running(id));
                }
                assert(id == self.dispatched);
                self.workers.set(w, WorkerState::Running(id));
                self.dispatched = self.dispatched + 1;
                assert(self.queue@ =~= id_range(self.dispatched as nat, self.next_job as nat));
                Some(Message::NewJob(id))
            },
            None => {
                assert(false);
                None
            },
        }
    }

    /// Worker `w` is done with its job, whether the job returned or faulted:
    /// the worker goes back to waiting for messages.
    pub fn finish(&mut self, w: usize)
        requires
            old(self).wf(),
            w < old(self).spec_size(),
            old(self).spec_workers()[w as int] is Running,
        ensures
            final(self).wf(),
            final(self).spec_workers() == old(self).spec_workers().update(w as int, WorkerState::Idle),
            final(self).spec_size() == old(self).spec_size(),
            final(self).spec_queue() == old(self).spec_queue(),
            final(self).spec_terminates() == old(self).spec_terminates(),
            final(self).spec_submitted() == old(self).spec_submitted(),
            final(self).spec_dispatched() == old(self).spec_dispatched(),
            final(self).spec_shutting_down() == old(self).spec_shutting_down(),
    {
        proof {
            lemma_live_count_update(self.workers@, w as int, WorkerState::Idle);
        }
        self.workers.set(w, WorkerState::Idle);
    }
}

/// Once teardown has begun and every worker has stopped, the channel is empty
/// and every submitted job was taken by a worker: none is left behind.
pub proof fn lemma_stopped_pool_ran_every_job(p: ThreadPool)
    requires
        p.wf(),
        forall|k: int| 0 <= k < p.spec_workers().len() ==> (#[trigger] p.spec_workers()[k]) is Stopped,
    ensures
        p.spec_shutting_down(),
        p.spec_queue().len() == 0,
        p.spec_terminates() == 0,
        p.spec_dispatched() == p.spec_submitted(),
{
    lemma_counts_bounded(p.workers@);
    assert(p.spec_workers() == p.workers@);
    assert(forall|k: int| 0 <= k < p.workers@.len() ==> (#[trigger] p.workers@[k]) is Stopped);
    assert(live_count(p.workers@) == 0);
}

/// The jobs taken so far are exactly the identifiers `0 .. dispatched`, each
/// once, and the jobs still queued are exactly those after them: together
/// they are every submitted job, once each.
pub proof fn lemma_jobs_partitioned(p: ThreadPool)
    requires
        p.wf(),
    ensures
        id_range(0, p.spec_dispatched()) + p.spec_queue() =~= id_range(0, p.spec_submitted()),
{
}

/// No job runs on two workers at once, and a running job is no longer in the
/// channel, so no worker can take it again.
pub proof fn lemma_no_job_runs_twice(p: ThreadPool)
    requires
        p.wf(),
    ensures
        forall|k: int, l: int| #![trigger p.spec_workers()[k], p.spec_workers()[l]]
            0 <= k < p.spec_workers().len() && 0 <= l < p.spec_workers().len() && k != l
            && p.spec_workers()[k] is Running && p.spec_workers()[l] is Running
            ==> p.spec_workers()[k]->Running_0 != p.spec_workers()[l]->Running_0,
        forall|k: int, i: int| #![trigger p.spec_workers()[k], p.spec_queue()[i]]
            0 <= k < p.spec_workers().len() && p.spec_workers()[k] is Running
            && 0 <= i < p.spec_queue().len()
            ==> p.spec_workers()[k]->Running_0 != p.spec_queue()[i],
{
}

/// At most `size` jobs run at any moment.
pub proof fn lemma_bounded_parallelism(p: ThreadPool)
    requires
        p.wf(),
    ensures
        running_count(p.spec_workers()) <= p.spec_size(),
{
    lemma_counts_bounded(p.workers@);
}

/// During teardown every worker still in its loop has exactly one termination
/// signal waiting for it, and once the channel is drained (at most
/// `queue + terminates` receives later, each of which shrinks that sum by one)
/// every worker has stopped and can be joined.
pub proof fn lemma_teardown_drains(p: ThreadPool)
    requires
        p.wf(),
        p.spec_shutting_down(),
    ensures
        p.spec_terminates() == live_count(p.spec_workers()),
        p.spec_terminates() <= p.spec_size(),
        (p.spec_queue().len() == 0 && p.spec_terminates() == 0)
            ==> forall|k: int| 0 <= k < p.spec_workers().len() ==> (#[trigger] p.spec_workers()[k]) is Stopped,
{
    lemma_counts_bounded(p.workers@);
}

} // verus!
