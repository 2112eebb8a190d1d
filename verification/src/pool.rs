//! The pool: a fixed set of workers behind one control channel.

use vstd::prelude::*;

use crate::channel::ControlChannel;
use crate::error::PoolCreationError;
use crate::error::Rejection;
use crate::error::SubmitError;
use crate::message::Message;
use crate::message::Received;
use crate::state::PoolState;
use crate::worker::worker_label;
use crate::worker::worker_name;
use crate::worker::Phase;
use crate::worker::Worker;

verus! {

/// A pool of workers that take jobs of type `J` from a shared channel.
///
/// The pool decides; it does not run anything. The threads of the host program
/// call `receive` for the worker they stand for, run the job they get, and
/// report its end with `complete`, or its failure with `abandon`. Each call is
/// made under one lock, which is released before the job runs.
pub struct ThreadPool<J> {
    workers: Vec<Worker>,
    channel: ControlChannel<J>,
    closed: bool,
}

impl<J> View for ThreadPool<J> {
    type V = PoolState<J>;

    closed spec fn view(&self) -> PoolState<J> {
        PoolState {
            queue: self.channel@,
            phases: Seq::new(self.workers@.len(), |i: int| self.workers@[i].phase()),
            closed: self.closed,
        }
    }
}

impl<J> ThreadPool<J> {
    /// The names of the workers, by position.
    pub closed spec fn names(&self) -> Seq<Seq<char>> {
        Seq::new(self.workers@.len(), |i: int| self.workers@[i].label())
    }

    /// The names of a pool of `size` workers: each worker is named after its
    /// position.
    pub open spec fn initial_names(size: nat) -> Seq<Seq<char>> {
        Seq::new(size, |i: int| worker_label(i as nat))
    }

    /// A pool of `size` workers, all waiting, with an empty channel. There is
    /// no pool without workers.
    pub fn new(size: usize) -> (made: Result<ThreadPool<J>, PoolCreationError>)
        ensures
            made is Err <==> size == 0,
            made matches Ok(pool) ==> pool@ == PoolState::<J>::initial(size as nat),
            made matches Ok(pool) ==> pool.names() == Self::initial_names(size as nat),
    {
        if size == 0 {
            return Err(PoolCreationError);
        }
        let mut workers: Vec<Worker> = Vec::with_capacity(size);
        let mut i: usize = 0;
        while i < size
            invariant
                i <= size,
                workers@.len() == i,
                forall|k: int|
                    0 <= k < i ==> #[trigger] workers@[k].label() == worker_label(k as nat),
                forall|k: int| 0 <= k < i ==> #[trigger] workers@[k].phase() == Phase::Waiting,
            decreases size - i,
        {
            workers.push(Worker::new(worker_name(i)));
            i = i + 1;
        }
        let pool = ThreadPool { workers, channel: ControlChannel::new(), closed: false };
        Ok(pool)
    }

    /// The number of workers, fixed when the pool was made.
    pub fn size(&self) -> (n: usize)
        ensures
            n == self@.size(),
    {
        self.workers.len()
    }

    /// The number of messages in the channel.
    pub fn queued(&self) -> (n: usize)
        ensures
            n == self@.queue.len(),
    {
        self.channel.len()
    }

    /// Whether shutdown has begun.
    pub fn is_shut_down(&self) -> (closed: bool)
        ensures
            closed == self@.closed,
    {
        self.closed
    }

    /// Submits a job: it goes to the back of the channel, and some worker will
    /// take it. A job that nobody would take is not queued: once shutdown has
    /// begun, or when no worker is running any more, the pool hands the job back
    /// with the reason.
    pub fn execute(&mut self, job: J) -> (sent: Result<(), SubmitError<J>>)
        ensures
            final(self)@ == old(self)@.execute(job),
            final(self).names() == old(self).names(),
            sent == match old(self)@.rejection() {
                Some(reason) => Err::<(), SubmitError<J>>(SubmitError { job, reason }),
                None => Ok::<(), SubmitError<J>>(()),
            },
    {
        if self.closed {
            return Err(SubmitError { job, reason: Rejection::ShutDown });
        }
        if self.is_terminated() {
            return Err(SubmitError { job, reason: Rejection::NoWorker });
        }
        self.channel.send(Message::NewJob(job));
        Ok(())
    }

    /// Begins shutdown: queues one terminate message for every worker, all of
    /// them before any worker is waited for, and addressed to nobody: whichever
    /// worker takes one stops. A second shutdown does nothing.
    pub fn shutdown(&mut self)
        ensures
            final(self)@ == old(self)@.shutdown(),
            final(self).names() == old(self).names(),
    {
        if self.closed {
            return ;
        }
        let count = self.workers.len();
        let mut sent: usize = 0;
        while sent < count
            invariant
                sent <= count,
                count == self.workers@.len(),
                self.workers == old(self).workers,
                self.closed == old(self).closed,
                self.channel@ == old(self).channel@ + Seq::new(
                    sent as nat,
                    |i: int| Message::<J>::Terminate,
                ),
            decreases count - sent,
        {
            self.channel.send(Message::Terminate);
            sent = sent + 1;
        }
        self.closed = true;
    }

    /// Worker `worker` asks for its next message. A waiting worker takes the
    /// oldest message from the channel: a job makes it busy, a terminate message
    /// stops it. The call is the only moment at which the channel is held; the
    /// job runs after the call has returned.
    pub fn receive(&mut self, worker: usize) -> (got: Received<J>)
        ensures
            final(self)@ == old(self)@.receive(worker as int),
            final(self).names() == old(self).names(),
            got == old(self)@.received(worker as int),
    {
        if worker >= self.workers.len() {
            return Received::Refused;
        }
        match self.workers[worker].current_phase() {
            Phase::Waiting => {},
            _ => {
                return Received::Refused;
            },
        }
        match self.channel.recv() {
            None => Received::Empty,
            Some(message) => {
                let handed = self.workers[worker].accept(message);
                match handed {
                    Some(job) => Received::Job(job),
                    None => Received::Terminate,
                }
            },
        }
    }

    /// Worker `worker` reports that the job it was handed has returned, and
    /// waits again. Says whether the worker was busy; if it was not, nothing
    /// changes.
    pub fn complete(&mut self, worker: usize) -> (was_busy: bool)
        ensures
            final(self)@ == old(self)@.complete(worker as int),
            final(self).names() == old(self).names(),
            was_busy == old(self)@.is_executing(worker as int),
    {
        if worker >= self.workers.len() {
            return false;
        }
        let was_busy = self.workers[worker].complete();
        was_busy
    }

    /// The job that worker `worker` was handed has failed, and the worker's
    /// thread has ended without a terminate message. The worker counts as gone
    /// from now on; its job does not return. Says whether the worker was busy;
    /// if it was not, nothing changes.
    pub fn abandon(&mut self, worker: usize) -> (was_busy: bool)
        ensures
            final(self)@ == old(self)@.abandon(worker as int),
            final(self).names() == old(self).names(),
            was_busy == old(self)@.is_executing(worker as int),
    {
        if worker >= self.workers.len() {
            return false;
        }
        self.workers[worker].fail()
    }

    /// The phase of worker `worker`, if the pool has such a worker.
    pub fn phase(&self, worker: usize) -> (phase: Option<Phase>)
        ensures
            phase == if worker < self@.size() {
                Some(self@.phases[worker as int])
            } else {
                None
            },
    {
        if worker < self.workers.len() {
            Some(self.workers[worker].current_phase())
        } else {
            None
        }
    }

    /// The name of worker `worker`, if the pool has such a worker.
    pub fn worker_id(&self, worker: usize) -> (id: Option<String>)
        ensures
            worker < self@.size() ==> id.is_some() && id.unwrap()@ == self.names()[worker as int],
            worker >= self@.size() ==> id.is_none(),
    {
        if worker < self.workers.len() {
            Some(self.workers[worker].id().clone())
        } else {
            None
        }
    }

    /// Whether no worker is running any more: each has stopped or failed. From
    /// then on each worker's thread can be joined without waiting.
    pub fn is_terminated(&self) -> (done: bool)
        ensures
            done == self@.is_terminated(),
    {
        let mut i: usize = 0;
        while i < self.workers.len()
            invariant
                i <= self.workers@.len(),
                forall|k: int| 0 <= k < i ==> !self@.phases[k].is_running(),
            decreases self.workers@.len() - i,
        {
            match self.workers[i].current_phase() {
                Phase::Stopped | Phase::Failed => {},
                _ => {
                    assert(self@.phases[i as int].is_running());
                    return false;
                },
            }
            i = i + 1;
        }
        true
    }
}

} // verus!
