//! The pool as a value: what is queued, where each worker stands, and whether
//! shutdown has begun. Every operation of the pool is a function on this value.

use vstd::prelude::*;

use crate::error::Rejection;
use crate::message::Message;
use crate::message::Received;
use crate::worker::Phase;

verus! {

/// The state of a pool.
#[verifier::ext_equal]
pub struct PoolState<J> {
    /// The control channel, oldest message first.
    pub queue: Seq<Message<J>>,
    /// The phase of each worker, by position.
    pub phases: Seq<Phase>,
    /// Whether shutdown has begun.
    pub closed: bool,
}

impl<J> PoolState<J> {
    /// A new pool of `size` workers: nothing queued, every worker waiting.
    pub open spec fn initial(size: nat) -> Self {
        PoolState {
            queue: Seq::empty(),
            phases: Seq::new(size, |i: int| Phase::Waiting),
            closed: false,
        }
    }

    /// The number of workers.
    pub open spec fn size(self) -> nat {
        self.phases.len()
    }

    /// Why a job submitted now would be turned away, if it would be: because
    /// shutdown has begun, or else because no worker is running.
    pub open spec fn rejection(self) -> Option<Rejection> {
        if self.closed {
            Some(Rejection::ShutDown)
        } else if self.is_terminated() {
            Some(Rejection::NoWorker)
        } else {
            None
        }
    }

    /// Submission: the job is queued behind everything else. A pool that turns
    /// the job away stays as it is.
    pub open spec fn execute(self, job: J) -> Self {
        if self.rejection().is_some() {
            self
        } else {
            PoolState {
                queue: self.queue.push(Message::NewJob(job)),
                phases: self.phases,
                closed: self.closed,
            }
        }
    }

    /// Shutdown: one terminate message for each worker is queued behind the
    /// jobs. Only the first shutdown does so.
    pub open spec fn shutdown(self) -> Self {
        if self.closed {
            self
        } else {
            PoolState {
                queue: self.queue + Seq::new(self.size(), |i: int| Message::Terminate),
                phases: self.phases,
                closed: true,
            }
        }
    }

    /// Whether `worker` is a worker of this pool that waits for a message.
    pub open spec fn is_waiting(self, worker: int) -> bool {
        0 <= worker < self.size() && self.phases[worker] == Phase::Waiting
    }

    /// Whether `worker` is a worker of this pool that is busy with a job.
    pub open spec fn is_executing(self, worker: int) -> bool {
        0 <= worker < self.size() && self.phases[worker] == Phase::Executing
    }

    /// Whether a call of `receive` by `worker` takes a message from the channel.
    pub open spec fn takes(self, worker: int) -> bool {
        self.is_waiting(worker) && self.queue.len() > 0
    }

    /// The pool after `worker` has asked for its next message: a waiting worker
    /// takes the oldest message and goes where that message sends it. Nobody
    /// else is touched, and nothing changes if there is nothing to take.
    pub open spec fn receive(self, worker: int) -> Self {
        if self.takes(worker) {
            PoolState {
                queue: self.queue.drop_first(),
                phases: self.phases.update(worker, Phase::Waiting.after(self.queue.first())),
                closed: self.closed,
            }
        } else {
            self
        }
    }

    /// What `worker` is told when it asks for its next message.
    pub open spec fn received(self, worker: int) -> Received<J> {
        if !self.is_waiting(worker) {
            Received::Refused
        } else if self.queue.len() == 0 {
            Received::Empty
        } else {
            match self.queue.first() {
                Message::NewJob(job) => Received::Job(job),
                Message::Terminate => Received::Terminate,
            }
        }
    }

    /// The pool after `worker` has reported that its job returned.
    pub open spec fn complete(self, worker: int) -> Self {
        if self.is_executing(worker) {
            PoolState {
                queue: self.queue,
                phases: self.phases.update(worker, Phase::Waiting),
                closed: self.closed,
            }
        } else {
            self
        }
    }

    /// The pool after the job in the hands of `worker` has failed: the worker
    /// is gone, and so is the job. The channel and the other workers are as
    /// they were.
    pub open spec fn abandon(self, worker: int) -> Self {
        if self.is_executing(worker) {
            PoolState {
                queue: self.queue,
                phases: self.phases.update(worker, Phase::Failed),
                closed: self.closed,
            }
        } else {
            self
        }
    }

    /// Whether no worker is running any more, so that each of them can be
    /// joined.
    pub open spec fn is_terminated(self) -> bool {
        forall|i: int| 0 <= i < self.size() ==> !self.phases[i].is_running()
    }
}

} // verus!
