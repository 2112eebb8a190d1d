//! One worker of the pool: its name and its life cycle.

use vstd::prelude::*;
use vstd::string::StrSliceExecFns;
use vstd::string::StringExecFns;

use crate::message::Message;

verus! {

/// Where a worker stands in its life cycle.
///
/// A worker is running while it is `Waiting` or `Executing`. `Stopped` and
/// `Failed` are final: the worker's thread has ended.
#[derive(Debug, Clone, Copy, PartialEq, Eq, Structural)]
pub enum Phase {
    /// Running, and asking the channel for its next message.
    Waiting,
    /// Running, and busy with the job it was handed last.
    Executing,
    /// The worker took a terminate message and left its loop.
    Stopped,
    /// The job in the worker's hands failed and took the worker with it. The
    /// worker never took a terminate message.
    Failed,
}

impl Phase {
    /// A worker is running until it has stopped or failed.
    pub open spec fn is_running(self) -> bool {
        self == Phase::Waiting || self == Phase::Executing
    }

    /// The phase after a worker in this phase has taken `message` from the
    /// channel. Only a waiting worker takes messages.
    pub open spec fn after<J>(self, message: Message<J>) -> Phase {
        match (self, message) {
            (Phase::Waiting, Message::NewJob(_)) => Phase::Executing,
            (Phase::Waiting, Message::Terminate) => Phase::Stopped,
            _ => self,
        }
    }

    /// The phase after the job in hand, if there is one, has returned.
    pub open spec fn after_completion(self) -> Phase {
        match self {
            Phase::Executing => Phase::Waiting,
            _ => self,
        }
    }

    /// The phase after the job in hand, if there is one, has failed.
    pub open spec fn after_failure(self) -> Phase {
        match self {
            Phase::Executing => Phase::Failed,
            _ => self,
        }
    }
}

/// The decimal digits of `n`, most significant first, without leading zeros.
pub open spec fn decimal(n: nat) -> Seq<char>
    decreases n,
{
    if n < 10 {
        seq!["0123456789"@[n as int]]
    } else {
        decimal(n / 10).push("0123456789"@[(n % 10) as int])
    }
}

/// The name of the worker at position `index`: `worker-` and the index in decimal.
pub open spec fn worker_label(index: nat) -> Seq<char> {
    "worker-"@ + decimal(index)
}

/// Writes `n` in decimal.
fn decimal_string(n: usize) -> (out: String)
    ensures
        out@ == decimal(n as nat),
    decreases n,
{
    proof {
        reveal_strlit("0123456789");
    }
    let digits = "0123456789";
    let last = n % 10;
    let digit = digits.substring_char(last, last + 1);
    if n < 10 {
        String::from_str(digit)
    } else {
        let mut out = decimal_string(n / 10);
        out.append(digit);
        out
    }
}

/// The name that the pool gives to its worker at position `index`.
pub fn worker_name(index: usize) -> (name: String)
    ensures
        name@ == worker_label(index as nat),
{
    let mut name = String::from_str("worker-");
    let digits = decimal_string(index);
    name.append(digits.as_str());
    name
}

/// A worker as the pool sees it.
pub(crate) struct Worker {
    id: String,
    phase: Phase,
}

impl Worker {
    /// The worker's name.
    pub(crate) closed spec fn label(&self) -> Seq<char> {
        self.id@
    }

    /// Where the worker stands.
    pub(crate) closed spec fn phase(&self) -> Phase {
        self.phase
    }

    /// A worker that has just entered its loop and waits for its first message.
    pub(crate) fn new(id: String) -> (worker: Worker)
        ensures
            worker.label() == id@,
            worker.phase() == Phase::Waiting,
    {
        Worker { id, phase: Phase::Waiting }
    }

    /// The worker's name.
    pub(crate) fn id(&self) -> (id: &String)
        ensures
            id@ == self.label(),
    {
        &self.id
    }

    /// Where the worker stands.
    pub(crate) fn current_phase(&self) -> (phase: Phase)
        ensures
            phase == self.phase(),
    {
        self.phase
    }

    /// The worker's reaction to the message it took from the channel: a job is
    /// handed out to be run and the worker is busy until `complete`; a terminate
    /// message stops the worker for good.
    pub(crate) fn accept<J>(&mut self, message: Message<J>) -> (job: Option<J>)
        requires
            old(self).phase() == Phase::Waiting,
        ensures
            final(self).label() == old(self).label(),
            final(self).phase() == Phase::Waiting.after(message),
            job == match message {
                Message::NewJob(j) => Some(j),
                Message::Terminate => None,
            },
    {
        match message {
            Message::NewJob(job) => {
                self.phase = Phase::Executing;
                Some(job)
            },
            Message::Terminate => {
                self.phase = Phase::Stopped;
                None
            },
        }
    }

    /// The job that the worker was busy with has returned. Says whether the
    /// worker was busy at all; a worker that was not is left as it is.
    pub(crate) fn complete(&mut self) -> (was_busy: bool)
        ensures
            final(self).label() == old(self).label(),
            final(self).phase() == old(self).phase().after_completion(),
            was_busy == (old(self).phase() == Phase::Executing),
    {
        match self.phase {
            Phase::Executing => {
                self.phase = Phase::Waiting;
                true
            },
            _ => false,
        }
    }

    /// The job that the worker was busy with has failed, and the worker's
    /// thread has ended with it. Says whether the worker was busy at all; a
    /// worker that was not is left as it is.
    pub(crate) fn fail(&mut self) -> (was_busy: bool)
        ensures
            final(self).label() == old(self).label(),
            final(self).phase() == old(self).phase().after_failure(),
            was_busy == (old(self).phase() == Phase::Executing),
    {
        match self.phase {
            Phase::Executing => {
                self.phase = Phase::Failed;
                true
            },
            _ => false,
        }
    }
}

} // verus!
