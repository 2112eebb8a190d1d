//! Histories of a pool: what can happen to it, one event after another, and
//! what an observer has seen by the end.

use vstd::prelude::*;

use crate::message::Message;
use crate::message::Received;
use crate::state::PoolState;

verus! {

/// One thing that happens to a pool. The submitters, the owner and the workers
/// act in any order; a history is one such order.
pub enum Event<J> {
    /// A caller submits a job.
    Execute(J),
    /// The owner begins shutdown.
    Shutdown,
    /// The worker at this position asks for its next message.
    Receive(int),
    /// The worker at this position reports that its job has returned.
    Complete(int),
    /// The job in the hands of the worker at this position fails, and the
    /// worker's thread ends.
    Abandon(int),
}

/// A job in the hands of the worker that runs it.
pub struct Handout<J> {
    /// The position of the worker.
    pub worker: int,
    /// The job.
    pub job: J,
}

/// The jobs of a list of hand-outs, in the same order.
pub open spec fn jobs_of<J>(handouts: Seq<Handout<J>>) -> Seq<J> {
    handouts.map_values(|h: Handout<J>| h.job)
}

/// The jobs that wait in a channel, oldest first.
pub open spec fn jobs_in<J>(queue: Seq<Message<J>>) -> Seq<J>
    decreases queue.len(),
{
    if queue.len() == 0 {
        Seq::empty()
    } else {
        match queue.last() {
            Message::NewJob(job) => jobs_in(queue.drop_last()).push(job),
            Message::Terminate => jobs_in(queue.drop_last()),
        }
    }
}

impl<J> PoolState<J> {
    /// The pool after one event.
    pub open spec fn step(self, event: Event<J>) -> Self {
        match event {
            Event::Execute(job) => self.execute(job),
            Event::Shutdown => self.shutdown(),
            Event::Receive(worker) => self.receive(worker),
            Event::Complete(worker) => self.complete(worker),
            Event::Abandon(worker) => self.abandon(worker),
        }
    }

    /// The pool after a history, taken from this state.
    pub open spec fn run(self, events: Seq<Event<J>>) -> Self
        decreases events.len(),
    {
        if events.len() == 0 {
            self
        } else {
            self.run(events.drop_last()).step(events.last())
        }
    }

    /// The jobs that the pool took during a history, in the order of their
    /// submission. A job that the pool turned away is not among them.
    pub open spec fn accepted(self, events: Seq<Event<J>>) -> Seq<J>
        decreases events.len(),
    {
        if events.len() == 0 {
            Seq::empty()
        } else {
            let earlier = self.accepted(events.drop_last());
            match events.last() {
                Event::Execute(job) if self.run(events.drop_last()).rejection().is_none() => {
                    earlier.push(job)
                },
                _ => earlier,
            }
        }
    }

    /// The jobs that were handed to workers during a history, each with the
    /// worker that got it, in the order of the hand-outs.
    pub open spec fn handed_out(self, events: Seq<Event<J>>) -> Seq<Handout<J>>
        decreases events.len(),
    {
        if events.len() == 0 {
            Seq::empty()
        } else {
            let earlier = self.handed_out(events.drop_last());
            match events.last() {
                Event::Receive(worker) => match self.run(events.drop_last()).received(worker) {
                    Received::Job(job) => earlier.push(Handout { worker, job }),
                    _ => earlier,
                },
                _ => earlier,
            }
        }
    }

    /// The number of jobs whose return was reported during a history.
    pub open spec fn completed(self, events: Seq<Event<J>>) -> nat
        decreases events.len(),
    {
        if events.len() == 0 {
            0
        } else {
            let earlier = self.completed(events.drop_last());
            match events.last() {
                Event::Complete(worker) if self.run(events.drop_last()).is_executing(worker) => {
                    earlier + 1
                },
                _ => earlier,
            }
        }
    }
}

} // verus!
