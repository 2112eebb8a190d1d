//! What travels through the control channel, and what a worker gets out of it.

use vstd::prelude::*;

verus! {

/// A control message. `J` is the job: the pool carries it and never looks inside.
#[derive(Debug, PartialEq, Eq)]
pub enum Message<J> {
    /// Run this job.
    NewJob(J),
    /// Leave the loop. Whichever worker takes the message stops.
    Terminate,
}

/// The answer to a worker that asked the pool for its next message.
#[derive(Debug, PartialEq, Eq)]
pub enum Received<J> {
    /// Run this job, then report its completion.
    Job(J),
    /// The worker has stopped and must not ask again.
    Terminate,
    /// Nothing is queued: wait until something is, then ask again.
    Empty,
    /// The caller is no worker of this pool, or is not waiting for a message.
    /// Nothing was taken from the channel.
    Refused,
}

} // verus!
