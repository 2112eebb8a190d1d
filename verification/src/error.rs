//! The errors that the pool reports to its callers.

use vstd::prelude::*;
use vstd::string::StringExecFns;

verus! {

/// A pool without workers was asked for.
#[derive(Debug, Clone, Copy, PartialEq, Eq)]
pub struct PoolCreationError;

impl PoolCreationError {
    /// The text shown to a user when the pool cannot be created.
    pub open spec fn text() -> Seq<char> {
        "Error creating pool. Size must be at least 1"@
    }

    /// The error as a line of text.
    pub fn message(&self) -> (out: String)
        ensures
            out@ == Self::text(),
    {
        String::from_str("Error creating pool. Size must be at least 1")
    }
}

/// Why the pool did not take a job.
#[derive(Debug, Clone, Copy, PartialEq, Eq, Structural)]
pub enum Rejection {
    /// Shutdown had begun.
    ShutDown,
    /// No worker is running any more: nobody would ever take the job.
    NoWorker,
}

impl Rejection {
    /// The text shown to a user when a job is turned away for this reason.
    pub open spec fn text(self) -> Seq<char> {
        match self {
            Rejection::ShutDown => "The pool is shutting down and takes no more jobs"@,
            Rejection::NoWorker => "The pool has no worker left to run the job"@,
        }
    }
}

/// A job that the pool did not take. The job comes back to the caller
/// untouched, with the reason.
#[derive(Debug, PartialEq, Eq)]
pub struct SubmitError<J> {
    /// The job that was not queued.
    pub job: J,
    /// Why it was not queued.
    pub reason: Rejection,
}

impl<J> SubmitError<J> {
    /// The error as a line of text.
    pub fn message(&self) -> (out: String)
        ensures
            out@ == self.reason.text(),
    {
        match self.reason {
            Rejection::ShutDown => String::from_str(
                "The pool is shutting down and takes no more jobs",
            ),
            Rejection::NoWorker => String::from_str("The pool has no worker left to run the job"),
        }
    }

    /// Gives the job back.
    pub fn into_job(self) -> (job: J)
        ensures
            job == self.job,
    {
        self.job
    }
}

} // verus!
