//! A fixed-size worker pool, written as a state machine that a host program
//! drives from its own threads, together with the request routing of the small
//! HTTP front end that feeds it.
//!
//! The pool itself never blocks and never spawns: every operation is a total
//! function on the pool's state, so that the rules of submission, hand-out and
//! shutdown can be stated exactly and proved once for every schedule.

pub mod census;
pub mod channel;
pub mod error;
pub mod laws;
pub mod message;
pub mod pool;
pub mod request;
pub mod state;
pub mod trace;
pub mod worker;

pub use channel::ControlChannel;
pub use error::PoolCreationError;
pub use error::Rejection;
pub use error::SubmitError;
pub use message::Message;
pub use message::Received;
pub use pool::ThreadPool;
pub use request::Route;
pub use state::PoolState;
pub use worker::Phase;
