//! The control channel: an unbounded queue in which what came first leaves first.

use std::collections::VecDeque;
use vstd::prelude::*;

use crate::message::Message;

verus! {

/// The queue of control messages between the pool and its workers.
///
/// Its view is the sequence of messages still queued, oldest first.
pub struct ControlChannel<J> {
    queue: VecDeque<Message<J>>,
}

impl<J> View for ControlChannel<J> {
    type V = Seq<Message<J>>;

    closed spec fn view(&self) -> Seq<Message<J>> {
        self.queue@
    }
}

impl<J> ControlChannel<J> {
    /// A channel with nothing queued.
    pub fn new() -> (channel: Self)
        ensures
            channel@ == Seq::<Message<J>>::empty(),
    {
        ControlChannel { queue: VecDeque::new() }
    }

    /// Queues `message` behind everything that is already queued.
    pub fn send(&mut self, message: Message<J>)
        ensures
            final(self)@ == old(self)@.push(message),
    {
        self.queue.push_back(message);
    }

    /// Takes the oldest message, if there is one. A message leaves the channel
    /// with the call that returns it, so no second call can return it again.
    pub fn recv(&mut self) -> (message: Option<Message<J>>)
        ensures
            old(self)@.len() == 0 ==> message is None && final(self)@ == old(self)@,
            old(self)@.len() > 0 ==> message == Some(old(self)@.first()) && final(self)@
                == old(self)@.drop_first(),
    {
        self.queue.pop_front()
    }

    /// The number of messages queued.
    pub fn len(&self) -> (n: usize)
        ensures
            n == self@.len(),
    {
        self.queue.len()
    }

    /// Whether nothing is queued.
    pub fn is_empty(&self) -> (empty: bool)
        ensures
            empty == (self@.len() == 0),
    {
        self.queue.len() == 0
    }
}

} // verus!
