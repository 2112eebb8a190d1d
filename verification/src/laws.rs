//! What holds of every pool, whatever its size, its jobs and the order in
//! which submitters, owner and workers act.

use vstd::prelude::*;

use crate::census::count;
use crate::census::lemma_count_update;
use crate::census::lemma_count_zero;
use crate::census::lemma_phases_partition;
use crate::census::running;
use crate::census::unstopped;
use crate::message::Message;
use crate::message::Received;
use crate::state::PoolState;
use crate::trace::jobs_in;
use crate::trace::jobs_of;
use crate::trace::Event;
use crate::worker::Phase;

verus! {

impl<J> PoolState<J> {
    /// The shape that the channel and the workers keep between them.
    ///
    /// Before shutdown no worker has stopped and the channel holds jobs only.
    /// From shutdown on the channel ends in one terminate message for each
    /// worker that has not taken one, whether it runs or has failed, with
    /// nothing but jobs before them; and once a worker has stopped, no job is
    /// left in the channel.
    pub open spec fn orderly(self) -> bool {
        let owed = unstopped(self.phases);
        &&& !self.closed ==> owed == self.size()
        &&& !self.closed ==> forall|i: int|
            0 <= i < self.queue.len() ==> self.queue[i] is NewJob
        &&& self.closed ==> owed <= self.queue.len()
        &&& self.closed ==> forall|i: int|
            0 <= i < self.queue.len() ==> (self.queue[i] is Terminate <==> i >= self.queue.len()
                - owed)
        &&& owed < self.size() ==> self.queue.len() == owed
    }

    /// Whether some worker can act: take a message, or end the job in its hands.
    pub open spec fn can_move(self) -> bool {
        exists|worker: int| self.takes(worker) || self.is_executing(worker)
    }

    /// Whether `event` is a worker taking a message or reporting its job done.
    pub open spec fn moves_on(self, event: Event<J>) -> bool {
        match event {
            Event::Receive(worker) => self.takes(worker),
            Event::Complete(worker) => self.is_executing(worker),
            _ => false,
        }
    }

    /// The number of times, during a history, that a worker took a message or
    /// reported its job done.
    pub open spec fn moves(self, events: Seq<Event<J>>) -> nat
        decreases events.len(),
    {
        if events.len() == 0 {
            0
        } else {
            self.moves(events.drop_last()) + if self.run(events.drop_last()).moves_on(
                events.last(),
            ) {
                1nat
            } else {
                0nat
            }
        }
    }

    /// The acts that the workers still owe: to take and to finish each queued
    /// job, to finish each job in hand, and to stop.
    pub open spec fn work_left(self) -> nat {
        2 * jobs_in(self.queue).len() + count(self.phases, Phase::Executing) + running(
            self.phases,
        )
    }
}

/// A message queued last is the last job, or no job.
proof fn lemma_jobs_in_push<J>(queue: Seq<Message<J>>, message: Message<J>)
    ensures
        jobs_in(queue.push(message)) == match message {
            Message::NewJob(job) => jobs_in(queue).push(job),
            Message::Terminate => jobs_in(queue),
        },
{
    assert(queue.push(message).drop_last() =~= queue);
}

/// Terminate messages are no jobs.
proof fn lemma_jobs_in_terminates<J>(queue: Seq<Message<J>>, n: nat)
    ensures
        jobs_in(queue + Seq::new(n, |i: int| Message::<J>::Terminate)) == jobs_in(queue),
    decreases n,
{
    if n > 0 {
        let tail = Seq::new(n, |i: int| Message::<J>::Terminate);
        let shorter = Seq::new((n - 1) as nat, |i: int| Message::<J>::Terminate);
        assert((queue + tail).drop_last() =~= queue + shorter);
        lemma_jobs_in_terminates(queue, (n - 1) as nat);
    }
}

/// The message taken first is the first job, or no job.
proof fn lemma_jobs_in_drop_first<J>(queue: Seq<Message<J>>)
    requires
        queue.len() > 0,
    ensures
        jobs_in(queue) == match queue.first() {
            Message::NewJob(job) => seq![job] + jobs_in(queue.drop_first()),
            Message::Terminate => jobs_in(queue.drop_first()),
        },
    decreases queue.len(),
{
    let front = queue.drop_last();
    if queue.len() == 1 {
        assert(jobs_in(front) =~= Seq::empty());
    } else {
        lemma_jobs_in_drop_first(front);
        assert(front.drop_first() =~= queue.drop_first().drop_last());
    }
}

/// A channel without jobs holds terminate messages only.
proof fn lemma_no_jobs_in<J>(queue: Seq<Message<J>>)
    requires
        jobs_in(queue).len() == 0,
    ensures
        forall|i: int| 0 <= i < queue.len() ==> queue[i] is Terminate,
    decreases queue.len(),
{
    if queue.len() > 0 {
        lemma_no_jobs_in(queue.drop_last());
        assert forall|i: int| 0 <= i < queue.len() implies queue[i] is Terminate by {
            if i < queue.len() - 1 {
                assert(queue.drop_last()[i] == queue[i]);
            }
        }
    }
}

/// A channel of terminate messages holds no job.
proof fn lemma_all_terminates<J>(queue: Seq<Message<J>>)
    requires
        forall|i: int| 0 <= i < queue.len() ==> queue[i] is Terminate,
    ensures
        jobs_in(queue).len() == 0,
{
    let empty = Seq::<Message<J>>::empty();
    lemma_jobs_in_terminates(empty, queue.len());
    assert(queue =~= empty + Seq::new(queue.len(), |i: int| Message::<J>::Terminate));
}

/// One event keeps the pool orderly.
proof fn lemma_step_keeps_order<J>(state: PoolState<J>, event: Event<J>)
    requires
        state.orderly(),
    ensures
        state.step(event).orderly(),
{
    match event {
        Event::Execute(job) => {},
        Event::Shutdown => {},
        Event::Receive(worker) => {
            if state.takes(worker) {
                let to = Phase::Waiting.after(state.queue.first());
                lemma_count_update(state.phases, worker, to, Phase::Waiting);
                lemma_count_update(state.phases, worker, to, Phase::Executing);
                lemma_count_update(state.phases, worker, to, Phase::Failed);
            }
        },
        Event::Complete(worker) => {
            if state.is_executing(worker) {
                lemma_count_update(state.phases, worker, Phase::Waiting, Phase::Waiting);
                lemma_count_update(state.phases, worker, Phase::Waiting, Phase::Executing);
                lemma_count_update(state.phases, worker, Phase::Waiting, Phase::Failed);
            }
        },
        Event::Abandon(worker) => {
            if state.is_executing(worker) {
                lemma_count_update(state.phases, worker, Phase::Failed, Phase::Waiting);
                lemma_count_update(state.phases, worker, Phase::Failed, Phase::Executing);
                lemma_count_update(state.phases, worker, Phase::Failed, Phase::Failed);
            }
        },
    }
}

/// A new pool is orderly.
proof fn lemma_initial_is_orderly<J>(size: nat)
    ensures
        PoolState::<J>::initial(size).orderly(),
        running(PoolState::<J>::initial(size).phases) == size,
        count(PoolState::<J>::initial(size).phases, Phase::Executing) == 0,
        count(PoolState::<J>::initial(size).phases, Phase::Stopped) == 0,
        count(PoolState::<J>::initial(size).phases, Phase::Failed) == 0,
{
    let phases = PoolState::<J>::initial(size).phases;
    lemma_count_zero(phases, Phase::Executing);
    lemma_count_zero(phases, Phase::Stopped);
    lemma_count_zero(phases, Phase::Failed);
    lemma_phases_partition(phases);
}

/// The number of workers is fixed when the pool is made: no history changes it.
pub proof fn law_size_is_fixed<J>(start: PoolState<J>, events: Seq<Event<J>>)
    ensures
        start.run(events).size() == start.size(),
    decreases events.len(),
{
    if events.len() > 0 {
        law_size_is_fixed(start, events.drop_last());
    }
}

/// Shutdown cannot be undone: a pool that is shutting down stays so.
pub proof fn law_shutdown_is_final<J>(start: PoolState<J>, events: Seq<Event<J>>)
    requires
        start.closed,
    ensures
        start.run(events).closed,
        start.accepted(events) == Seq::<J>::empty(),
    decreases events.len(),
{
    if events.len() > 0 {
        law_shutdown_is_final(start, events.drop_last());
    }
}

/// A worker that has stopped or failed stays as it is: nothing brings it back.
pub proof fn law_the_end_is_final<J>(start: PoolState<J>, events: Seq<Event<J>>, worker: int)
    requires
        0 <= worker < start.size(),
        !start.phases[worker].is_running(),
    ensures
        start.run(events).phases[worker] == start.phases[worker],
    decreases events.len(),
{
    if events.len() > 0 {
        law_the_end_is_final(start, events.drop_last(), worker);
        law_size_is_fixed(start, events.drop_last());
    }
}

/// A failure stays local: it ends the worker that held the failing job, and
/// touches neither the channel nor any other worker nor the pool's shutdown.
pub proof fn law_a_failure_stays_local<J>(state: PoolState<J>, worker: int)
    ensures
        state.abandon(worker).queue == state.queue,
        state.abandon(worker).closed == state.closed,
        state.abandon(worker).size() == state.size(),
        forall|i: int|
            0 <= i < state.size() && i != worker ==> state.abandon(worker).phases[i]
                == state.phases[i],
        state.is_executing(worker) ==> state.abandon(worker).phases[worker] == Phase::Failed,
        !state.is_executing(worker) ==> state.abandon(worker) == state,
{
}

/// A history can be told in two parts: the pool after both is the pool that
/// the second part makes of what the first part left.
pub proof fn law_histories_compose<J>(
    start: PoolState<J>,
    first: Seq<Event<J>>,
    second: Seq<Event<J>>,
)
    ensures
        start.run(first + second) == start.run(first).run(second),
    decreases second.len(),
{
    if second.len() > 0 {
        assert((first + second).drop_last() =~= first + second.drop_last());
        law_histories_compose(start, first, second.drop_last());
    }
}

/// Every job is handed to a worker of the pool.
pub proof fn law_hand_outs_name_workers<J>(start: PoolState<J>, events: Seq<Event<J>>)
    ensures
        forall|k: int|
            0 <= k < start.handed_out(events).len() ==> 0 <= (#[trigger] start.handed_out(
                events,
            )[k]).worker < start.size(),
    decreases events.len(),
{
    if events.len() > 0 {
        let earlier = events.drop_last();
        law_hand_outs_name_workers(start, earlier);
        law_size_is_fixed(start, earlier);
        let given = start.handed_out(events);
        assert forall|k: int| 0 <= k < given.len() implies 0 <= (#[trigger] given[k]).worker
            < start.size() by {
            if k < start.handed_out(earlier).len() {
                assert(given[k] == start.handed_out(earlier)[k]);
            }
        }
    }
}

/// An orderly pool stays orderly through every history.
pub proof fn law_order_is_kept<J>(start: PoolState<J>, events: Seq<Event<J>>)
    requires
        start.orderly(),
    ensures
        start.run(events).orderly(),
    decreases events.len(),
{
    if events.len() > 0 {
        law_order_is_kept(start, events.drop_last());
        lemma_step_keeps_order(start.run(events.drop_last()), events.last());
    }
}

/// Every state that a pool of `size` workers can reach is orderly. So from
/// shutdown on, the channel holds, behind all the jobs, exactly one terminate
/// message for each worker that has not taken one: none is missing for a worker
/// that runs.
pub proof fn law_one_terminate_for_each_running_worker<J>(size: nat, events: Seq<Event<J>>)
    ensures
        PoolState::<J>::initial(size).run(events).orderly(),
{
    lemma_initial_is_orderly::<J>(size);
    law_order_is_kept(PoolState::<J>::initial(size), events);
}

/// No job is lost and none is handed out twice: at every moment the jobs
/// handed out so far, followed by the jobs still queued, are the jobs queued at
/// the start followed by the jobs taken since, in the order of submission. Each
/// hand-out names the one worker that got the job.
pub proof fn law_jobs_are_conserved<J>(start: PoolState<J>, events: Seq<Event<J>>)
    ensures
        jobs_of(start.handed_out(events)) + jobs_in(start.run(events).queue) == jobs_in(
            start.queue,
        ) + start.accepted(events),
    decreases events.len(),
{
    if events.len() > 0 {
        let earlier = events.drop_last();
        let mid = start.run(earlier);
        law_jobs_are_conserved(start, earlier);
        match events.last() {
            Event::Execute(job) => {
                if mid.rejection().is_none() {
                    let taken = start.accepted(earlier);
                    lemma_jobs_in_push(mid.queue, Message::NewJob(job));
                    assert(jobs_in(start.queue) + taken.push(job) =~= (jobs_in(start.queue)
                        + taken).push(job));
                }
            },
            Event::Shutdown => {
                if !mid.closed {
                    lemma_jobs_in_terminates(mid.queue, mid.size());
                }
            },
            Event::Receive(worker) => {
                if mid.takes(worker) {
                    lemma_jobs_in_drop_first(mid.queue);
                }
            },
            _ => {},
        }
    }
}

/// Every job that was handed out is in some worker's hands, has returned, or
/// has failed: the hand-outs of a history are the returns reported during it,
/// the jobs now in hand and the workers that failed, less the jobs that were
/// in hand and the workers that had failed at the start.
pub proof fn law_hand_outs_balance<J>(start: PoolState<J>, events: Seq<Event<J>>)
    ensures
        count(start.phases, Phase::Executing) + count(start.phases, Phase::Failed)
            + start.handed_out(events).len() == start.completed(events) + count(
            start.run(events).phases,
            Phase::Executing,
        ) + count(start.run(events).phases, Phase::Failed),
    decreases events.len(),
{
    if events.len() > 0 {
        let earlier = events.drop_last();
        let mid = start.run(earlier);
        law_hand_outs_balance(start, earlier);
        match events.last() {
            Event::Receive(worker) => {
                if mid.takes(worker) {
                    let to = Phase::Waiting.after(mid.queue.first());
                    lemma_count_update(mid.phases, worker, to, Phase::Executing);
                    lemma_count_update(mid.phases, worker, to, Phase::Failed);
                }
            },
            Event::Complete(worker) => {
                if mid.is_executing(worker) {
                    lemma_count_update(mid.phases, worker, Phase::Waiting, Phase::Executing);
                    lemma_count_update(mid.phases, worker, Phase::Waiting, Phase::Failed);
                }
            },
            Event::Abandon(worker) => {
                if mid.is_executing(worker) {
                    lemma_count_update(mid.phases, worker, Phase::Failed, Phase::Executing);
                    lemma_count_update(mid.phases, worker, Phase::Failed, Phase::Failed);
                }
            },
            _ => {},
        }
    }
}

/// An orderly pool comes to rest only when there is nothing to do, or nobody
/// to do it: when no worker runs any more; or, before shutdown, when no job is
/// queued and none is in hand.
proof fn lemma_orderly_pool_moves<J>(state: PoolState<J>)
    requires
        state.orderly(),
    ensures
        state.can_move() || state.is_terminated() || (!state.closed && state.queue.len() == 0
            && count(state.phases, Phase::Executing) == 0),
{
    lemma_count_zero(state.phases, Phase::Waiting);
    lemma_count_zero(state.phases, Phase::Executing);
    if !state.is_terminated() {
        let worker = choose|i: int| 0 <= i < state.size() && state.phases[i].is_running();
        if state.phases[worker] == Phase::Executing {
            assert(state.is_executing(worker));
        } else if state.queue.len() > 0 {
            assert(state.takes(worker));
        } else if count(state.phases, Phase::Executing) > 0 {
            let busy = choose|i: int| 0 <= i < state.size() && state.phases[i] == Phase::Executing;
            assert(state.is_executing(busy));
        }
    }
}

/// The pool cannot come to rest while there is something to do and somebody to
/// do it. After shutdown some worker can act until none of them runs any more;
/// before shutdown some worker can act as long as a job is queued or in hand
/// and a worker runs.
pub proof fn law_no_deadlock<J>(size: nat, events: Seq<Event<J>>)
    ensures
        ({
            let end = PoolState::<J>::initial(size).run(events);
            end.can_move() || end.is_terminated() || (!end.closed && end.queue.len() == 0
                && count(end.phases, Phase::Executing) == 0)
        }),
{
    law_one_terminate_for_each_running_worker::<J>(size, events);
    lemma_orderly_pool_moves(PoolState::<J>::initial(size).run(events));
}

/// A pool at rest has run every job that it could. When no worker can act,
/// every job that was handed out has returned, but for one for each worker that
/// failed. If one worker at least did not fail, every job that the pool took
/// was handed to a worker, in the order of submission. If none failed, the
/// channel is empty and every job that the pool took has returned.
pub proof fn law_pool_at_rest_has_run_every_job<J>(size: nat, events: Seq<Event<J>>)
    requires
        size >= 1,
        !PoolState::<J>::initial(size).run(events).can_move(),
    ensures
        ({
            let start = PoolState::<J>::initial(size);
            let end = start.run(events);
            let failed = count(end.phases, Phase::Failed);
            &&& start.completed(events) + failed == start.handed_out(events).len()
            &&& failed < size ==> jobs_of(start.handed_out(events)) == start.accepted(events)
            &&& failed == 0 ==> end.queue.len() == 0
            &&& failed == 0 ==> start.completed(events) == start.accepted(events).len()
        }),
{
    let start = PoolState::<J>::initial(size);
    let end = start.run(events);
    law_no_deadlock::<J>(size, events);
    law_one_terminate_for_each_running_worker::<J>(size, events);
    law_size_is_fixed(start, events);
    lemma_initial_is_orderly::<J>(size);
    lemma_count_zero(end.phases, Phase::Waiting);
    lemma_count_zero(end.phases, Phase::Executing);
    law_jobs_are_conserved(start, events);
    law_hand_outs_balance(start, events);
    if count(end.phases, Phase::Failed) < size && end.is_terminated() {
        lemma_all_terminates(end.queue);
    }
}

/// Once no worker runs any more, nothing is left to wait for: every job that
/// was handed out has returned, but for one for each worker that failed. If one
/// worker at least stopped on a terminate message, shutdown had begun, every job
/// that the pool took was handed to a worker, no work is left, and the channel
/// holds nothing but one terminate message for each worker that failed.
pub proof fn law_termination_leaves_nothing<J>(size: nat, events: Seq<Event<J>>)
    requires
        size >= 1,
        PoolState::<J>::initial(size).run(events).is_terminated(),
    ensures
        ({
            let start = PoolState::<J>::initial(size);
            let end = start.run(events);
            let failed = count(end.phases, Phase::Failed);
            &&& failed <= size
            &&& start.completed(events) + failed == start.handed_out(events).len()
            &&& failed < size ==> end.closed
            &&& failed < size ==> jobs_of(start.handed_out(events)) == start.accepted(events)
            &&& failed < size ==> end.queue.len() == failed
            &&& failed < size ==> end.work_left() == 0
        }),
{
    let start = PoolState::<J>::initial(size);
    let end = start.run(events);
    law_size_is_fixed(start, events);
    law_one_terminate_for_each_running_worker::<J>(size, events);
    lemma_phases_partition(end.phases);
    lemma_count_zero(end.phases, Phase::Waiting);
    lemma_count_zero(end.phases, Phase::Executing);
    law_pool_at_rest_has_run_every_job::<J>(size, events);
    if count(end.phases, Phase::Failed) < size {
        lemma_all_terminates(end.queue);
    }
}

/// The workers' debt is kept exactly: every job that the pool takes adds two
/// acts to the work that is left, to take the job and to finish it; every act
/// of a worker pays off one; and a failure writes off two, the end of the job
/// and the stop of the worker. Nothing else changes the debt. So once no job is
/// submitted any more, the workers act at most `work_left` times, whatever the
/// order.
pub proof fn law_work_is_paid_off<J>(start: PoolState<J>, events: Seq<Event<J>>)
    ensures
        start.moves(events) + start.run(events).work_left() + 2 * count(
            start.run(events).phases,
            Phase::Failed,
        ) == start.work_left() + 2 * count(start.phases, Phase::Failed) + 2 * start.accepted(
            events,
        ).len(),
    decreases events.len(),
{
    if events.len() > 0 {
        let earlier = events.drop_last();
        let mid = start.run(earlier);
        law_work_is_paid_off(start, earlier);
        match events.last() {
            Event::Execute(job) => {
                if mid.rejection().is_none() {
                    lemma_jobs_in_push(mid.queue, Message::NewJob(job));
                }
            },
            Event::Shutdown => {
                if !mid.closed {
                    lemma_jobs_in_terminates(mid.queue, mid.size());
                }
            },
            Event::Receive(worker) => {
                if mid.takes(worker) {
                    let to = Phase::Waiting.after(mid.queue.first());
                    lemma_jobs_in_drop_first(mid.queue);
                    lemma_count_update(mid.phases, worker, to, Phase::Waiting);
                    lemma_count_update(mid.phases, worker, to, Phase::Executing);
                    lemma_count_update(mid.phases, worker, to, Phase::Failed);
                }
            },
            Event::Complete(worker) => {
                if mid.is_executing(worker) {
                    lemma_count_update(mid.phases, worker, Phase::Waiting, Phase::Waiting);
                    lemma_count_update(mid.phases, worker, Phase::Waiting, Phase::Executing);
                    lemma_count_update(mid.phases, worker, Phase::Waiting, Phase::Failed);
                }
            },
            Event::Abandon(worker) => {
                if mid.is_executing(worker) {
                    lemma_count_update(mid.phases, worker, Phase::Failed, Phase::Waiting);
                    lemma_count_update(mid.phases, worker, Phase::Failed, Phase::Executing);
                    lemma_count_update(mid.phases, worker, Phase::Failed, Phase::Failed);
                }
            },
        }
    }
}

/// A pool of one worker runs its jobs one after the other, in the order of
/// their submission: when the worker is handed a job, every job handed out
/// before has returned, and the job is the oldest one not yet handed out.
/// (Nothing of the kind holds of two workers or more: see `law_workers_overlap`.)
pub proof fn law_single_worker_runs_in_turn<J>(earlier: Seq<Event<J>>, worker: int, job: J)
    requires
        PoolState::<J>::initial(1).run(earlier).received(worker) == Received::Job(job),
    ensures
        worker == 0,
        PoolState::<J>::initial(1).completed(earlier) == PoolState::<J>::initial(1).handed_out(
            earlier,
        ).len(),
        PoolState::<J>::initial(1).handed_out(earlier).len() < PoolState::<J>::initial(
            1,
        ).accepted(earlier).len(),
        PoolState::<J>::initial(1).accepted(earlier)[PoolState::<J>::initial(1).handed_out(
            earlier,
        ).len() as int] == job,
        jobs_of(PoolState::<J>::initial(1).handed_out(earlier))
            == PoolState::<J>::initial(1).accepted(earlier).take(
            PoolState::<J>::initial(1).handed_out(earlier).len() as int,
        ),
{
    let start = PoolState::<J>::initial(1);
    let mid = start.run(earlier);
    law_size_is_fixed(start, earlier);
    lemma_initial_is_orderly::<J>(1);
    lemma_count_zero(mid.phases, Phase::Executing);
    lemma_count_zero(mid.phases, Phase::Failed);
    law_hand_outs_balance(start, earlier);
    law_jobs_are_conserved(start, earlier);
    lemma_jobs_in_drop_first(mid.queue);
}

/// Two workers run two jobs at once: a worker that is busy keeps nobody from
/// the channel. After two submissions and one request from each of two workers,
/// both are busy, each with one of the jobs, and neither job has returned.
pub proof fn law_workers_overlap<J>(size: nat, first: int, second: int, a: J, b: J)
    requires
        0 <= first < size,
        0 <= second < size,
        first != second,
    ensures
        ({
            let start = PoolState::<J>::initial(size);
            let end = start.execute(a).execute(b).receive(first).receive(second);
            &&& start.execute(a).execute(b).received(first) == Received::Job(a)
            &&& start.execute(a).execute(b).receive(first).received(second) == Received::Job(b)
            &&& end.is_executing(first)
            &&& end.is_executing(second)
            &&& end.queue.len() == 0
        }),
{
}

/// What a waiting worker gets depends on the channel alone: not on how many
/// other workers there are, nor on what they are doing.
pub proof fn law_hand_out_ignores_the_others<J>(
    one: PoolState<J>,
    other: PoolState<J>,
    worker: int,
)
    requires
        one.queue == other.queue,
        one.is_waiting(worker),
        other.is_waiting(worker),
    ensures
        one.received(worker) == other.received(worker),
        one.receive(worker).queue == other.receive(worker).queue,
        one.receive(worker).phases[worker] == other.receive(worker).phases[worker],
        forall|i: int|
            0 <= i < one.size() && i != worker ==> one.receive(worker).phases[i] == one.phases[i],
{
}

/// A pool that is shut down before any job was submitted stops in `size` steps:
/// no job is ever handed out, every act of a worker stops that worker, and the
/// workers keep acting until all of them have stopped.
pub proof fn law_idle_pool_shuts_down<J>(size: nat, events: Seq<Event<J>>)
    requires
        size >= 1,
    ensures
        ({
            let start = PoolState::<J>::initial(size).shutdown();
            let end = start.run(events);
            &&& start.queue == Seq::new(size, |i: int| Message::<J>::Terminate)
            &&& start.handed_out(events).len() == 0
            &&& start.moves(events) + running(end.phases) == size
            &&& end.queue.len() == running(end.phases)
            &&& end.is_terminated() || end.can_move()
            &&& end.is_terminated() <==> start.moves(events) == size
        }),
{
    let fresh = PoolState::<J>::initial(size);
    let start = fresh.shutdown();
    let end = start.run(events);
    lemma_initial_is_orderly::<J>(size);
    law_order_is_kept(start, events);
    law_shutdown_is_final(start, events);
    law_jobs_are_conserved(start, events);
    law_hand_outs_balance(start, events);
    law_work_is_paid_off(start, events);
    lemma_jobs_in_terminates(Seq::<Message<J>>::empty(), size);
    lemma_no_jobs_in(end.queue);
    lemma_orderly_pool_moves(end);
    lemma_count_zero(end.phases, Phase::Waiting);
    lemma_count_zero(end.phases, Phase::Executing);
    assert(end.queue.len() == running(end.phases)) by {
        if end.queue.len() > 0 {
            assert(end.queue[0] is Terminate);
        }
    }
}

} // verus!
