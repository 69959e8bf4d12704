//! What each step does to a pool, its tracker and its messages, in plain counts and sequences.
use crate::autopool::AutoPool;
use crate::messages::{Delivery, JobStatus, Received, WorkerEvent, WorkerPoolCommand};
use crate::model::PoolState;
use crate::pool::{WorkerPool, WorkerStart};
use crate::status::WorkerPoolStatus;
use crate::tracker::TickWorkTracker;
use std::time::Instant;
use vstd::prelude::*;

verus! {

/// A state is valid where no more workers are stopping than there are, there are no more workers
/// than the cap, and the machine can hold the counts; and nothing else is asked of it.
pub proof fn law_valid_states<In>(state: PoolState<In>)
    ensures
        state.valid() <==> state.stopping <= state.workers && state.workers <= state.cap
            && state.cap <= usize::MAX && state.target <= usize::MAX,
        state.valid() ==> state.staying() == state.workers - state.stopping,
{
}

/// Whenever fewer workers stay than are wanted, there are fewer than the cap and a task is queued,
/// however few tasks there are, a step of balancing starts one worker with the oldest task.
pub proof fn law_missing_worker_is_started<In: Clone>(state: PoolState<In>)
    requires
        state.valid(),
        state.workers - state.stopping < state.target,
        state.workers < state.cap,
        state.queue.len() > 0,
    ensures
        state.under_target(),
        state.has_task(),
        state.balanced().workers == state.workers + 1,
        state.balanced().queue == state.queue.subrange(1, state.queue.len() as int),
        state.balanced().stopping == state.stopping,
        state.balanced().target == state.target,
        state.balanced().cap == state.cap,
        state.balanced().default_job == state.default_job,
        state.balanced().commands == state.commands,
        state.stops_to_balance() == 0,
        forall|task: Option<In>|
            state.is_next_task(task) <==> task == Some(state.queue[0]),
{
    assert(state.queue.drop_first() == state.queue.subrange(1, state.queue.len() as int));
}

/// Whenever fewer workers stay than are wanted, there are fewer than the cap and no task is
/// queued, a step of balancing starts one worker with the default task, if there is one.
pub proof fn law_missing_worker_gets_the_default<In: Clone>(state: PoolState<In>)
    requires
        state.valid(),
        state.workers - state.stopping < state.target,
        state.workers < state.cap,
        state.queue.len() == 0,
    ensures
        state.under_target(),
        state.has_task() <==> state.default_job is Some,
        state.balanced().workers == state.workers + (if state.default_job is Some {
            1int
        } else {
            0
        }),
        state.balanced().queue == state.queue,
        state.balanced().stopping == state.stopping,
        state.balanced().target == state.target,
        state.balanced().cap == state.cap,
        state.balanced().default_job == state.default_job,
        state.balanced().commands == state.commands,
        state.stops_to_balance() == 0,
        state.default_job is None ==> forall|task: Option<In>|
            state.is_next_task(task) <==> task is None,
        state.default_job is Some ==> forall|task: In|
            state.is_next_task(Some(task)) <==> cloned(state.default_job->0, task),
        state.default_job is Some ==> !state.is_next_task(None),
{
}

/// A pool that has as many staying workers as it wants, or as many workers as it may have and no
/// surplus, is left alone by a step of balancing.
pub proof fn law_enough_workers_are_left_alone<In>(state: PoolState<In>)
    requires
        state.valid(),
        state.workers - state.stopping == state.target || (state.workers - state.stopping
            < state.target && state.workers == state.cap),
    ensures
        state.balanced() == state,
        state.stops_to_balance() == 0,
        !state.under_target(),
        !state.over_target(),
{
}

/// Whenever more workers stay than are wanted, a step of balancing asks exactly one of them to
/// stop and calls for exactly one stop message, whatever tasks there are.
pub proof fn law_surplus_worker_is_asked<In>(state: PoolState<In>)
    requires
        state.valid(),
        state.workers - state.stopping > state.target,
    ensures
        state.over_target(),
        !state.under_target(),
        state.balanced().stopping == state.stopping + 1,
        state.balanced().workers == state.workers,
        state.balanced().queue == state.queue,
        state.balanced().target == state.target,
        state.balanced().cap == state.cap,
        state.balanced().default_job == state.default_job,
        state.balanced().commands == state.commands,
        state.stops_to_balance() == 1,
{
}

/// Taking up a task removes the oldest one from the queue, if there is one, and nothing else;
/// starting a worker does so and counts one worker more, exactly if there is a task for it.
pub proof fn law_oldest_task_is_taken<In: Clone>(state: PoolState<In>)
    ensures
        state.queue.len() > 0 ==> state.task_taken().queue == state.queue.subrange(
            1,
            state.queue.len() as int,
        ),
        state.queue.len() == 0 ==> state.task_taken().queue == state.queue,
        state.queue.len() > 0 ==> forall|task: Option<In>|
            state.is_next_task(task) <==> task == Some(state.queue[0]),
        state.queue.len() == 0 && state.default_job is None ==> forall|task: Option<In>|
            state.is_next_task(task) <==> task is None,
        state.queue.len() == 0 && state.default_job is Some ==> !state.is_next_task(None),
        state.queue.len() == 0 && state.default_job is Some ==> forall|task: In|
            state.is_next_task(Some(task)) <==> cloned(state.default_job->0, task),
        state.has_task() <==> state.queue.len() > 0 || state.default_job is Some,
        state.task_taken().workers == state.workers,
        state.task_taken().stopping == state.stopping,
        state.task_taken().target == state.target,
        state.task_taken().cap == state.cap,
        state.task_taken().default_job == state.default_job,
        state.task_taken().commands == state.commands,
        state.queue.len() > 0 || state.default_job is Some ==> state.started().workers
            == state.workers + 1,
        state.queue.len() == 0 && state.default_job is None ==> state.started().workers
            == state.workers,
        state.queue.len() > 0 ==> state.started().queue == state.queue.subrange(
            1,
            state.queue.len() as int,
        ),
        state.queue.len() == 0 ==> state.started().queue == state.queue,
        state.started().stopping == state.stopping,
        state.started().target == state.target,
        state.started().cap == state.cap,
        state.started().default_job == state.default_job,
        state.started().commands == state.commands,
{
    if state.queue.len() > 0 {
        assert(state.queue.drop_first() == state.queue.subrange(1, state.queue.len() as int));
    }
}

/// Each request to stop asks one more worker, as long as there is one left to ask, and changes
/// nothing else.
pub proof fn law_requests_to_stop<In>(state: PoolState<In>, n: nat)
    ensures
        state.stopping + n <= state.workers ==> state.asked(n).stopping == state.stopping + n,
        state.stopping + n > state.workers ==> state.asked(n).stopping == state.workers,
        state.asked(n).workers == state.workers,
        state.asked(n).target == state.target,
        state.asked(n).cap == state.cap,
        state.asked(n).queue == state.queue,
        state.asked(n).default_job == state.default_job,
        state.asked(n).commands == state.commands,
{
}

/// No command changes nothing, and calls for no stop message.
pub proof fn law_no_command_changes_nothing<In>(state: PoolState<In>)
    ensures
        state.after_commands(Seq::empty()) == state,
        state.stops_called_for(Seq::empty()) == 0,
        state.commands.len() == 0 ==> state.settled() == state,
{
    if state.commands.len() == 0 {
        assert(state.commands =~= Seq::<WorkerPoolCommand>::empty());
    }
}

/// After any commands, one more stop command calls for exactly as many stop messages as the pool
/// then aims for, and asks that many workers to stop, or all that are left to ask. Nothing else
/// changes.
pub proof fn law_stop_calls_for_the_target<In>(
    state: PoolState<In>,
    commands: Seq<WorkerPoolCommand>,
)
    requires
        state.valid(),
    ensures
        ({
            let before = state.after_commands(commands);
            let all = commands.push(WorkerPoolCommand::Stop);
            let after = state.after_commands(all);
            &&& state.stops_called_for(all) == state.stops_called_for(commands) + before.target
            &&& before.stopping + before.target <= before.workers ==> after.stopping
                == before.stopping + before.target
            &&& before.stopping + before.target > before.workers ==> after.stopping
                == before.workers
            &&& after.workers == before.workers
            &&& after.target == before.target
            &&& after.cap == before.cap
            &&& after.queue == before.queue
            &&& after.default_job == before.default_job
            &&& after.commands == before.commands
        }),
{
    lemma_one_more_command(state, commands, WorkerPoolCommand::Stop);
    crate::laws::law_commands_keep_validity(state, commands);
}

/// A stop command by itself calls for exactly as many stop messages as the pool aims for.
pub proof fn law_one_stop_calls_for_the_target<In>(state: PoolState<In>)
    ensures
        state.stops_called_for(seq![WorkerPoolCommand::Stop]) == state.target,
        state.stops_for(WorkerPoolCommand::Stop) == state.target,
        state.after_commands(seq![WorkerPoolCommand::Stop]) == state.after_command(
            WorkerPoolCommand::Stop,
        ),
        state.after_command(WorkerPoolCommand::Stop).stopping == (if state.stopping + state.target
            <= state.workers {
            state.stopping + state.target
        } else {
            state.workers
        }),
{
    let empty = Seq::<WorkerPoolCommand>::empty();
    lemma_one_more_command(state, empty, WorkerPoolCommand::Stop);
    assert(empty.push(WorkerPoolCommand::Stop) =~= seq![WorkerPoolCommand::Stop]);
}

/// After any commands, one more worker count becomes the target, or one if it is zero, and calls
/// for no stop message. Nothing else changes.
pub proof fn law_worker_count_becomes_the_target<In>(
    state: PoolState<In>,
    commands: Seq<WorkerPoolCommand>,
    n: usize,
)
    ensures
        ({
            let before = state.after_commands(commands);
            let all = commands.push(WorkerPoolCommand::SetWorkerCount(n));
            let after = state.after_commands(all);
            &&& n > 0 ==> after.target == n
            &&& n == 0 ==> after.target == 1
            &&& state.stops_called_for(all) == state.stops_called_for(commands)
            &&& after.stopping == before.stopping
            &&& after.workers == before.workers
            &&& after.cap == before.cap
            &&& after.queue == before.queue
            &&& after.default_job == before.default_job
            &&& after.commands == before.commands
        }),
{
    lemma_one_more_command(state, commands, WorkerPoolCommand::SetWorkerCount(n));
}

/// Whatever is commanded, at least as many stop messages are called for as fewer workers stay.
pub proof fn law_every_asked_worker_has_a_message<In>(
    state: PoolState<In>,
    commands: Seq<WorkerPoolCommand>,
)
    requires
        state.valid(),
    ensures
        (state.workers - state.stopping) - (state.after_commands(commands).workers
            - state.after_commands(commands).stopping) <= state.stops_called_for(commands),
    decreases commands.len(),
{
    if commands.len() > 0 {
        let init = commands.drop_last();
        let last = commands.last();
        assert(init.push(last) == commands);
        law_every_asked_worker_has_a_message(state, init);
        match last {
            WorkerPoolCommand::Stop => {
                law_stop_calls_for_the_target(state, init);
            },
            WorkerPoolCommand::SetWorkerCount(n) => {
                law_worker_count_becomes_the_target(state, init, n);
            },
        }
    }
}

/// A state is settled by carrying out all of its commands, oldest first; none is left, and
/// workers, queue, cap and default stay what they were.
pub proof fn law_settled_states<In>(state: PoolState<In>)
    requires
        state.valid(),
    ensures
        state.settled().commands.len() == 0,
        state.settled().target == state.after_commands(state.commands).target,
        state.settled().stopping == state.after_commands(state.commands).stopping,
        state.settled().workers == state.workers,
        state.settled().queue == state.queue,
        state.settled().cap == state.cap,
        state.settled().default_job == state.default_job,
{
    crate::laws::law_commands_keep_validity(state, state.commands);
}

proof fn lemma_one_more_command<In>(
    state: PoolState<In>,
    commands: Seq<WorkerPoolCommand>,
    command: WorkerPoolCommand,
)
    ensures
        state.after_commands(commands.push(command)) == state.after_commands(
            commands,
        ).after_command(command),
        state.stops_called_for(commands.push(command)) == state.stops_called_for(commands)
            + state.after_commands(commands).stops_for(command),
{
    let one = seq![command];
    let before = state.after_commands(commands);
    assert(commands.push(command) == commands + one);
    crate::laws::law_commands_in_batches(state, commands, one);
    assert(one.drop_first() == Seq::<WorkerPoolCommand>::empty());
    assert(before.after_commands(one) == before.after_command(command).after_commands(
        one.drop_first(),
    ));
    assert(before.stops_called_for(one) == before.stops_for(command) + before.after_command(
        command,
    ).stops_called_for(one.drop_first()));
}

/// After any events, one more event counts exactly one worker out. If it stopped, one fewer is
/// stopping, if any was; if it is done, as many are stopping as before, as far as there are
/// workers left. Nothing else changes.
pub proof fn law_event_counts_one_worker_out<In>(
    state: PoolState<In>,
    events: Seq<WorkerEvent>,
    event: WorkerEvent,
)
    requires
        state.valid(),
        events.len() < state.workers,
    ensures
        state.after_events(Seq::empty()) == state,
        ({
            let before = state.after_events(events);
            let after = state.after_events(events.push(event));
            &&& before.workers == state.workers - events.len()
            &&& after.workers == before.workers - 1
            &&& event == WorkerEvent::WorkerStopped && before.stopping > 0 ==> after.stopping
                == before.stopping - 1
            &&& event == WorkerEvent::WorkerStopped && before.stopping == 0 ==> after.stopping == 0
            &&& event == WorkerEvent::WorkerDone && before.stopping < before.workers
                ==> after.stopping == before.stopping
            &&& event == WorkerEvent::WorkerDone && before.stopping == before.workers
                ==> after.stopping == before.stopping - 1
            &&& after.target == before.target
            &&& after.cap == before.cap
            &&& after.queue == before.queue
            &&& after.default_job == before.default_job
            &&& after.commands == before.commands
        }),
        state.after_events(seq![event]) == state.after_event(event),
{
    crate::laws::law_events_count_workers_out(state, events);
    state.lemma_one_more_event(events, event);
    let empty = Seq::<WorkerEvent>::empty();
    state.lemma_one_more_event(empty, event);
    assert(empty.push(event) =~= seq![event]);
}

/// The looks that count some workers out find exactly their events, in order; then, exactly if a
/// worker is left, one more look finds nothing.
pub proof fn law_looks_end_with_none(events: Seq<WorkerEvent>, left: nat)
    ensures
        forall|i: int|
            0 <= i < events.len() ==> #[trigger] crate::model::looks_until_none(events, left)[i]
                == Some(events[i]),
        left == 0 ==> crate::model::looks_until_none(events, left).len() == events.len(),
        left > 0 ==> crate::model::looks_until_none(events, left).len() == events.len() + 1,
        left > 0 ==> crate::model::looks_until_none(events, left).last() is None,
{
}

/// The attempts that deliver `n` messages are `n` sent ones; then, exactly if some were left, one
/// more that failed.
pub proof fn law_attempts_end_with_a_failure(n: nat, last: Delivery)
    ensures
        forall|i: int|
            0 <= i < n ==> #[trigger] crate::model::attempts_until(n, last)[i] == Delivery::Sent,
        last == Delivery::Sent ==> crate::model::attempts_until(n, last).len() == n,
        last != Delivery::Sent ==> crate::model::attempts_until(n, last).len() == n + 1,
        last != Delivery::Sent ==> crate::model::attempts_until(n, last).last() == last,
{
}

/// Each attempt that was sent counts as one, and no other does.
pub proof fn law_sent_attempts_are_counted(attempts: Seq<Delivery>, delivery: Delivery)
    ensures
        crate::model::sent_count(Seq::empty()) == 0,
        delivery == Delivery::Sent ==> crate::model::sent_count(attempts.push(delivery))
            == crate::model::sent_count(attempts) + 1,
        delivery != Delivery::Sent ==> crate::model::sent_count(attempts.push(delivery))
            == crate::model::sent_count(attempts),
{
    crate::model::lemma_one_more_attempt(attempts, delivery);
}

/// A pool is in order where its counts are valid, it owns its commands, its ends belong together,
/// and it has an unsent stop message only after a failed attempt, and only once its channel had
/// been filled; and nothing else is asked of it.
pub proof fn law_pools_in_order<In, Out, F>(pool: WorkerPool<In, Out, F>)
    ensures
        pool.wf() <==> {
            &&& pool@.stopping <= pool@.workers
            &&& pool@.workers <= pool@.cap
            &&& pool@.cap <= usize::MAX
            &&& pool@.target <= usize::MAX
            &&& pool.owns_commands()
            &&& pool.stops_to() == pool.stops_from()
            &&& pool.events_to() == pool.events_from()
            &&& pool.results() == pool.outputs_from()
            &&& pool.unsent() > 0 ==> pool.stop_attempts().len() > 0
                && pool.stop_attempts().last() != Delivery::Sent
                && crate::model::sent_count(pool.stop_attempts()) >= pool.stop_room()
        },
{
}

/// An automatic pool is in order where its pool is and where the work of its tick is part of all
/// its work; and nothing else is asked of it.
pub proof fn law_auto_pools_in_order<In, Out, F>(auto: AutoPool<In, Out, F>)
    ensures
        auto.tracker.wf() <==> auto.tracker.tick_work <= auto.tracker.all_work,
        auto.wf() <==> auto.pool.wf() && auto.tracker.tick_work <= auto.tracker.all_work,
{
}

/// Where `n` stop messages are called for and the machine can count them, sent and unsent ones
/// together grow by exactly `n`, none that was sent is taken back, and each is tried for.
pub proof fn law_stops_called_for_are_kept<In, Out, F>(
    before: WorkerPool<In, Out, F>,
    after: WorkerPool<In, Out, F>,
    n: nat,
)
    requires
        after.stops_added(&before, n),
        before.unsent() + n <= usize::MAX,
    ensures
        crate::model::sent_count(after.stop_attempts()) + after.unsent()
            == crate::model::sent_count(before.stop_attempts()) + before.unsent() + n,
        crate::model::sent_count(after.stop_attempts()) >= crate::model::sent_count(
            before.stop_attempts(),
        ),
        after.stop_attempts().len() >= before.stop_attempts().len() + n,
{
}

/// A delivery sends the messages that it owes one after another, until none is left or an attempt
/// fails, and makes no other attempt.
pub proof fn law_delivery_goes_on_until_it_fails<In, Out, F>(
    before: WorkerPool<In, Out, F>,
    after: WorkerPool<In, Out, F>,
    owed: nat,
    delivery: Delivery,
)
    requires
        after.delivered(&before, owed, delivery),
    ensures
        after.unsent() <= owed,
        delivery == Delivery::Sent <==> after.unsent() == 0,
        forall|i: int|
            0 <= i < before.stop_attempts().len() ==> #[trigger] after.stop_attempts()[i]
                == before.stop_attempts()[i],
        forall|i: int|
            before.stop_attempts().len() <= i < before.stop_attempts().len() + owed
                - after.unsent() ==> #[trigger] after.stop_attempts()[i] == Delivery::Sent,
        after.unsent() == 0 ==> after.stop_attempts().len() == before.stop_attempts().len() + owed,
        after.unsent() > 0 ==> after.stop_attempts().len() == before.stop_attempts().len() + owed
            - after.unsent() + 1,
        after.unsent() > 0 ==> after.stop_attempts().last() == delivery,
{
}

/// What is said to be unchanged is equal to what it was.
pub proof fn law_what_is_kept_is_equal<In, Out, F>(
    before: WorkerPool<In, Out, F>,
    after: WorkerPool<In, Out, F>,
)
    ensures
        after.same_stops(&before) ==> after.stop_attempts() == before.stop_attempts()
            && after.unsent() == before.unsent(),
        after.same_events(&before) ==> after.event_looks() == before.event_looks(),
        after.same_outputs(&before) ==> after.output_looks() == before.output_looks(),
        after.same_pool(&before) ==> after.performs() == before.performs() && after.stops_to()
            == before.stops_to() && after.stop_room() == before.stop_room() && after.results()
            == before.results() && after.output_room() == before.output_room()
            && after.events_from() == before.events_from(),
{
}

/// A worker that belongs to a pool hands in, listens and reports on the pool's channels, and has
/// reported nothing.
pub proof fn law_workers_that_belong<In, Out, F>(
    worker: WorkerStart<In, Out>,
    pool: WorkerPool<In, Out, F>,
)
    requires
        worker.belongs_to(&pool),
    ensures
        worker.job.results == pool.results(),
        crate::channels::stops_come_from(worker.job.close) == pool.stops_to(),
        crate::channels::events_go_to(worker.reporter.events()) == pool.events_from(),
        crate::channels::events_put(worker.reporter.events()).len() == 0,
{
}

/// A turn carries out the commands, counts out the workers of the events, and then starts one
/// worker with the oldest task exactly if fewer stay than are wanted, the cap allows one more and a
/// task is queued, asks one to stop exactly if more stay than are wanted, and leaves the rest as it
/// is.
pub proof fn law_turn_in_plain_counts<In: Clone>(
    before: PoolState<In>,
    events: Seq<WorkerEvent>,
    after: PoolState<In>,
    task: Option<In>,
)
    requires
        before.valid(),
        crate::pool::turned(before, events, after, task),
    ensures
        ({
            let counted = before.settled().after_events(events);
            let staying = counted.workers - counted.stopping;
            let missing = staying < counted.target && counted.workers < counted.cap;
            &&& events.len() <= before.workers
            &&& counted.workers == before.workers - events.len()
            &&& counted.queue == before.queue
            &&& counted.target == before.after_commands(before.commands).target
            &&& after.target == counted.target
            &&& after.cap == before.cap
            &&& after.default_job == before.default_job
            &&& after.commands.len() == 0
            &&& missing && before.queue.len() > 0 ==> {
                &&& task == Some(before.queue[0])
                &&& after.workers == counted.workers + 1
                &&& after.queue == before.queue.subrange(1, before.queue.len() as int)
                &&& after.stopping == counted.stopping
            }
            &&& missing && before.queue.len() == 0 && before.default_job is Some ==> {
                &&& task is Some
                &&& cloned(before.default_job->0, task->0)
                &&& after.workers == counted.workers + 1
                &&& after.queue == before.queue
                &&& after.stopping == counted.stopping
            }
            &&& !missing || (before.queue.len() == 0 && before.default_job is None) ==> {
                &&& task is None
                &&& after.workers == counted.workers
                &&& after.queue == before.queue
                &&& staying > counted.target ==> after.stopping == counted.stopping + 1
                &&& staying <= counted.target ==> after.stopping == counted.stopping
            }
        }),
{
    law_settled_states(before);
    crate::laws::law_commands_keep_validity(before, before.commands);
    crate::laws::law_events_count_workers_out(before.settled(), events);
    let counted = before.settled().after_events(events);
    law_oldest_task_is_taken(counted);
    assert(counted.workers - counted.stopping == counted.staying());
}

/// A turn of a pool that calls for stop messages, by its commands or by its step towards the
/// target, keeps each of them, sent or unsent; and its looks for reports find exactly the events
/// that it counts, and go on until one finds nothing or no worker is left.
pub proof fn law_turn_keeps_stops_and_events<In: Clone, Out, F>(
    before: WorkerPool<In, Out, F>,
    events: Seq<WorkerEvent>,
    after: WorkerPool<In, Out, F>,
    task: Option<In>,
)
    requires
        before.wf(),
        after.took_turn(&before, events, task),
    ensures
        crate::pool::turned(before@, events, after@, task),
        ({
            let counted = before@.settled().after_events(events);
            let called: int = before@.stops_called_for(before@.commands) + (if counted.workers
                - counted.stopping > counted.target {
                1int
            } else {
                0
            });
            before.unsent() + called <= usize::MAX ==> crate::model::sent_count(
                after.stop_attempts(),
            ) + after.unsent() == crate::model::sent_count(before.stop_attempts())
                + before.unsent() + called
        }),
        forall|i: int|
            0 <= i < before.event_looks().len() ==> #[trigger] after.event_looks()[i]
                == before.event_looks()[i],
        forall|i: int|
            0 <= i < events.len() ==> after.event_looks()[#[trigger] (before.event_looks().len()
                + i)] == Some(#[trigger] events[i]),
        events.len() == before@.workers ==> after.event_looks().len() == before.event_looks().len()
            + events.len(),
        events.len() < before@.workers ==> after.event_looks().len() == before.event_looks().len()
            + events.len() + 1 && after.event_looks().last() is None,
{
    law_settled_states(before@);
    crate::laws::law_commands_keep_validity(before@, before@.commands);
    crate::laws::law_events_count_workers_out(before@.settled(), events);
}

/// The time between two points in time is their distance on the line of time, and none backwards.
pub proof fn law_time_between(later: Instant, earlier: Instant)
    ensures
        crate::tracker::moment(earlier) <= crate::tracker::moment(later)
            ==> crate::tracker::nanos_between(later, earlier) == crate::tracker::moment(later)
            - crate::tracker::moment(earlier),
        crate::tracker::moment(later) < crate::tracker::moment(earlier)
            ==> crate::tracker::nanos_between(later, earlier) == 0,
{
}

/// A tick is over at `now` exactly if more nanoseconds lie between its beginning and `now` than a
/// tick should last.
pub proof fn law_tick_is_over_in_time(tracker: TickWorkTracker, now: Instant)
    ensures
        tracker.over_at(now) <==> crate::tracker::moment(now) - crate::tracker::moment(tracker.last)
            > crate::tracker::nanos(tracker.rate),
{
}

/// As long as the machine can count it, work is added to the tick and to the whole alike, one for
/// one, and nothing else changes.
pub proof fn law_work_is_counted(tracker: TickWorkTracker, n: nat)
    requires
        tracker.all_work + n <= usize::MAX,
        tracker.tick_work + n <= usize::MAX,
    ensures
        tracker.with_work(n).tick_work == tracker.tick_work + n,
        tracker.with_work(n).all_work == tracker.all_work + n,
        tracker.with_work(n).start == tracker.start,
        tracker.with_work(n).last == tracker.last,
        tracker.with_work(n).rate == tracker.rate,
{
}

/// A new tick begins when it is said to, with no work in it; what was done before still counts to
/// the whole, and ticks stay as long as they were.
pub proof fn law_new_tick_begins(tracker: TickWorkTracker, now: Instant)
    ensures
        tracker.begun_at(now).last == now,
        tracker.begun_at(now).tick_work == 0,
        tracker.begun_at(now).all_work == tracker.all_work,
        tracker.begun_at(now).start == tracker.start,
        tracker.begun_at(now).rate == tracker.rate,
{
}

/// Work that is counted after a tick began is all the work of that tick.
pub proof fn law_work_since_the_tick_began(tracker: TickWorkTracker, now: Instant, n: nat)
    requires
        tracker.all_work + n <= usize::MAX,
    ensures
        tracker.begun_at(now).with_work(n).tick_work == n,
        tracker.begun_at(now).with_work(n).all_work == tracker.all_work + n,
        tracker.begun_at(now).with_work(n).last == now,
{
}

/// A tick that ends with a number of workers tells the pool that very number, exactly if the pool
/// does not aim for it already, and begins a new tick. Nothing else changes.
pub proof fn law_retargeting_in_plain_terms<In, Out, F>(
    before: AutoPool<In, Out, F>,
    after: AutoPool<In, Out, F>,
    wanted: usize,
    now: Instant,
)
    requires
        after.retargeted(&before, wanted, now),
    ensures
        wanted != before.pool@.target ==> after.pool@.commands.len()
            == before.pool@.commands.len() + 1 && after.pool@.commands.last()
            == WorkerPoolCommand::SetWorkerCount(wanted) && after.pool@.commands.drop_last()
            == before.pool@.commands,
        wanted == before.pool@.target ==> after.pool@.commands == before.pool@.commands,
        wanted != before.pool@.target && wanted > 0 ==> after.pool@.settled().target == wanted,
        after.pool@.target == before.pool@.target,
        after.pool@.workers == before.pool@.workers,
        after.pool@.stopping == before.pool@.stopping,
        after.pool@.cap == before.pool@.cap,
        after.pool@.queue == before.pool@.queue,
        after.pool@.default_job == before.pool@.default_job,
        after.pool.stop_attempts() == before.pool.stop_attempts(),
        after.pool.unsent() == before.pool.unsent(),
        after.pool.event_looks() == before.pool.event_looks(),
        after.pool.output_looks() == before.pool.output_looks(),
        after.tracker.last == now,
        after.tracker.tick_work == 0,
        after.tracker.all_work == before.tracker.all_work,
        after.tracker.rate == before.tracker.rate,
        after.tracker.start == before.tracker.start,
{
    if wanted != before.pool@.target {
        law_worker_count_becomes_the_target(after.pool@, before.pool@.commands, wanted);
        assert(after.pool@.commands.drop_last() =~= before.pool@.commands);
    }
}

/// If a tick is over and the controller can only want `wanted` workers, then whatever that number
/// is, it is what the pool is told, what it aims for once its commands are carried out, and a new
/// tick begins. Only for no workers at all it aims for one instead.
pub proof fn law_controller_gets_what_it_wants<
    In,
    Out,
    F,
    C: FnOnce(&TickWorkTracker) -> usize,
>(
    before: AutoPool<In, Out, F>,
    after: AutoPool<In, Out, F>,
    now: Instant,
    controller: C,
    wanted: usize,
)
    requires
        after.ticked_at(&before, now, controller),
        crate::tracker::moment(now) - crate::tracker::moment(before.tracker.last)
            > crate::tracker::nanos(before.tracker.rate),
        forall|answer: usize|
            controller.ensures((&before.tracker,), answer) ==> answer == wanted,
    ensures
        before.pool@.target != wanted ==> after.pool@.commands == before.pool@.commands.push(
            WorkerPoolCommand::SetWorkerCount(wanted),
        ),
        before.pool@.target == wanted ==> after.pool@.commands == before.pool@.commands,
        before.pool@.commands.len() == 0 && wanted > 0 ==> after.pool@.settled().target == wanted,
        before.pool@.commands.len() == 0 && wanted == 0 && before.pool@.target > 0
            ==> after.pool@.settled().target == 1,
        before.pool@.target != wanted && wanted > 0 ==> after.pool@.settled().target == wanted,
        after.pool@.target == before.pool@.target,
        after.pool@.workers == before.pool@.workers,
        after.pool@.stopping == before.pool@.stopping,
        after.pool@.cap == before.pool@.cap,
        after.pool@.queue == before.pool@.queue,
        after.pool@.default_job == before.pool@.default_job,
        after.pool.stop_attempts() == before.pool.stop_attempts(),
        after.pool.unsent() == before.pool.unsent(),
        after.pool.event_looks() == before.pool.event_looks(),
        after.pool.output_looks() == before.pool.output_looks(),
        after.tracker.last == now,
        after.tracker.tick_work == 0,
        after.tracker.all_work == before.tracker.all_work,
        after.tracker.rate == before.tracker.rate,
        after.tracker.start == before.tracker.start,
{
    let answer = choose|answer: usize|
        controller.ensures((&before.tracker,), answer) && #[trigger] after.retargeted(
            &before,
            answer,
            now,
        );
    assert(answer == wanted);
    if before.pool@.target != wanted {
        let commands = before.pool@.commands;
        law_worker_count_becomes_the_target(after.pool@, commands, wanted);
    } else if before.pool@.commands.len() == 0 {
        law_no_command_changes_nothing(after.pool@);
    }
}

/// If a tick is not over, a look at the clock changes nothing.
pub proof fn law_controller_waits_for_the_tick<
    In,
    Out,
    F,
    C: FnOnce(&TickWorkTracker) -> usize,
>(
    before: AutoPool<In, Out, F>,
    after: AutoPool<In, Out, F>,
    now: Instant,
    controller: C,
)
    requires
        after.ticked_at(&before, now, controller),
        crate::tracker::moment(now) - crate::tracker::moment(before.tracker.last)
            <= crate::tracker::nanos(before.tracker.rate),
    ensures
        after == before,
{
}

/// If a tick is over, the controller was asked about the work of that very tick, and what the pool
/// is told is an answer that it can give.
pub proof fn law_controller_is_asked<
    In,
    Out,
    F,
    C: FnOnce(&TickWorkTracker) -> usize,
>(
    before: AutoPool<In, Out, F>,
    after: AutoPool<In, Out, F>,
    now: Instant,
    controller: C,
)
    requires
        after.ticked_at(&before, now, controller),
        crate::tracker::moment(now) - crate::tracker::moment(before.tracker.last)
            > crate::tracker::nanos(before.tracker.rate),
    ensures
        exists|answer: usize| #[trigger]
            controller.ensures((&before.tracker,), answer) && after.pool@.commands == (
            if answer != before.pool@.target {
                before.pool@.commands.push(WorkerPoolCommand::SetWorkerCount(answer))
            } else {
                before.pool@.commands
            }),
{
    let answer = choose|answer: usize|
        controller.ensures((&before.tracker,), answer) && #[trigger] after.retargeted(
            &before,
            answer,
            now,
        );
    assert(controller.ensures((&before.tracker,), answer));
}

/// A message that is found is handed out as it is, an empty channel means that work goes on, and
/// only a channel that nobody sends to any more means that it is done; each status tells which of
/// these was found.
pub proof fn law_status_tells_what_was_found<Out>(received: Received<Out>)
    ensures
        received matches Received::Message(out) ==> WorkerPoolStatus::spec_from_received(received)
            == WorkerPoolStatus::Ready(out),
        received is Empty ==> WorkerPoolStatus::spec_from_received(received)
            == WorkerPoolStatus::<Out>::Working,
        received is Disconnected ==> WorkerPoolStatus::spec_from_received(received)
            == WorkerPoolStatus::<Out>::Done,
        WorkerPoolStatus::spec_from_received(received).found() == received,
{
}

/// A turn hands out an output exactly if its look found that output, and a stream yields exactly
/// what is handed out.
pub proof fn law_found_output_is_the_status<Out>(status: WorkerPoolStatus<Out>, out: Out)
    ensures
        status.found() == Received::Message(out) <==> status == WorkerPoolStatus::Ready(out),
        status.found() is Empty <==> status is Working,
        status.found() is Disconnected <==> status is Done,
        status.spec_next_item() == Some(Some(out)) <==> status == WorkerPoolStatus::Ready(out),
        status.spec_next_item() is None <==> status is Working,
        status.spec_next_item() == Some(None::<Out>) <==> status is Done,
{
}

/// A job that is done or stopped is reported as just that, and one that is working not at all.
pub proof fn law_ends_are_reported_as_they_are(status: JobStatus)
    ensures
        status.spec_event() == Some(WorkerEvent::WorkerDone) <==> status == JobStatus::Done,
        status.spec_event() == Some(WorkerEvent::WorkerStopped) <==> status == JobStatus::Stopped,
        status.spec_event() is None <==> status == JobStatus::Working,
{
}

/// A worker is told to stop exactly where a look finds a stop message.
pub proof fn law_stop_message_is_a_stop(received: Received<()>)
    ensures
        crate::job::spec_is_stop(received) <==> received is Message,
{
}

} // verus!
