//! What holds of a pool as a whole, over several steps or in every state.
use crate::autopool::AutoPool;
use crate::messages::{Received, WorkerEvent, WorkerPoolCommand};
use crate::model::PoolState;
use crate::pool::{WorkerPool, WorkerStart};
use crate::status::WorkerPoolStatus;
use crate::tracker::TickWorkTracker;
use std::time::Instant;
use vstd::prelude::*;

verus! {

/// Some workers that all end because they were told to.
pub open spec fn all_stopped(n: nat) -> Seq<WorkerEvent> {
    Seq::new(n, |i: int| WorkerEvent::WorkerStopped)
}

/// How far a pool is from its target.
pub open spec fn distance<In>(state: PoolState<In>) -> nat {
    if state.staying() <= state.target {
        (state.target - state.staying()) as nat
    } else {
        (state.staying() - state.target) as nat
    }
}

/// The state after `n` tasks have been taken up.
pub open spec fn tasks_taken<In>(state: PoolState<In>, n: nat) -> PoolState<In>
    decreases n,
{
    if n == 0 {
        state
    } else {
        tasks_taken(state.task_taken(), (n - 1) as nat)
    }
}

/// Carrying out commands keeps a state valid, and changes nothing but the target and how many
/// workers have been asked to stop.
pub proof fn law_commands_keep_validity<In>(
    state: PoolState<In>,
    commands: Seq<WorkerPoolCommand>,
)
    requires
        state.valid(),
    ensures
        state.after_commands(commands).valid(),
        state.after_commands(commands) == (PoolState {
            target: state.after_commands(commands).target,
            stopping: state.after_commands(commands).stopping,
            ..state
        }),
        state.stopping <= state.after_commands(commands).stopping,
    decreases commands.len(),
{
    if commands.len() > 0 {
        law_commands_keep_validity(
            state.after_command(commands.first()),
            commands.drop_first(),
        );
    }
}

/// Commands that come in two batches do what they do in one.
pub proof fn law_commands_in_batches<In>(
    state: PoolState<In>,
    first: Seq<WorkerPoolCommand>,
    second: Seq<WorkerPoolCommand>,
)
    ensures
        state.after_commands(first + second) == state.after_commands(first).after_commands(second),
        state.stops_called_for(first + second) == state.stops_called_for(first)
            + state.after_commands(first).stops_called_for(second),
    decreases first.len(),
{
    if first.len() == 0 {
        assert(first + second == second);
    } else {
        assert((first + second).drop_first() == first.drop_first() + second);
        law_commands_in_batches(
            state.after_command(first.first()),
            first.drop_first(),
            second,
        );
    }
}

/// A command that is given to a pool is carried out after all those that were given before it.
pub proof fn law_command_is_carried_out<In>(state: PoolState<In>, command: WorkerPoolCommand)
    ensures
        (PoolState { commands: state.commands.push(command), ..state }).settled()
            == state.settled().after_command(command),
{
    let given = PoolState { commands: state.commands.push(command), ..state };
    let one = seq![command];
    assert(state.commands.push(command) == state.commands + one);
    given.lemma_waiting_commands_do_not_matter(Seq::empty(), given.commands);
    state.lemma_waiting_commands_do_not_matter(Seq::empty(), state.commands);
    assert((PoolState { commands: Seq::empty(), ..given }) == (PoolState {
        commands: Seq::empty(),
        ..state
    }));
    let bare = PoolState { commands: Seq::<WorkerPoolCommand>::empty(), ..state };
    law_commands_in_batches(bare, state.commands, one);
    assert(one.drop_first() == Seq::<WorkerPoolCommand>::empty());
    assert(state.settled().after_commands(one) == state.settled().after_command(
        command,
    ).after_commands(one.drop_first()));
}

/// Of several worker counts the last one stands, whatever stops are commanded before or after it;
/// a count of zero stands for one.
pub proof fn law_last_worker_count_stands<In>(
    state: PoolState<In>,
    commands: Seq<WorkerPoolCommand>,
    last: int,
    n: usize,
)
    requires
        0 <= last < commands.len(),
        commands[last] == WorkerPoolCommand::SetWorkerCount(n),
        forall|i: int| last < i < commands.len() ==> commands[i] is Stop,
    ensures
        state.after_commands(commands).target == (if n == 0 {
            1
        } else {
            n as nat
        }),
    decreases commands.len(),
{
    let next = state.after_command(commands.first());
    let rest = commands.drop_first();
    if last == 0 {
        law_stops_keep_target(next, rest);
    } else {
        assert(rest[last - 1] == commands[last]);
        assert forall|i: int| last - 1 < i < rest.len() implies rest[i] is Stop by {
            assert(rest[i] == commands[i + 1]);
        }
        law_last_worker_count_stands(next, rest, last - 1, n);
    }
}

/// Stop commands leave the target as it is.
pub proof fn law_stops_keep_target<In>(state: PoolState<In>, commands: Seq<WorkerPoolCommand>)
    requires
        forall|i: int| 0 <= i < commands.len() ==> commands[i] is Stop,
    ensures
        state.after_commands(commands).target == state.target,
    decreases commands.len(),
{
    if commands.len() > 0 {
        let rest = commands.drop_first();
        assert forall|i: int| 0 <= i < rest.len() implies rest[i] is Stop by {
            assert(rest[i] == commands[i + 1]);
        }
        assert(commands[0] is Stop);
        law_stops_keep_target(state.after_command(commands.first()), rest);
    }
}

/// No command makes a pool that aims for some workers aim for none.
pub proof fn law_commands_never_aim_for_none<In>(
    state: PoolState<In>,
    commands: Seq<WorkerPoolCommand>,
)
    requires
        state.target > 0,
    ensures
        state.after_commands(commands).target > 0,
    decreases commands.len(),
{
    if commands.len() > 0 {
        law_commands_never_aim_for_none(
            state.after_command(commands.first()),
            commands.drop_first(),
        );
    }
}

/// A stop command asks as many workers to stop as the pool aims for, or all that are left to ask
/// if they are fewer; no worker is gone before it has noticed.
pub proof fn law_stop_asks_for_the_target<In>(state: PoolState<In>)
    requires
        state.valid(),
    ensures
        state.after_command(WorkerPoolCommand::Stop).workers == state.workers,
        state.after_command(WorkerPoolCommand::Stop).staying() == (if state.staying()
            <= state.target {
            0
        } else {
            state.staying() - state.target
        }),
{
}

/// Each worker that ends is counted out once, and the state stays valid. Nothing changes but the
/// count of workers and of those that have been asked to stop, and those that stay get no more.
pub proof fn law_events_count_workers_out<In>(state: PoolState<In>, events: Seq<WorkerEvent>)
    requires
        state.valid(),
        events.len() <= state.workers,
    ensures
        state.after_events(events).valid(),
        state.after_events(events) == (PoolState {
            workers: (state.workers - events.len()) as nat,
            stopping: state.after_events(events).stopping,
            ..state
        }),
        state.after_events(events).stopping <= state.stopping,
        state.after_events(events).staying() <= state.staying(),
    decreases events.len(),
{
    if events.len() > 0 {
        law_events_count_workers_out(state.after_event(events.first()), events.drop_first());
    }
}

/// Two workers that end in a different order leave the pool in the same state, whatever came
/// before and comes after them.
pub proof fn law_order_of_events_does_not_matter<In>(
    state: PoolState<In>,
    before: Seq<WorkerEvent>,
    one: WorkerEvent,
    other: WorkerEvent,
    after: Seq<WorkerEvent>,
)
    requires
        state.valid(),
        before.len() + 2 + after.len() <= state.workers,
    ensures
        state.after_events(before + seq![one, other] + after) == state.after_events(
            before + seq![other, one] + after,
        ),
    decreases before.len(),
{
    let this = before + seq![one, other] + after;
    let that = before + seq![other, one] + after;
    if before.len() == 0 {
        assert(this.drop_first() == seq![other] + after);
        assert(that.drop_first() == seq![one] + after);
        assert(this.drop_first().drop_first() == after);
        assert(that.drop_first().drop_first() == after);
        let first = state.after_event(one).after_event(other);
        let second = state.after_event(other).after_event(one);
        assert(first == second);
        assert(state.after_events(this) == state.after_event(one).after_events(
            this.drop_first(),
        ));
        assert(state.after_events(that) == state.after_event(other).after_events(
            that.drop_first(),
        ));
        assert(state.after_event(one).after_events(this.drop_first()) == first.after_events(after));
        assert(state.after_event(other).after_events(that.drop_first()) == second.after_events(
            after,
        ));
    } else {
        assert(this.drop_first() == before.drop_first() + seq![one, other] + after);
        assert(that.drop_first() == before.drop_first() + seq![other, one] + after);
        law_order_of_events_does_not_matter(
            state.after_event(before.first()),
            before.drop_first(),
            one,
            other,
            after,
        );
    }
}

/// A worker that stops because it was asked to was not counted among those that stay.
pub proof fn law_stopped_worker_was_not_staying<In>(state: PoolState<In>)
    requires
        state.valid(),
        state.stopping > 0,
    ensures
        state.after_event(WorkerEvent::WorkerStopped).staying() == state.staying(),
{
}

/// Once every worker that was asked to stop has stopped, exactly those that stay are left.
pub proof fn law_asked_workers_leave<In>(state: PoolState<In>)
    requires
        state.valid(),
    ensures
        state.after_events(all_stopped(state.stopping)) == (PoolState {
            workers: state.staying(),
            stopping: 0,
            ..state
        }),
    decreases state.stopping,
{
    let events = all_stopped(state.stopping);
    if state.stopping > 0 {
        let next = state.after_event(WorkerEvent::WorkerStopped);
        assert(events.drop_first() == all_stopped(next.stopping));
        law_asked_workers_leave(next);
    }
}

/// One step of balancing keeps a state valid and brings it one worker nearer to the target, unless
/// it is there already, has as many workers as it may, or lacks a task to start one with.
pub proof fn law_balancing_steps_nearer<In>(state: PoolState<In>)
    requires
        state.valid(),
    ensures
        state.balanced().valid(),
        state.balanced().target == state.target,
        state.over_target() || (state.under_target() && state.has_task()) ==> distance(
            state.balanced(),
        ) + 1 == distance(state),
        !state.over_target() && !(state.under_target() && state.has_task()) ==> state.balanced()
            == state,
        state.balanced().workers >= state.workers,
{
}

/// A pool with enough to do, and with a cap that allows for it, reaches its target in as many steps
/// as it is workers away from it, and stays there.
pub proof fn law_balancing_reaches_target<In>(state: PoolState<In>, n: nat)
    requires
        state.valid(),
        n >= distance(state),
        state.staying() < state.target ==> state.queue.len() >= distance(state)
            || state.default_job is Some,
        state.staying() < state.target ==> state.workers + distance(state) <= state.cap,
    ensures
        state.balanced_times(n).valid(),
        state.balanced_times(n).staying() == state.target,
        state.balanced_times(n).target == state.target,
    decreases n,
{
    if n > 0 {
        let next = state.balanced();
        if next.staying() < next.target {
            assert(state.queue.len() > 0 ==> next.queue.len() == state.queue.len() - 1);
        }
        law_balancing_reaches_target(next, (n - 1) as nat);
    }
}

/// Surplus workers are told to stop once each: however often a pool that has too many workers is
/// balanced before any of them has stopped, it calls for as many stop messages as there are too
/// many workers, and for no more.
pub proof fn law_surplus_workers_are_told_once<In>(state: PoolState<In>, n: nat)
    requires
        state.valid(),
        state.staying() >= state.target,
        n >= distance(state),
    ensures
        state.stops_to_balance_times(n) == distance(state),
    decreases n,
{
    if n > 0 {
        law_surplus_workers_are_told_once(state.balanced(), (n - 1) as nat);
    }
}

/// A pool that has too many workers ends up with as many as it aims for: by balancing, and once
/// those that were asked to stop have stopped.
pub proof fn law_surplus_workers_leave<In>(state: PoolState<In>)
    requires
        state.valid(),
        state.staying() >= state.target,
    ensures
        ({
            let asked = state.balanced_times(distance(state));
            let left = asked.after_events(all_stopped(asked.stopping));
            left.workers == state.target && left.stopping == 0
        }),
{
    law_balancing_reaches_target(state, distance(state));
    law_asked_workers_leave(state.balanced_times(distance(state)));
}

/// Tasks are taken up in the order in which they were pushed.
pub proof fn law_tasks_in_order<In: Clone>(state: PoolState<In>, n: nat)
    requires
        n < state.queue.len(),
    ensures
        tasks_taken(state, n).is_next_task(Some(state.queue[n as int])),
        tasks_taken(state, n).queue == state.queue.skip(n as int),
    decreases n,
{
    if n > 0 {
        let next = state.task_taken();
        law_tasks_in_order(next, (n - 1) as nat);
        assert(next.queue[n - 1] == state.queue[n as int]);
        assert(next.queue.skip(n - 1) == state.queue.skip(n as int));
    } else {
        assert(state.queue.skip(0) == state.queue);
    }
}

/// A task that is pushed comes up once all those before it have been taken, and not before.
pub proof fn law_pushed_task_comes_up<In: Clone>(state: PoolState<In>, task: In)
    ensures
        ({
            let pushed = PoolState { queue: state.queue.push(task), ..state };
            &&& tasks_taken(pushed, state.queue.len()).is_next_task(Some(task))
            &&& tasks_taken(pushed, state.queue.len()).queue == seq![task]
            &&& forall|n: nat|
                n < state.queue.len() ==> (#[trigger] tasks_taken(pushed, n)).is_next_task(
                    Some(state.queue[n as int]),
                )
        }),
{
    let pushed = PoolState { queue: state.queue.push(task), ..state };
    law_tasks_in_order(pushed, state.queue.len());
    assert(pushed.queue.skip(state.queue.len() as int) == seq![task]);
    assert forall|n: nat| n < state.queue.len() implies (#[trigger] tasks_taken(
        pushed,
        n,
    )).is_next_task(Some(state.queue[n as int])) by {
        law_tasks_in_order(pushed, n);
        assert(pushed.queue[n as int] == state.queue[n as int]);
    }
}

/// A turn counts out the workers that have ended and counts in the one that it starts, at most
/// one. It keeps the state valid, so that there are never more workers than the cap allows,
/// whatever the target is, and leaves no command waiting.
pub proof fn law_turn_counts_workers<In: Clone>(
    before: PoolState<In>,
    events: Seq<WorkerEvent>,
    after: PoolState<In>,
    task: Option<In>,
)
    requires
        before.valid(),
        crate::pool::turned(before, events, after, task),
    ensures
        after.valid(),
        after.workers <= after.cap == before.cap,
        after.workers == before.workers - events.len() + (if task is Some {
            1int
        } else {
            0
        }),
        after.commands.len() == 0,
        after.target == before.settled().target,
{
    law_commands_keep_validity(before, before.commands);
    law_events_count_workers_out(before.settled(), events);
}

/// A turn in which no command waits and no worker has ended is one step towards the target.
pub proof fn law_quiet_turn_balances<In: Clone>(
    before: PoolState<In>,
    after: PoolState<In>,
    task: Option<In>,
)
    requires
        before.commands.len() == 0,
        crate::pool::turned(before, Seq::empty(), after, task),
    ensures
        after == before.balanced(),
        task is Some <==> before.under_target() && before.has_task(),
{
    assert(before.settled() == before);
}

/// A turn loses no task and makes none up: what it takes out of the queue is what it starts a
/// worker with, and the rest stays in order.
pub proof fn law_turn_loses_no_task<In: Clone>(
    before: PoolState<In>,
    events: Seq<WorkerEvent>,
    after: PoolState<In>,
    task: Option<In>,
)
    requires
        before.valid(),
        crate::pool::turned(before, events, after, task),
    ensures
        after.queue == before.queue || (task is Some && before.queue == seq![task->0]
            + after.queue),
        before.queue.len() > 0 && task is Some ==> before.queue == seq![task->0] + after.queue,
        task is None ==> after.queue == before.queue,
{
    law_commands_keep_validity(before, before.commands);
    law_events_count_workers_out(before.settled(), events);
    if before.queue.len() > 0 {
        assert(before.queue == seq![before.queue.first()] + before.queue.drop_first());
    }
}

/// The outputs that some looks have found, in order.
pub open spec fn outputs_found<Out>(looks: Seq<Received<Out>>) -> Seq<Out>
    decreases looks.len(),
{
    if looks.len() == 0 {
        Seq::empty()
    } else {
        match looks.last() {
            Received::Message(out) => outputs_found(looks.drop_last()).push(out),
            _ => outputs_found(looks.drop_last()),
        }
    }
}

/// The outputs that some turns have handed out, in order.
pub open spec fn outputs_handed_out<Out>(statuses: Seq<WorkerPoolStatus<Out>>) -> Seq<Out>
    decreases statuses.len(),
{
    if statuses.len() == 0 {
        Seq::empty()
    } else {
        match statuses.last() {
            WorkerPoolStatus::Ready(out) => outputs_handed_out(statuses.drop_last()).push(out),
            _ => outputs_handed_out(statuses.drop_last()),
        }
    }
}

/// Over any number of turns of a pool, the outputs that it hands out are exactly those that it
/// takes out of the channel, in the same order: none is lost, doubled or made up. `looks[i]` is
/// what the pool had found before the turn that came to `statuses[i]`.
pub proof fn law_outputs_are_handed_out<Out>(
    looks: Seq<Seq<Received<Out>>>,
    statuses: Seq<WorkerPoolStatus<Out>>,
)
    requires
        looks.len() == statuses.len() + 1,
        forall|i: int|
            0 <= i < statuses.len() ==> #[trigger] looks[i + 1] == looks[i].push(
                statuses[i].found(),
            ),
    ensures
        outputs_found(looks.last()) == outputs_found(looks.first()) + outputs_handed_out(statuses),
        looks.last().len() == looks.first().len() + statuses.len(),
    decreases statuses.len(),
{
    if statuses.len() > 0 {
        let n = statuses.len() - 1;
        let earlier = looks.drop_last();
        assert forall|i: int| 0 <= i < n implies #[trigger] earlier[i + 1] == earlier[i].push(
            statuses.drop_last()[i].found(),
        ) by {
            assert(looks[i + 1] == looks[i].push(statuses[i].found()));
        }
        law_outputs_are_handed_out(earlier, statuses.drop_last());
        assert(looks[n + 1] == looks[n].push(statuses[n].found()));
        assert(looks.last().drop_last() == earlier.last());
        assert(outputs_found(looks.last()) =~= outputs_found(looks.first()) + outputs_handed_out(
            statuses,
        ));
    } else {
        assert(outputs_handed_out(statuses) =~= Seq::<Out>::empty());
    }
}

/// However many workers a pool starts over its life, each of them hands in its outputs where the
/// pool takes them out, hears of stops where the pool sends them, and reports where the pool looks
/// for reports, at the time of its start and ever after.
pub proof fn law_workers_share_the_channels<In, Out, F>(
    pool: WorkerPool<In, Out, F>,
    worker: WorkerStart<In, Out>,
    later: WorkerPool<In, Out, F>,
)
    requires
        pool.wf(),
        worker.belongs_to(&pool),
        later.wf(),
        later.same_pool(&pool),
    ensures
        worker.job.results == later.outputs_from(),
        crate::channels::stops_come_from(worker.job.close) == later.stops_to(),
        crate::channels::events_go_to(worker.reporter.events()) == later.events_from(),
{
}

/// As long as a pool has called for no more stop messages than their channel has room for, every
/// one of them has been sent.
pub proof fn law_stops_that_find_room_are_sent<In, Out, F>(pool: WorkerPool<In, Out, F>)
    requires
        pool.wf(),
        pool.stops_put() + pool.unsent() <= pool.stop_room(),
    ensures
        pool.unsent() == 0,
{
}

/// Where an output is found, a stream of the pool's outputs yields it; where none is found, the
/// stream goes on if one can still come, and ends if not.
pub proof fn law_output_reaches_the_stream<Out>(received: Received<Out>)
    ensures
        WorkerPoolStatus::spec_from_received(received).spec_next_item() == match received {
            Received::Message(out) => Some(Some(out)),
            Received::Empty => None,
            Received::Disconnected => Some(None),
        },
{
}

/// Work that is counted in two goes adds up.
pub proof fn law_work_adds_up(tracker: TickWorkTracker, first: nat, second: nat)
    requires
        tracker.wf(),
        tracker.all_work + first + second <= usize::MAX,
    ensures
        tracker.with_work(first).with_work(second) == tracker.with_work(first + second),
        tracker.with_work(first).wf(),
{
}

/// A tick that is over stays over, however much more work is done, until a new one begins.
pub proof fn law_tick_stays_over(tracker: TickWorkTracker, work: nat, now: Instant, later: Instant)
    requires
        tracker.over_at(now),
        crate::tracker::moment(now) <= crate::tracker::moment(later),
    ensures
        tracker.with_work(work).over_at(later),
{
}

/// What the controller wants is what the pool aims for once it has carried out its commands: if
/// none was waiting, that is in the next turn. No workers at all cannot be had this way.
pub proof fn law_pool_follows_the_controller<In, Out, F>(
    before: AutoPool<In, Out, F>,
    after: AutoPool<In, Out, F>,
    wanted: usize,
    now: Instant,
)
    requires
        after.retargeted(&before, wanted, now),
        before.pool@.commands.len() == 0,
        before.pool@.target > 0,
    ensures
        after.pool@.settled().target == (if wanted == 0 {
            1
        } else {
            wanted as nat
        }),
{
    if wanted != before.pool@.target {
        assert(after.pool@.commands.len() == 1);
        assert(after.pool@.commands[0] == WorkerPoolCommand::SetWorkerCount(wanted));
        law_last_worker_count_stands(after.pool@, after.pool@.commands, 0, wanted);
    }
}

/// The controller is asked at most once per tick: after a tick that ended at `now`, a look at the
/// clock that comes no more than the length of a tick later changes nothing.
pub proof fn law_controller_is_asked_once_per_tick<
    In,
    Out,
    F,
    C: FnOnce(&TickWorkTracker) -> usize,
    D: FnOnce(&TickWorkTracker) -> usize,
>(
    before: AutoPool<In, Out, F>,
    now: Instant,
    controller: C,
    middle: AutoPool<In, Out, F>,
    later: Instant,
    next_controller: D,
    after: AutoPool<In, Out, F>,
)
    requires
        before.tracker.over_at(now),
        middle.ticked_at(&before, now, controller),
        crate::tracker::nanos_between(later, now) <= crate::tracker::nanos(before.tracker.rate),
        after.ticked_at(&middle, later, next_controller),
    ensures
        after == middle,
{
}

} // verus!
