//! A worker pool that is steered towards a throughput.
use crate::messages::{WorkerEvent, WorkerPoolCommand};
use crate::model::PoolState;
use crate::pool::{Turn, WorkerPool};
use crate::status::WorkerPoolStatus;
use crate::tracker::TickWorkTracker;
use std::time::{Duration, Instant};
use vstd::prelude::*;

verus! {

/// A worker pool whose target a controller sets anew in every tick, from the work that was done
/// in the last one.
#[verifier::reject_recursive_types(Out)]
pub struct AutoPool<In, Out, F> {
    /// The pool to drive and monitor
    pub pool: WorkerPool<In, Out, F>,
    /// Work tracking; its rate is how often the controller is asked
    pub tracker: TickWorkTracker,
}

/// The command that brings a pool with the target `target` to `wanted` workers, where one is
/// needed.
pub fn retarget_command(wanted: usize, target: usize) -> (command: Option<WorkerPoolCommand>)
    ensures
        command == (if wanted != target {
            Some(WorkerPoolCommand::SetWorkerCount(wanted))
        } else {
            None
        }),
{
    if wanted != target {
        Some(WorkerPoolCommand::SetWorkerCount(wanted))
    } else {
        None
    }
}

impl<In, Out, F> AutoPool<In, Out, F> {
    pub open spec fn wf(&self) -> bool {
        self.pool.wf() && self.tracker.wf()
    }

    /// `self` comes out of `before` by a tick that ends at `now` and wants `wanted` workers: the
    /// pool is told so, unless it aims for that many already, and a new tick begins at `now`.
    pub open spec fn retargeted(&self, before: &Self, wanted: usize, now: Instant) -> bool {
        &&& self.pool@ == PoolState {
            commands: if wanted != before.pool@.target {
                before.pool@.commands.push(WorkerPoolCommand::SetWorkerCount(wanted))
            } else {
                before.pool@.commands
            },
            ..before.pool@
        }
        &&& self.pool.same_stops(&before.pool)
        &&& self.pool.same_events(&before.pool)
        &&& self.pool.same_outputs(&before.pool)
        &&& self.pool.same_pool(&before.pool)
        &&& self.tracker == before.tracker.begun_at(now)
    }

    /// `self` comes out of `before` by a look at the clock at `now`: if the current tick is over,
    /// the controller was asked and its wish is on its way; if it is not, nothing has changed.
    pub open spec fn ticked_at<C: FnOnce(&TickWorkTracker) -> usize>(
        &self,
        before: &Self,
        now: Instant,
        controller: C,
    ) -> bool {
        if before.tracker.over_at(now) {
            exists|wanted: usize|
                controller.ensures((&before.tracker,), wanted) && #[trigger] self.retargeted(
                    before,
                    wanted,
                    now,
                )
        } else {
            *self == *before
        }
    }

    /// An automatic pool around `pool`, with ticks of the given length.
    pub fn new(pool: WorkerPool<In, Out, F>, tick_rate: Duration) -> (auto: Self)
        requires
            pool.wf(),
        ensures
            auto.wf(),
            auto.pool == pool,
            auto.tracker.rate == tick_rate,
            crate::tracker::told_by_clock(auto.tracker.start),
            crate::tracker::told_by_clock(auto.tracker.last),
            auto.tracker.all_work == 0,
            auto.tracker.tick_work == 0,
    {
        AutoPool { pool, tracker: TickWorkTracker::new(tick_rate) }
    }

    /// Ends a tick at `now`: passes on how many workers are wanted, and begins a new tick.
    pub fn retarget(&mut self, wanted: usize, now: Instant)
        requires
            old(self).wf(),
        ensures
            final(self).wf(),
            final(self).retargeted(old(self), wanted, now),
            wanted != old(self).pool@.target ==> final(self).pool@.commands == old(self).pool@.commands.push(WorkerPoolCommand::SetWorkerCount(wanted)),
            wanted == old(self).pool@.target ==> final(self).pool@ == old(self).pool@,
            final(self).tracker.last == now,
            final(self).tracker.tick_work == 0,
    {
        match retarget_command(wanted, self.pool.target_workers()) {
            Some(command) => self.pool.command(command),
            None => {},
        }
        self.tracker.begin_tick(now);
    }

    /// If the current tick is over at `now`, asks the controller how many workers it wants after
    /// the work of this tick, passes it on and begins a new tick. If it is not over, does nothing.
    pub fn tick_at<C: FnOnce(&TickWorkTracker) -> usize>(&mut self, now: Instant, controller: C)
        requires
            old(self).wf(),
            old(self).tracker.over_at(now) ==> controller.requires((&old(self).tracker,)),
        ensures
            final(self).wf(),
            final(self).ticked_at(old(self), now, controller),
            crate::tracker::moment(now) - crate::tracker::moment(old(self).tracker.last)
                <= crate::tracker::nanos(old(self).tracker.rate) ==> *final(self) == *old(self),
            crate::tracker::moment(now) - crate::tracker::moment(old(self).tracker.last)
                > crate::tracker::nanos(old(self).tracker.rate) ==> {
                &&& final(self).tracker.last == now
                &&& final(self).tracker.tick_work == 0
                &&& exists|wanted: usize| #[trigger]
                    controller.ensures((&old(self).tracker,), wanted) && final(self).pool@.commands == (if wanted != old(self).pool@.target {
                        old(self).pool@.commands.push(WorkerPoolCommand::SetWorkerCount(wanted))
                    } else {
                        old(self).pool@.commands
                    })
            },
    {
        if !self.tracker.tick_done_at(now) {
            return ;
        }
        let wanted = controller(&self.tracker);
        self.retarget(wanted, now);
    }

    /// Looks at the clock and, if the current tick is over, asks the controller how many workers
    /// it wants after the work of this tick, passes it on and begins a new tick.
    ///
    /// What time it is depends on the clock, and is not stated; [`tick_at`](AutoPool::tick_at)
    /// says what is done at each time.
    pub fn tick<C: FnOnce(&TickWorkTracker) -> usize>(&mut self, controller: C)
        requires
            old(self).wf(),
            controller.requires((&old(self).tracker,)),
        ensures
            final(self).wf(),
            exists|now: Instant|
                crate::tracker::told_by_clock(now) && #[trigger] final(self).ticked_at(
                    old(self),
                    now,
                    controller,
                ),
    {
        let now = Instant::now();
        self.tick_at(now, controller);
        assert(self.ticked_at(old(self), now, controller));
    }

    /// Counts the output of a turn, if it has one, as a piece of work, and hands the turn on.
    pub fn count_output(&mut self, turn: Turn<In, Out>) -> (counted: Turn<In, Out>)
        requires
            old(self).wf(),
            turn.status is Ready ==> old(self).tracker.all_work < usize::MAX,
        ensures
            final(self).wf(),
            counted == turn,
            final(self).pool == old(self).pool,
            final(self).tracker == old(self).tracker.with_work(
                if turn.status is Ready {
                    1
                } else {
                    0
                },
            ),
            turn.status is Ready ==> final(self).tracker.all_work == old(self).tracker.all_work + 1
                && final(self).tracker.tick_work == old(self).tracker.tick_work + 1,
            turn.status !is Ready ==> final(self).tracker == old(self).tracker,
    {
        match turn.status {
            WorkerPoolStatus::Ready(_) => self.tracker.track_work(),
            _ => {},
        }
        turn
    }
}

impl<In: Clone, Out, F> AutoPool<In, Out, F> {
    /// One turn of the automatic pool: a look at the clock, then a turn of the pool, which is
    /// handed on. An output counts as one piece of work.
    ///
    /// What time it is depends on the clock, and what the turn finds on the workers, so neither is
    /// stated; [`tick_at`](AutoPool::tick_at) and [`count_output`](AutoPool::count_output) say
    /// what is done with each.
    pub fn work<C: FnOnce(&TickWorkTracker) -> usize>(&mut self, controller: C) -> (turn: Turn<
        In,
        Out,
    >)
        requires
            old(self).wf(),
            old(self).tracker.all_work < usize::MAX,
            controller.requires((&old(self).tracker,)),
        ensures
            final(self).wf(),
            exists|middle: Self, now: Instant, events: Seq<WorkerEvent>|
                {
                    &&& crate::tracker::told_by_clock(now)
                    &&& #[trigger] middle.ticked_at(old(self), now, controller)
                    &&& #[trigger] final(self).pool.took_turn(
                        &middle.pool,
                        events,
                        crate::pool::task_of(turn.start),
                    )
                    &&& final(self).tracker == middle.tracker.with_work(
                        if turn.status is Ready {
                            1
                        } else {
                            0
                        },
                    )
                },
            final(self).pool.output_looks() == old(self).pool.output_looks().push(
                turn.status.found(),
            ),
            old(self).pool.unsent() > 0 ==> final(self).pool.stop_attempts().len() > old(self).pool.stop_attempts().len(),
            final(self).tracker.all_work == old(self).tracker.all_work + (
            if turn.status is Ready {
                1int
            } else {
                0
            }),
            final(self).tracker.start == old(self).tracker.start,
            final(self).tracker.rate == old(self).tracker.rate,
            turn.start matches Some(worker) ==> worker.belongs_to(&old(self).pool),
            final(self).pool.same_pool(&old(self).pool),
    {
        self.tick(controller);
        let ghost middle = *self;
        let turn = self.pool.work();
        let counted = self.count_output(turn);
        proof {
            let now = choose|now: Instant|
                crate::tracker::told_by_clock(now) && #[trigger] middle.ticked_at(
                    old(self),
                    now,
                    controller,
                );
            let events = choose|events: Seq<WorkerEvent>| #[trigger]
                self.pool.took_turn(&middle.pool, events, crate::pool::task_of(counted.start));
            assert(middle.ticked_at(old(self), now, controller));
            assert(self.pool.took_turn(
                &middle.pool,
                events,
                crate::pool::task_of(counted.start),
            ));
        }
        counted
    }
}

} // verus!
