//! The worker pool.
use crate::channels::{
    command_channel, event_channel, output_channel, send_command, share_event_sender,
    share_sender, share_stop_receiver, stop_channel, take_command, try_recv_event, Outputs,
    StopSender,
};
use crate::job::{Job, Reporter};
use crate::messages::{Delivery, Received, WorkerEvent, WorkerPoolCommand};
use crate::model::PoolState;
use crate::status::WorkerPoolStatus;
use std::collections::VecDeque;
use vstd::prelude::*;

verus! {

/// How many messages each bounded channel has room for, how many workers a pool may have, and
/// how many tasks its queue holds before it has to grow.
pub const ROOM: usize = 128;

/// A worker that is to be started: the job that it gets, and the means by which it reports its
/// end.
#[verifier::reject_recursive_types(Out)]
pub struct WorkerStart<In, Out> {
    pub job: Job<In, Out>,
    pub reporter: Reporter,
}

/// What one turn of a pool came to.
#[verifier::reject_recursive_types(Out)]
pub struct Turn<In, Out> {
    /// The output that the turn has found, if any.
    pub status: WorkerPoolStatus<Out>,
    /// The worker that the pool has counted in and that is to be started now, if any.
    pub start: Option<WorkerStart<In, Out>>,
}

/// A channels-oriented pool of asynchronous workers.
///
/// It is meant for relatively long-running workers that all write to one output channel. The pool
/// gathers all of that output, in whatever order it appears, and hands it out turn by turn.
///
/// The number of workers is a best effort, not a fixed count: it may be told to go up or down over
/// time, as the conditions around the pool change.
///
/// The pool decides and counts; it runs nothing by itself. Whoever drives it calls
/// [`work`](WorkerPool::work) over and over, and spawns each worker that a turn asks for.
#[verifier::reject_recursive_types(Out)]
pub struct WorkerPool<In, Out, F> {
    /// The function that a worker performs
    task: F,
    /// How many workers we want
    target_workers: usize,
    /// How many workers we actually have
    cur_workers: usize,
    /// Worker cap
    max_workers: usize,
    /// Default job that is assigned to idle workers when the queue is empty
    default_job: Option<In>,
    /// Outstanding tasks
    queue: VecDeque<In>,
    /// Channel for completed work from workers
    workers_channel: (async_std::sync::Sender<Out>, Outputs<Out>),
    /// Channel to stop workers early
    close_channel: (StopSender, async_std::sync::Receiver<()>),
    /// Channel for events from the workers
    worker_events: (
        crossbeam_channel::Sender<WorkerEvent>,
        crossbeam_channel::Receiver<WorkerEvent>,
    ),
    /// Channel for commands to the pool
    command_events: (
        crossbeam_channel::Sender<WorkerPoolCommand>,
        crossbeam_channel::Receiver<WorkerPoolCommand>,
    ),
    /// How many workers we have asked to stop that are still working
    outstanding_stops: usize,
    /// How many stop messages have found no room in their channel yet
    unsent_stops: usize,
}

impl<In, Out, F> View for WorkerPool<In, Out, F> {
    type V = PoolState<In>;

    closed spec fn view(&self) -> PoolState<In> {
        PoolState {
            target: self.target_workers as nat,
            workers: self.cur_workers as nat,
            stopping: self.outstanding_stops as nat,
            cap: self.max_workers as nat,
            default_job: self.default_job,
            queue: self.queue@,
            commands: crate::channels::queued_commands(
                self.command_events.0,
                self.command_events.1,
            )->0,
        }
    }
}

/// How many stop messages are still unsent after an attempt to send one of them.
pub fn unsent_after(unsent: usize, delivery: Delivery) -> (left: usize)
    requires
        unsent > 0,
    ensures
        left == (if delivery is Sent {
            unsent - 1
        } else {
            unsent as int
        }),
{
    match delivery {
        Delivery::Sent => unsent - 1,
        Delivery::Full => unsent,
        Delivery::Disconnected => unsent,
    }
}

impl<In, Out> WorkerStart<In, Out> {
    /// The worker hears of stops, hands in outputs and reports its end where `pool` sends, takes
    /// and awaits them, and has not reported anything yet.
    pub open spec fn belongs_to<F>(&self, pool: &WorkerPool<In, Out, F>) -> bool {
        &&& crate::channels::stops_come_from(self.job.close) == pool.stops_to()
        &&& self.job.results == pool.results()
        &&& crate::channels::events_go_to(self.reporter.events()) == pool.events_from()
        &&& crate::channels::events_put(self.reporter.events()) == Seq::<WorkerEvent>::empty()
    }
}

impl<In, Out, F> WorkerPool<In, Out, F> {
    /// The pool is in a valid state and holds both ends of each of its channels, and where a stop
    /// message is unsent, the last attempt to send one has failed, which takes a channel that was
    /// filled before.
    pub open spec fn wf(&self) -> bool {
        &&& self@.valid()
        &&& self.connected()
        &&& self.unsent() > 0 ==> {
            &&& self.stop_attempts().len() > 0
            &&& self.stop_attempts().last() !is Sent
            &&& self.stop_room() <= self.stops_put()
        }
    }

    /// The channel for the commands is the pool's alone, and of each other channel the two ends
    /// belong together.
    pub open spec fn connected(&self) -> bool {
        &&& self.owns_commands()
        &&& self.stops_to() == self.stops_from()
        &&& self.events_to() == self.events_from()
        &&& self.results() == self.outputs_from()
    }

    pub closed spec fn owns_commands(&self) -> bool {
        crate::channels::queued_commands(self.command_events.0, self.command_events.1) is Some
    }

    /// How many stop messages are waiting for room in their channel.
    pub closed spec fn unsent(&self) -> nat {
        self.unsent_stops as nat
    }

    /// The function that the workers perform.
    pub closed spec fn performs(&self) -> F {
        self.task
    }

    /// The channel into which the pool puts its stop messages.
    pub closed spec fn stops_to(&self) -> nat {
        self.close_channel.0.reaches()
    }

    /// The channel from which the workers that the pool starts take stop messages.
    pub closed spec fn stops_from(&self) -> nat {
        crate::channels::stops_come_from(self.close_channel.1)
    }

    /// How many stop messages can wait for a worker to notice them.
    pub closed spec fn stop_room(&self) -> nat {
        self.close_channel.0.room()
    }

    /// What became of each attempt to put a stop message into that channel.
    pub closed spec fn stop_attempts(&self) -> Seq<Delivery> {
        self.close_channel.0.attempts()
    }

    /// How many stop messages the pool has put into that channel.
    pub open spec fn stops_put(&self) -> nat {
        crate::model::sent_count(self.stop_attempts())
    }

    /// Where the workers hand in their outputs.
    pub closed spec fn results(&self) -> async_std::sync::Sender<Out> {
        self.workers_channel.0
    }

    /// Where those outputs are handed in that the pool takes out.
    pub closed spec fn outputs_from(&self) -> async_std::sync::Sender<Out> {
        self.workers_channel.1.fed_by()
    }

    /// How many outputs can wait for the pool to take them out.
    pub closed spec fn output_room(&self) -> nat {
        self.workers_channel.1.room()
    }

    /// What each look for an output found.
    pub closed spec fn output_looks(&self) -> Seq<Received<Out>> {
        self.workers_channel.1.looks()
    }

    /// The channel into which the workers that the pool starts report.
    pub closed spec fn events_to(&self) -> nat {
        crate::channels::events_go_to(self.worker_events.0)
    }

    /// The channel from which the pool takes the reports of its workers.
    pub closed spec fn events_from(&self) -> nat {
        crate::channels::events_come_from(self.worker_events.1)
    }

    /// What each look into that channel found.
    pub closed spec fn event_looks(&self) -> Seq<Option<WorkerEvent>> {
        crate::channels::event_looks(self.worker_events.1)
    }

    /// No stop message has been sent, called for or dropped.
    pub open spec fn same_stops(&self, before: &Self) -> bool {
        &&& self.stop_attempts() == before.stop_attempts()
        &&& self.unsent() == before.unsent()
    }

    /// `n` more stop messages have been called for, each with at least one attempt to send one, and
    /// each one that was ever called for has been sent or is still unsent. Unsent ones are counted
    /// up to the most that the machine can count.
    pub open spec fn stops_added(&self, before: &Self, n: nat) -> bool {
        &&& before.stop_attempts().len() + n <= self.stop_attempts().len()
        &&& before.stops_put() <= self.stops_put()
        &&& self.unsent() <= before.unsent() + n
        &&& before.unsent() + n <= usize::MAX ==> self.stops_put() + self.unsent()
            == before.stops_put() + before.unsent() + n
    }

    /// Of `owed` stop messages as many have been sent, one after another, as are no longer unsent;
    /// where some are, the attempt after that ended as `delivery` says.
    pub open spec fn delivered(&self, before: &Self, owed: nat, delivery: Delivery) -> bool {
        &&& self.unsent() <= owed
        &&& self.stop_attempts() == before.stop_attempts() + crate::model::attempts_until(
            (owed - self.unsent()) as nat,
            delivery,
        )
        &&& delivery is Sent <==> self.unsent() == 0
    }

    /// No output has been looked for.
    pub open spec fn same_outputs(&self, before: &Self) -> bool {
        self.output_looks() == before.output_looks()
    }

    /// No report of a worker has been looked for.
    pub open spec fn same_events(&self, before: &Self) -> bool {
        self.event_looks() == before.event_looks()
    }

    /// What a pool keeps for as long as it lives: what its workers perform, and the channels that
    /// it shares with them.
    pub open spec fn same_pool(&self, other: &Self) -> bool {
        &&& self.performs() == other.performs()
        &&& self.stops_to() == other.stops_to()
        &&& self.stop_room() == other.stop_room()
        &&& self.results() == other.results()
        &&& self.output_room() == other.output_room()
        &&& self.events_from() == other.events_from()
    }

    /// A pool with no workers and nothing to do, which aims for one worker.
    pub fn new(task: F) -> (pool: Self)
        ensures
            pool.wf(),
            pool@ == (PoolState {
                target: 1,
                workers: 0,
                stopping: 0,
                cap: ROOM as nat,
                default_job: None,
                queue: Seq::<In>::empty(),
                commands: Seq::<WorkerPoolCommand>::empty(),
            }),
            pool@.cap == 128,
            pool.unsent() == 0,
            pool.performs() == task,
            pool.stop_room() == ROOM,
            pool.stop_attempts() == Seq::<Delivery>::empty(),
            pool.event_looks() == Seq::<Option<WorkerEvent>>::empty(),
            pool.output_room() == ROOM,
            pool.output_looks() == Seq::<Received<Out>>::empty(),
    {
        WorkerPool {
            task,
            target_workers: 1,
            cur_workers: 0,
            max_workers: ROOM,
            workers_channel: output_channel(ROOM),
            close_channel: stop_channel(ROOM),
            worker_events: event_channel(),
            command_events: command_channel(),
            queue: VecDeque::with_capacity(ROOM),
            outstanding_stops: 0,
            default_job: None,
            unsent_stops: 0,
        }
    }

    /// The function that a worker performs.
    pub fn task(&self) -> (task: &F)
        ensures
            *task == self.performs(),
    {
        &self.task
    }

    /// Number of workers currently working.
    /// This is the number of workers we haven't tried to stop yet plus the workers that haven't
    /// noticed they were told to stop.
    pub fn cur_workers(&self) -> (n: usize)
        ensures
            n == self@.workers,
    {
        self.cur_workers
    }

    /// Target number of workers.
    pub fn target_workers(&self) -> (n: usize)
        ensures
            n == self@.target,
    {
        self.target_workers
    }

    /// Number of workers that have not been told to stop.
    fn staying_workers(&self) -> (n: usize)
        requires
            self.wf(),
        ensures
            n == self@.staying(),
            n == self@.workers - self@.stopping,
    {
        self.cur_workers - self.outstanding_stops
    }

    /// Whether the current number of workers is the target number of workers.
    /// Adjusted for the number of workers that we have told to stop but that have
    /// not actually gotten around to stopping yet.
    pub fn at_target_worker_count(&self) -> (at_target: bool)
        requires
            self.wf(),
        ensures
            at_target == (self@.staying() == self@.target),
            at_target <==> self@.workers - self@.stopping == self@.target,
    {
        self.staying_workers() == self.target_workers()
    }

    /// Whether any worker is currently working.
    pub fn working(&self) -> (working: bool)
        ensures
            working == (self@.workers > 0),
    {
        self.cur_workers() > 0
    }

    /// How many stop messages have found no room in their channel yet.
    pub fn unsent_stops(&self) -> (n: usize)
        ensures
            n == self.unsent(),
    {
        self.unsent_stops
    }

    /// Sets the target number of workers.
    /// Does not stop in-progress workers.
    pub fn set_target_workers(&mut self, n: usize)
        requires
            old(self).wf(),
        ensures
            final(self).wf(),
            final(self)@ == (PoolState { target: n as nat, ..old(self)@ }),
            final(self).same_stops(old(self)),
            final(self).same_events(old(self)),
            final(self).same_outputs(old(self)),
            final(self).same_pool(old(self)),
    {
        self.target_workers = n;
    }

    /// Adds a new task to the back of the queue.
    pub fn push(&mut self, task: In)
        requires
            old(self).wf(),
        ensures
            final(self).wf(),
            final(self)@ == (PoolState { queue: old(self)@.queue.push(task), ..old(self)@ }),
            final(self).same_stops(old(self)),
            final(self).same_events(old(self)),
            final(self).same_outputs(old(self)),
            final(self).same_pool(old(self)),
    {
        self.queue.push_back(task);
    }

    /// Gives the pool a command, to be carried out in its next turn.
    pub fn command(&mut self, command: WorkerPoolCommand)
        requires
            old(self).wf(),
        ensures
            final(self).wf(),
            final(self)@ == (PoolState {
                commands: old(self)@.commands.push(command),
                ..old(self)@
            }),
            final(self).same_stops(old(self)),
            final(self).same_events(old(self)),
            final(self).same_outputs(old(self)),
            final(self).same_pool(old(self)),
    {
        let _ = send_command(&mut self.command_events.0, &mut self.command_events.1, command);
    }

    /// Tries to send the stop messages that are still unsent, until one of them finds no room.
    ///
    /// Doesn't forcibly kill in-progress tasks: a worker notices a stop message when it looks for
    /// one.
    ///
    /// How much room there is depends on the workers, so how many messages stay unsent is not
    /// stated.
    pub fn deliver_stops(&mut self) -> (delivery: Delivery)
        requires
            old(self)@.valid(),
            old(self).connected(),
        ensures
            final(self).wf(),
            final(self)@ == old(self)@,
            final(self).delivered(old(self), old(self).unsent(), delivery),
            final(self).stops_added(old(self), 0),
            final(self).same_events(old(self)),
            final(self).same_outputs(old(self)),
            final(self).same_pool(old(self)),
    {
        while self.unsent_stops > 0
            invariant
                self@.valid(),
                self.connected(),
                self@ == old(self)@,
                self.unsent() <= old(self).unsent(),
                self.stop_attempts() == old(self).stop_attempts() + crate::model::attempts_until(
                    (old(self).unsent() - self.unsent()) as nat,
                    Delivery::Sent,
                ),
                self.stops_added(old(self), 0),
                self.same_events(old(self)),
                self.same_outputs(old(self)),
                self.same_pool(old(self)),
            decreases self.unsent_stops,
        {
            let ghost attempts = self.stop_attempts();
            let delivery = self.close_channel.0.try_send();
            self.unsent_stops = unsent_after(self.unsent_stops, delivery);
            proof {
                crate::model::lemma_one_more_attempt(attempts, delivery);
            }
            if delivery != Delivery::Sent {
                return delivery;
            }
        }
        Delivery::Sent
    }

    /// Asks one more worker to stop, if there is one left to ask, and tries to tell it.
    ///
    /// The stop message is read by whichever worker looks first. One that finds no room stays
    /// unsent, behind those that were unsent before.
    fn send_stop_work_message(&mut self)
        requires
            old(self).wf(),
        ensures
            final(self).wf(),
            final(self)@ == old(self)@.asked(1),
            final(self).stops_added(old(self), 1),
            exists|delivery: Delivery| #[trigger]
                final(self).delivered(
                    old(self),
                    crate::model::min(old(self).unsent() + 1, usize::MAX as nat),
                    delivery,
                ),
            final(self).same_events(old(self)),
            final(self).same_outputs(old(self)),
            final(self).same_pool(old(self)),
    {
        if self.outstanding_stops < self.cur_workers {
            self.outstanding_stops = self.outstanding_stops + 1;
        }
        self.unsent_stops = self.unsent_stops.saturating_add(1);
        let delivery = self.deliver_stops();
        assert(self.delivered(
            old(self),
            crate::model::min(old(self).unsent() + 1, usize::MAX as nat),
            delivery,
        ));
    }

    /// Carries out one command. The stop command asks as many workers to stop as the pool is
    /// meant to have, and a worker count of zero counts as one.
    fn apply_command(&mut self, command: WorkerPoolCommand)
        requires
            old(self).wf(),
        ensures
            final(self).wf(),
            final(self)@ == old(self)@.after_command(command),
            command is Stop ==> final(self).stops_added(old(self), old(self)@.target),
            command matches WorkerPoolCommand::SetWorkerCount(n) ==> final(self)@.target == (
            if n == 0 {
                1
            } else {
                n as int
            }),
            final(self).stops_added(old(self), old(self)@.stops_for(command)),
            old(self)@.stops_for(command) == 0 ==> final(self).same_stops(old(self)),
            final(self).same_events(old(self)),
            final(self).same_outputs(old(self)),
            final(self).same_pool(old(self)),
    {
        match command {
            WorkerPoolCommand::Stop => {
                let wanted = self.target_workers;
                for asked in 0..wanted
                    invariant
                        self.wf(),
                        wanted == old(self)@.target,
                        self@ == old(self)@.asked(asked as nat),
                        self.stops_added(old(self), asked as nat),
                        asked == 0 ==> self.same_stops(old(self)),
                        self.same_events(old(self)),
                        self.same_outputs(old(self)),
                        self.same_pool(old(self)),
                {
                    self.send_stop_work_message();
                }
            },
            WorkerPoolCommand::SetWorkerCount(n) => {
                self.target_workers = match n {
                    0 => 1,
                    n => n,
                };
            },
        }
    }

    /// Carries out every command that the pool has been given, the oldest first.
    pub fn process_pool_commands(&mut self)
        requires
            old(self).wf(),
        ensures
            final(self).wf(),
            final(self)@ == old(self)@.settled(),
            final(self)@.commands.len() == 0,
            final(self)@.workers == old(self)@.workers,
            final(self)@.queue == old(self)@.queue,
            final(self).stops_added(
                old(self),
                old(self)@.stops_called_for(old(self)@.commands),
            ),
            old(self)@.stops_called_for(old(self)@.commands) == 0 ==> final(self).same_stops(
                old(self),
            ),
            final(self).same_events(old(self)),
            final(self).same_outputs(old(self)),
            final(self).same_pool(old(self)),
    {
        let ghost mut done: nat = 0;
        loop
            invariant_except_break
                self.wf(),
                self@.settled() == old(self)@.settled(),
                self@.workers == old(self)@.workers,
                self@.queue == old(self)@.queue,
                done + self@.stops_called_for(self@.commands) == old(self)@.stops_called_for(
                    old(self)@.commands,
                ),
                self.stops_added(old(self), done),
                done == 0 ==> self.same_stops(old(self)),
                self.same_events(old(self)),
                self.same_outputs(old(self)),
                self.same_pool(old(self)),
            ensures
                self.wf(),
                self@ == old(self)@.settled(),
                self@.workers == old(self)@.workers,
                self@.queue == old(self)@.queue,
                self.stops_added(old(self), done),
                done == old(self)@.stops_called_for(old(self)@.commands),
                done == 0 ==> self.same_stops(old(self)),
                self.same_events(old(self)),
                self.same_outputs(old(self)),
                self.same_pool(old(self)),
            decreases self@.commands.len(),
        {
            let ghost before = self@;
            match take_command(&mut self.command_events.0, &mut self.command_events.1) {
                Some(command) => {
                    let ghost taken = self@;
                    self.apply_command(command);
                    proof {
                        before.lemma_first_command_carried_out();
                        assert(taken == PoolState {
                            commands: before.commands.drop_first(),
                            ..before
                        });
                        done = done + taken.stops_for(command);
                    }
                },
                None => {
                    assert(self@ == before);
                    break;
                },
            }
        }
    }

    /// Counts one worker out, as its event says.
    ///
    /// A worker may have stopped that nobody counts as asked to: stop messages that found no
    /// worker left to ask stay in their channel, and the next worker to look finds one. It is
    /// counted out like any other.
    pub fn apply_worker_event(&mut self, event: WorkerEvent)
        requires
            old(self).wf(),
            old(self)@.workers > 0,
        ensures
            final(self).wf(),
            final(self)@ == old(self)@.after_event(event),
            final(self)@.workers == old(self)@.workers - 1,
            final(self)@.queue == old(self)@.queue,
            final(self)@.target == old(self)@.target,
            event is WorkerStopped ==> final(self)@.stopping == (if old(self)@.stopping > 0 {
                old(self)@.stopping - 1
            } else {
                0
            }),
            event is WorkerDone ==> final(self)@.stopping == (if old(self)@.stopping < old(self)@.workers {
                old(self)@.stopping as int
            } else {
                old(self)@.workers - 1
            }),
            final(self).same_stops(old(self)),
            final(self).same_events(old(self)),
            final(self).same_outputs(old(self)),
            final(self).same_pool(old(self)),
    {
        self.cur_workers = self.cur_workers - 1;
        match event {
            WorkerEvent::WorkerDone => {
                if self.outstanding_stops > self.cur_workers {
                    self.outstanding_stops = self.cur_workers;
                }
            },
            WorkerEvent::WorkerStopped => {
                if self.outstanding_stops > 0 {
                    self.outstanding_stops = self.outstanding_stops - 1;
                }
            },
        }
    }

    /// Counts out the workers that have reported their end, until no report is found. Each worker
    /// reports once, so once none is left there is no report left either.
    ///
    /// Which workers have ended by now depends on them, so the events are not stated.
    pub fn process_worker_events(&mut self)
        requires
            old(self).wf(),
        ensures
            final(self).wf(),
            exists|events: Seq<WorkerEvent>|
                {
                    &&& events.len() <= old(self)@.workers
                    &&& final(self)@ == #[trigger] old(self)@.after_events(events)
                    &&& final(self).event_looks() == old(self).event_looks()
                        + crate::model::looks_until_none(events, final(self)@.workers)
                },
            final(self).same_stops(old(self)),
            final(self).same_outputs(old(self)),
            final(self).same_pool(old(self)),
    {
        let ghost mut events: Seq<WorkerEvent> = Seq::empty();
        while self.cur_workers > 0
            invariant
                self.wf(),
                events.len() + self@.workers == old(self)@.workers,
                self@ == old(self)@.after_events(events),
                self.event_looks() == old(self).event_looks() + crate::model::looks_until_none(
                    events,
                    0,
                ),
                self.same_stops(old(self)),
                self.same_outputs(old(self)),
                self.same_pool(old(self)),
            decreases self.cur_workers,
        {
            match try_recv_event(&mut self.worker_events.1) {
                Some(event) => {
                    self.apply_worker_event(event);
                    proof {
                        old(self)@.lemma_one_more_event(events, event);
                        assert(crate::model::looks_until_none(events.push(event), 0)
                            == crate::model::looks_until_none(events, 0).push(Some(event)));
                        events = events.push(event);
                    }
                },
                None => {
                    assert(crate::model::looks_until_none(events, self@.workers)
                        == crate::model::looks_until_none(events, 0).push(None));
                    return ;
                },
            }
        }
    }
}

impl<In: Clone, Out, F> WorkerPool<In, Out, F> {
    /// `self` comes out of `before` by a turn that counts out the workers of `events` and takes up
    /// `task`: the events are those that were found until none was, and the stop messages are
    /// those that the commands and the step towards the target call for.
    pub open spec fn took_turn(
        &self,
        before: &Self,
        events: Seq<WorkerEvent>,
        task: Option<In>,
    ) -> bool {
        let counted = before@.settled().after_events(events);
        &&& turned(before@, events, self@, task)
        &&& self.event_looks() == before.event_looks() + crate::model::looks_until_none(
            events,
            counted.workers,
        )
        &&& self.stops_added(
            before,
            before@.stops_called_for(before@.commands) + counted.stops_to_balance(),
        )
    }

    /// Takes up the next task: the oldest of the queue, or else a clone of the default.
    pub fn get_task(&mut self) -> (task: Option<In>)
        requires
            old(self).wf(),
        ensures
            final(self).wf(),
            final(self)@ == old(self)@.task_taken(),
            old(self)@.is_next_task(task),
            old(self)@.queue.len() > 0 ==> task == Some(old(self)@.queue[0]) && final(self)@.queue
                == old(self)@.queue.subrange(1, old(self)@.queue.len() as int),
            old(self)@.queue.len() == 0 && old(self)@.default_job is None ==> task is None,
            old(self)@.queue.len() == 0 && old(self)@.default_job is Some ==> task is Some
                && cloned(old(self)@.default_job->0, task->0),
            final(self).same_stops(old(self)),
            final(self).same_events(old(self)),
            final(self).same_outputs(old(self)),
            final(self).same_pool(old(self)),
    {
        match self.queue.pop_front() {
            Some(task) => Some(task),
            None => match &self.default_job {
                None => None,
                Some(default_job) => Some(default_job.clone()),
            },
        }
    }

    /// Counts in a new worker if there is work to do, and says what it is to be started with.
    /// There is work to do either if there is an outstanding queue, or if this pool has a default
    /// task that can be assigned.
    pub fn start_worker(&mut self) -> (start: Option<WorkerStart<In, Out>>)
        requires
            old(self).wf(),
            old(self)@.workers < old(self)@.cap,
        ensures
            final(self).wf(),
            final(self)@ == old(self)@.started(),
            start is Some <==> old(self)@.has_task(),
            start is Some <==> old(self)@.queue.len() > 0 || old(self)@.default_job is Some,
            start is Some ==> final(self)@.workers == old(self)@.workers + 1,
            old(self)@.queue.len() > 0 ==> start->0.job.task == old(self)@.queue[0] && final(self)@.queue == old(self)@.queue.subrange(1, old(self)@.queue.len() as int),
            start matches Some(worker) ==> old(self)@.is_next_task(Some(worker.job.task))
                && worker.belongs_to(old(self)),
            final(self).same_stops(old(self)),
            final(self).same_events(old(self)),
            final(self).same_outputs(old(self)),
            final(self).same_pool(old(self)),
    {
        let task = match self.get_task() {
            None => {
                return None;
            },
            Some(task) => task,
        };
        let results = share_sender(&self.workers_channel.0);
        let close = share_stop_receiver(&self.close_channel.1);
        let reporter = Reporter::new(share_event_sender(&self.worker_events.0));
        self.cur_workers = self.cur_workers + 1;
        Some(WorkerStart { job: Job::new(task, close, results), reporter })
    }

    /// Adds a single worker if we are under our target count and not at our cap.
    /// Sends a single stop message if we are over our target count.
    pub fn balance_workers(&mut self) -> (start: Option<WorkerStart<In, Out>>)
        requires
            old(self).wf(),
        ensures
            final(self).wf(),
            final(self)@ == old(self)@.balanced(),
            start is Some <==> old(self)@.under_target() && old(self)@.has_task(),
            start is Some <==> {
                &&& old(self)@.workers - old(self)@.stopping < old(self)@.target
                &&& old(self)@.workers < old(self)@.cap
                &&& old(self)@.queue.len() > 0 || old(self)@.default_job is Some
            },
            start is Some ==> final(self)@.workers == old(self)@.workers + 1,
            start is Some && old(self)@.queue.len() > 0 ==> start->0.job.task == old(self)@.queue[0] && final(self)@.queue == old(self)@.queue.subrange(
                1,
                old(self)@.queue.len() as int,
            ),
            start is None ==> final(self)@.workers == old(self)@.workers && final(self)@.queue
                == old(self)@.queue,
            old(self)@.workers - old(self)@.stopping > old(self)@.target ==> final(self)@.stopping == old(self)@.stopping + 1 && final(self).stops_added(old(self), 1),
            old(self)@.workers - old(self)@.stopping <= old(self)@.target ==> final(self)@.stopping == old(self)@.stopping && final(self).same_stops(old(self)),
            start matches Some(worker) ==> old(self)@.is_next_task(Some(worker.job.task))
                && worker.belongs_to(old(self)),
            final(self).stops_added(old(self), old(self)@.stops_to_balance()),
            !old(self)@.over_target() ==> final(self).same_stops(old(self)),
            final(self).same_events(old(self)),
            final(self).same_outputs(old(self)),
            final(self).same_pool(old(self)),
    {
        let staying = self.staying_workers();
        if staying < self.target_workers && self.cur_workers < self.max_workers {
            self.start_worker()
        } else {
            if staying > self.target_workers {
                self.send_stop_work_message();
            }
            None
        }
    }

    /// One turn of the pool: carries out the commands, counts out the workers that have ended,
    /// takes one step towards the target, and looks for an output.
    ///
    /// The worker in `start`, if there is one, has been counted in: it is up to the caller to run
    /// it, and to have its end reported. Stop messages that found no room are tried again in the
    /// next turn, or by [`deliver_stops`](WorkerPool::deliver_stops).
    ///
    /// Which workers have ended and which output comes first depends on the workers, so neither
    /// is stated. The status is what the one look for an output has found, as
    /// [`WorkerPoolStatus::from_received`] says.
    pub fn work(&mut self) -> (turn: Turn<In, Out>)
        requires
            old(self).wf(),
        ensures
            final(self).wf(),
            exists|events: Seq<WorkerEvent>| #[trigger]
                final(self).took_turn(old(self), events, task_of(turn.start)),
            final(self).output_looks() == old(self).output_looks().push(turn.status.found()),
            old(self).unsent() > 0 ==> final(self).stop_attempts().len() > old(self).stop_attempts().len(),
            turn.start matches Some(worker) ==> worker.belongs_to(old(self)),
            final(self).same_pool(old(self)),
    {
        let _delivery = self.deliver_stops();
        self.process_pool_commands();
        let ghost settled = self@;
        self.process_worker_events();
        let ghost counted = self@;
        let start = self.balance_workers();
        let status = WorkerPoolStatus::from_received(self.workers_channel.1.look());
        proof {
            let events = choose|events: Seq<WorkerEvent>|
                {
                    &&& events.len() <= settled.workers
                    &&& counted == #[trigger] settled.after_events(events)
                    &&& self.event_looks() == old(self).event_looks()
                        + crate::model::looks_until_none(events, counted.workers)
                };
            assert(self.took_turn(old(self), events, task_of(start)));
        }
        Turn { status, start }
    }
}

/// The task that a worker is to be started with, if one is to be started.
pub open spec fn task_of<In, Out>(start: Option<WorkerStart<In, Out>>) -> Option<In> {
    match start {
        Some(worker) => Some(worker.job.task),
        None => None,
    }
}

/// A turn leads from `before` to `after`: the commands are carried out, the workers of `events`
/// are counted out, and one step is taken towards the target, for which `task` is taken up.
pub open spec fn turned<In: Clone>(
    before: PoolState<In>,
    events: Seq<WorkerEvent>,
    after: PoolState<In>,
    task: Option<In>,
) -> bool {
    let counted = before.settled().after_events(events);
    &&& events.len() <= before.settled().workers
    &&& after == counted.balanced()
    &&& if counted.under_target() {
        counted.is_next_task(task)
    } else {
        task is None
    }
}

} // verus!
