//! What a pool holds, as mathematics, and how each step changes it.
use crate::messages::{Delivery, WorkerEvent, WorkerPoolCommand};
use vstd::prelude::*;

verus! {

pub open spec fn min(a: nat, b: nat) -> nat {
    if a <= b {
        a
    } else {
        b
    }
}

/// How many of some attempts to send a message succeeded.
pub open spec fn sent_count(attempts: Seq<Delivery>) -> nat
    decreases attempts.len(),
{
    if attempts.len() == 0 {
        0
    } else {
        sent_count(attempts.drop_last()) + if attempts.last() is Sent {
            1nat
        } else {
            0
        }
    }
}

pub(crate) proof fn lemma_one_more_attempt(attempts: Seq<Delivery>, delivery: Delivery)
    ensures
        sent_count(attempts.push(delivery)) == sent_count(attempts) + if delivery is Sent {
            1nat
        } else {
            0
        },
{
    assert(attempts.push(delivery).drop_last() == attempts);
}

/// Attempts to send `n` messages and then, unless all of them were to be sent, one that ends as
/// `last` says.
pub open spec fn attempts_until(n: nat, last: Delivery) -> Seq<Delivery> {
    Seq::new(n, |i: int| Delivery::Sent) + if last is Sent {
        Seq::<Delivery>::empty()
    } else {
        seq![last]
    }
}

/// What looks for the events of workers find that are taken one by one, until none is found or no
/// worker is `left` that could send one.
pub open spec fn looks_until_none(events: Seq<WorkerEvent>, left: nat) -> Seq<Option<WorkerEvent>> {
    Seq::new(events.len(), |i: int| Some(events[i])) + if left > 0 {
        seq![None::<WorkerEvent>]
    } else {
        Seq::<Option<WorkerEvent>>::empty()
    }
}

/// The state of a pool: how many workers it has and wants, what it was told, and what is left to
/// do. What waits in the channels that it shares with its workers is no part of it.
#[verifier::ext_equal]
pub struct PoolState<In> {
    /// How many workers are wanted.
    pub target: nat,
    /// How many workers there are.
    pub workers: nat,
    /// How many of them have been asked to stop.
    pub stopping: nat,
    /// The most workers that the pool may have.
    pub cap: nat,
    /// The task for a worker that finds no other.
    pub default_job: Option<In>,
    /// The tasks that nobody has taken up, oldest first.
    pub queue: Seq<In>,
    /// The commands that have not been carried out, oldest first.
    pub commands: Seq<WorkerPoolCommand>,
}

impl<In> PoolState<In> {
    /// A worker that has been asked to stop is one of the workers, there are no more of those than
    /// the cap allows, and the counts are ones that the machine can hold.
    pub open spec fn valid(self) -> bool {
        &&& self.stopping <= self.workers <= self.cap <= usize::MAX
        &&& self.target <= usize::MAX
    }

    /// How many workers have not been asked to stop.
    pub open spec fn staying(self) -> nat {
        (self.workers - self.stopping) as nat
    }

    /// The state after `n` more requests to stop. A request that finds no worker left to ask
    /// leaves the count as it is.
    pub open spec fn asked(self, n: nat) -> Self {
        PoolState { stopping: min(self.stopping + n, self.workers), ..self }
    }

    /// The state after one command has been carried out.
    pub open spec fn after_command(self, command: WorkerPoolCommand) -> Self {
        match command {
            WorkerPoolCommand::Stop => self.asked(self.target),
            WorkerPoolCommand::SetWorkerCount(n) => PoolState {
                target: if n == 0 {
                    1
                } else {
                    n as nat
                },
                ..self
            },
        }
    }

    /// The state after some commands have been carried out, the first one first.
    pub open spec fn after_commands(self, commands: Seq<WorkerPoolCommand>) -> Self
        decreases commands.len(),
    {
        if commands.len() == 0 {
            self
        } else {
            self.after_command(commands.first()).after_commands(commands.drop_first())
        }
    }

    /// The state in which every command has been carried out.
    pub open spec fn settled(self) -> Self {
        PoolState { commands: Seq::empty(), ..self.after_commands(self.commands) }
    }

    /// How many stop messages a command calls for.
    pub open spec fn stops_for(self, command: WorkerPoolCommand) -> nat {
        match command {
            WorkerPoolCommand::Stop => self.target,
            WorkerPoolCommand::SetWorkerCount(_) => 0,
        }
    }

    /// How many stop messages some commands call for, one after another.
    pub open spec fn stops_called_for(self, commands: Seq<WorkerPoolCommand>) -> nat
        decreases commands.len(),
    {
        if commands.len() == 0 {
            0
        } else {
            self.stops_for(commands.first()) + self.after_command(
                commands.first(),
            ).stops_called_for(commands.drop_first())
        }
    }

    /// The state after one worker has ended. One that was stopped was one of those that had been
    /// asked to, if any had; of one that is done that is not known, but no more workers can be
    /// asked to stop than there are.
    pub open spec fn after_event(self, event: WorkerEvent) -> Self {
        let left: nat = (self.workers - 1) as nat;
        PoolState {
            workers: left,
            stopping: match event {
                WorkerEvent::WorkerDone => min(self.stopping, left),
                WorkerEvent::WorkerStopped => if self.stopping == 0 {
                    0
                } else {
                    (self.stopping - 1) as nat
                },
            },
            ..self
        }
    }

    /// The state after some workers have ended, the first one first.
    pub open spec fn after_events(self, events: Seq<WorkerEvent>) -> Self
        decreases events.len(),
    {
        if events.len() == 0 {
            self
        } else {
            self.after_event(events.first()).after_events(events.drop_first())
        }
    }

    /// The pool has fewer workers than it wants, and may have one more.
    pub open spec fn under_target(self) -> bool {
        self.staying() < self.target && self.workers < self.cap
    }

    /// The pool has more workers than it wants.
    pub open spec fn over_target(self) -> bool {
        self.staying() > self.target
    }

    /// There is a task that a new worker could take up.
    pub open spec fn has_task(self) -> bool {
        self.queue.len() > 0 || self.default_job is Some
    }

    /// The state after a task has been taken up: the oldest one leaves the queue.
    pub open spec fn task_taken(self) -> Self {
        PoolState {
            queue: if self.queue.len() > 0 {
                self.queue.drop_first()
            } else {
                self.queue
            },
            ..self
        }
    }

    /// The state after a worker has been started, where there is a task for it.
    pub open spec fn started(self) -> Self {
        if self.has_task() {
            PoolState { workers: self.workers + 1, ..self.task_taken() }
        } else {
            self
        }
    }

    /// The state after one step towards the target.
    pub open spec fn balanced(self) -> Self {
        if self.under_target() {
            self.started()
        } else if self.over_target() {
            self.asked(1)
        } else {
            self
        }
    }

    /// How many stop messages one step towards the target calls for.
    pub open spec fn stops_to_balance(self) -> nat {
        if self.over_target() {
            1
        } else {
            0
        }
    }

    /// How many stop messages `n` steps towards the target call for.
    pub open spec fn stops_to_balance_times(self, n: nat) -> nat
        decreases n,
    {
        if n == 0 {
            0
        } else {
            self.stops_to_balance() + self.balanced().stops_to_balance_times((n - 1) as nat)
        }
    }

    /// The state after `n` steps towards the target.
    pub open spec fn balanced_times(self, n: nat) -> Self
        decreases n,
    {
        if n == 0 {
            self
        } else {
            self.balanced().balanced_times((n - 1) as nat)
        }
    }
}

impl<In> PoolState<In> {
    /// Which commands are waiting makes no difference to what a command does.
    pub(crate) proof fn lemma_waiting_commands_do_not_matter(
        self,
        waiting: Seq<WorkerPoolCommand>,
        commands: Seq<WorkerPoolCommand>,
    )
        ensures
            (PoolState { commands: waiting, ..self }).after_commands(commands) == (PoolState {
                commands: waiting,
                ..self.after_commands(commands)
            }),
            (PoolState { commands: waiting, ..self }).stops_called_for(commands)
                == self.stops_called_for(commands),
        decreases commands.len(),
    {
        if commands.len() > 0 {
            let next = self.after_command(commands.first());
            assert((PoolState { commands: waiting, ..self }).after_command(commands.first())
                == PoolState { commands: waiting, ..next });
            next.lemma_waiting_commands_do_not_matter(waiting, commands.drop_first());
        }
    }

    /// Taking the oldest command and carrying it out leads to where carrying out all of them
    /// leads, with that command's stop messages called for.
    pub(crate) proof fn lemma_first_command_carried_out(self)
        requires
            self.commands.len() > 0,
        ensures
            ({
                let taken = PoolState { commands: self.commands.drop_first(), ..self };
                let next = taken.after_command(self.commands.first());
                &&& next.settled() == self.settled()
                &&& next.commands == self.commands.drop_first()
                &&& self.stops_called_for(self.commands) == taken.stops_for(self.commands.first())
                    + next.stops_called_for(next.commands)
            }),
    {
        let rest = self.commands.drop_first();
        let done = self.after_command(self.commands.first());
        done.lemma_waiting_commands_do_not_matter(rest, rest);
    }

    pub(crate) proof fn lemma_one_more_event(self, events: Seq<WorkerEvent>, event: WorkerEvent)
        ensures
            self.after_events(events.push(event)) == self.after_events(events).after_event(event),
        decreases events.len(),
    {
        let all = events.push(event);
        if events.len() == 0 {
            assert(all.drop_first() == Seq::<WorkerEvent>::empty());
            assert(self.after_events(all) == self.after_event(event).after_events(
                all.drop_first(),
            ));
        } else {
            assert(all.drop_first() == events.drop_first().push(event));
            self.after_event(events.first()).lemma_one_more_event(events.drop_first(), event);
        }
    }
}

impl<In: Clone> PoolState<In> {
    /// `task` is the one that is taken up next: the oldest of the queue, or else a clone of the
    /// default, or else none.
    pub open spec fn is_next_task(self, task: Option<In>) -> bool {
        if self.queue.len() > 0 {
            task == Some(self.queue.first())
        } else {
            match (self.default_job, task) {
                (Some(default_job), Some(copy)) => cloned(default_job, copy),
                (Some(_), None) => false,
                (None, task) => task is None,
            }
        }
    }
}

} // verus!
