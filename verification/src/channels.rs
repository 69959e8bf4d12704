//! The channels that connect a pool with its workers and its callers.
//!
//! Three of the four channels are shared with tasks that run at the same time as the pool: what a
//! look into one of them finds depends on what those tasks have done, so it is not promised. What
//! is kept track of is what goes in and comes out through the ends that the pool holds, and which
//! ends belong together. The channel for commands never leaves the pool that made it, and is a
//! queue.
use crate::messages::{Delivery, Received, WorkerEvent, WorkerPoolCommand};
use vstd::prelude::*;

verus! {

/// The sending end of a `crossbeam_channel` channel.
#[verifier::external_type_specification]
#[verifier::external_body]
#[verifier::reject_recursive_types(T)]
pub struct ExCrossbeamSender<T>(crossbeam_channel::Sender<T>);

/// The receiving end of a `crossbeam_channel` channel.
#[verifier::external_type_specification]
#[verifier::external_body]
#[verifier::reject_recursive_types(T)]
pub struct ExCrossbeamReceiver<T>(crossbeam_channel::Receiver<T>);

/// The sending end of an `async_std` channel.
#[verifier::external_type_specification]
#[verifier::external_body]
#[verifier::reject_recursive_types(T)]
pub struct ExSender<T>(async_std::sync::Sender<T>);

/// The receiving end of an `async_std` channel.
#[verifier::external_type_specification]
#[verifier::external_body]
#[verifier::reject_recursive_types(T)]
pub struct ExReceiver<T>(async_std::sync::Receiver<T>);

/// The commands that wait between two ends, oldest first, where the two are the only ends of one
/// unbounded channel; `None` where they are not.
pub uninterp spec fn queued_commands(
    sender: crossbeam_channel::Sender<WorkerPoolCommand>,
    receiver: crossbeam_channel::Receiver<WorkerPoolCommand>,
) -> Option<Seq<WorkerPoolCommand>>;

/// The channel that a receiver of stop messages takes them from, as a number that tells channels
/// apart.
pub uninterp spec fn stops_come_from(receiver: async_std::sync::Receiver<()>) -> nat;

/// At some time a look through a receiving end for stop messages finds this.
pub uninterp spec fn stop_found(
    receiver: async_std::sync::Receiver<()>,
    received: Received<()>,
) -> bool;

/// The channel that a sender of events puts them into, as a number that tells channels apart.
pub uninterp spec fn events_go_to(sender: crossbeam_channel::Sender<WorkerEvent>) -> nat;

/// The channel that a receiver of events takes them from, as a number that tells channels apart.
pub uninterp spec fn events_come_from(receiver: crossbeam_channel::Receiver<WorkerEvent>) -> nat;

/// The events that have been put into their channel through a sending end, in order.
pub uninterp spec fn events_put(sender: crossbeam_channel::Sender<WorkerEvent>) -> Seq<WorkerEvent>;

/// At some time a send through a sending end for events finds that no receiver is left.
pub uninterp spec fn nobody_receives(sender: crossbeam_channel::Sender<WorkerEvent>) -> bool;

/// What each look through a receiving end found, in order: an event, which was taken out, or none.
pub uninterp spec fn event_looks(receiver: crossbeam_channel::Receiver<WorkerEvent>) -> Seq<
    Option<WorkerEvent>,
>;

/// Calls `crossbeam_channel::unbounded`, which makes an empty channel and hands out its only
/// two ends.
#[verifier::external_body]
pub(crate) fn command_channel() -> (ends: (
    crossbeam_channel::Sender<WorkerPoolCommand>,
    crossbeam_channel::Receiver<WorkerPoolCommand>,
))
    ensures
        queued_commands(ends.0, ends.1) == Some(Seq::<WorkerPoolCommand>::empty()),
{
    crossbeam_channel::unbounded()
}

/// Calls `crossbeam_channel::Sender::send` on the channel of the two ends. An unbounded channel
/// always has room, and `send` fails only where no receiver is left: with the receiver at hand
/// the command joins the queue at its back.
#[verifier::external_body]
pub(crate) fn send_command(
    sender: &mut crossbeam_channel::Sender<WorkerPoolCommand>,
    _receiver: &mut crossbeam_channel::Receiver<WorkerPoolCommand>,
    command: WorkerPoolCommand,
) -> (sent: bool)
    requires
        queued_commands(*old(sender), *old(_receiver)) is Some,
    ensures
        sent,
        queued_commands(*final(sender), *final(_receiver)) == Some(
            queued_commands(*old(sender), *old(_receiver))->0.push(command),
        ),
{
    sender.send(command).is_ok()
}

/// Calls `crossbeam_channel::Receiver::try_recv` on the channel of the two ends. With no other
/// ends to send or to receive, it takes the oldest command of the queue, and finds nothing only
/// where the queue is empty.
#[verifier::external_body]
pub(crate) fn take_command(
    _sender: &mut crossbeam_channel::Sender<WorkerPoolCommand>,
    receiver: &mut crossbeam_channel::Receiver<WorkerPoolCommand>,
) -> (command: Option<WorkerPoolCommand>)
    requires
        queued_commands(*old(_sender), *old(receiver)) is Some,
    ensures
        ({
            let before = queued_commands(*old(_sender), *old(receiver))->0;
            let after = queued_commands(*final(_sender), *final(receiver));
            match command {
                Some(taken) => before.len() > 0 && taken == before[0] && after == Some(
                    before.drop_first(),
                ),
                None => before.len() == 0 && after == Some(before),
            }
        }),
{
    receiver.try_recv().ok()
}

/// Calls `crossbeam_channel::unbounded`, which makes a channel and hands out its two ends: what
/// goes in at the one comes out at the other. Neither end has been used yet. What waits between
/// them is not claimed: the ends are shared, so it changes at any time.
#[verifier::external_body]
pub(crate) fn event_channel() -> (ends: (
    crossbeam_channel::Sender<WorkerEvent>,
    crossbeam_channel::Receiver<WorkerEvent>,
))
    ensures
        events_go_to(ends.0) == events_come_from(ends.1),
        events_put(ends.0) == Seq::<WorkerEvent>::empty(),
        event_looks(ends.1) == Seq::<Option<WorkerEvent>>::empty(),
{
    crossbeam_channel::unbounded()
}

/// Calls `Clone::clone` of `crossbeam_channel::Sender`, which hands out a second sending end of
/// the same channel. Through the new end nothing has been put in yet.
#[verifier::external_body]
pub(crate) fn share_event_sender(sender: &crossbeam_channel::Sender<WorkerEvent>) -> (shared:
    crossbeam_channel::Sender<WorkerEvent>)
    ensures
        events_go_to(shared) == events_go_to(*sender),
        events_put(shared) == Seq::<WorkerEvent>::empty(),
{
    sender.clone()
}

/// Calls `crossbeam_channel::Sender::send` for a worker's event. Where it succeeds, the event is in
/// the channel. It fails where no receiver is left, and then hands the event back and puts nothing
/// in. Whether one is left is not claimed: the pool may go away at any time.
#[verifier::external_body]
pub(crate) fn send_event(
    sender: &mut crossbeam_channel::Sender<WorkerEvent>,
    event: WorkerEvent,
) -> (sent: Result<(), WorkerEvent>)
    ensures
        events_go_to(*final(sender)) == events_go_to(*old(sender)),
        match sent {
            Ok(()) => events_put(*final(sender)) == events_put(*old(sender)).push(event),
            Err(back) => {
                &&& nobody_receives(*old(sender))
                &&& back == event
                &&& events_put(*final(sender)) == events_put(*old(sender))
            },
        },
{
    match sender.send(event) {
        Ok(()) => Ok(()),
        Err(error) => Err(error.into_inner()),
    }
}

/// Calls `crossbeam_channel::Receiver::try_recv` for the events of the workers: one look, which
/// takes out what it finds. Which event that is, and whether there is one, is not claimed: it
/// depends on the workers.
#[verifier::external_body]
pub(crate) fn try_recv_event(receiver: &mut crossbeam_channel::Receiver<WorkerEvent>) -> (event:
    Option<WorkerEvent>)
    ensures
        events_come_from(*final(receiver)) == events_come_from(*old(receiver)),
        event_looks(*final(receiver)) == event_looks(*old(receiver)).push(event),
{
    receiver.try_recv().ok()
}

/// The only sending end of a channel for stop messages.
pub struct StopSender {
    sender: async_std::sync::Sender<()>,
    attempts: Ghost<Seq<Delivery>>,
    room: Ghost<nat>,
    reaches: Ghost<nat>,
}

impl StopSender {
    /// What became of each attempt to send a stop message, in order.
    pub closed spec fn attempts(&self) -> Seq<Delivery> {
        self.attempts@
    }

    /// How many stop messages the channel has room for.
    pub closed spec fn room(&self) -> nat {
        self.room@
    }

    /// The channel, as a number that tells channels apart.
    pub closed spec fn reaches(&self) -> nat {
        self.reaches@
    }

    /// Calls `async_std::sync::Sender::try_send` with a stop message: one attempt, after which the
    /// message is in the channel exactly if it was sent. It fails only where the channel is full;
    /// as nobody else sends, that cannot be before as many messages were sent as there is room
    /// for. How much room there is later is not claimed: it depends on the tasks that take
    /// messages out.
    #[verifier::external_body]
    pub(crate) fn try_send(&mut self) -> (delivery: Delivery)
        ensures
            final(self).attempts() == old(self).attempts().push(delivery),
            final(self).room() == old(self).room(),
            final(self).reaches() == old(self).reaches(),
            crate::model::sent_count(old(self).attempts()) < old(self).room() ==> delivery is Sent,
    {
        match self.sender.try_send(()) {
            Ok(()) => Delivery::Sent,
            Err(async_std::sync::TrySendError::Full(())) => Delivery::Full,
            Err(async_std::sync::TrySendError::Disconnected(())) => Delivery::Disconnected,
        }
    }
}

/// Calls `async_std::sync::channel`, which makes a channel with room for `cap` messages and hands
/// out its two ends: what goes in at the one comes out at the other. Nothing has been sent yet. It
/// panics where `cap` is zero. What waits between the ends later is not claimed: the receiving end
/// is shared, so it changes at any time.
#[verifier::external_body]
pub(crate) fn stop_channel(cap: usize) -> (ends: (StopSender, async_std::sync::Receiver<()>))
    requires
        cap > 0,
    ensures
        ends.0.attempts() == Seq::<Delivery>::empty(),
        ends.0.room() == cap,
        ends.0.reaches() == stops_come_from(ends.1),
{
    let (sender, receiver) = async_std::sync::channel(cap);
    let attempts = Ghost(Seq::empty());
    let room = Ghost(cap as nat);
    let reaches = Ghost(stops_come_from(receiver));
    (StopSender { sender, attempts, room, reaches }, receiver)
}

/// The receiving end of a channel for the outputs of workers.
#[verifier::reject_recursive_types(T)]
pub struct Outputs<T> {
    receiver: async_std::sync::Receiver<T>,
    looks: Ghost<Seq<Received<T>>>,
    room: Ghost<nat>,
    fed_by: Ghost<async_std::sync::Sender<T>>,
}

impl<T> Outputs<T> {
    /// What each look through this end found, in order.
    pub closed spec fn looks(&self) -> Seq<Received<T>> {
        self.looks@
    }

    /// How many messages the channel has room for.
    pub closed spec fn room(&self) -> nat {
        self.room@
    }

    /// The sending end of the channel: what goes in there comes out here.
    pub closed spec fn fed_by(&self) -> async_std::sync::Sender<T> {
        self.fed_by@
    }

    /// Calls `async_std::sync::Receiver::try_recv`: one look, which takes out the message that it
    /// finds. Which one that is, and whether there is one, is not claimed: it depends on the tasks
    /// that send.
    #[verifier::external_body]
    pub(crate) fn look(&mut self) -> (received: Received<T>)
        ensures
            final(self).looks() == old(self).looks().push(received),
            final(self).room() == old(self).room(),
            final(self).fed_by() == old(self).fed_by(),
    {
        match self.receiver.try_recv() {
            Ok(message) => Received::Message(message),
            Err(async_std::sync::TryRecvError::Empty) => Received::Empty,
            Err(async_std::sync::TryRecvError::Disconnected) => Received::Disconnected,
        }
    }
}

/// Calls `async_std::sync::channel`, which makes a channel with room for `cap` messages and hands
/// out its two ends: what goes in at the one comes out at the other. Nobody has looked for a
/// message yet. It panics where `cap` is zero. What waits between the ends later is not claimed:
/// the sending end is shared, so it changes at any time.
#[verifier::external_body]
pub(crate) fn output_channel<T>(cap: usize) -> (ends: (async_std::sync::Sender<T>, Outputs<T>))
    requires
        cap > 0,
    ensures
        ends.1.looks() == Seq::<Received<T>>::empty(),
        ends.1.room() == cap,
        ends.1.fed_by() == ends.0,
{
    let (sender, receiver) = async_std::sync::channel(cap);
    let looks = Ghost(Seq::empty());
    let room = Ghost(cap as nat);
    let fed_by = Ghost(sender);
    (sender, Outputs { receiver, looks, room, fed_by })
}

/// Calls `Clone::clone` of `async_std::sync::Sender`, which hands out a second sending end of the
/// same channel, held by the same pointer.
#[verifier::external_body]
pub(crate) fn share_sender<T>(sender: &async_std::sync::Sender<T>) -> (shared:
    async_std::sync::Sender<T>)
    ensures
        shared == *sender,
{
    sender.clone()
}

/// Calls `Clone::clone` of `async_std::sync::Receiver`, which hands out a second receiving end of
/// the same channel.
#[verifier::external_body]
pub(crate) fn share_stop_receiver(receiver: &async_std::sync::Receiver<()>) -> (shared:
    async_std::sync::Receiver<()>)
    ensures
        stops_come_from(shared) == stops_come_from(*receiver),
{
    receiver.clone()
}

/// Calls `async_std::sync::Receiver::try_recv` for stop messages: one look, which takes out the
/// message that it finds. Whether there is one is not claimed: it depends on who else looks.
#[verifier::external_body]
pub(crate) fn look_for_stop(receiver: &async_std::sync::Receiver<()>) -> (received: Received<()>)
    ensures
        stop_found(*receiver, received),
{
    match receiver.try_recv() {
        Ok(message) => Received::Message(message),
        Err(async_std::sync::TryRecvError::Empty) => Received::Empty,
        Err(async_std::sync::TryRecvError::Disconnected) => Received::Disconnected,
    }
}

} // verus!
