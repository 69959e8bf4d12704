//! What a pool tells its caller after each turn.
use crate::messages::Received;
use vstd::prelude::*;

verus! {

/// What a turn of the pool came to.
#[derive(Debug, PartialEq, Eq)]
pub enum WorkerPoolStatus<Out> {
    /// One output of some worker.
    Ready(Out),
    /// No output for now.
    Working,
    /// No output, and nobody is left who could produce one.
    Done,
}

impl<Out> WorkerPoolStatus<Out> {
    /// The status for what a look at the workers' outputs found.
    pub open spec fn spec_from_received(received: Received<Out>) -> Self {
        match received {
            Received::Message(out) => WorkerPoolStatus::Ready(out),
            Received::Empty => WorkerPoolStatus::Working,
            Received::Disconnected => WorkerPoolStatus::Done,
        }
    }

    /// What a look at the workers' outputs has found that comes to this status.
    pub open spec fn found(self) -> Received<Out> {
        match self {
            WorkerPoolStatus::Ready(out) => Received::Message(out),
            WorkerPoolStatus::Working => Received::Empty,
            WorkerPoolStatus::Done => Received::Disconnected,
        }
    }

    /// The status for what a look at the workers' outputs found.
    pub fn from_received(received: Received<Out>) -> (status: Self)
        ensures
            status == Self::spec_from_received(received),
            status.found() == received,
            received matches Received::Message(out) ==> status == WorkerPoolStatus::Ready(out),
            received is Empty ==> status is Working,
            received is Disconnected ==> status is Done,
    {
        match received {
            Received::Message(out) => WorkerPoolStatus::Ready(out),
            Received::Empty => WorkerPoolStatus::Working,
            Received::Disconnected => WorkerPoolStatus::Done,
        }
    }

    /// What a stream of the pool's outputs yields in this status: `None` while the next output is
    /// still to come, `Some(None)` at the end of the stream.
    pub open spec fn spec_next_item(self) -> Option<Option<Out>> {
        match self {
            WorkerPoolStatus::Ready(out) => Some(Some(out)),
            WorkerPoolStatus::Working => None,
            WorkerPoolStatus::Done => Some(None),
        }
    }

    /// What a stream of the pool's outputs yields in this status: `None` while the next output is
    /// still to come, `Some(None)` at the end of the stream.
    pub fn next_item(self) -> (item: Option<Option<Out>>)
        ensures
            item == self.spec_next_item(),
            self matches WorkerPoolStatus::Ready(out) ==> item == Some(Some(out)),
            self is Working ==> item is None,
            self is Done ==> item == Some(None::<Out>),
    {
        match self {
            WorkerPoolStatus::Ready(out) => Some(Some(out)),
            WorkerPoolStatus::Working => None,
            WorkerPoolStatus::Done => Some(None),
        }
    }
}

} // verus!
