//! The plain values that travel between a pool, its workers and its callers.
use vstd::prelude::*;

verus! {

/// What a worker reports when it ends.
#[derive(Debug, Copy, Clone, PartialEq, Eq, Structural)]
pub enum WorkerEvent {
    /// The worker ran out of work.
    WorkerDone,
    /// The worker ended because it was told to.
    WorkerStopped,
}

/// What a caller can ask of a running pool.
#[derive(Debug, Copy, Clone, PartialEq, Eq, Structural)]
pub enum WorkerPoolCommand {
    /// Tell as many workers to stop as the pool is meant to have.
    Stop,
    /// Aim for this many workers, but never for none.
    SetWorkerCount(usize),
}

/// The state in which a job leaves its worker.
#[derive(Debug, Copy, Clone, PartialEq, Eq, Structural)]
pub enum JobStatus {
    Done,
    Stopped,
    Working,
}

impl JobStatus {
    /// The event that a worker reports for a job that ended in this state. A job that is still
    /// working has not ended, so there is nothing to report.
    pub open spec fn spec_event(self) -> Option<WorkerEvent> {
        match self {
            JobStatus::Done => Some(WorkerEvent::WorkerDone),
            JobStatus::Stopped => Some(WorkerEvent::WorkerStopped),
            JobStatus::Working => None,
        }
    }

    /// The event that a worker reports for a job that ended in this state, if it did end.
    pub fn event(self) -> (event: Option<WorkerEvent>)
        ensures
            event == self.spec_event(),
            event == Some(WorkerEvent::WorkerDone) <==> self is Done,
            event == Some(WorkerEvent::WorkerStopped) <==> self is Stopped,
            event is None <==> self is Working,
    {
        match self {
            JobStatus::Done => Some(WorkerEvent::WorkerDone),
            JobStatus::Stopped => Some(WorkerEvent::WorkerStopped),
            JobStatus::Working => None,
        }
    }
}

/// What one look into a channel found.
#[derive(Debug, PartialEq, Eq)]
pub enum Received<T> {
    /// The oldest message, which has left the channel.
    Message(T),
    /// No message, but one may still come.
    Empty,
    /// No message, and no sender is left that could send one.
    Disconnected,
}

/// What became of one attempt to put a message into a bounded channel.
#[derive(Debug, Copy, Clone, PartialEq, Eq, Structural)]
pub enum Delivery {
    /// The message is in the channel.
    Sent,
    /// There was no room for the message.
    Full,
    /// There was no room for the message, and no receiver is left to make some.
    Disconnected,
}

} // verus!
