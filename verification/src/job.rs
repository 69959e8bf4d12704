//! A job, as a worker gets it.
use crate::channels::{look_for_stop, send_event};
use crate::messages::{JobStatus, Received, WorkerEvent};
use vstd::prelude::*;

verus! {

/// A task, and the channels through which its worker hears of a stop and hands in its outputs.
#[verifier::reject_recursive_types(Out)]
pub struct Job<In, Out> {
    /// What there is to do.
    pub task: In,
    /// Where the worker hears that it should stop.
    pub close: async_std::sync::Receiver<()>,
    /// Where the worker hands in its outputs.
    pub results: async_std::sync::Sender<Out>,
}

/// Whether a look at the stop messages found one.
pub open spec fn spec_is_stop(received: Received<()>) -> bool {
    received is Message
}

/// Whether a look at the stop messages found one.
pub fn is_stop(received: Received<()>) -> (stop: bool)
    ensures
        stop == spec_is_stop(received),
        stop <==> received is Message,
{
    match received {
        Received::Message(_) => true,
        _ => false,
    }
}

impl<In, Out> Job<In, Out> {
    /// A job for a worker with the given channels.
    pub fn new(
        task: In,
        close: async_std::sync::Receiver<()>,
        results: async_std::sync::Sender<Out>,
    ) -> (job: Self)
        ensures
            job.task == task,
            job.close == close,
            job.results == results,
    {
        Job { task, close, results }
    }

    /// Whether this worker has just been told to stop. The stop message is used up: it is not
    /// found again, neither by this worker nor by another.
    ///
    /// Which of the workers finds a stop message depends on who looks first, so the answer is not
    /// stated; [`is_stop`] says what it is for each thing that can be found.
    pub fn stop_requested(&self) -> (stop: bool)
        ensures
            exists|received: Received<()>|
                crate::channels::stop_found(self.close, received) && stop == #[trigger] spec_is_stop(
                    received,
                ),
    {
        let received = look_for_stop(&self.close);
        let stop = is_stop(received);
        assert(stop == spec_is_stop(received));
        stop
    }
}

/// Why the end of a worker could not be reported.
#[derive(Debug, Copy, Clone, PartialEq, Eq, Structural)]
pub enum ReportError {
    /// The job is still working, so its worker has not ended.
    StillWorking,
    /// The pool is gone, and this event had nobody to go to.
    PoolGone(WorkerEvent),
}

/// The means by which one worker reports its end, once, to the pool that started it.
pub struct Reporter {
    events: crossbeam_channel::Sender<WorkerEvent>,
}

/// A [`Reporter`] that has made its report and cannot make another.
pub struct Reported {
    events: crossbeam_channel::Sender<WorkerEvent>,
}

impl Reported {
    /// Where the report went.
    pub closed spec fn events(&self) -> crossbeam_channel::Sender<WorkerEvent> {
        self.events
    }
}

impl Reporter {
    /// Where the report goes.
    pub closed spec fn events(&self) -> crossbeam_channel::Sender<WorkerEvent> {
        self.events
    }

    pub(crate) fn new(events: crossbeam_channel::Sender<WorkerEvent>) -> (reporter: Self)
        ensures
            reporter.events() == events,
    {
        Reporter { events }
    }

    /// Reports the state in which the worker's job ended. If a worker ends on its own, the pool
    /// learns of it this way and can start a replacement.
    ///
    /// Whether the pool is still there to take the event depends on its owner, and is not stated.
    pub fn report(self, status: JobStatus) -> (reported: Result<Reported, ReportError>)
        ensures
            match reported {
                Ok(done) => {
                    &&& status.spec_event() is Some
                    &&& crate::channels::events_go_to(done.events())
                        == crate::channels::events_go_to(self.events())
                    &&& crate::channels::events_put(done.events()) == crate::channels::events_put(
                        self.events(),
                    ).push(status.spec_event()->0)
                },
                Err(ReportError::StillWorking) => status.spec_event() is None,
                Err(ReportError::PoolGone(event)) => {
                    &&& status.spec_event() == Some(event)
                    &&& crate::channels::nobody_receives(self.events())
                },
            },
    {
        match status.event() {
            None => Err(ReportError::StillWorking),
            Some(event) => {
                let mut events = self.events;
                match send_event(&mut events, event) {
                    Ok(()) => Ok(Reported { events }),
                    Err(back) => Err(ReportError::PoolGone(back)),
                }
            },
        }
    }
}

} // verus!
