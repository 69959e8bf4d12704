//! # autopool
//!
//! A worker pool that is driven by a controller. Most worker pools require you to set a number of
//! workers. However, the right number of workers can change based on environment conditions.
//! `autopool` adds or removes workers to achieve a target throughput.
//!
//! This library holds what the pool decides and counts, with proofs:
//! - [`pool`]: the worker pool, turn by turn
//! - [`autopool`]: the pool whose target a controller sets
//! - [`job`]: what a worker gets, and how it reports its end
//! - [`tracker`]: how much work is done, overall and per tick
//! - [`status`] and [`messages`]: the plain values that go in and out
//! - [`channels`]: the channels, and what is taken for granted of them
//! - [`model`]: the state of a pool as mathematics
//! - [`laws`]: what holds of a pool as a whole
//! - [`steps`]: what each step does, in plain counts and sequences
pub mod autopool;
pub mod channels;
pub mod job;
pub mod laws;
pub mod messages;
pub mod model;
pub mod pool;
pub mod status;
pub mod steps;
pub mod tracker;

pub use crate::autopool::{retarget_command, AutoPool};
pub use job::{is_stop, Job, ReportError, Reported, Reporter};
pub use messages::{Delivery, JobStatus, Received, WorkerEvent, WorkerPoolCommand};
pub use pool::{unsent_after, Turn, WorkerPool, WorkerStart, ROOM};
pub use status::WorkerPoolStatus;
pub use tracker::{tick_over, Tick, TickWorkTracker};
