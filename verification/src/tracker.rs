//! How much work is done, overall and in the current tick.
use std::time::{Duration, Instant};
use vstd::prelude::*;

verus! {

/// A point in time, as the machine's clock tells it.
#[verifier::external_type_specification]
#[verifier::external_body]
pub struct ExInstant(Instant);

/// How many nanoseconds a span of time lasts.
pub uninterp spec fn nanos(span: Duration) -> u128;

/// Where a point in time stands on the line of time, in nanoseconds.
pub uninterp spec fn moment(point: Instant) -> int;

/// At some time the machine's clock tells this.
pub uninterp spec fn told_by_clock(point: Instant) -> bool;

/// How many nanoseconds pass from `earlier` to `later`; none, if `earlier` is the later one.
pub open spec fn nanos_between(later: Instant, earlier: Instant) -> int {
    if moment(earlier) <= moment(later) {
        moment(later) - moment(earlier)
    } else {
        0
    }
}

/// `Instant::now` reads the machine's clock. When it is asked, and so what it tells, is not
/// claimed.
pub assume_specification[ Instant::now ]() -> (now: Instant)
    ensures
        told_by_clock(now),
;

/// `Instant::duration_since` gives the time that passes from another point in time to this one, or
/// no time if the other one is later.
pub assume_specification[ Instant::duration_since ](later: &Instant, earlier: Instant) -> (span:
    Duration)
    ensures
        nanos(span) == (if moment(earlier) <= moment(*later) {
            moment(*later) - moment(earlier)
        } else {
            0
        }),
;

/// `Duration::as_nanos` gives the whole length of a span of time in nanoseconds, with nothing
/// rounded off.
pub assume_specification[ Duration::as_nanos ](span: &Duration) -> (length: u128)
    ensures
        length == nanos(*span),
;

/// Counts work, overall and per tick.
#[derive(Debug, Copy, Clone)]
pub struct TickWorkTracker {
    /// When the tracker was made.
    pub start: Instant,
    /// When the current tick began.
    pub last: Instant,
    /// How long a tick lasts.
    pub rate: Duration,
    /// How much work has been done since the start.
    pub all_work: usize,
    /// How much work has been done in the current tick.
    pub tick_work: usize,
}

/// A tick: when it began, and how much work has been done in it.
pub struct Tick {
    pub start: Instant,
    pub work: usize,
}

/// Whether a tick is over that has lasted for `elapsed` nanoseconds and should last for `rate`:
/// whether the time that remains in it is negative.
pub fn tick_over(elapsed: u128, rate: u128) -> (over: bool)
    ensures
        over == (rate - elapsed < 0),
{
    rate < elapsed
}

impl TickWorkTracker {
    /// The work of the current tick is part of all the work.
    pub open spec fn wf(&self) -> bool {
        self.tick_work <= self.all_work
    }

    /// The tracker with `n` more pieces of work counted.
    pub open spec fn with_work(self, n: nat) -> Self {
        TickWorkTracker {
            all_work: (self.all_work + n) as usize,
            tick_work: (self.tick_work + n) as usize,
            ..self
        }
    }

    /// A tracker whose first tick begins now, with no work done yet.
    pub fn new(rate: Duration) -> (tracker: Self)
        ensures
            tracker.wf(),
            tracker.rate == rate,
            told_by_clock(tracker.start),
            told_by_clock(tracker.last),
            tracker.all_work == 0,
            tracker.tick_work == 0,
    {
        TickWorkTracker {
            rate,
            start: Instant::now(),
            last: Instant::now(),
            all_work: 0,
            tick_work: 0,
        }
    }

    /// Whether, at `now`, the current tick has lasted for longer than a tick should.
    pub open spec fn over_at(&self, now: Instant) -> bool {
        nanos(self.rate) < nanos_between(now, self.last)
    }

    /// The tracker with a new tick that begins at `now`, with no work done in it.
    pub open spec fn begun_at(self, now: Instant) -> Self {
        TickWorkTracker { last: now, tick_work: 0, ..self }
    }

    /// Whether, at `now`, the current tick has lasted for longer than a tick should.
    pub fn tick_done_at(&self, now: Instant) -> (done: bool)
        ensures
            done == self.over_at(now),
            done <==> moment(now) - moment(self.last) > nanos(self.rate),
    {
        tick_over(now.duration_since(self.last).as_nanos(), self.rate.as_nanos())
    }

    /// Whether the current tick has lasted for longer than a tick should.
    ///
    /// What time it is depends on the clock; [`tick_done_at`](TickWorkTracker::tick_done_at) says
    /// what the answer is at each time.
    pub fn tick_done(&self) -> (done: bool)
        ensures
            exists|now: Instant| told_by_clock(now) && done == #[trigger] self.over_at(now),
            exists|now: Instant| #[trigger]
                told_by_clock(now) && (done <==> moment(now) - moment(self.last) > nanos(
                    self.rate,
                )),
    {
        self.tick_done_at(Instant::now())
    }

    /// Counts one more piece of work.
    pub fn track_work(&mut self)
        requires
            old(self).all_work < usize::MAX,
            old(self).tick_work < usize::MAX,
        ensures
            *final(self) == old(self).with_work(1),
            final(self).all_work == old(self).all_work + 1,
            final(self).tick_work == old(self).tick_work + 1,
            final(self).start == old(self).start,
            final(self).last == old(self).last,
            final(self).rate == old(self).rate,
            old(self).wf() ==> final(self).wf(),
    {
        self.all_work = self.all_work + 1;
        self.tick_work = self.tick_work + 1;
    }

    /// Begins a new tick at `now`, with no work done in it.
    pub fn begin_tick(&mut self, now: Instant)
        ensures
            *final(self) == old(self).begun_at(now),
            final(self).last == now,
            final(self).tick_work == 0,
            final(self).all_work == old(self).all_work,
            final(self).start == old(self).start,
            final(self).rate == old(self).rate,
            final(self).wf(),
    {
        self.last = now;
        self.tick_work = 0;
    }

    /// Begins a new tick, now, with no work done in it.
    ///
    /// What time it is depends on the clock; [`begin_tick`](TickWorkTracker::begin_tick) says what
    /// is done at each time.
    pub fn reset_tick(&mut self)
        ensures
            exists|now: Instant|
                told_by_clock(now) && *final(self) == #[trigger] old(self).begun_at(now),
            told_by_clock(final(self).last),
            final(self).tick_work == 0,
            final(self).all_work == old(self).all_work,
            final(self).start == old(self).start,
            final(self).rate == old(self).rate,
            final(self).wf(),
    {
        let now = Instant::now();
        self.begin_tick(now);
        assert(*self == old(self).begun_at(now));
    }
}

impl Default for Tick {
    /// A tick that begins now, with no work done in it.
    fn default() -> (tick: Self)
        ensures
            told_by_clock(tick.start),
            tick.work == 0,
    {
        Tick { start: Instant::now(), work: 0 }
    }
}

} // verus!
