//! The stopwatch: time gathered over finished runs, and the start of the
//! run in progress, if there is one.

use crate::clock::duration_nanos;
use crate::clock::instant_nanos;
use crate::clock::saturate;
use crate::clock::span_between;
use crate::clock::span_of;
use crate::clock::MAX_SPAN_NANOS;
use std::time::Duration;
use std::time::Instant;
use vstd::prelude::*;

verus! {

/// What a stopwatch is, mathematically.
pub struct Timer {
    /// Nanoseconds gathered over the runs that have ended.
    pub accumulated: nat,
    /// When the run in progress began; `None` while the stopwatch stands.
    pub running_since: Option<Instant>,
}

impl Timer {
    /// The stopwatch as it is created: nothing gathered, not running.
    pub open spec fn zero() -> Timer {
        Timer { accumulated: 0, running_since: None }
    }

    /// No more is gathered than a `Duration` can hold.
    pub open spec fn wf(self) -> bool {
        self.accumulated <= MAX_SPAN_NANOS
    }

    /// A run is in progress.
    pub open spec fn is_running(self) -> bool {
        self.running_since is Some
    }

    /// The length at `now` of the run in progress; zero while the stopwatch
    /// stands.
    pub open spec fn run_at(self, now: Instant) -> nat {
        match self.running_since {
            Some(since) => span_between(since, now),
            None => 0,
        }
    }

    /// The reading at `now`: what was gathered, and the run in progress.
    pub open spec fn elapsed_at(self, now: Instant) -> nat {
        saturate(self.accumulated + self.run_at(now))
    }

    /// Starting at `now`. A run already in progress is dropped, its time not
    /// gathered: the new run begins at `now`.
    pub open spec fn start_at(self, now: Instant) -> Timer {
        Timer { accumulated: self.accumulated, running_since: Some(now) }
    }

    /// Stopping at `now`: the run in progress is gathered; a stopwatch that
    /// stands is left alone.
    pub open spec fn stop_at(self, now: Instant) -> Timer {
        if self.is_running() {
            Timer { accumulated: self.elapsed_at(now), running_since: None }
        } else {
            self
        }
    }
}

/// A start or a stop, with the reading of the monotonic clock at which it
/// happens.
pub enum Event {
    Start(Instant),
    Stop(Instant),
}

impl Event {
    /// The reading of the clock at which the event happens.
    pub open spec fn at(self) -> Instant {
        match self {
            Event::Start(now) => now,
            Event::Stop(now) => now,
        }
    }
}

impl Timer {
    /// The stopwatch after `event`.
    pub open spec fn after(self, event: Event) -> Timer {
        match event {
            Event::Start(now) => self.start_at(now),
            Event::Stop(now) => self.stop_at(now),
        }
    }

    /// The stopwatch after `events`, the first of them first.
    pub open spec fn after_all(self, events: Seq<Event>) -> Timer
        decreases events.len(),
    {
        if events.len() == 0 {
            self
        } else {
            self.after(events[0]).after_all(events.drop_first())
        }
    }

    /// No start among `events` comes while the stopwatch is running.
    pub open spec fn starts_at_rest(self, events: Seq<Event>) -> bool
        decreases events.len(),
    {
        if events.len() == 0 {
            true
        } else {
            &&& events[0] is Start ==> !self.is_running()
            &&& self.after(events[0]).starts_at_rest(events.drop_first())
        }
    }
}

/// `events` happen in the order of the clock, none before `from` and none
/// after `to`, and `from` is not after `to`.
pub open spec fn in_clock_order(events: Seq<Event>, from: Instant, to: Instant) -> bool
    decreases events.len(),
{
    if events.len() == 0 {
        instant_nanos(from) <= instant_nanos(to)
    } else {
        &&& instant_nanos(from) <= instant_nanos(events[0].at())
        &&& in_clock_order(events.drop_first(), events[0].at(), to)
    }
}

/// The reading never goes down while the clock goes on.
pub proof fn lemma_reading_grows_with_time(timer: Timer, earlier: Instant, later: Instant)
    requires
        instant_nanos(earlier) <= instant_nanos(later),
    ensures
        timer.elapsed_at(earlier) <= timer.elapsed_at(later),
{
}

/// Through starts and stops the reading never goes down: taken at `to`,
/// after `events`, it is no less than it was at `from`, before them. This
/// holds where every start finds the stopwatch at rest; a start during a
/// run drops that run, and the reading with it.
pub proof fn lemma_reading_never_decreases(
    timer: Timer,
    events: Seq<Event>,
    from: Instant,
    to: Instant,
)
    requires
        in_clock_order(events, from, to),
        timer.starts_at_rest(events),
    ensures
        timer.elapsed_at(from) <= timer.after_all(events).elapsed_at(to),
    decreases events.len(),
{
    if events.len() == 0 {
        lemma_reading_grows_with_time(timer, from, to);
    } else {
        let first = events[0];
        lemma_reading_grows_with_time(timer, from, first.at());
        lemma_reading_never_decreases(timer.after(first), events.drop_first(), first.at(), to);
    }
}

/// A stopwatch. It gathers the time of its runs, up to the longest span a
/// `Duration` holds, where it stays.
#[derive(Clone, Copy, Debug)]
pub struct Stopwatch {
    accumulated: u128,
    cur_start: Option<Instant>,
}

impl View for Stopwatch {
    type V = Timer;

    closed spec fn view(&self) -> Timer {
        Timer { accumulated: self.accumulated as nat, running_since: self.cur_start }
    }
}

impl Default for Stopwatch {
    fn default() -> (s: Self)
        ensures
            s@ == Timer::zero(),
    {
        Stopwatch::new()
    }
}

impl Stopwatch {
    #[verifier::type_invariant]
    spec fn bounded(self) -> bool {
        self.accumulated <= MAX_SPAN_NANOS
    }

    /// A stopwatch at zero that is not running.
    pub fn new() -> (s: Self)
        ensures
            s@ == Timer::zero(),
    {
        Stopwatch { accumulated: 0, cur_start: None }
    }

    /// A stopwatch that has gathered `accumulated` nanoseconds and runs
    /// since `cur_start`, if that is given.
    pub(crate) fn from_parts(accumulated: u128, cur_start: Option<Instant>) -> (s: Self)
        requires
            accumulated <= MAX_SPAN_NANOS,
        ensures
            s@ == (Timer { accumulated: accumulated as nat, running_since: cur_start }),
    {
        Stopwatch { accumulated, cur_start }
    }

    /// Starts a run now, by the monotonic clock.
    pub fn start(&mut self)
        ensures
            exists|now: Instant| final(self)@ == #[trigger] old(self)@.start_at(now),
            final(self)@.wf(),
    {
        let now = Instant::now();
        self.start_at(now);
    }

    /// Starts a run that begins at `now`. A run in progress is dropped
    /// without being gathered.
    pub fn start_at(&mut self, now: Instant)
        ensures
            final(self)@ == old(self)@.start_at(now),
            final(self)@.wf(),
    {
        proof {
            use_type_invariant(&*self);
        }
        self.cur_start = Some(now);
    }

    /// Ends the run in progress now, by the monotonic clock. A stopwatch
    /// that stands is left alone.
    pub fn stop(&mut self)
        ensures
            exists|now: Instant| final(self)@ == #[trigger] old(self)@.stop_at(now),
            !old(self)@.is_running() ==> final(self)@ == old(self)@,
            !final(self)@.is_running(),
            final(self)@.wf(),
    {
        proof {
            use_type_invariant(&*self);
        }
        if self.cur_start.is_some() {
            let now = Instant::now();
            self.stop_at(now);
        } else {
            let ghost any: Instant = arbitrary();
            assert(self@ == old(self)@.stop_at(any));
        }
    }

    /// Ends the run in progress at `now` and gathers its time.
    pub fn stop_at(&mut self, now: Instant)
        ensures
            final(self)@ == old(self)@.stop_at(now),
            !old(self)@.is_running() ==> final(self)@ == old(self)@,
            final(self)@.wf(),
    {
        proof {
            use_type_invariant(&*self);
        }
        if self.cur_start.is_some() {
            self.accumulated = self.elapsed_nanos_at(now);
            self.cur_start = None;
        }
    }

    /// Back to zero, dropping a run in progress.
    pub fn reset(&mut self)
        ensures
            final(self)@ == Timer::zero(),
            !final(self)@.is_running(),
            forall|now: Instant| #[trigger] final(self)@.elapsed_at(now) == 0,
            final(self)@.wf(),
    {
        self.accumulated = 0;
        self.cur_start = None;
    }

    /// The reading now, by the monotonic clock: what was gathered, and the
    /// run in progress.
    pub fn elapsed(&self) -> (d: Duration)
        ensures
            exists|now: Instant| duration_nanos(d) == #[trigger] self@.elapsed_at(now),
            !self@.is_running() ==> duration_nanos(d) == self@.accumulated,
            self@.accumulated <= duration_nanos(d) <= MAX_SPAN_NANOS,
            self@.wf(),
    {
        proof {
            use_type_invariant(self);
        }
        if self.cur_start.is_some() {
            let now = Instant::now();
            let d = self.elapsed_at(now);
            d
        } else {
            let d = self.accumulated();
            let ghost any: Instant = arbitrary();
            assert(duration_nanos(d) == self@.elapsed_at(any));
            d
        }
    }

    /// What the runs that have ended have gathered.
    pub fn accumulated(&self) -> (d: Duration)
        ensures
            duration_nanos(d) == self@.accumulated,
            self@.wf(),
    {
        proof {
            use_type_invariant(self);
        }
        span_of(self.accumulated)
    }

    /// The reading at `now`: what was gathered, and the run in progress up
    /// to `now`. A stopwatch that stands reads what it has gathered.
    pub fn elapsed_at(&self, now: Instant) -> (d: Duration)
        ensures
            duration_nanos(d) == self@.elapsed_at(now),
            !self@.is_running() ==> duration_nanos(d) == self@.accumulated,
            self@.accumulated <= duration_nanos(d) <= MAX_SPAN_NANOS,
            self@.wf(),
    {
        proof {
            use_type_invariant(self);
        }
        span_of(self.elapsed_nanos_at(now))
    }

    /// The reading at `now`, in nanoseconds.
    fn elapsed_nanos_at(&self, now: Instant) -> (total: u128)
        ensures
            total == self@.elapsed_at(now),
            total <= MAX_SPAN_NANOS,
    {
        proof {
            use_type_invariant(self);
        }
        match self.cur_start {
            Some(start) => {
                let run = now.duration_since(start).as_nanos();
                let total = self.accumulated + run;
                if total <= MAX_SPAN_NANOS {
                    total
                } else {
                    MAX_SPAN_NANOS
                }
            },
            None => self.accumulated,
        }
    }

    /// Whether a run is in progress.
    pub fn is_running(&self) -> (running: bool)
        ensures
            running == self@.is_running(),
            self@.wf(),
    {
        proof {
            use_type_invariant(self);
        }
        self.cur_start.is_some()
    }
}

} // verus!
