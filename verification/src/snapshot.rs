//! What is written down of a stopwatch, and how a stopwatch is made again
//! from it after the process that wrote it has gone.
//!
//! A monotonic reading means nothing to another process, so a running
//! stopwatch is written down with the wall clock's reading beside it. On the
//! way back the wall-clock time that has gone by since is added to what the
//! stopwatch had gathered, and the run goes on from a fresh monotonic
//! reading.

use crate::clock::duration_nanos;
use crate::clock::saturate;
use crate::clock::wallclock_millis;
use crate::clock::MAX_SPAN_NANOS;
use crate::clock::NANOS_PER_MILLI;
use crate::clock::NANOS_PER_SEC;
use crate::stopwatch::Stopwatch;
use crate::stopwatch::Timer;
use std::time::Duration;
use std::time::Instant;
use vstd::prelude::*;

verus! {

/// What a snapshot is, mathematically.
pub struct Record {
    /// The reading when the snapshot was taken, in nanoseconds.
    pub duration: nat,
    /// The wall clock's reading at that moment, in milliseconds since the
    /// Unix epoch; `None` where the stopwatch stood.
    pub started_millis: Option<int>,
}

impl Record {
    /// The stopwatch was running when the snapshot was taken.
    pub open spec fn was_running(self) -> bool {
        self.started_millis is Some
    }

    /// The wall-clock time, in nanoseconds, between the snapshot and
    /// `wall_millis`. A wall clock that was set back since gives zero, not a
    /// negative time.
    pub open spec fn gap_at(self, wall_millis: int) -> nat {
        match self.started_millis {
            Some(started) => if wall_millis > started {
                ((wall_millis - started) * NANOS_PER_MILLI) as nat
            } else {
                0
            },
            None => 0,
        }
    }

    /// The stopwatch made from this snapshot when the wall clock reads
    /// `wall_millis` and the monotonic clock `now`.
    pub open spec fn restore_at(self, wall_millis: int, now: Instant) -> Timer {
        Timer {
            accumulated: saturate(self.duration + self.gap_at(wall_millis)),
            running_since: if self.was_running() {
                Some(now)
            } else {
                None
            },
        }
    }

    /// The snapshot of `timer` when the monotonic clock reads `now` and the
    /// wall clock `wall_millis`.
    pub open spec fn of(timer: Timer, now: Instant, wall_millis: int) -> Record {
        Record {
            duration: timer.elapsed_at(now),
            started_millis: if timer.is_running() {
                Some(wall_millis)
            } else {
                None
            },
        }
    }
}

/// A snapshot that is read back at the wall-clock reading at which it was
/// taken gives the stopwatch as it was: its reading at `later`, the moment
/// from which it runs on, is the reading that was written down at `now`,
/// and it runs exactly if it ran then.
pub proof fn lemma_snapshot_round_trip(
    timer: Timer,
    now: Instant,
    wall_millis: int,
    later: Instant,
)
    ensures
        Record::of(timer, now, wall_millis).restore_at(wall_millis, later).elapsed_at(later)
            == timer.elapsed_at(now),
        Record::of(timer, now, wall_millis).restore_at(wall_millis, later).is_running()
            == timer.is_running(),
{
}

/// Reading a snapshot back never loses time that it holds, whatever the
/// wall clock reads by then, also where it was set back in between.
pub proof fn lemma_restore_keeps_duration(record: Record, wall_millis: int, now: Instant)
    requires
        record.duration <= MAX_SPAN_NANOS,
    ensures
        record.restore_at(wall_millis, now).accumulated >= record.duration,
        !record.was_running() ==> record.restore_at(wall_millis, now).accumulated
            == record.duration,
{
}

/// A snapshot of a stopwatch, in the three numbers that are written down.
#[derive(Clone, Copy, Debug)]
pub struct StopwatchSnapshot {
    duration_secs: u64,
    duration_nanos: u32,
    cur_start_millis_utc: Option<i64>,
}

impl View for StopwatchSnapshot {
    type V = Record;

    closed spec fn view(&self) -> Record {
        Record {
            duration: (self.duration_secs * NANOS_PER_SEC + self.duration_nanos) as nat,
            started_millis: match self.cur_start_millis_utc {
                Some(millis) => Some(millis as int),
                None => None,
            },
        }
    }
}

impl StopwatchSnapshot {
    #[verifier::type_invariant]
    spec fn nanos_below_one_second(self) -> bool {
        self.duration_nanos < NANOS_PER_SEC
    }

    /// A snapshot from the numbers as they were read back. They make one
    /// exactly where `duration_nanos` is less than a full second.
    pub fn new(duration_secs: u64, duration_nanos: u32, cur_start_millis_utc: Option<i64>) -> (snapshot:
        Option<Self>)
        ensures
            snapshot is Some <==> duration_nanos < NANOS_PER_SEC,
            snapshot matches Some(s) ==> s@ == (Record {
                duration: (duration_secs * NANOS_PER_SEC + duration_nanos) as nat,
                started_millis: match cur_start_millis_utc {
                    Some(millis) => Some(millis as int),
                    None => None,
                },
            }),
    {
        if duration_nanos < 1_000_000_000 {
            Some(StopwatchSnapshot { duration_secs, duration_nanos, cur_start_millis_utc })
        } else {
            None
        }
    }

    /// A snapshot of the reading `elapsed`, taken at the wall-clock reading
    /// `cur_start_millis_utc` where the stopwatch was running.
    pub fn of(elapsed: Duration, cur_start_millis_utc: Option<i64>) -> (snapshot: Self)
        ensures
            snapshot@ == (Record {
                duration: duration_nanos(elapsed),
                started_millis: match cur_start_millis_utc {
                    Some(millis) => Some(millis as int),
                    None => None,
                },
            }),
    {
        let total = elapsed.as_nanos();
        StopwatchSnapshot {
            duration_secs: (total / 1_000_000_000) as u64,
            duration_nanos: (total % 1_000_000_000) as u32,
            cur_start_millis_utc,
        }
    }

    /// The whole seconds of the reading.
    pub fn duration_secs(&self) -> (secs: u64)
        ensures
            secs == self@.duration / (NANOS_PER_SEC as nat),
    {
        proof {
            use_type_invariant(self);
        }
        self.duration_secs
    }

    /// What the reading has beyond its whole seconds, in nanoseconds.
    pub fn duration_nanos(&self) -> (nanos: u32)
        ensures
            nanos == self@.duration % (NANOS_PER_SEC as nat),
            nanos < NANOS_PER_SEC,
    {
        proof {
            use_type_invariant(self);
        }
        self.duration_nanos
    }

    /// The wall clock's reading when the snapshot was taken, where the
    /// stopwatch was running.
    pub fn cur_start_millis_utc(&self) -> (millis: Option<i64>)
        ensures
            millis is Some <==> self@.was_running(),
            millis matches Some(m) ==> self@.started_millis == Some(m as int),
    {
        self.cur_start_millis_utc
    }
}

impl Stopwatch {
    /// The snapshot to write down now: the reading by the monotonic clock,
    /// and beside it the wall clock's reading where the stopwatch is
    /// running.
    pub fn to_snapshot(&self) -> (snapshot: StopwatchSnapshot)
        ensures
            exists|now: Instant, wall_millis: i64|
                snapshot@ == #[trigger] Record::of(self@, now, wall_millis as int),
            snapshot@.was_running() == self@.is_running(),
            !self@.is_running() ==> snapshot@.duration == self@.accumulated,
            self@.accumulated <= snapshot@.duration <= MAX_SPAN_NANOS,
    {
        let elapsed = self.elapsed();
        let ghost now = choose|now: Instant| duration_nanos(elapsed) == self@.elapsed_at(now);
        if self.is_running() {
            let wall_millis = wallclock_millis();
            let snapshot = StopwatchSnapshot::of(elapsed, Some(wall_millis));
            assert(snapshot@ == Record::of(self@, now, wall_millis as int));
            snapshot
        } else {
            let snapshot = StopwatchSnapshot::of(elapsed, None);
            assert(snapshot@ == Record::of(self@, now, 0i64 as int));
            snapshot
        }
    }

    /// The snapshot taken when the monotonic clock reads `now` and the wall
    /// clock `wall_millis`.
    pub fn snapshot_at(&self, now: Instant, wall_millis: i64) -> (snapshot: StopwatchSnapshot)
        ensures
            snapshot@ == Record::of(self@, now, wall_millis as int),
            !self@.is_running() ==> snapshot@.duration == self@.accumulated,
            self@.accumulated <= snapshot@.duration <= MAX_SPAN_NANOS,
    {
        let elapsed = self.elapsed_at(now);
        if self.is_running() {
            StopwatchSnapshot::of(elapsed, Some(wall_millis))
        } else {
            StopwatchSnapshot::of(elapsed, None)
        }
    }

    /// The stopwatch that `snapshot` stands for now, by both clocks.
    pub fn from_snapshot(snapshot: &StopwatchSnapshot) -> (stopwatch: Self)
        ensures
            exists|wall_millis: i64, now: Instant|
                stopwatch@ == #[trigger] snapshot@.restore_at(wall_millis as int, now),
            stopwatch@.is_running() == snapshot@.was_running(),
            stopwatch@.accumulated >= snapshot@.duration,
            stopwatch@.wf(),
    {
        let wall_millis = wallclock_millis();
        let now = Instant::now();
        Self::restore_at(snapshot, wall_millis, now)
    }

    /// The stopwatch that `snapshot` stands for when the wall clock reads
    /// `wall_millis` and the monotonic clock `now`: to its reading comes the
    /// wall-clock time gone by since it was taken, if it was running, and
    /// then it runs on from `now`.
    pub fn restore_at(snapshot: &StopwatchSnapshot, wall_millis: i64, now: Instant) -> (stopwatch:
        Self)
        ensures
            stopwatch@ == snapshot@.restore_at(wall_millis as int, now),
            stopwatch@.accumulated >= snapshot@.duration,
            stopwatch@.wf(),
    {
        let nanos = snapshot.duration_nanos();
        let written: u128 = (snapshot.duration_secs() as u128) * 1_000_000_000 + (nanos as u128);
        match snapshot.cur_start_millis_utc() {
            Some(started) => {
                let gap: u128 = if wall_millis > started {
                    ((wall_millis as i128 - started as i128) as u128) * 1_000_000
                } else {
                    0
                };
                let total = written + gap;
                let accumulated = if total <= MAX_SPAN_NANOS {
                    total
                } else {
                    MAX_SPAN_NANOS
                };
                Stopwatch::from_parts(accumulated, Some(now))
            },
            None => Stopwatch::from_parts(written, None),
        }
    }
}

} // verus!
