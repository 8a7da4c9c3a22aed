//! The playback clock: an accumulated-time abstraction in microseconds.
//!
//! A `Timer` folds wall time into an accumulator while it runs and reads
//! as the accumulator alone while it is stopped. Wall time enters through
//! the `now_us` parameter of each operation, a reading of the caller's
//! monotonic clock in microseconds; the timer itself never consults a
//! clock. Every operation is total: a `now_us` that lies before the
//! recorded start point contributes no elapsed time, and an accumulator
//! that would pass `u64::MAX` saturates there.

use vstd::prelude::*;

verus! {

/// Accumulated "played" duration plus an optional running start instant,
/// both in microseconds.
pub struct Timer {
    pub start_point: Option<u64>,
    pub played_us: Option<u64>,
}

impl Timer {
    /// True while the timer is accumulating wall time.
    pub open spec fn running(self) -> bool {
        self.start_point is Some
    }

    /// The monotonic instant at which the current run began.
    pub open spec fn start_us(self) -> u64 {
        self.start_point->0
    }

    /// Time already folded into the accumulator, in microseconds.
    pub open spec fn accumulated(self) -> u64 {
        match self.played_us {
            Some(us) => us,
            None => 0,
        }
    }

    /// What the clock reads at monotonic instant `now_us`: the accumulator,
    /// plus the time elapsed since the start point while running. Saturates
    /// at `u64::MAX` and ignores a `now_us` before the start point.
    pub open spec fn time_at(self, now_us: u64) -> u64 {
        if self.running() && now_us > self.start_us() {
            if self.accumulated() + (now_us - self.start_us()) <= u64::MAX {
                (self.accumulated() + (now_us - self.start_us())) as u64
            } else {
                u64::MAX
            }
        } else {
            self.accumulated()
        }
    }

    /// The timer after `start` at instant `now_us`.
    pub open spec fn started_at(self, now_us: u64) -> Timer {
        if self.running() {
            self
        } else {
            Timer { start_point: Some(now_us), played_us: self.played_us }
        }
    }

    /// The timer after `stop` at instant `now_us`.
    pub open spec fn stopped_at(self, now_us: u64) -> Timer {
        if self.running() {
            Timer { start_point: None, played_us: Some(self.time_at(now_us)) }
        } else {
            self
        }
    }

    /// The timer after `set_time(us)`.
    pub open spec fn with_time(self, us: u64) -> Timer {
        Timer { start_point: None, played_us: Some(us) }
    }

    /// A fresh timer: stopped, reading zero.
    pub fn new() -> (t: Timer)
        ensures
            !t.running(),
            t.accumulated() == 0,
            forall|now_us: u64| t.time_at(now_us) == 0,
    {
        Timer { start_point: None, played_us: None }
    }

    /// Begins accumulating wall time; idempotent while already running.
    pub fn start(&mut self, now_us: u64)
        ensures
            *final(self) == old(self).started_at(now_us),
            final(self).running(),
            final(self).accumulated() == old(self).accumulated(),
    {
        if self.start_point.is_none() {
            self.start_point = Some(now_us);
        }
    }

    /// Folds the elapsed running time into the accumulator; idempotent
    /// while already stopped.
    pub fn stop(&mut self, now_us: u64)
        ensures
            *final(self) == old(self).stopped_at(now_us),
            !final(self).running(),
            final(self).accumulated() == old(self).time_at(now_us),
    {
        if let Some(p) = self.start_point.take() {
            let played = match self.played_us {
                Some(us) => us,
                None => 0,
            };
            let elapsed = if now_us > p {
                now_us - p
            } else {
                0
            };
            let total = if elapsed <= u64::MAX - played {
                played + elapsed
            } else {
                u64::MAX
            };
            self.played_us = Some(total);
        }
    }

    /// Stops the timer and overwrites the accumulator, used to
    /// resynchronize the clock after a seek.
    pub fn set_time(&mut self, us: u64)
        ensures
            *final(self) == old(self).with_time(us),
            !final(self).running(),
            final(self).accumulated() == us,
            forall|now_us: u64| final(self).time_at(now_us) == us,
    {
        self.start_point = None;
        self.played_us = Some(us);
    }

    /// The current reading at monotonic instant `now_us`.
    pub fn current_time_us(&self, now_us: u64) -> (r: u64)
        ensures
            r == self.time_at(now_us),
    {
        let played = match self.played_us {
            Some(us) => us,
            None => 0,
        };
        match self.start_point {
            Some(p) => {
                let elapsed = if now_us > p {
                    now_us - p
                } else {
                    0
                };
                if elapsed <= u64::MAX - played {
                    played + elapsed
                } else {
                    u64::MAX
                }
            },
            None => played,
        }
    }
}

/// A stopped clock reads the same whenever it is consulted: wall-clock
/// time passing while the timer is stopped leaves its reading unchanged.
pub proof fn lemma_stopped_reading_is_constant(t: Timer, now1_us: u64, now2_us: u64)
    requires
        !t.running(),
    ensures
        t.time_at(now1_us) == t.time_at(now2_us),
{
}

/// Pause/resume round trip: stop the clock at `pause_us`, let any amount
/// of wall time pass, and restart it at `resume_us`. At the instant of the
/// restart the clock reads exactly what it read at the instant of the
/// pause — the gap between the two contributes nothing.
pub proof fn lemma_pause_resume_round_trip(t: Timer, pause_us: u64, resume_us: u64)
    ensures
        t.stopped_at(pause_us).started_at(resume_us).time_at(resume_us) == t.time_at(pause_us),
{
}

} // verus!
