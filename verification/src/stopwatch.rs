//! The stopwatch: a two-state machine driven by a host-supplied monotonic
//! clock, read in milliseconds.

use vstd::prelude::*;

verus! {

/// A start/stop/reset stopwatch. Timestamps come from a monotonic clock in
/// milliseconds; the stopwatch never reads a clock itself.
///
/// The two variants make the invalid combination "running without a start
/// mark" unrepresentable: a running stopwatch always carries its mark.
#[derive(Clone, Copy, PartialEq, Eq, Structural, Debug)]
pub enum Stopwatch {
    /// The accumulator is frozen at `accumulated` milliseconds.
    Halted { accumulated: u64 },
    /// A run is open since `start_mark`; `accumulated` holds the time
    /// gathered by earlier runs.
    Running { accumulated: u64, start_mark: u64 },
}

impl Stopwatch {
    /// The elapsed time reported at instant `now`: the accumulator, plus the
    /// open run if one exists. A `now` older than the start mark (a clock
    /// anomaly) contributes nothing rather than a negative amount.
    pub open spec fn spec_elapsed(self, now: u64) -> int {
        match self {
            Stopwatch::Halted { accumulated } => accumulated as int,
            Stopwatch::Running { accumulated, start_mark } => if now >= start_mark {
                accumulated + (now - start_mark)
            } else {
                accumulated as int
            },
        }
    }

    pub open spec fn is_running(self) -> bool {
        self is Running
    }

    /// The state after `start` at instant `now`: opens a run if none is open,
    /// otherwise changes nothing.
    pub open spec fn spec_start(self, now: u64) -> Stopwatch {
        match self {
            Stopwatch::Halted { accumulated } => Stopwatch::Running {
                accumulated,
                start_mark: now,
            },
            Stopwatch::Running { .. } => self,
        }
    }

    /// The state after `stop` at instant `now`: folds the open run into the
    /// accumulator, or changes nothing if already halted.
    pub open spec fn spec_stop(self, now: u64) -> Stopwatch {
        match self {
            Stopwatch::Halted { .. } => self,
            Stopwatch::Running { .. } => Stopwatch::Halted {
                accumulated: self.spec_elapsed(now) as u64,
            },
        }
    }

    /// The state after `toggle` at instant `now`.
    pub open spec fn spec_toggle(self, now: u64) -> Stopwatch {
        if self.is_running() {
            self.spec_stop(now)
        } else {
            self.spec_start(now)
        }
    }

    /// A fresh stopwatch: halted, with an empty accumulator.
    pub fn init() -> (s: Stopwatch)
        ensures
            s == (Stopwatch::Halted { accumulated: 0u64 }),
    {
        Stopwatch::Halted { accumulated: 0 }
    }

    /// Opens a run at `now`; a no-op if a run is already open.
    pub fn start(&mut self, now: u64)
        ensures
            *final(self) == old(self).spec_start(now),
    {
        match *self {
            Stopwatch::Halted { accumulated } => {
                *self = Stopwatch::Running { accumulated, start_mark: now };
            },
            Stopwatch::Running { .. } => {},
        }
    }

    /// Closes the open run at `now`, folding it into the accumulator; a
    /// no-op if already halted.
    pub fn stop(&mut self, now: u64)
        requires
            old(self).spec_elapsed(now) <= u64::MAX,
        ensures
            *final(self) == old(self).spec_stop(now),
    {
        match *self {
            Stopwatch::Halted { .. } => {},
            Stopwatch::Running { accumulated, start_mark } => {
                let run: u64 = if now >= start_mark {
                    now - start_mark
                } else {
                    0
                };
                *self = Stopwatch::Halted { accumulated: accumulated + run };
            },
        }
    }

    /// The single user-facing transition: stops a running stopwatch, starts
    /// a halted one.
    pub fn toggle(&mut self, now: u64)
        requires
            old(self).spec_elapsed(now) <= u64::MAX,
        ensures
            *final(self) == old(self).spec_toggle(now),
    {
        match *self {
            Stopwatch::Running { .. } => self.stop(now),
            Stopwatch::Halted { .. } => self.start(now),
        }
    }

    /// Forces the halted state with an empty accumulator, whatever the
    /// current state; resetting while running stops and zeroes in one step.
    pub fn reset(&mut self)
        ensures
            *final(self) == (Stopwatch::Halted { accumulated: 0u64 }),
    {
        *self = Stopwatch::Halted { accumulated: 0 };
    }

    /// Reads the elapsed time at instant `now` without changing any state:
    /// the result is a function of the state and `now` alone, so repeated
    /// queries with the same `now` agree.
    pub fn time(&self, now: u64) -> (r: u64)
        requires
            self.spec_elapsed(now) <= u64::MAX,
        ensures
            r == self.spec_elapsed(now),
    {
        match *self {
            Stopwatch::Halted { accumulated } => accumulated,
            Stopwatch::Running { accumulated, start_mark } => {
                let run: u64 = if now >= start_mark {
                    now - start_mark
                } else {
                    0
                };
                accumulated + run
            },
        }
    }

    /// Whether a run is open, for the host's button label.
    pub fn running(&self) -> (r: bool)
        ensures
            r == self.is_running(),
    {
        match *self {
            Stopwatch::Running { .. } => true,
            Stopwatch::Halted { .. } => false,
        }
    }
}

/// Law: from a fresh stopwatch, one toggle at `start` opens a run, and a
/// query at `query` reads exactly the time since `start`; a second toggle at
/// `stop_at` halts it, and from then on every query reads the fixed amount
/// `stop_at - start`, however much later it is made.
pub proof fn lemma_toggle_measures_the_run(start: u64, query: u64, stop_at: u64, later: u64)
    requires
        start <= query,
        start <= stop_at,
    ensures
        (Stopwatch::Halted { accumulated: 0u64 }).spec_toggle(start).spec_elapsed(query) == query
            - start,
        (Stopwatch::Halted { accumulated: 0u64 }).spec_toggle(start).spec_toggle(
            stop_at,
        ).spec_elapsed(later) == stop_at - start,
{
}

/// Law: a reset stopwatch is halted and reads zero elapsed time at every
/// subsequent instant; in particular, resetting while running both stops
/// and zeroes (`reset` ensures the state below whatever the state before).
pub proof fn lemma_reset_reads_zero(now: u64)
    ensures
        !(Stopwatch::Halted { accumulated: 0u64 }).is_running(),
        (Stopwatch::Halted { accumulated: 0u64 }).spec_elapsed(now) == 0,
{
}

} // verus!
