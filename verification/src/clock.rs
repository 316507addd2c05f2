//! Fixed-rate timers that turn elapsed time into ticks.
//!
//! Time is counted in whole microseconds. A timer keeps the time that has
//! not yet made up a full interval, so that ticks do not drift however the
//! elapsed time is cut into frames.

use vstd::prelude::*;
use vstd::arithmetic::div_mod::{lemma_fundamental_div_mod, lemma_fundamental_div_mod_converse};

verus! {

/// Time between two movement ticks, in microseconds: a tenth of a second.
pub const MOVEMENT_INTERVAL_MICROS: u64 = 100_000;

/// Time between two spawn ticks, in microseconds: one second.
pub const SPAWN_INTERVAL_MICROS: u64 = 1_000_000;

/// The mathematical model of a timer.
pub struct TimerView {
    /// Time between two ticks.
    pub interval: nat,
    /// Time gone by since the latest tick.
    pub pending: nat,
}

impl TimerView {
    /// The interval is positive and less than one interval is accumulated.
    pub open spec fn well_formed(self) -> bool {
        0 < self.interval && self.pending < self.interval
    }

    /// Number of ticks that fall due when `elapsed` more time goes by.
    pub open spec fn due(self, elapsed: nat) -> nat {
        (self.pending + elapsed) / self.interval
    }

    /// The timer after `elapsed` more time and after all due ticks fired.
    pub open spec fn advanced(self, elapsed: nat) -> TimerView {
        TimerView { interval: self.interval, pending: (self.pending + elapsed) % self.interval }
    }
}

/// A timer that fires once per interval of accumulated time.
#[derive(Debug)]
pub struct Timer {
    interval: u64,
    pending: u64,
}

impl View for Timer {
    type V = TimerView;

    closed spec fn view(&self) -> TimerView {
        TimerView { interval: self.interval as nat, pending: self.pending as nat }
    }
}

impl Timer {
    /// A timer of the given interval with no time accumulated.
    pub fn new(interval: u64) -> (timer: Timer)
        requires
            interval > 0,
        ensures
            timer@ == (TimerView { interval: interval as nat, pending: 0 }),
            timer@.well_formed(),
    {
        Timer { interval, pending: 0 }
    }

    /// Time between two ticks.
    pub fn interval(&self) -> (t: u64)
        ensures
            t == self@.interval,
    {
        self.interval
    }

    /// Time gone by since the latest tick.
    pub fn pending(&self) -> (t: u64)
        ensures
            t == self@.pending,
    {
        self.pending
    }

    /// Lets `elapsed` time go by and returns the number of ticks that fall
    /// due: one for each full interval in the accumulated time. Each tick
    /// takes one interval off the accumulated time; the remainder stays.
    pub fn advance(&mut self, elapsed: u64) -> (ticks: u64)
        requires
            old(self)@.well_formed(),
        ensures
            ticks == old(self)@.due(elapsed as nat),
            final(self)@ == old(self)@.advanced(elapsed as nat),
            final(self)@.well_formed(),
    {
        let whole: u64 = elapsed / self.interval;
        let part: u64 = elapsed % self.interval;
        let room: u64 = self.interval - self.pending;
        let ghost total: int = self.pending + elapsed;
        let ghost d: int = self.interval as int;
        proof {
            lemma_fundamental_div_mod(elapsed as int, d);
            assert(d * (elapsed as int / d) == (elapsed as int / d) * d) by (nonlinear_arith);
        }
        if part >= room {
            proof {
                assert(whole < u64::MAX) by (nonlinear_arith)
                    requires
                        elapsed == whole * d + part,
                        part >= 1,
                        d > part,
                        elapsed <= u64::MAX,
                        whole >= 0,
                ;
                assert(total == (whole + 1) * d + (part - room)) by (nonlinear_arith)
                    requires
                        elapsed == whole * d + part,
                        total == self.pending + elapsed,
                        room == d - self.pending,
                ;
                lemma_fundamental_div_mod_converse(total, d, whole + 1, part - room);
            }
            self.pending = part - room;
            whole + 1
        } else {
            proof {
                assert(total == whole * d + (self.pending + part)) by (nonlinear_arith)
                    requires
                        elapsed == whole * d + part,
                        total == self.pending + elapsed,
                ;
                lemma_fundamental_div_mod_converse(total, d, whole as int, self.pending + part);
            }
            self.pending = self.pending + part;
            whole
        }
    }
}

/// Numbers of ticks that fall due in one frame.
#[derive(Clone, Copy, Debug, PartialEq, Eq, Structural)]
pub struct Ticks {
    pub movement: u64,
    pub spawn: u64,
}

/// The two timers of the game: a fast one for movement and a slow one for
/// spawning food. They run independently of each other.
#[derive(Debug)]
pub struct Scheduler {
    movement: Timer,
    spawn: Timer,
}

impl Scheduler {
    /// The model of the movement timer.
    pub closed spec fn movement(&self) -> TimerView {
        self.movement@
    }

    /// The model of the spawn timer.
    pub closed spec fn spawn(&self) -> TimerView {
        self.spawn@
    }

    /// Both timers are well formed and run at the intervals of the game.
    pub open spec fn well_formed(&self) -> bool {
        &&& self.movement().well_formed()
        &&& self.spawn().well_formed()
        &&& self.movement().interval == MOVEMENT_INTERVAL_MICROS
        &&& self.spawn().interval == SPAWN_INTERVAL_MICROS
    }

    /// Both timers at their intervals, with no time accumulated.
    pub fn new() -> (scheduler: Scheduler)
        ensures
            scheduler.well_formed(),
            scheduler.movement().pending == 0,
            scheduler.spawn().pending == 0,
    {
        Scheduler {
            movement: Timer::new(MOVEMENT_INTERVAL_MICROS),
            spawn: Timer::new(SPAWN_INTERVAL_MICROS),
        }
    }

    /// Time accumulated towards the next movement tick, in microseconds.
    pub fn movement_pending(&self) -> (t: u64)
        ensures
            t == self.movement().pending,
    {
        self.movement.pending()
    }

    /// Time accumulated towards the next spawn tick, in microseconds.
    pub fn spawn_pending(&self) -> (t: u64)
        ensures
            t == self.spawn().pending,
    {
        self.spawn.pending()
    }

    /// Lets `elapsed_micros` go by on both timers and returns the ticks that
    /// fall due on each.
    pub fn advance(&mut self, elapsed_micros: u64) -> (ticks: Ticks)
        requires
            old(self).well_formed(),
        ensures
            ticks.movement == old(self).movement().due(elapsed_micros as nat),
            ticks.spawn == old(self).spawn().due(elapsed_micros as nat),
            final(self).movement() == old(self).movement().advanced(elapsed_micros as nat),
            final(self).spawn() == old(self).spawn().advanced(elapsed_micros as nat),
            final(self).well_formed(),
    {
        let movement = self.movement.advance(elapsed_micros);
        let spawn = self.spawn.advance(elapsed_micros);
        Ticks { movement, spawn }
    }
}

} // verus!
