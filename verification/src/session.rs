//! A round together with its timers: what one frame of the front end does to
//! the game.

use vstd::prelude::*;

use crate::clock::{
    Scheduler, Ticks, TimerView, MOVEMENT_INTERVAL_MICROS, SPAWN_INTERVAL_MICROS,
};
use crate::direction::Keys;
use crate::game::Game;
use crate::model::GameView;

verus! {

/// A round of the game and the two timers that drive it.
#[derive(Debug)]
pub struct Session {
    game: Game,
    scheduler: Scheduler,
}

impl Session {
    /// The model of the round.
    pub closed spec fn round(&self) -> GameView {
        self.game@
    }

    /// The model of the movement timer.
    pub closed spec fn movement_timer(&self) -> TimerView {
        self.scheduler.movement()
    }

    /// The model of the spawn timer.
    pub closed spec fn spawn_timer(&self) -> TimerView {
        self.scheduler.spawn()
    }

    /// Between frames the round is in play, and each timer runs at its
    /// interval with less than one interval accumulated.
    pub open spec fn well_formed(&self) -> bool {
        &&& self.round().in_play()
        &&& self.movement_timer().well_formed()
        &&& self.spawn_timer().well_formed()
        &&& self.movement_timer().interval == MOVEMENT_INTERVAL_MICROS
        &&& self.spawn_timer().interval == SPAWN_INTERVAL_MICROS
    }

    /// A fresh round with both timers at zero.
    pub fn new() -> (session: Session)
        ensures
            session.well_formed(),
            session.round() == GameView::initial(),
            session.movement_timer().pending == 0,
            session.spawn_timer().pending == 0,
    {
        Session { game: Game::new(), scheduler: Scheduler::new() }
    }

    /// The given round with both timers at zero.
    pub fn with_game(game: Game) -> (session: Session)
        requires
            game@.in_play(),
        ensures
            session.well_formed(),
            session.round() == game@,
            session.movement_timer().pending == 0,
            session.spawn_timer().pending == 0,
    {
        Session { game, scheduler: Scheduler::new() }
    }

    /// The round.
    pub fn game(&self) -> (game: &Game)
        ensures
            game@ == self.round(),
    {
        &self.game
    }

    /// The timers.
    pub fn scheduler(&self) -> (scheduler: &Scheduler)
        ensures
            scheduler.movement() == self.movement_timer(),
            scheduler.spawn() == self.spawn_timer(),
    {
        &self.scheduler
    }

    /// One frame. The held keys steer the head once; then every movement
    /// tick that falls due within `elapsed_micros` runs in full; then every
    /// spawn tick that falls due puts one food item on a random cell of the
    /// arena. Returns the numbers of ticks that ran.
    ///
    /// Which cells the new food lands on is not determined; all else is.
    pub fn frame(&mut self, keys: Keys, elapsed_micros: u64) -> (ticks: Ticks)
        requires
            old(self).well_formed(),
        ensures
            ticks.movement == old(self).movement_timer().due(elapsed_micros as nat),
            ticks.spawn == old(self).spawn_timer().due(elapsed_micros as nat),
            final(self).movement_timer() == old(self).movement_timer().advanced(
                elapsed_micros as nat,
            ),
            final(self).spawn_timer() == old(self).spawn_timer().advanced(elapsed_micros as nat),
            final(self).round().spawned_onto(
                old(self).round().steered(keys).ticked_times(ticks.movement as nat),
                ticks.spawn as nat,
            ),
            final(self).well_formed(),
    {
        let ticks = self.scheduler.advance(elapsed_micros);
        self.game.snake_movement_input(keys);
        let ghost steered = self.game@;
        let ghost timers = self.scheduler;
        let mut moved: u64 = 0;
        while moved < ticks.movement
            invariant
                moved <= ticks.movement,
                self.game@ == steered.ticked_times(moved as nat),
                self.game@.in_play(),
                self.scheduler == timers,
            decreases ticks.movement - moved,
        {
            self.game.tick();
            moved += 1;
        }
        let ghost settled = self.game@;
        let mut spawned: u64 = 0;
        assert(settled.food.take(settled.food.len() as int) =~= settled.food);
        while spawned < ticks.spawn
            invariant
                spawned <= ticks.spawn,
                self.game@.spawned_onto(settled, spawned as nat),
                self.game@.in_play(),
                self.scheduler == timers,
            decreases ticks.spawn - spawned,
        {
            let ghost before = self.game@;
            self.game.food_spawner();
            assert(self.game@.food.take(settled.food.len() as int) =~= before.food.take(
                settled.food.len() as int,
            ));
            spawned += 1;
        }
        ticks
    }
}

} // verus!
