//! One round of the game: the snake, the food on the grid and the steps that
//! a movement tick is made of.

use vstd::prelude::*;

use crate::direction::{Direction, Keys};
use crate::grid::{all_distinct, all_in_arena, occupies, Position};
use crate::model::{lies_off, lies_on, GameView};
use crate::rng::random_position;

verus! {

/// What one movement tick did.
#[derive(Clone, Copy, Debug, PartialEq, Eq, Structural)]
pub struct TickOutcome {
    /// The head hit a wall or the snake, and the round was started afresh.
    pub game_over: bool,
    /// Number of food items that the head consumed.
    pub eaten: usize,
}

/// A round of the game.
#[derive(Debug)]
pub struct Game {
    direction: Direction,
    segments: Vec<Position>,
    food: Vec<Position>,
    last_tail: Option<Position>,
}

impl View for Game {
    type V = GameView;

    closed spec fn view(&self) -> GameView {
        GameView {
            direction: self.direction,
            segments: self.segments@,
            food: self.food@,
            last_tail: self.last_tail,
        }
    }
}

impl Game {
    /// Starts a round.
    pub fn new() -> (game: Game)
        ensures
            game@ == GameView::initial(),
            game@.in_play(),
    {
        let mut segments: Vec<Position> = Vec::new();
        segments.push(Position { x: 3, y: 3 });
        segments.push(Position { x: 3, y: 2 });
        let game = Game {
            direction: Direction::Right,
            segments,
            food: Vec::new(),
            last_tail: None,
        };
        assert(game@.segments =~= GameView::initial().segments);
        assert(game@.food =~= GameView::initial().food);
        game
    }

    /// A round with the given heading, snake (head first) and food, and no
    /// growth anchor, if these make up a round in play: the snake has a head,
    /// lies inside the arena and does not overlap itself, and the food lies
    /// inside the arena. Otherwise `None`.
    pub fn from_parts(direction: Direction, segments: Vec<Position>, food: Vec<Position>) -> (game:
        Option<Game>)
        ensures
            game is Some <==> (GameView {
                direction,
                segments: segments@,
                food: food@,
                last_tail: None,
            }).in_play(),
            game matches Some(g) ==> g@ == (GameView {
                direction,
                segments: segments@,
                food: food@,
                last_tail: None,
            }),
    {
        let ghost view = GameView { direction, segments: segments@, food: food@, last_tail: None };
        if segments.len() == 0 {
            return None;
        }
        if !all_in_arena(&segments) {
            proof {
                let k = choose|k: int|
                    0 <= k < segments@.len() && !(#[trigger] segments@[k]).in_arena();
                assert(!view.segments[k].in_arena());
            }
            return None;
        }
        if !all_distinct(&segments) {
            proof {
                let (i, j) = choose|i: int, j: int|
                    0 <= i < j < segments@.len() && segments@[i] == segments@[j];
                assert(view.segments[i] == view.segments[j]);
            }
            return None;
        }
        if !all_in_arena(&food) {
            proof {
                let k = choose|k: int| 0 <= k < food@.len() && !(#[trigger] food@[k]).in_arena();
                assert(!view.food[k].in_arena());
            }
            return None;
        }
        Some(Game { direction, segments, food, last_tail: None })
    }

    /// Heading of the head.
    pub fn direction(&self) -> (d: Direction)
        ensures
            d == self@.direction,
    {
        self.direction
    }

    /// Cells of the snake, head first.
    pub fn segments(&self) -> (s: &Vec<Position>)
        ensures
            s@ == self@.segments,
    {
        &self.segments
    }

    /// Cells of the food items.
    pub fn food(&self) -> (f: &Vec<Position>)
        ensures
            f@ == self@.food,
    {
        &self.food
    }

    /// The growth anchor, if a movement has left one that growth has not used.
    pub fn last_tail(&self) -> (t: Option<Position>)
        ensures
            t == self@.last_tail,
    {
        self.last_tail
    }

    /// Cell of the head.
    pub fn head(&self) -> (p: Position)
        requires
            self@.segments.len() >= 1,
        ensures
            p == self@.head(),
    {
        self.segments[0]
    }

    /// Input step: turns the head as the held keys ask, except that a request
    /// to reverse is ignored.
    pub fn snake_movement_input(&mut self, keys: Keys)
        ensures
            final(self)@ == old(self)@.steered(keys),
            final(self)@.direction != old(self)@.direction.spec_opposite(),
            keys.spec_requested(old(self)@.direction) == old(self)@.direction.spec_opposite()
                ==> final(self)@.direction == old(self)@.direction,
    {
        let requested = keys.requested(self.direction);
        self.direction = self.direction.steer(requested);
    }

    /// Movement step: advances the head by one cell along its heading and
    /// shifts every other segment to the cell of the segment ahead of it, as
    /// those cells were before the step. The cell that the tail leaves is kept
    /// as the growth anchor.
    ///
    /// Returns whether the round is over: the head's new cell is outside the
    /// arena or was occupied by the snake before the step.
    pub fn snake_movement(&mut self) -> (game_over: bool)
        requires
            old(self)@.in_play(),
        ensures
            final(self)@ == old(self)@.moved(),
            game_over == old(self)@.collides(),
            final(self)@.well_formed(),
            !game_over ==> final(self)@.in_play(),
    {
        let ghost before = self@;
        let n = self.segments.len();
        let new_head = self.segments[0].step(self.direction);
        let game_over = !new_head.is_in_arena() || occupies(&self.segments, new_head);
        let tail = self.segments[n - 1];
        let mut i: usize = n - 1;
        while i > 0
            invariant
                i < n,
                self.segments@.len() == n,
                before.segments.len() == n,
                self@.direction == before.direction,
                self@.food == before.food,
                forall|k: int| 0 <= k <= i ==> self.segments@[k] == before.segments[k],
                forall|k: int| i < k < n ==> self.segments@[k] == before.segments[k - 1],
            decreases i,
        {
            let ahead = self.segments[i - 1];
            self.segments.set(i, ahead);
            i -= 1;
        }
        self.segments.set(0, new_head);
        self.last_tail = Some(tail);
        proof {
            assert(self@.segments =~= before.moved().segments);
            before.lemma_moved_well_formed();
        }
        game_over
    }

    /// Eating step: removes every food item that lies on the head's cell and
    /// returns how many there were, one growth event for each of them. The
    /// other items keep their order.
    pub fn snake_eating(&mut self) -> (eaten: usize)
        requires
            old(self)@.well_formed(),
        ensures
            final(self)@ == old(self)@.fed(),
            eaten == old(self)@.growth_events(),
            !final(self)@.food.contains(final(self)@.head()),
            final(self)@.well_formed(),
            old(self)@.in_play() ==> final(self)@.in_play(),
    {
        let ghost before = self@;
        let ghost keep = lies_off(before.head());
        let ghost take = lies_on(before.head());
        let head = self.segments[0];
        let n = self.food.len();
        let mut kept: Vec<Position> = Vec::new();
        let mut eaten: usize = 0;
        let mut i: usize = 0;
        proof {
            reveal(Seq::filter);
            assert(before.food.take(0) =~= Seq::<Position>::empty());
        }
        while i < n
            invariant
                i <= n,
                n == self.food@.len(),
                self.food@ == before.food,
                head == before.head(),
                keep == lies_off(before.head()),
                take == lies_on(before.head()),
                kept@ == before.food.take(i as int).filter(keep),
                eaten == before.food.take(i as int).filter(take).len(),
                eaten + kept@.len() == i,
            decreases n - i,
        {
            let item = self.food[i];
            proof {
                let seen = before.food.take(i as int);
                assert(before.food.take(i + 1) =~= seen.push(item));
                seen.lemma_filter_push(item, keep);
                seen.lemma_filter_push(item, take);
            }
            if item == head {
                eaten += 1;
            } else {
                kept.push(item);
            }
            i += 1;
        }
        proof {
            assert(before.food.take(n as int) =~= before.food);
            before.lemma_fed_well_formed();
        }
        self.food = kept;
        eaten
    }

    /// Growth step: if any growth event fired in this tick, appends exactly one
    /// segment on the growth anchor, however many events there were. The
    /// anchor is used up either way, so that no later step can grow from a
    /// stale cell.
    ///
    /// A growth event without an anchor means that growth ran before any
    /// movement; the precondition rules it out.
    pub fn snake_growth(&mut self, growth_events: usize)
        requires
            old(self)@.well_formed(),
            growth_events > 0 ==> old(self)@.last_tail is Some,
        ensures
            final(self)@ == old(self)@.grown(growth_events as nat),
            final(self)@.well_formed(),
            old(self)@.in_play() ==> final(self)@.in_play(),
    {
        let ghost before = self@;
        if growth_events > 0 {
            match self.last_tail {
                Some(anchor) => {
                    self.spawn_segment(anchor);
                },
                None => {},
            }
        }
        self.last_tail = None;
        proof {
            before.lemma_grown_well_formed(growth_events as nat);
        }
    }

    /// Appends a body segment on `cell` behind the tail.
    fn spawn_segment(&mut self, cell: Position)
        ensures
            final(self)@ == (GameView { segments: old(self)@.segments.push(cell), ..old(self)@ }),
    {
        self.segments.push(cell);
    }

    /// Replaces the snake by a fresh one: the head on (3, 3) heading right and
    /// one body segment on (3, 2). The food is left alone.
    pub fn spawn_snake(&mut self)
        requires
            old(self)@.well_formed(),
        ensures
            final(self)@ == old(self)@.respawned(),
            final(self)@.in_play(),
    {
        self.direction = Direction::Right;
        self.segments = Vec::new();
        self.last_tail = None;
        self.spawn_segment(Position { x: 3, y: 3 });
        self.spawn_segment(Position { x: 3, y: 2 });
        assert(self@.segments =~= GameView::initial().segments);
    }

    /// Puts a food item on `cell`, whatever else is there: a cell under the
    /// snake or under another food item is as good as a free one.
    pub fn place_food(&mut self, cell: Position)
        requires
            old(self)@.well_formed(),
            cell.in_arena(),
        ensures
            final(self)@ == old(self)@.with_food(cell),
            final(self)@.well_formed(),
            old(self)@.in_play() ==> final(self)@.in_play(),
    {
        self.food.push(cell);
    }

    /// Spawn tick: puts one food item on a cell drawn at random over the whole
    /// arena, and returns that cell.
    pub fn food_spawner(&mut self) -> (cell: Position)
        requires
            old(self)@.well_formed(),
        ensures
            cell.in_arena(),
            final(self)@ == old(self)@.with_food(cell),
            final(self)@.well_formed(),
            old(self)@.in_play() ==> final(self)@.in_play(),
    {
        let cell = random_position();
        self.place_food(cell);
        cell
    }

    /// Game-over step: if the movement of this tick ended the round, removes
    /// all food and the whole snake and starts a round afresh; otherwise does
    /// nothing.
    pub fn game_over(&mut self, triggered: bool)
        requires
            old(self)@.well_formed(),
        ensures
            final(self)@ == old(self)@.settled(triggered),
            final(self)@.well_formed(),
            triggered || old(self)@.in_play() ==> final(self)@.in_play(),
    {
        if triggered {
            self.food = Vec::new();
            self.spawn_snake();
            assert(self@.food =~= GameView::initial().food);
        }
    }

    /// One movement tick: movement, then eating, then growth, then the
    /// game-over step.
    pub fn tick(&mut self) -> (outcome: TickOutcome)
        requires
            old(self)@.in_play(),
        ensures
            final(self)@ == old(self)@.ticked(),
            outcome.game_over == old(self)@.collides(),
            outcome.eaten == old(self)@.moved().growth_events(),
            final(self)@.in_play(),
    {
        let game_over = self.snake_movement();
        let eaten = self.snake_eating();
        self.snake_growth(eaten);
        self.game_over(game_over);
        TickOutcome { game_over, eaten }
    }
}

} // verus!
