//! The mathematical model of a round, and what each step of a movement tick
//! does to it.

use vstd::prelude::*;

use crate::direction::{Direction, Keys};
use crate::grid::Position;

verus! {

/// The predicate of lying on `cell`.
pub open spec fn lies_on(cell: Position) -> spec_fn(Position) -> bool {
    |p: Position| p == cell
}

/// The predicate of lying on another cell than `cell`.
pub open spec fn lies_off(cell: Position) -> spec_fn(Position) -> bool {
    |p: Position| p != cell
}

/// The mathematical model of a round.
pub struct GameView {
    /// Heading of the snake's head.
    pub direction: Direction,
    /// Cells of the snake, head first and tail last.
    pub segments: Seq<Position>,
    /// Cells of the food items, oldest first. A cell may occur more than once.
    pub food: Seq<Position>,
    /// Where the tail was before the latest movement, until growth uses it.
    pub last_tail: Option<Position>,
}

impl GameView {
    /// The round as it starts: a head at (3, 3) heading right, one body
    /// segment below it at (3, 2), no food and no growth anchor.
    pub open spec fn initial() -> GameView {
        GameView {
            direction: Direction::Right,
            segments: seq![Position { x: 3, y: 3 }, Position { x: 3, y: 2 }],
            food: Seq::empty(),
            last_tail: None,
        }
    }

    /// Cell of the head.
    pub open spec fn head(self) -> Position
        recommends
            self.segments.len() > 0,
    {
        self.segments[0]
    }

    /// No two segments of the snake share a cell.
    pub open spec fn no_overlap(self) -> bool {
        forall|i: int, j: int|
            0 <= i < j < self.segments.len() ==> self.segments[i] != self.segments[j]
    }

    /// What holds at every point of a round: there is a head, which is in the
    /// arena or one step outside of it; the body, the food and the growth
    /// anchor are in the arena.
    pub open spec fn well_formed(self) -> bool {
        &&& self.segments.len() >= 1
        &&& self.head().near_arena()
        &&& forall|i: int| 1 <= i < self.segments.len() ==> (#[trigger] self.segments[i]).in_arena()
        &&& forall|i: int| 0 <= i < self.food.len() ==> (#[trigger] self.food[i]).in_arena()
        &&& self.last_tail matches Some(anchor) ==> anchor.in_arena()
    }

    /// What holds between movement ticks: moreover the head is in the arena,
    /// the snake does not overlap itself, and a pending growth anchor is a
    /// cell that the snake does not occupy.
    pub open spec fn in_play(self) -> bool {
        &&& self.well_formed()
        &&& self.head().in_arena()
        &&& self.no_overlap()
        &&& self.last_tail matches Some(anchor) ==> !self.segments.contains(anchor)
    }

    /// The round after the input step: the head turns as the keys ask, unless
    /// they ask for the reverse of its heading.
    pub open spec fn steered(self, keys: Keys) -> GameView {
        GameView {
            direction: self.direction.spec_steer(keys.spec_requested(self.direction)),
            ..self
        }
    }

    /// Where the head goes in the next movement.
    pub open spec fn next_head(self) -> Position
        recommends
            self.segments.len() > 0,
    {
        self.head().neighbor(self.direction)
    }

    /// The next movement ends the round: the head would leave the arena or
    /// enter a cell that the snake occupies before it moves.
    pub open spec fn collides(self) -> bool {
        !self.next_head().in_arena() || self.segments.contains(self.next_head())
    }

    /// The round after a movement: the head takes its next cell, every other
    /// segment takes the cell that the segment ahead of it had before, and the
    /// cell that the tail gives up becomes the growth anchor.
    pub open spec fn moved(self) -> GameView
        recommends
            self.segments.len() > 0,
    {
        GameView {
            segments: seq![self.next_head()] + self.segments.drop_last(),
            last_tail: Some(self.segments.last()),
            ..self
        }
    }

    /// Number of growth events of the eating step: one for each food item on
    /// the head's cell.
    pub open spec fn growth_events(self) -> nat {
        self.food.filter(lies_on(self.head())).len()
    }

    /// The round after eating: the food on the head's cell is gone, the rest
    /// stays in order.
    pub open spec fn fed(self) -> GameView {
        GameView { food: self.food.filter(lies_off(self.head())), ..self }
    }

    /// The round after the growth step for `events` growth events: one segment
    /// more at the growth anchor if there was any event, and no anchor left.
    pub open spec fn grown(self, events: nat) -> GameView
        recommends
            events > 0 ==> self.last_tail is Some,
    {
        GameView {
            segments: if events > 0 {
                self.segments.push(self.last_tail->0)
            } else {
                self.segments
            },
            last_tail: None,
            ..self
        }
    }

    /// The round after the game-over step: the initial round if the game is
    /// over, the same round if it is not.
    pub open spec fn settled(self, game_over: bool) -> GameView {
        if game_over {
            GameView::initial()
        } else {
            self
        }
    }

    /// The round with one more food item on `cell`.
    pub open spec fn with_food(self, cell: Position) -> GameView {
        GameView { food: self.food.push(cell), ..self }
    }

    /// The round with a fresh snake in place of the old one: the food stays.
    pub open spec fn respawned(self) -> GameView {
        GameView { food: self.food, ..GameView::initial() }
    }

    /// The round after one whole movement tick: movement, eating, growth and
    /// the game-over step, in this order.
    pub open spec fn ticked(self) -> GameView {
        let after_meal = self.moved().fed();
        after_meal.grown(self.moved().growth_events()).settled(self.collides())
    }

    /// The round after `count` movement ticks in a row.
    pub open spec fn ticked_times(self, count: nat) -> GameView
        decreases count,
    {
        if count == 0 {
            self
        } else {
            self.ticked_times((count - 1) as nat).ticked()
        }
    }

    /// This round is `base` with `count` more food items, each inside the
    /// arena, behind the food of `base`, and nothing else changed.
    pub open spec fn spawned_onto(self, base: GameView, count: nat) -> bool {
        &&& self.direction == base.direction
        &&& self.segments == base.segments
        &&& self.last_tail == base.last_tail
        &&& self.food.len() == base.food.len() + count
        &&& self.food.take(base.food.len() as int) == base.food
        &&& forall|i: int|
            base.food.len() <= i < self.food.len() ==> (#[trigger] self.food[i]).in_arena()
    }

    /// A movement from a round in play leaves the round well formed, and in
    /// play unless the movement collides.
    pub proof fn lemma_moved_well_formed(self)
        requires
            self.in_play(),
        ensures
            self.moved().well_formed(),
            self.moved().last_tail is Some,
            !self.collides() ==> self.moved().in_play(),
    {
        let before = self.segments;
        let after = self.moved().segments;
        assert forall|i: int| 1 <= i < after.len() implies (#[trigger] after[i]).in_arena() by {
            assert(after[i] == before[i - 1]);
            if i > 1 {
                assert(before[i - 1].in_arena());
            }
        }
        if !self.collides() {
            assert forall|i: int, j: int| 0 <= i < j < after.len() implies after[i] != after[j] by {
                assert(after[j] == before[j - 1]);
                if i == 0 {
                    assert(before.contains(before[j - 1]));
                } else {
                    assert(after[i] == before[i - 1]);
                }
            }
            let anchor = before.last();
            assert(before.contains(anchor));
            assert forall|i: int| 0 <= i < after.len() implies after[i] != anchor by {
                if i > 0 {
                    assert(after[i] == before[i - 1]);
                }
            }
        }
    }

    /// Eating keeps a round well formed and in play, and leaves no food on
    /// the head's cell.
    pub proof fn lemma_fed_well_formed(self)
        requires
            self.well_formed(),
        ensures
            self.fed().well_formed(),
            self.in_play() ==> self.fed().in_play(),
            !self.fed().food.contains(self.head()),
    {
        let keep = lies_off(self.head());
        let rest = self.food.filter(keep);
        assert forall|i: int| 0 <= i < rest.len() implies {
            &&& (#[trigger] rest[i]).in_arena()
            &&& rest[i] != self.head()
        } by {
            self.food.lemma_filter_pred(keep, i);
            self.food.lemma_filter_contains_rev(keep, rest[i]);
        }
    }

    /// Growth keeps a round well formed and in play.
    pub proof fn lemma_grown_well_formed(self, events: nat)
        requires
            self.well_formed(),
            events > 0 ==> self.last_tail is Some,
        ensures
            self.grown(events).well_formed(),
            self.in_play() ==> self.grown(events).in_play(),
    {
        let before = self.segments;
        let after = self.grown(events).segments;
        if events > 0 {
            assert forall|i: int| 1 <= i < after.len() implies (#[trigger] after[i]).in_arena() by {
                if i < before.len() {
                    assert(before[i].in_arena());
                }
            }
            if self.in_play() {
                assert forall|i: int, j: int| 0 <= i < j < after.len() implies after[i]
                    != after[j] by {
                    if j == before.len() {
                        assert(before.contains(before[i]));
                    }
                }
            }
        }
    }
}

} // verus!
