//! Laws of the game, proved over the model of a round.

use vstd::arithmetic::div_mod::{
    lemma_fundamental_div_mod, lemma_fundamental_div_mod_converse, lemma_mod_pos_bound,
};
use vstd::prelude::*;

use crate::clock::TimerView;
use crate::direction::{Direction, Keys};
use crate::grid::{Position, ARENA_HEIGHT, ARENA_WIDTH};
use crate::model::{lies_off, lies_on, GameView};

verus! {

/// After a movement the snake is as long as before, its head is on the cell
/// one step ahead of the old head, and every other segment is on the cell
/// that the segment ahead of it had before the movement. The cell that the
/// tail had is the growth anchor.
pub proof fn law_movement_shifts_segments(round: GameView)
    requires
        round.segments.len() >= 1,
    ensures
        round.moved().segments.len() == round.segments.len(),
        round.moved().segments[0] == round.head().neighbor(round.direction),
        forall|i: int|
            1 <= i < round.segments.len() ==> #[trigger] round.moved().segments[i]
                == round.segments[i - 1],
        round.moved().segments == seq![round.next_head()] + round.segments.take(
            round.segments.len() - 1,
        ),
        round.moved().last_tail == Some(round.segments[round.segments.len() - 1]),
{
    assert(round.segments.drop_last() =~= round.segments.take(round.segments.len() - 1));
}

/// A request to reverse is ignored, and no request makes the heading turn
/// into its own opposite.
pub proof fn law_heading_never_reverses(current: Direction, requested: Direction)
    ensures
        requested == current.spec_opposite() ==> current.spec_steer(requested) == current,
        requested != current.spec_opposite() ==> current.spec_steer(requested) == requested,
        current.spec_steer(requested) != current.spec_opposite(),
{
}

/// Whatever keys are held, the input step does not reverse the snake; where
/// the keys ask for the reverse, the round stays as it is.
pub proof fn law_input_never_reverses(round: GameView, keys: Keys)
    ensures
        round.steered(keys).direction != round.direction.spec_opposite(),
        keys.spec_requested(round.direction) == round.direction.spec_opposite() ==> round.steered(
            keys,
        ) == round,
{
}

/// A movement ends the round if and only if the head's new cell is outside
/// the arena or is one of the cells that the snake occupied before the
/// movement, the old head's cell among them like any other. The tick of such
/// a movement ends in the initial round; the tick of any other movement ends
/// with the head on its new cell.
pub proof fn law_game_over_iff_collision(round: GameView)
    requires
        round.segments.len() >= 1,
    ensures
        round.collides() <==> {
            let target = round.next_head();
            ||| target.x < 0
            ||| target.y < 0
            ||| target.x >= ARENA_WIDTH
            ||| target.y >= ARENA_HEIGHT
            ||| exists|i: int| 0 <= i < round.segments.len() && round.segments[i] == target
        },
        round.collides() ==> round.ticked() == GameView::initial(),
        !round.collides() ==> round.ticked().head() == round.next_head(),
{
    let target = round.next_head();
    if round.segments.contains(target) {
        let i = choose|i: int| 0 <= i < round.segments.len() && round.segments[i] == target;
        assert(0 <= i < round.segments.len() && round.segments[i] == target);
    }
    if exists|i: int| 0 <= i < round.segments.len() && round.segments[i] == target {
        let i = choose|i: int| 0 <= i < round.segments.len() && round.segments[i] == target;
        assert(round.segments.contains(round.segments[i]));
    }
}

/// Every item of a sequence of cells lies either on a given cell or off it.
proof fn lemma_on_and_off_partition(cells: Seq<Position>, cell: Position)
    ensures
        cells.filter(lies_on(cell)).len() + cells.filter(lies_off(cell)).len() == cells.len(),
    decreases cells.len(),
{
    reveal(Seq::filter);
    if cells.len() > 0 {
        lemma_on_and_off_partition(cells.drop_last(), cell);
    }
}

/// Filtering a sequence whose items all pass the filter changes nothing.
proof fn lemma_filter_of_kept(cells: Seq<Position>, keep: spec_fn(Position) -> bool)
    requires
        forall|i: int| 0 <= i < cells.len() ==> keep(#[trigger] cells[i]),
    ensures
        cells.filter(keep) == cells,
    decreases cells.len(),
{
    reveal(Seq::filter);
    if cells.len() > 0 {
        let front = cells.drop_last();
        assert forall|i: int| 0 <= i < front.len() implies keep(#[trigger] front[i]) by {
            assert(front[i] == cells[i]);
        }
        lemma_filter_of_kept(front, keep);
        assert(front.push(cells.last()) =~= cells);
    }
}

/// Filtering a sequence of which no item passes the filter leaves nothing.
proof fn lemma_filter_of_dropped(cells: Seq<Position>, keep: spec_fn(Position) -> bool)
    requires
        forall|i: int| 0 <= i < cells.len() ==> !keep(#[trigger] cells[i]),
    ensures
        cells.filter(keep).len() == 0,
    decreases cells.len(),
{
    reveal(Seq::filter);
    if cells.len() > 0 {
        let front = cells.drop_last();
        assert forall|i: int| 0 <= i < front.len() implies !keep(#[trigger] front[i]) by {
            assert(front[i] == cells[i]);
        }
        lemma_filter_of_dropped(front, keep);
    }
}

/// Eating consumes each food item on the head's cell once: every item is
/// either consumed, which counts as one growth event, or left; what is left
/// holds no item on the head's cell; and eating again consumes nothing and
/// changes nothing.
pub proof fn law_eating_is_idempotent(round: GameView)
    ensures
        round.fed().food.len() + round.growth_events() == round.food.len(),
        !round.fed().food.contains(round.head()),
        round.fed().growth_events() == 0,
        round.fed().fed() == round.fed(),
{
    let head = round.head();
    let rest = round.food.filter(lies_off(head));
    lemma_on_and_off_partition(round.food, head);
    assert forall|i: int| 0 <= i < rest.len() implies rest[i] != head by {
        round.food.lemma_filter_pred(lies_off(head), i);
    }
    assert forall|i: int| 0 <= i < rest.len() implies lies_off(head)(#[trigger] rest[i]) by {}
    assert forall|i: int| 0 <= i < rest.len() implies !lies_on(head)(#[trigger] rest[i]) by {}
    lemma_filter_of_kept(rest, lies_off(head));
    lemma_filter_of_dropped(rest, lies_on(head));
}

/// The growth step appends exactly one segment, on the growth anchor, when
/// any growth event fired, however many there were; it appends nothing when
/// none fired. Either way no anchor is left.
pub proof fn law_growth_appends_one_segment(round: GameView, events: nat)
    ensures
        events > 0 ==> round.grown(events).segments == round.segments.push(round.last_tail->0),
        events > 0 ==> round.grown(events) == round.grown(1),
        events == 0 ==> round.grown(events).segments == round.segments,
        round.grown(events).last_tail is None,
{
}

/// In a tick without collision in which the head lands on food, the snake
/// gains one segment on the cell that its tail had before the movement of
/// this tick: the head advances and every old cell stays occupied. Without
/// food under the head the snake only shifts, and its old tail cell is free.
pub proof fn law_tick_grows_at_old_tail(round: GameView)
    requires
        round.in_play(),
        !round.collides(),
    ensures
        round.moved().growth_events() > 0 ==> round.ticked().segments == seq![round.next_head()]
            + round.segments,
        round.moved().growth_events() == 0 ==> round.ticked().segments == round.moved().segments,
        round.moved().growth_events() == 0 ==> !round.ticked().segments.contains(
            round.segments.last(),
        ),
{
    let after = round.moved();
    if after.growth_events() > 0 {
        assert(round.ticked().segments =~= seq![round.next_head()] + round.segments);
    } else {
        assert(round.ticked().segments =~= after.segments);
        round.lemma_moved_well_formed();
    }
}

/// A movement tick takes a round in play to a round in play, with no growth
/// anchor left over.
pub proof fn law_tick_keeps_play(round: GameView)
    requires
        round.in_play(),
    ensures
        round.ticked().in_play(),
        round.ticked().last_tail is None,
{
    round.lemma_moved_well_formed();
    round.moved().lemma_fed_well_formed();
    round.moved().fed().lemma_grown_well_formed(round.moved().growth_events());
}

/// Any number of movement ticks takes a round in play to a round in play.
pub proof fn law_ticks_keep_play(round: GameView, count: nat)
    requires
        round.in_play(),
    ensures
        round.ticked_times(count).in_play(),
    decreases count,
{
    if count > 0 {
        law_ticks_keep_play(round, (count - 1) as nat);
        law_tick_keeps_play(round.ticked_times((count - 1) as nat));
    }
}

/// A timer does not drift: however a stretch of time is cut into two, the
/// same ticks fall due in all and the same time stays accumulated.
pub proof fn law_timer_does_not_drift(timer: TimerView, first: nat, second: nat)
    requires
        timer.well_formed(),
    ensures
        timer.advanced(first).well_formed(),
        timer.due(first) + timer.advanced(first).due(second) == timer.due(first + second),
        timer.advanced(first).advanced(second) == timer.advanced(first + second),
{
    let d = timer.interval as int;
    let whole = (timer.pending + first) as int;
    let rest = whole % d + second;
    lemma_mod_pos_bound(whole, d);
    lemma_mod_pos_bound(rest, d);
    lemma_fundamental_div_mod(whole, d);
    lemma_fundamental_div_mod(rest, d);
    assert(whole + second == (whole / d + rest / d) * d + rest % d) by (nonlinear_arith)
        requires
            whole == d * (whole / d) + whole % d,
            rest == d * (rest / d) + rest % d,
            rest == whole % d + second,
    ;
    lemma_fundamental_div_mod_converse(whole + second, d, whole / d + rest / d, rest % d);
}

} // verus!
