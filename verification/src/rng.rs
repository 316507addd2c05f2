//! Random cells of the arena.

use vstd::prelude::*;

use crate::grid::{Position, ARENA_HEIGHT, ARENA_WIDTH};

verus! {

/// Draws an integer from `lo..hi` with `fastrand::i32`, which reads and
/// advances the thread-local generator of the `fastrand` crate.
///
/// Trusted: `fastrand::i32` returns a value of the range it is given and
/// panics on an empty range, which the precondition excludes. Nothing else is
/// claimed of the value: two calls with the same bounds may differ.
#[verifier::external_body]
fn random_in_range(lo: i32, hi: i32) -> (n: i32)
    requires
        lo < hi,
    ensures
        lo <= n < hi,
{
    fastrand::i32(lo..hi)
}

/// Draws a cell of the arena, each coordinate independently over its extent.
pub fn random_position() -> (p: Position)
    ensures
        p.in_arena(),
{
    let x: i32 = random_in_range(0, ARENA_WIDTH as i32);
    let y: i32 = random_in_range(0, ARENA_HEIGHT as i32);
    Position { x, y }
}

} // verus!
