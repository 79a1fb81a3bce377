//! Core rules of a grid-based chain-reaction game.
//!
//! Players place markers on a fixed-size board. An occupied position
//! accumulates markers up to a threshold; one more placement clears it and
//! emits a batch of particles, one per in-bounds cardinal neighbour. The
//! caller animates each particle and, when it completes, places the
//! particle's owner at its destination, which is how chain reactions
//! propagate one generation at a time.
//!
//! The crate has two components: [`board`] owns the grid state machine
//! (placement, one level of explosion fan-out, winner detection), and
//! [`particle`] models one explosion fragment travelling at a fixed rate
//! towards a neighbouring position.

use vstd::prelude::*;

pub mod board;
pub mod particle;

verus! {

/// Side length of the square board: positions are addressed by
/// `(x, y)` with `0 <= x < SIDE` and `0 <= y < SIDE`.
pub const SIDE: usize = 5;

/// Number of positions on the board, laid out row-major:
/// position `(x, y)` lives at index `x + y * SIDE`.
pub const GRID_LEN: usize = SIDE * SIDE;

/// True when `(x, y)` addresses a position on the board.
pub open spec fn in_bounds(x: int, y: int) -> bool {
    0 <= x < SIDE && 0 <= y < SIDE
}

/// Opaque identifier of a player. Only equality is meaningful.
#[derive(Copy, Clone, PartialEq, Eq, Structural, Debug)]
pub struct PlayerId(pub usize);

} // verus!
