//! Explosion fragments: transient cells travelling from an exploded
//! position towards one cardinal neighbour.
//!
//! A particle advances by a fixed increment once per tick and completes
//! after exactly [`TICKS`] calls of [`Particle::advance`]. Coordinates are
//! kept in exact fixed-point arithmetic, in hundredths of a cell, so a
//! completed particle sits precisely on its destination position: the
//! per-tick step is [`STEP_HUNDREDTHS`] hundredths, and
//! `TICKS * STEP_HUNDREDTHS == SCALE`, one whole cell.

use vstd::prelude::*;
use crate::in_bounds;
use crate::PlayerId;
use crate::SIDE;

verus! {

/// Number of `advance` calls a particle needs to complete.
pub const TICKS: u32 = 50;

/// Fixed-point scale: coordinate units per board cell.
pub const SCALE: i32 = 100;

/// Distance travelled per `advance` call, in hundredths of a cell.
pub const STEP_HUNDREDTHS: i32 = 2;

/// The cardinal direction a particle travels, as a unit offset on the
/// board: `Up` is `(0, -1)`, `Right` is `(1, 0)`, `Down` is `(0, 1)`,
/// `Left` is `(-1, 0)`.
#[derive(Copy, Clone, PartialEq, Eq, Structural, Debug)]
pub enum Direction {
    Up,
    Right,
    Down,
    Left,
}

/// Horizontal component of a direction's unit offset.
pub open spec fn dir_dx(d: Direction) -> int {
    match d {
        Direction::Up => 0,
        Direction::Right => 1,
        Direction::Down => 0,
        Direction::Left => -1,
    }
}

/// Vertical component of a direction's unit offset.
pub open spec fn dir_dy(d: Direction) -> int {
    match d {
        Direction::Up => -1,
        Direction::Right => 0,
        Direction::Down => 1,
        Direction::Left => 0,
    }
}

/// One explosion fragment: owned by a player, travelling from an origin
/// board position towards the neighbour in `direction`. `progress` counts
/// the `advance` calls made so far, capped at [`TICKS`]; the continuous
/// position is derived from it exactly (see [`Particle::pos_x_spec`]).
#[derive(Copy, Clone, PartialEq, Eq, Structural, Debug)]
pub struct Particle {
    pub owner: PlayerId,
    pub origin_x: usize,
    pub origin_y: usize,
    pub progress: u32,
    pub direction: Direction,
}

impl Particle {
    /// A particle is well formed when its origin is a board position and
    /// its progress never passed the completion threshold.
    pub open spec fn wf(self) -> bool {
        self.origin_x < SIDE && self.origin_y < SIDE && self.progress <= TICKS
    }

    /// The particle value a fresh construction yields.
    pub open spec fn new_spec(owner: PlayerId, x: usize, y: usize, direction: Direction) -> Particle {
        Particle { owner, origin_x: x, origin_y: y, progress: 0, direction }
    }

    /// Signed distance travelled so far along the horizontal axis, in
    /// hundredths of a cell.
    pub open spec fn travel_x_spec(self) -> int {
        match self.direction {
            Direction::Right => STEP_HUNDREDTHS * self.progress,
            Direction::Left => -(STEP_HUNDREDTHS * self.progress),
            Direction::Up => 0,
            Direction::Down => 0,
        }
    }

    /// Signed distance travelled so far along the vertical axis, in
    /// hundredths of a cell.
    pub open spec fn travel_y_spec(self) -> int {
        match self.direction {
            Direction::Down => STEP_HUNDREDTHS * self.progress,
            Direction::Up => -(STEP_HUNDREDTHS * self.progress),
            Direction::Right => 0,
            Direction::Left => 0,
        }
    }

    /// Horizontal position in hundredths of a cell: the origin plus the
    /// distance travelled so far along the direction's horizontal axis.
    pub open spec fn pos_x_spec(self) -> int {
        self.origin_x * SCALE + self.travel_x_spec()
    }

    /// Vertical position in hundredths of a cell.
    pub open spec fn pos_y_spec(self) -> int {
        self.origin_y * SCALE + self.travel_y_spec()
    }

    /// True when the particle has finished its traversal.
    pub open spec fn is_completed_spec(self) -> bool {
        self.progress >= TICKS
    }

    /// Creates a particle at the integer origin `(x, y)` with progress 0.
    pub fn new(owner: PlayerId, x: usize, y: usize, direction: Direction) -> (r: Particle)
        requires
            x < SIDE,
            y < SIDE,
        ensures
            r == Particle::new_spec(owner, x, y, direction),
            r.wf(),
    {
        Particle { owner, origin_x: x, origin_y: y, progress: 0, direction }
    }

    /// True iff the particle has completed its traversal.
    pub fn is_completed(&self) -> (r: bool)
        ensures
            r == self.is_completed_spec(),
    {
        self.progress >= TICKS
    }

    /// Current horizontal position, in hundredths of a cell.
    pub fn pos_x_hundredths(&self) -> (r: i32)
        requires
            self.wf(),
        ensures
            r == self.pos_x_spec(),
    {
        let base: i32 = (self.origin_x as i32) * SCALE;
        match self.direction {
            Direction::Right => base + STEP_HUNDREDTHS * (self.progress as i32),
            Direction::Left => base - STEP_HUNDREDTHS * (self.progress as i32),
            Direction::Up => base,
            Direction::Down => base,
        }
    }

    /// Current vertical position, in hundredths of a cell.
    pub fn pos_y_hundredths(&self) -> (r: i32)
        requires
            self.wf(),
        ensures
            r == self.pos_y_spec(),
    {
        let base: i32 = (self.origin_y as i32) * SCALE;
        match self.direction {
            Direction::Down => base + STEP_HUNDREDTHS * (self.progress as i32),
            Direction::Up => base - STEP_HUNDREDTHS * (self.progress as i32),
            Direction::Right => base,
            Direction::Left => base,
        }
    }

    /// The state one `advance` call leaves behind: completed particles are
    /// left unchanged, a travelling particle gains one tick of progress.
    pub open spec fn advance_spec(self) -> Particle {
        if self.progress >= TICKS {
            self
        } else {
            Particle { progress: (self.progress + 1) as u32, ..self }
        }
    }

    /// Advances the particle by one tick.
    ///
    /// A completed particle stays exactly where it is — its position is
    /// already precisely on the destination — and the call reports `true`.
    /// Otherwise the particle moves one step along its direction's axis,
    /// gains one tick of progress, and the call reports `false`.
    pub fn advance(&mut self) -> (r: bool)
        requires
            old(self).wf(),
        ensures
            final(self).wf(),
            *final(self) == old(self).advance_spec(),
            r == old(self).is_completed_spec(),
    {
        if self.progress >= TICKS {
            true
        } else {
            self.progress = self.progress + 1;
            false
        }
    }

    /// Horizontal coordinate of the cell this particle is headed for.
    pub open spec fn dest_x_spec(self) -> int {
        self.origin_x + dir_dx(self.direction)
    }

    /// Vertical coordinate of the cell this particle is headed for.
    pub open spec fn dest_y_spec(self) -> int {
        self.origin_y + dir_dy(self.direction)
    }

    /// The board position this particle is headed for: its origin plus its
    /// direction's unit offset, or nothing when that position would leave
    /// the board. Particles emitted by an explosion always point at a
    /// position on the board.
    pub fn destination(&self) -> (r: Option<(usize, usize)>)
        requires
            self.wf(),
        ensures
            match r {
                Some(d) => in_bounds(self.dest_x_spec(), self.dest_y_spec())
                    && d.0 == self.dest_x_spec() && d.1 == self.dest_y_spec(),
                None => !in_bounds(self.dest_x_spec(), self.dest_y_spec()),
            },
    {
        match self.direction {
            Direction::Up => if self.origin_y > 0 {
                Some((self.origin_x, self.origin_y - 1))
            } else {
                None
            },
            Direction::Right => if self.origin_x + 1 < SIDE {
                Some((self.origin_x + 1, self.origin_y))
            } else {
                None
            },
            Direction::Down => if self.origin_y + 1 < SIDE {
                Some((self.origin_x, self.origin_y + 1))
            } else {
                None
            },
            Direction::Left => if self.origin_x > 0 {
                Some((self.origin_x - 1, self.origin_y))
            } else {
                None
            },
        }
    }
}

/// The particle state after `n` calls of [`Particle::advance`].
pub open spec fn advance_n_spec(p: Particle, n: nat) -> Particle
    decreases n,
{
    if n == 0 {
        p
    } else {
        advance_n_spec(p, (n - 1) as nat).advance_spec()
    }
}

/// Repeated advancing leaves every field but `progress` unchanged, and
/// drives `progress` up by one per call until it reaches [`TICKS`], where
/// it stays.
pub proof fn lemma_advance_n_progress(p: Particle, n: nat)
    requires
        p.progress <= TICKS,
    ensures
        advance_n_spec(p, n).owner == p.owner,
        advance_n_spec(p, n).origin_x == p.origin_x,
        advance_n_spec(p, n).origin_y == p.origin_y,
        advance_n_spec(p, n).direction == p.direction,
        advance_n_spec(p, n).progress == (if p.progress + n <= TICKS {
            p.progress + n
        } else {
            TICKS as int
        }),
    decreases n,
{
    if n > 0 {
        lemma_advance_n_progress(p, (n - 1) as nat);
    }
}

/// Completion is deterministic: starting from a fresh particle, fewer than
/// [`TICKS`] `advance` calls never complete it, exactly [`TICKS`] calls
/// do, and the completed particle's position lies exactly on the
/// neighbouring cell one unit along its direction.
pub proof fn lemma_completion_deterministic(p: Particle, n: nat)
    requires
        p.wf(),
        p.progress == 0,
    ensures
        n < TICKS ==> !advance_n_spec(p, n).is_completed_spec(),
        advance_n_spec(p, TICKS as nat).is_completed_spec(),
        advance_n_spec(p, TICKS as nat).pos_x_spec() == p.dest_x_spec() * SCALE,
        advance_n_spec(p, TICKS as nat).pos_y_spec() == p.dest_y_spec() * SCALE,
{
    lemma_advance_n_progress(p, n);
    lemma_advance_n_progress(p, TICKS as nat);
    let q = advance_n_spec(p, TICKS as nat);
    match p.direction {
        Direction::Up => {
            assert(q.pos_x_spec() == p.dest_x_spec() * SCALE);
            assert(q.pos_y_spec() == p.dest_y_spec() * SCALE);
        },
        Direction::Right => {
            assert(q.pos_x_spec() == p.dest_x_spec() * SCALE);
            assert(q.pos_y_spec() == p.dest_y_spec() * SCALE);
        },
        Direction::Down => {
            assert(q.pos_x_spec() == p.dest_x_spec() * SCALE);
            assert(q.pos_y_spec() == p.dest_y_spec() * SCALE);
        },
        Direction::Left => {
            assert(q.pos_x_spec() == p.dest_x_spec() * SCALE);
            assert(q.pos_y_spec() == p.dest_y_spec() * SCALE);
        },
    }
}

/// Advancing is idempotent past completion: once a particle has
/// completed, any number of further `advance` calls leaves it — its
/// position included — exactly as it is.
pub proof fn lemma_advance_idempotent_after_completion(p: Particle, n: nat)
    requires
        p.is_completed_spec(),
    ensures
        advance_n_spec(p, n) == p,
    decreases n,
{
    if n > 0 {
        lemma_advance_idempotent_after_completion(p, (n - 1) as nat);
    }
}

} // verus!
