//! The board: a fixed-size grid of occupied positions, one placement at a
//! time, one level of explosion fan-out, and winner detection.
//!
//! A placement promotes the target position's fill level; a placement on a
//! position already at the threshold clears it and returns one particle
//! per in-bounds cardinal neighbour. The board never resolves chains
//! itself: the caller advances the returned particles and places again at
//! each particle's destination when it completes.

use vstd::prelude::*;
use crate::GRID_LEN;
use crate::PlayerId;
use crate::SIDE;
use crate::particle::Direction;
use crate::particle::Particle;

verus! {

/// Fill level of an occupied position. Levels are promoted in the order
/// `One`, `Two`, `Three`; a placement on a position already at `Three`
/// clears it and triggers an explosion, so `Three` is the threshold, not a
/// post-explosion state.
#[derive(Copy, Clone, PartialEq, Eq, Structural, Debug)]
pub enum Dots {
    One,
    Two,
    Three,
}

/// One occupied board position: its owner and its fill level.
#[derive(Copy, Clone, PartialEq, Eq, Structural, Debug)]
pub struct StaticCell {
    pub owner: PlayerId,
    pub value: Dots,
}

impl StaticCell {
    /// Creates an occupied-cell record with the given owner and level.
    pub fn new(owner: PlayerId, value: Dots) -> (r: StaticCell)
        ensures
            r == (StaticCell { owner, value }),
    {
        StaticCell { owner, value }
    }
}

/// The one failure the board reports: a coordinate outside the grid.
#[derive(Copy, Clone, PartialEq, Eq, Structural, Debug)]
pub enum GridError {
    IndexOutOfRange,
}

/// Row-major index of position `(x, y)` in the grid's backing store.
pub open spec fn grid_idx(x: int, y: int) -> int {
    x + y * SIDE
}

/// True when at least one position of the grid is occupied.
pub open spec fn has_occupied(s: Seq<Option<StaticCell>>) -> bool {
    exists|i: int| 0 <= i < s.len() && s[i] is Some
}

/// True when every occupied position of the grid belongs to player `p`.
pub open spec fn all_owned_by(s: Seq<Option<StaticCell>>, p: PlayerId) -> bool {
    forall|i: int| 0 <= i < s.len() && s[i] is Some ==> s[i]->0.owner == p
}

/// Number of in-bounds cardinal neighbours of position `(x, y)`: 4 for
/// interior positions, 3 on an edge, 2 in a corner.
pub open spec fn neighbor_count(x: int, y: int) -> int {
    (if y > 0 { 1int } else { 0int }) + (if x + 1 < SIDE { 1int } else { 0int })
        + (if y + 1 < SIDE { 1int } else { 0int }) + (if x > 0 { 1int } else { 0int })
}

/// The particle batch one explosion at `(x, y)` emits: one fresh particle
/// per in-bounds cardinal neighbour, carrying the placing owner, in the
/// order `Up`, `Right`, `Down`, `Left`.
pub open spec fn explosion_batch(owner: PlayerId, x: usize, y: usize) -> Seq<Particle> {
    let up = if y > 0 { seq![Particle::new_spec(owner, x, y, Direction::Up)] } else { Seq::empty() };
    let right = if x + 1 < SIDE { seq![Particle::new_spec(owner, x, y, Direction::Right)] } else { Seq::empty() };
    let down = if y + 1 < SIDE { seq![Particle::new_spec(owner, x, y, Direction::Down)] } else { Seq::empty() };
    let left = if x > 0 { seq![Particle::new_spec(owner, x, y, Direction::Left)] } else { Seq::empty() };
    up + right + down + left
}

/// What a single placement by `owner` at `(x, y)` does: it touches no
/// other position, and at the target it is a no-op on an empty position,
/// promotes `One` to `Two` and `Two` to `Three` (reassigning the owner),
/// and clears a position at `Three`, emitting the explosion batch.
pub open spec fn put_transition(
    pre: Seq<Option<StaticCell>>,
    post: Seq<Option<StaticCell>>,
    owner: PlayerId,
    x: usize,
    y: usize,
    batch: Option<Seq<Particle>>,
) -> bool {
    let i = grid_idx(x as int, y as int);
    &&& post.len() == pre.len()
    &&& forall|j: int| 0 <= j < pre.len() && j != i ==> post[j] == pre[j]
    &&& match pre[i] {
        None => post[i] is None && batch is None,
        Some(c) => match c.value {
            Dots::One => post[i] == Some(StaticCell { owner, value: Dots::Two }) && batch is None,
            Dots::Two => post[i] == Some(StaticCell { owner, value: Dots::Three }) && batch is None,
            Dots::Three => post[i] is None && batch == Some(explosion_batch(owner, x, y)),
        },
    }
}

/// The sequences a particle batch returned by a placement stands for.
pub open spec fn batch_view(r: Option<Vec<Particle>>) -> Option<Seq<Particle>> {
    match r {
        Some(v) => Some(v@),
        None => None,
    }
}

/// The winner of a grid: the sole owner of all occupied positions, if the
/// grid has any occupied position and one player owns them all; nothing on
/// an empty grid or when two or more owners are present.
pub open spec fn winner_spec(s: Seq<Option<StaticCell>>) -> Option<PlayerId> {
    if exists|p: PlayerId| has_occupied(s) && all_owned_by(s, p) {
        Some(choose|p: PlayerId| has_occupied(s) && all_owned_by(s, p))
    } else {
        None
    }
}

/// The square board: one `Option<StaticCell>` per position, stored
/// row-major, with position `(x, y)` at index `x + y * SIDE`.
pub struct Grid {
    cells: Vec<Option<StaticCell>>,
}

impl View for Grid {
    type V = Seq<Option<StaticCell>>;

    closed spec fn view(&self) -> Seq<Option<StaticCell>> {
        self.cells@
    }
}

impl Grid {
    /// The grid's backing store always holds exactly one slot per
    /// board position.
    pub open spec fn wf(&self) -> bool {
        self@.len() == GRID_LEN
    }

    /// The content of position `(x, y)`.
    pub open spec fn cell_at(&self, x: int, y: int) -> Option<StaticCell> {
        self@[grid_idx(x, y)]
    }

    /// Creates an entirely empty board.
    pub fn new() -> (r: Grid)
        ensures
            r.wf(),
            forall|i: int| 0 <= i < GRID_LEN ==> r@[i] is None,
    {
        let mut cells: Vec<Option<StaticCell>> = Vec::new();
        let mut i: usize = 0;
        while i < GRID_LEN
            invariant
                i <= GRID_LEN,
                cells@.len() == i,
                forall|j: int| 0 <= j < i ==> cells@[j] is None,
            decreases GRID_LEN - i,
        {
            cells.push(None);
            i = i + 1;
        }
        Grid { cells }
    }

    /// Read-only lookup of position `(x, y)`; no side effects.
    pub fn get(&self, x: usize, y: usize) -> (r: Option<&StaticCell>)
        requires
            self.wf(),
            x < SIDE,
            y < SIDE,
        ensures
            match r {
                Some(c) => self.cell_at(x as int, y as int) == Some(*c),
                None => self.cell_at(x as int, y as int) is None,
            },
    {
        let i: usize = x + y * SIDE;
        match &self.cells[i] {
            Some(c) => Some(c),
            None => None,
        }
    }

    /// Overwrites position `(x, y)` with `value`.
    pub fn set(&mut self, x: usize, y: usize, value: Option<StaticCell>)
        requires
            old(self).wf(),
            x < SIDE,
            y < SIDE,
        ensures
            final(self).wf(),
            final(self)@ == old(self)@.update(grid_idx(x as int, y as int), value),
    {
        let i: usize = x + y * SIDE;
        self.cells.set(i, value);
    }

    /// Applies one placement by `owner` at `(x, y)` and performs exactly
    /// one level of explosion fan-out (see [`put_transition`]): the
    /// returned batch, if any, is not resolved recursively — the caller
    /// drives the chain by placing again at each completed particle's
    /// destination.
    ///
    /// Placing on an empty position is deliberately a no-op, as the rules
    /// this board implements prescribe: positions only ever change through
    /// promotions and explosions of already-occupied positions.
    pub fn put(&mut self, owner: PlayerId, x: usize, y: usize) -> (r: Option<Vec<Particle>>)
        requires
            old(self).wf(),
            x < SIDE,
            y < SIDE,
        ensures
            final(self).wf(),
            put_transition(old(self)@, final(self)@, owner, x, y, batch_view(r)),
    {
        let cur: Option<StaticCell> = match self.get(x, y) {
            Some(c) => Some(*c),
            None => None,
        };
        match cur {
            None => None,
            Some(c) => match c.value {
                Dots::One => {
                    self.set(x, y, Some(StaticCell::new(owner, Dots::Two)));
                    None
                },
                Dots::Two => {
                    self.set(x, y, Some(StaticCell::new(owner, Dots::Three)));
                    None
                },
                Dots::Three => {
                    self.set(x, y, None);
                    let mut batch: Vec<Particle> = Vec::new();
                    if y > 0 {
                        batch.push(Particle::new(owner, x, y, Direction::Up));
                    }
                    if x + 1 < SIDE {
                        batch.push(Particle::new(owner, x, y, Direction::Right));
                    }
                    if y + 1 < SIDE {
                        batch.push(Particle::new(owner, x, y, Direction::Down));
                    }
                    if x > 0 {
                        batch.push(Particle::new(owner, x, y, Direction::Left));
                    }
                    proof {
                        assert(batch@ =~= explosion_batch(owner, x, y));
                    }
                    Some(batch)
                },
            },
        }
    }

    /// Scans the grid in row-major order and returns the sole owner of
    /// all occupied positions — nothing when the grid is entirely empty
    /// or when two or more distinct owners are present.
    pub fn get_winner(&self) -> (r: Option<PlayerId>)
        requires
            self.wf(),
        ensures
            r == winner_spec(self@),
    {
        let n: usize = self.cells.len();
        let mut i: usize = 0;
        while i < n && self.cells[i].is_none()
            invariant
                n == self@.len(),
                i <= n,
                forall|j: int| 0 <= j < i ==> self@[j] is None,
            decreases n - i,
        {
            i = i + 1;
        }
        if i >= n {
            proof {
                assert(!has_occupied(self@));
            }
            return None;
        }
        let winner_id: PlayerId = self.cells[i].as_ref().unwrap().owner;
        let ghost first: int = i as int;
        while i < n && (self.cells[i].is_none() || self.cells[i].as_ref().unwrap().owner == winner_id)
            invariant
                n == self@.len(),
                i <= n,
                0 <= first < n,
                self@[first] is Some,
                self@[first]->0.owner == winner_id,
                forall|j: int| 0 <= j < i && self@[j] is Some ==> self@[j]->0.owner == winner_id,
            decreases n - i,
        {
            i = i + 1;
        }
        if i < n {
            proof {
                assert forall|p: PlayerId| !(has_occupied(self@) && all_owned_by(self@, p)) by {
                    if all_owned_by(self@, p) {
                        assert(self@[first]->0.owner == p);
                        assert(self@[i as int]->0.owner == p);
                    }
                };
            }
            None
        } else {
            proof {
                assert(has_occupied(self@));
                assert(all_owned_by(self@, winner_id));
                let w = choose|p: PlayerId| has_occupied(self@) && all_owned_by(self@, p);
                assert(self@[first]->0.owner == w);
                assert(self@[first]->0.owner == winner_id);
            }
            Some(winner_id)
        }
    }

    /// Bounds-checked lookup: reports [`GridError::IndexOutOfRange`] for a
    /// coordinate outside the grid instead of leaving the call undefined.
    pub fn try_get(&self, x: usize, y: usize) -> (r: Result<Option<StaticCell>, GridError>)
        requires
            self.wf(),
        ensures
            x < SIDE && y < SIDE ==> r == Ok::<Option<StaticCell>, GridError>(
                self.cell_at(x as int, y as int),
            ),
            !(x < SIDE && y < SIDE) ==> r == Err::<Option<StaticCell>, GridError>(
                GridError::IndexOutOfRange,
            ),
    {
        if x < SIDE && y < SIDE {
            match self.get(x, y) {
                Some(c) => Ok(Some(*c)),
                None => Ok(None),
            }
        } else {
            Err(GridError::IndexOutOfRange)
        }
    }

    /// Bounds-checked placement: exactly [`Grid::put`] on an in-bounds
    /// coordinate, and [`GridError::IndexOutOfRange`] — with the grid left
    /// untouched — on any other.
    pub fn try_put(&mut self, owner: PlayerId, x: usize, y: usize) -> (r: Result<
        Option<Vec<Particle>>,
        GridError,
    >)
        requires
            old(self).wf(),
        ensures
            final(self).wf(),
            x < SIDE && y < SIDE ==> (r matches Ok(b) && put_transition(
                old(self)@,
                final(self)@,
                owner,
                x,
                y,
                batch_view(b),
            )),
            !(x < SIDE && y < SIDE) ==> (r matches Err(e) && e == GridError::IndexOutOfRange
                && final(self)@ == old(self)@),
    {
        if x < SIDE && y < SIDE {
            Ok(self.put(owner, x, y))
        } else {
            Err(GridError::IndexOutOfRange)
        }
    }
}

/// An entirely empty grid has no winner.
pub proof fn lemma_empty_grid_no_winner(s: Seq<Option<StaticCell>>)
    requires
        forall|i: int| 0 <= i < s.len() ==> s[i] is None,
    ensures
        winner_spec(s) is None,
{
    assert(!has_occupied(s));
}

/// A player is the winner exactly when the grid has at least one occupied
/// position and every occupied position belongs to that player.
pub proof fn lemma_winner_iff_sole_owner(s: Seq<Option<StaticCell>>, p: PlayerId)
    ensures
        winner_spec(s) == Some(p) <==> has_occupied(s) && all_owned_by(s, p),
{
    if has_occupied(s) && all_owned_by(s, p) {
        let w = choose|q: PlayerId| has_occupied(s) && all_owned_by(s, q);
        let i = choose|i: int| 0 <= i < s.len() && s[i] is Some;
        assert(s[i]->0.owner == w);
        assert(s[i]->0.owner == p);
    }
    if winner_spec(s) == Some(p) {
        let w = choose|q: PlayerId| has_occupied(s) && all_owned_by(s, q);
        assert(has_occupied(s) && all_owned_by(s, w));
    }
}

/// An explosion's batch holds one particle per in-bounds cardinal
/// neighbour of the exploded position — 4 for an interior position, 3 on
/// an edge, 2 in a corner, and never fewer than 2 — and every particle in
/// it is fresh, owned by the placing player, and starts at that position.
pub proof fn lemma_explosion_batch_shape(owner: PlayerId, x: usize, y: usize)
    requires
        x < SIDE,
        y < SIDE,
    ensures
        explosion_batch(owner, x, y).len() == neighbor_count(x as int, y as int),
        2 <= explosion_batch(owner, x, y).len() <= 4,
        (forall|k: int| 0 <= k < explosion_batch(owner, x, y).len() ==> {
            let q = #[trigger] explosion_batch(owner, x, y)[k];
            &&& q.owner == owner
            &&& q.origin_x == x
            &&& q.origin_y == y
            &&& q.progress == 0
            &&& q.wf()
        }),
{
}

} // verus!
