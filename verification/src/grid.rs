//! The map snapshot: grid dimensions, tile lookup, snake registry, bounds
//! predicate, and legal-move predicate.
//!
//! The real game owns the authoritative map; the engine consumes one
//! immutable snapshot of it per turn.  This module models that snapshot with
//! plain values: a row-major tile vector, and one record per active snake
//! that carries its identity, its occupied positions (head first), and the
//! answers of the externally owned legal-move predicate for the four
//! directions this turn.

use vstd::prelude::*;

use crate::geometry::{Coordinate, Direction, COORD_LIMIT};
use crate::tile::{tile_value, Tile, SNAKE_HEAD_VALUE};

verus! {

/// One active snake of the snapshot: its identity, its ordered occupied
/// positions (head first by convention), and the legal-move predicate's
/// verdict for each direction this turn.
#[derive(Clone, Debug)]
pub struct SnakeInfo {
    pub id: u64,
    pub positions: Vec<Coordinate>,
    pub legal_up: bool,
    pub legal_down: bool,
    pub legal_left: bool,
    pub legal_right: bool,
}

/// The grid snapshot: dimensions, a row-major tile vector of length
/// `width * height`, and the active snakes.
#[derive(Clone, Debug)]
pub struct GameMap {
    pub width: usize,
    pub height: usize,
    pub tiles: Vec<Tile>,
    pub snakes: Vec<SnakeInfo>,
}

impl GameMap {
    /// Whether `c` lies inside the grid.
    pub open spec fn in_bounds(self, c: Coordinate) -> bool {
        &&& 0 <= c.x < self.width
        &&& 0 <= c.y < self.height
    }

    /// Tile lookup, total over all integer coordinates: cells outside the
    /// grid read as `Wall`, so neighbor lookups near the border never fail.
    pub open spec fn spec_tile_at(self, c: Coordinate) -> Tile {
        if self.in_bounds(c) {
            self.tiles@[c.y * self.width + c.x]
        } else {
            Tile::Wall
        }
    }

    /// Well-formedness of the grid itself: the tile vector covers the whole
    /// grid, and the dimensions stay within the coordinate limit.
    pub open spec fn grid_wf(self) -> bool {
        &&& self.width as int * self.height as int == self.tiles@.len()
        &&& self.width as int <= COORD_LIMIT as int
        &&& self.height as int <= COORD_LIMIT as int
    }

    /// Well-formedness of one snake against this map: it occupies at least
    /// one cell, every occupied cell is inside the grid, the first stored
    /// position is the one and only occupied cell that values to the
    /// snake-head score.  The last two clauses are the head convention the
    /// selector relies on: head first, identified by its valuation.
    pub open spec fn snake_wf(self, s: SnakeInfo) -> bool {
        &&& s.positions@.len() > 0
        &&& forall|j: int|
            0 <= j < s.positions@.len() ==> self.in_bounds(#[trigger] s.positions@[j])
        &&& tile_value(self.spec_tile_at(s.positions@[0])) == SNAKE_HEAD_VALUE as int
        &&& forall|j: int|
            1 <= j < s.positions@.len() ==> tile_value(
                self.spec_tile_at(#[trigger] s.positions@[j]),
            ) != SNAKE_HEAD_VALUE as int
    }

    /// Well-formedness of the whole snapshot.
    pub open spec fn wf(self) -> bool {
        &&& self.grid_wf()
        &&& forall|i: int| 0 <= i < self.snakes@.len() ==> self.snake_wf(#[trigger] self.snakes@[i])
    }

    /// Whether some active snake carries identity `id`.
    pub open spec fn has_snake(self, id: u64) -> bool {
        exists|i: int| 0 <= i < self.snakes@.len() && (#[trigger] self.snakes@[i]).id == id
    }

    /// The index of the first active snake carrying identity `id`.
    pub open spec fn first_snake_index(self, id: u64) -> int {
        choose|i: int|
            0 <= i < self.snakes@.len() && (#[trigger] self.snakes@[i]).id == id && forall|j: int|
                0 <= j < i ==> self.snakes@[j].id != id
    }

    /// The externally owned legal-move predicate, read from the snapshot.
    pub open spec fn spec_can_move(self, s: SnakeInfo, d: Direction) -> bool {
        match d {
            Direction::Up => s.legal_up,
            Direction::Down => s.legal_down,
            Direction::Left => s.legal_left,
            Direction::Right => s.legal_right,
        }
    }

    /// Whether `c` lies inside the grid.
    pub fn inside_map(&self, c: Coordinate) -> (r: bool)
        requires
            self.grid_wf(),
        ensures
            r == self.in_bounds(c),
    {
        c.x >= 0 && c.y >= 0 && c.x < self.width as i64 && c.y < self.height as i64
    }

    /// Tile lookup, total over all integer coordinates; out-of-grid cells
    /// read as `Wall`.
    pub fn get_tile_at(&self, c: Coordinate) -> (t: Tile)
        requires
            self.grid_wf(),
        ensures
            t == self.spec_tile_at(c),
    {
        if c.x >= 0 && c.y >= 0 && c.x < self.width as i64 && c.y < self.height as i64 {
            let total = self.tiles.len();
            proof {
                lemma_row_major_index_in_range(
                    self.width as int,
                    self.height as int,
                    c.x as int,
                    c.y as int,
                );
                assert((c.y as int) * (self.width as int) + (c.x as int) < (total as int));
            }
            let idx: usize = (c.y as usize) * self.width + (c.x as usize);
            self.tiles[idx]
        } else {
            Tile::Wall
        }
    }

    /// The snapshot's verdict of the legal-move predicate for snake `s` and
    /// direction `d` this turn.
    pub fn can_snake_move_in_direction(&self, s: &SnakeInfo, d: Direction) -> (r: bool)
        ensures
            r == self.spec_can_move(*s, d),
    {
        match d {
            Direction::Up => s.legal_up,
            Direction::Down => s.legal_down,
            Direction::Left => s.legal_left,
            Direction::Right => s.legal_right,
        }
    }

    /// Look an active snake up by identity; `None` when the identity is not
    /// present on the map.  On success the returned index is the first with
    /// that identity.
    pub fn get_snake_by_id(&self, id: u64) -> (r: Option<usize>)
        ensures
            match r {
                Some(i) => i < self.snakes@.len() && self.snakes@[i as int].id == id
                    && (forall|j: int| 0 <= j < i ==> self.snakes@[j].id != id),
                None => !self.has_snake(id),
            },
    {
        let n = self.snakes.len();
        let mut i: usize = 0;
        while i < n
            invariant
                n == self.snakes@.len(),
                0 <= i <= n,
                forall|j: int| 0 <= j < i ==> self.snakes@[j].id != id,
            decreases n - i,
        {
            if self.snakes[i].id == id {
                return Some(i);
            }
            i += 1;
        }
        None
    }
}

/// A cell inside a `w` by `h` grid has a row-major index inside the tile
/// vector.
pub proof fn lemma_row_major_index_in_range(w: int, h: int, x: int, y: int)
    requires
        0 <= x < w,
        0 <= y < h,
    ensures
        0 <= y * w + x < w * h,
        y * w >= 0,
{
    assert(0 <= y * w + x < w * h && y * w >= 0) by (nonlinear_arith)
        requires
            0 <= x < w,
            0 <= y < h,
    ;
}

/// The first index carrying `id` is the `first_snake_index`: the witness of
/// the `choose` is unique, so any index shown to be a first match equals it.
pub proof fn lemma_first_snake_index_is(m: GameMap, id: u64, i: int)
    requires
        0 <= i < m.snakes@.len(),
        m.snakes@[i].id == id,
        forall|j: int| 0 <= j < i ==> m.snakes@[j].id != id,
    ensures
        m.first_snake_index(id) == i,
{
    let c = m.first_snake_index(id);
    assert(0 <= c < m.snakes@.len() && m.snakes@[c].id == id && forall|j: int|
        0 <= j < c ==> m.snakes@[j].id != id) by {
        assert(0 <= i < m.snakes@.len() && (m.snakes@[i]).id == id && forall|j: int|
            0 <= j < i ==> m.snakes@[j].id != id);
    }
    if c < i {
        assert(m.snakes@[c].id != id);
    } else if i < c {
        assert(m.snakes@[i].id != id);
    }
}

} // verus!
