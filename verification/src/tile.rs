//! Grid-cell classification and the tile valuator.

use vstd::prelude::*;

use crate::geometry::Coordinate;

verus! {

/// Classification of one grid cell.  Each occupied variant carries the
/// cell's coordinate; the two snake variants also carry the identity of the
/// occupying snake.  The engine treats a tile as read-only: nothing beyond
/// the variant tag ever influences its valuation.
#[derive(Clone, Copy, Debug, PartialEq, Eq, Structural)]
pub enum Tile {
    Wall,
    Food { coordinate: Coordinate },
    Obstacle { coordinate: Coordinate },
    Empty { coordinate: Coordinate },
    SnakeHead { coordinate: Coordinate, snake_id: u64 },
    SnakeBody { coordinate: Coordinate, snake_id: u64 },
}

/// The fixed heuristic desirability score of a tile.  The ordering encodes
/// policy: avoid snake bodies and walls most strongly, prefer food, treat
/// empty space as a good default, and treat any head (one's own included) as
/// mildly undesirable.
pub open spec fn tile_value(t: Tile) -> int {
    match t {
        Tile::Wall => -200,
        Tile::Food { .. } => 500,
        Tile::Obstacle { .. } => -150,
        Tile::Empty { .. } => 200,
        Tile::SnakeHead { .. } => -50,
        Tile::SnakeBody { .. } => -250,
    }
}

/// The valuation of every `SnakeHead` tile; the move selector locates the
/// head by scanning a snake's positions for this score.
pub const SNAKE_HEAD_VALUE: i32 = -50;

/// Whether two tiles carry the same variant tag, whatever their payloads.
pub open spec fn same_variant(a: Tile, b: Tile) -> bool {
    match (a, b) {
        (Tile::Wall, Tile::Wall) => true,
        (Tile::Food { .. }, Tile::Food { .. }) => true,
        (Tile::Obstacle { .. }, Tile::Obstacle { .. }) => true,
        (Tile::Empty { .. }, Tile::Empty { .. }) => true,
        (Tile::SnakeHead { .. }, Tile::SnakeHead { .. }) => true,
        (Tile::SnakeBody { .. }, Tile::SnakeBody { .. }) => true,
        _ => false,
    }
}

/// The valuator is total and deterministic: tiles of the same variant always
/// value to the same score, whatever coordinates or snake identities they
/// carry.
pub proof fn lemma_tile_value_variant_only(a: Tile, b: Tile)
    requires
        same_variant(a, b),
    ensures
        tile_value(a) == tile_value(b),
{
}

/// Every tile valuation lies between the snake-body score and the food
/// score; the scorer's overflow reasoning rests on this range.
pub proof fn lemma_tile_value_bounds(t: Tile)
    ensures
        -250 <= tile_value(t) <= 500,
{
}

impl Tile {
    /// The fixed heuristic desirability score of this tile.  Total over the
    /// variant set; no failure modes.
    pub fn value(&self) -> (r: i32)
        ensures
            r as int == tile_value(*self),
    {
        match *self {
            Tile::Wall => -200,
            Tile::Food { .. } => 500,
            Tile::Obstacle { .. } => -150,
            Tile::Empty { .. } => 200,
            Tile::SnakeHead { .. } => -50,
            Tile::SnakeBody { .. } => -250,
        }
    }
}

} // verus!
