//! Decision engine for a grid-based multiplayer snake game.
//!
//! Each game turn the agent receives an immutable snapshot of the shared map
//! and must answer with one of the four cardinal movement directions.  The
//! engine is built from three pieces, called in order: a tile valuator that
//! assigns a fixed heuristic score to each kind of grid cell, a move scorer
//! that estimates how desirable a candidate destination is from the
//! destination's own value and its neighborhood, and a move selector that
//! scores every legal direction and returns the best one (falling back to
//! `Up` when no move is legal).

pub mod geometry;
pub mod grid;
pub mod snake;
pub mod tile;
pub mod visited;

pub use geometry::{Coordinate, Direction};
pub use grid::{GameMap, SnakeInfo};
pub use snake::{InboundMessage, Snake};
pub use tile::Tile;
pub use visited::VisitedSet;
