//! Coordinates, cardinal directions, and the movement-delta mappings.

use vstd::prelude::*;

verus! {

/// Largest coordinate magnitude the scoring arithmetic accepts.  Keeping
/// every coordinate within this range (with one cell of slack for neighbor
/// lookups) guarantees that the squared-distance computation cannot overflow
/// an `i64`.
pub const COORD_LIMIT: i64 = 1_000_000_000;

/// Squared length of the 50-unit distance cutoff used by the move scorer.
/// Comparing squared distances against it is exact for integer coordinates,
/// so no floating-point distance is ever needed.
pub const CUTOFF_SQUARED: i64 = 2500;

/// An integer (x, y) position on the grid.  A plain value type: copied
/// freely, compared field by field.
#[derive(Clone, Copy, Debug, PartialEq, Eq, Structural)]
pub struct Coordinate {
    pub x: i64,
    pub y: i64,
}

/// One of the four cardinal movement directions; no diagonal movement exists.
#[derive(Clone, Copy, Debug, PartialEq, Eq, Structural)]
pub enum Direction {
    Up,
    Down,
    Left,
    Right,
}

/// The unit movement delta of each direction.  The grid's y axis grows
/// downward, so `Up` is (0, -1) and `Down` is (0, 1).
pub open spec fn direction_delta(d: Direction) -> Coordinate {
    match d {
        Direction::Up => Coordinate { x: 0i64, y: -1i64 },
        Direction::Down => Coordinate { x: 0i64, y: 1i64 },
        Direction::Left => Coordinate { x: -1i64, y: 0i64 },
        Direction::Right => Coordinate { x: 1i64, y: 0i64 },
    }
}

/// Coordinate addition as the specifications use it.  The cast keeps the
/// field type `i64`; every caller stays far inside the representable range.
pub open spec fn coord_plus(a: Coordinate, b: Coordinate) -> Coordinate {
    Coordinate { x: (a.x + b.x) as i64, y: (a.y + b.y) as i64 }
}

/// Whether `c` is one of the four unit movement deltas.
pub open spec fn is_unit_delta(c: Coordinate) -> bool {
    ||| c == direction_delta(Direction::Up)
    ||| c == direction_delta(Direction::Down)
    ||| c == direction_delta(Direction::Left)
    ||| c == direction_delta(Direction::Right)
}

/// Inverse of `direction_delta`.  Outside the four unit deltas the result
/// defaults to `Up`; callers guard with `is_unit_delta`.
pub open spec fn delta_to_direction(c: Coordinate) -> Direction
    recommends
        is_unit_delta(c),
{
    if c == direction_delta(Direction::Up) {
        Direction::Up
    } else if c == direction_delta(Direction::Down) {
        Direction::Down
    } else if c == direction_delta(Direction::Left) {
        Direction::Left
    } else {
        Direction::Right
    }
}

/// Round trip: recovering a direction from its own movement delta gives the
/// direction back, for every direction.  Together these mappings form the
/// promised bijection between directions and unit deltas.
pub proof fn lemma_direction_delta_round_trip(d: Direction)
    ensures
        delta_to_direction(direction_delta(d)) == d,
{
}

impl Direction {
    /// The unit movement delta of this direction.
    pub fn to_movement_delta(self) -> (r: Coordinate)
        ensures
            r == direction_delta(self),
    {
        match self {
            Direction::Up => Coordinate { x: 0, y: -1 },
            Direction::Down => Coordinate { x: 0, y: 1 },
            Direction::Left => Coordinate { x: -1, y: 0 },
            Direction::Right => Coordinate { x: 1, y: 0 },
        }
    }
}

impl Coordinate {
    /// Whether both fields lie within the coordinate limit.
    pub open spec fn bounded(self) -> bool {
        &&& -COORD_LIMIT <= self.x <= COORD_LIMIT
        &&& -COORD_LIMIT <= self.y <= COORD_LIMIT
    }

    /// `bounded` with one cell of slack: the range of a bounded coordinate
    /// after a single unit-delta step.
    pub open spec fn bounded_with_slack(self) -> bool {
        &&& -COORD_LIMIT - 1 <= self.x <= COORD_LIMIT + 1
        &&& -COORD_LIMIT - 1 <= self.y <= COORD_LIMIT + 1
    }

    /// Squared Euclidean distance between two coordinates.
    pub open spec fn spec_dist_sq(self, other: Coordinate) -> int {
        (self.x - other.x) * (self.x - other.x) + (self.y - other.y) * (self.y - other.y)
    }

    /// Componentwise addition, used to step to a neighboring cell.
    pub fn add(self, delta: Coordinate) -> (r: Coordinate)
        requires
            i64::MIN <= self.x + delta.x <= i64::MAX,
            i64::MIN <= self.y + delta.y <= i64::MAX,
        ensures
            r == coord_plus(self, delta),
            r.x == self.x + delta.x,
            r.y == self.y + delta.y,
    {
        Coordinate { x: self.x + delta.x, y: self.y + delta.y }
    }

    /// Componentwise subtraction, used to recover a movement delta from a
    /// destination and an origin.
    pub fn sub(self, other: Coordinate) -> (r: Coordinate)
        requires
            i64::MIN <= self.x - other.x <= i64::MAX,
            i64::MIN <= self.y - other.y <= i64::MAX,
        ensures
            r.x == self.x - other.x,
            r.y == self.y - other.y,
    {
        Coordinate { x: self.x - other.x, y: self.y - other.y }
    }

    /// Squared Euclidean distance to `other`.  The scorer compares this
    /// against `CUTOFF_SQUARED`, which decides `distance > 50` exactly.
    pub fn squared_distance_to(self, other: Coordinate) -> (r: i64)
        requires
            self.bounded_with_slack(),
            other.bounded(),
        ensures
            r == self.spec_dist_sq(other),
    {
        let dx: i64 = self.x - other.x;
        let dy: i64 = self.y - other.y;
        proof {
            assert(dx * dx <= 4_000_000_004_000_000_001 && dx * dx >= 0) by (nonlinear_arith)
                requires
                    -2_000_000_001 <= dx <= 2_000_000_001,
            ;
            assert(dy * dy <= 4_000_000_004_000_000_001 && dy * dy >= 0) by (nonlinear_arith)
                requires
                    -2_000_000_001 <= dy <= 2_000_000_001,
            ;
        }
        dx * dx + dy * dy
    }

    /// The direction whose movement delta this coordinate is.  Inverse of
    /// `Direction::to_movement_delta` on the four unit deltas.
    pub fn from_movement_delta(self) -> (d: Direction)
        requires
            is_unit_delta(self),
        ensures
            d == delta_to_direction(self),
            direction_delta(d) == self,
    {
        if self.x == 0 && self.y == -1 {
            Direction::Up
        } else if self.x == 0 && self.y == 1 {
            Direction::Down
        } else if self.x == -1 && self.y == 0 {
            Direction::Left
        } else {
            Direction::Right
        }
    }
}

} // verus!
