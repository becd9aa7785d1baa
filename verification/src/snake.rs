//! The agent: move scorer, move selector, and lifecycle hook.

use vstd::prelude::*;

use crate::geometry::{
    coord_plus, direction_delta, is_unit_delta,
    lemma_direction_delta_round_trip, Coordinate, Direction, CUTOFF_SQUARED,
};
use crate::grid::{lemma_first_snake_index_is, GameMap, SnakeInfo};
use crate::tile::{lemma_tile_value_bounds, tile_value, SNAKE_HEAD_VALUE};
use crate::visited::VisitedSet;

verus! {

/// The decision-making agent.  It holds no state between turns; the reset
/// hook exists for future extensions.
#[derive(Clone, Debug, PartialEq, Eq, Structural)]
pub struct Snake {}

/// An inbound game-lifecycle event.  The engine reacts only to the
/// game-starting tag; every other message variant is a no-op for it, so they
/// are collapsed into one.
#[derive(Clone, Copy, Debug, PartialEq, Eq, Structural)]
pub enum InboundMessage {
    GameStarting,
    Other,
}

/// The cell one unit step from `c` in direction `d`.
pub open spec fn neighbor(c: Coordinate, d: Direction) -> Coordinate {
    coord_plus(c, direction_delta(d))
}

/// Truncating division by four, as the executable `/` computes it on signed
/// integers (toward zero), stated over mathematical integers.
pub open spec fn quarter(s: int) -> int {
    if s >= 0 {
        s / 4
    } else {
        -((-s) / 4)
    }
}

/// Sum of the valuations of the four cardinal neighbors of `c`, in the
/// enumeration order Up, Down, Left, Right.
pub open spec fn adjacent_sum(m: GameMap, c: Coordinate) -> int {
    tile_value(m.spec_tile_at(neighbor(c, Direction::Up))) + tile_value(
        m.spec_tile_at(neighbor(c, Direction::Down)),
    ) + tile_value(m.spec_tile_at(neighbor(c, Direction::Left))) + tile_value(
        m.spec_tile_at(neighbor(c, Direction::Right)),
    )
}

/// The flat (non-recursive) score of a cell: its own valuation plus one
/// quarter of the integer-truncated neighborhood sum.  The neighborhood sum
/// is divided by four once more than a true average would be; that literal
/// combination is preserved, not corrected.
pub open spec fn base_score(m: GameMap, c: Coordinate) -> int {
    tile_value(m.spec_tile_at(c)) + quarter(adjacent_sum(m, c))
}

/// Whether `c` is within the 50-unit Euclidean cutoff of the head.
pub open spec fn near_head(c: Coordinate, head: Coordinate) -> bool {
    c.spec_dist_sq(head) <= CUTOFF_SQUARED as int
}

/// The scorer's literal guard: a cell goes down the recursive path exactly
/// when it is already marked visited and within the distance cutoff of the
/// head; otherwise it takes the flat path.
pub open spec fn takes_recursive_path(c: Coordinate, head: Coordinate, vs: Set<Coordinate>) -> bool {
    near_head(c, head) && vs.contains(c)
}

/// Whether `b` is one unit step away from `a`.
pub open spec fn cardinal_adjacent(a: Coordinate, b: Coordinate) -> bool {
    ||| b == neighbor(a, Direction::Up)
    ||| b == neighbor(a, Direction::Down)
    ||| b == neighbor(a, Direction::Left)
    ||| b == neighbor(a, Direction::Right)
}

/// Termination guard on the visited set: no two cells that would both take
/// the recursive path may be cardinal neighbors.  The recursive path
/// re-marks a cell that is already visited, so the set never grows during
/// recursion; without this condition two adjacent recursive cells would
/// re-enter each other forever.  A fresh (empty) set satisfies it trivially,
/// and that is the only set the move selector ever passes.
pub open spec fn visited_wf(vs: Set<Coordinate>, head: Coordinate) -> bool {
    forall|a: Coordinate, b: Coordinate|
        #[trigger] takes_recursive_path(a, head, vs) && #[trigger] cardinal_adjacent(a, b)
            ==> !takes_recursive_path(b, head, vs)
}

/// What the move scorer returns, stated without recursion.  Under
/// `visited_wf` the recursive path can only descend one level: each neighbor
/// of a recursive cell must take the flat path.  So the score of a cell is
/// its flat score; except that a visited cell within the cutoff is scored
/// recursively: out of bounds it is rejected with the minimum representable
/// score, in bounds it earns its flat score plus the best flat score among
/// its four neighbors.
pub open spec fn score_spec(m: GameMap, c: Coordinate, head: Coordinate, vs: Set<Coordinate>) -> int {
    if !takes_recursive_path(c, head, vs) {
        base_score(m, c)
    } else if !m.in_bounds(c) {
        i32::MIN as int
    } else {
        base_score(m, c) + max2(
            max2(base_score(m, neighbor(c, Direction::Left)), base_score(m, neighbor(c, Direction::Up))),
            max2(
                base_score(m, neighbor(c, Direction::Right)),
                base_score(m, neighbor(c, Direction::Down)),
            ),
        )
    }
}

/// The larger of two integers.
pub open spec fn max2(a: int, b: int) -> int {
    if a >= b {
        a
    } else {
        b
    }
}

/// The head coordinate of a snake: by the map invariant, its first stored
/// position.
pub open spec fn head_coordinate(s: SnakeInfo) -> Coordinate {
    s.positions@[0]
}

/// The candidate destination of moving in direction `d`: the snake's first
/// stored position plus the direction's movement delta.
pub open spec fn candidate_coordinate(s: SnakeInfo, d: Direction) -> Coordinate {
    coord_plus(head_coordinate(s), direction_delta(d))
}

/// The score the selector assigns to direction `d`: the move scorer applied
/// to the candidate destination, with the head as reference point and the
/// fresh (empty) visited set of one selection call.
pub open spec fn candidate_score(m: GameMap, s: SnakeInfo, d: Direction) -> int {
    score_spec(m, candidate_coordinate(s, d), head_coordinate(s), Set::<Coordinate>::empty())
}

/// The direction the selector picks for snake `s`: among the legal
/// directions, the one with the highest candidate score, ties resolved in
/// the enumeration order Up, Down, Left, Right; `Up` when no direction is
/// legal.  Each branch asks that its direction be legal and score at least
/// as high as every legal direction that comes later; the first branch that
/// holds is the earliest maximum.
pub open spec fn best_direction(m: GameMap, s: SnakeInfo) -> Direction {
    if m.spec_can_move(s, Direction::Up) && (m.spec_can_move(s, Direction::Down)
        ==> candidate_score(m, s, Direction::Up) >= candidate_score(m, s, Direction::Down)) && (
    m.spec_can_move(s, Direction::Left) ==> candidate_score(m, s, Direction::Up)
        >= candidate_score(m, s, Direction::Left)) && (m.spec_can_move(s, Direction::Right)
        ==> candidate_score(m, s, Direction::Up) >= candidate_score(m, s, Direction::Right)) {
        Direction::Up
    } else if m.spec_can_move(s, Direction::Down) && (m.spec_can_move(s, Direction::Left)
        ==> candidate_score(m, s, Direction::Down) >= candidate_score(m, s, Direction::Left)) && (
    m.spec_can_move(s, Direction::Right) ==> candidate_score(m, s, Direction::Down)
        >= candidate_score(m, s, Direction::Right)) {
        Direction::Down
    } else if m.spec_can_move(s, Direction::Left) && (m.spec_can_move(s, Direction::Right)
        ==> candidate_score(m, s, Direction::Left) >= candidate_score(m, s, Direction::Right)) {
        Direction::Left
    } else if m.spec_can_move(s, Direction::Right) {
        Direction::Right
    } else {
        Direction::Up
    }
}

/// What one selection call returns: `best_direction` for the first snake
/// carrying the given identity.  A spec function of the snapshot and the
/// identity alone, so the selector is deterministic: identical snapshot and
/// identity always yield the identical direction.
pub open spec fn select_spec(m: GameMap, id: u64) -> Direction {
    best_direction(m, m.snakes@[m.first_snake_index(id)])
}

/// Whether any direction is legal for snake `s` on map `m`.
pub open spec fn any_legal(m: GameMap, s: SnakeInfo) -> bool {
    ||| m.spec_can_move(s, Direction::Up)
    ||| m.spec_can_move(s, Direction::Down)
    ||| m.spec_can_move(s, Direction::Left)
    ||| m.spec_can_move(s, Direction::Right)
}

/// The selector never returns a direction the legal-move predicate
/// excludes, unless zero directions are legal, in which case it returns the
/// fixed default `Up`.
pub proof fn lemma_best_direction_legal(m: GameMap, s: SnakeInfo)
    ensures
        any_legal(m, s) ==> m.spec_can_move(s, best_direction(m, s)),
        !any_legal(m, s) ==> best_direction(m, s) == Direction::Up,
{
}

/// The selected direction scores at least as high as every legal direction.
pub proof fn lemma_best_direction_optimal(m: GameMap, s: SnakeInfo, d: Direction)
    requires
        m.spec_can_move(s, d),
    ensures
        candidate_score(m, s, best_direction(m, s)) >= candidate_score(m, s, d),
{
}

/// The same guarantee over a whole selection call: what `get_next_move`
/// returns for an identity is legal for that identity's snake whenever any
/// direction is, and is the fixed default `Up` when none is.
pub proof fn lemma_select_respects_legality(m: GameMap, id: u64)
    ensures
        ({
            let s = m.snakes@[m.first_snake_index(id)];
            &&& any_legal(m, s) ==> m.spec_can_move(s, select_spec(m, id))
            &&& !any_legal(m, s) ==> select_spec(m, id) == Direction::Up
        }),
{
    lemma_best_direction_legal(m, m.snakes@[m.first_snake_index(id)]);
}

/// `quarter` keeps the range of a four-tile neighborhood sum.
pub proof fn lemma_quarter_bounds(s: int)
    requires
        -1000 <= s <= 2000,
    ensures
        -250 <= quarter(s) <= 500,
{
    if s >= 0 {
        assert(0 <= s / 4 <= 500) by (nonlinear_arith)
            requires
                0 <= s <= 2000,
        ;
    } else {
        assert(0 <= (-s) / 4 <= 250) by (nonlinear_arith)
            requires
                0 < -s <= 1000,
        ;
    }
}

/// The flat score of any cell lies between -500 and 1000.
pub proof fn lemma_base_score_bounds(m: GameMap, c: Coordinate)
    ensures
        -500 <= base_score(m, c) <= 1000,
{
    lemma_tile_value_bounds(m.spec_tile_at(c));
    lemma_tile_value_bounds(m.spec_tile_at(neighbor(c, Direction::Up)));
    lemma_tile_value_bounds(m.spec_tile_at(neighbor(c, Direction::Down)));
    lemma_tile_value_bounds(m.spec_tile_at(neighbor(c, Direction::Left)));
    lemma_tile_value_bounds(m.spec_tile_at(neighbor(c, Direction::Right)));
    lemma_quarter_bounds(adjacent_sum(m, c));
}

impl Snake {
    /// A fresh agent.
    pub fn new() -> (s: Snake)
        ensures
            s == (Snake {  }),
    {
        Snake {  }
    }

    /// Truncating division of a neighborhood sum by four.
    fn quarter_of(s: i32) -> (r: i32)
        requires
            -1000 <= s <= 2000,
        ensures
            r as int == quarter(s as int),
    {
        if s >= 0 {
            ((s as u32) / 4) as i32
        } else {
            -((((-s) as u32) / 4) as i32)
        }
    }

    /// The flat score of `coordinate`: its own valuation plus a quarter of
    /// the summed valuations of its four cardinal neighbors.
    fn flat_score(map: &GameMap, coordinate: Coordinate) -> (r: i32)
        requires
            map.grid_wf(),
            coordinate.bounded_with_slack(),
        ensures
            r as int == base_score(*map, coordinate),
    {
        let local = map.get_tile_at(coordinate).value();
        let up = map.get_tile_at(coordinate.add(Direction::Up.to_movement_delta())).value();
        let down = map.get_tile_at(coordinate.add(Direction::Down.to_movement_delta())).value();
        let left = map.get_tile_at(coordinate.add(Direction::Left.to_movement_delta())).value();
        let right = map.get_tile_at(coordinate.add(Direction::Right.to_movement_delta())).value();
        proof {
            lemma_tile_value_bounds(map.spec_tile_at(coordinate));
            lemma_tile_value_bounds(map.spec_tile_at(neighbor(coordinate, Direction::Up)));
            lemma_tile_value_bounds(map.spec_tile_at(neighbor(coordinate, Direction::Down)));
            lemma_tile_value_bounds(map.spec_tile_at(neighbor(coordinate, Direction::Left)));
            lemma_tile_value_bounds(map.spec_tile_at(neighbor(coordinate, Direction::Right)));
        }
        let adjacent = up + down + left + right;
        local + Self::quarter_of(adjacent)
    }

    /// Estimate how desirable it is to stand at `coordinate`, given the
    /// agent's head location and the per-invocation visited set.
    ///
    /// The guard takes the flat path when the cell is beyond the 50-unit
    /// cutoff from the head or not yet visited; otherwise it marks the cell,
    /// rejects it with the minimum representable score when it lies outside
    /// the map, and else adds the best score among its four neighbors.  The
    /// `visited_wf` precondition is what makes the recursion terminate (see
    /// its documentation); the coordinate bounds keep the distance
    /// arithmetic inside `i64`.
    pub fn score_direction(
        coordinate: Coordinate,
        map: &GameMap,
        head: Coordinate,
        visited: &mut VisitedSet,
    ) -> (r: i32)
        requires
            map.grid_wf(),
            head.bounded(),
            coordinate.bounded_with_slack(),
            takes_recursive_path(coordinate, head, old(visited)@) ==> coordinate.bounded(),
            visited_wf(old(visited)@, head),
        ensures
            r as int == score_spec(*map, coordinate, head, old(visited)@),
            final(visited)@ == (if takes_recursive_path(coordinate, head, old(visited)@) {
                old(visited)@.insert(coordinate)
            } else {
                old(visited)@
            }),
            takes_recursive_path(coordinate, head, old(visited)@) && !map.in_bounds(coordinate)
                ==> r == i32::MIN,
        decreases (if takes_recursive_path(coordinate, head, old(visited)@) {
            1int
        } else {
            0int
        }),
    {
        let dist_sq = coordinate.squared_distance_to(head);
        let already = visited.contains(coordinate);
        if dist_sq > CUTOFF_SQUARED || !already {
            Self::flat_score(map, coordinate)
        } else {
            visited.insert(coordinate);
            proof {
                assert(visited@ =~= old(visited)@);
            }
            if !map.inside_map(coordinate) {
                return i32::MIN;
            }
            let current = Self::flat_score(map, coordinate);
            proof {
                assert(cardinal_adjacent(coordinate, neighbor(coordinate, Direction::Left)));
                assert(cardinal_adjacent(coordinate, neighbor(coordinate, Direction::Right)));
                assert(cardinal_adjacent(coordinate, neighbor(coordinate, Direction::Up)));
                assert(cardinal_adjacent(coordinate, neighbor(coordinate, Direction::Down)));
                lemma_base_score_bounds(*map, coordinate);
                lemma_base_score_bounds(*map, neighbor(coordinate, Direction::Left));
                lemma_base_score_bounds(*map, neighbor(coordinate, Direction::Right));
                lemma_base_score_bounds(*map, neighbor(coordinate, Direction::Up));
                lemma_base_score_bounds(*map, neighbor(coordinate, Direction::Down));
            }
            let left = Self::score_direction(
                coordinate.add(Direction::Left.to_movement_delta()),
                map,
                head,
                visited,
            );
            let right = Self::score_direction(
                coordinate.add(Direction::Right.to_movement_delta()),
                map,
                head,
                visited,
            );
            let up = Self::score_direction(
                coordinate.add(Direction::Up.to_movement_delta()),
                map,
                head,
                visited,
            );
            let down = Self::score_direction(
                coordinate.add(Direction::Down.to_movement_delta()),
                map,
                head,
                visited,
            );
            let left_up = if left >= up {
                left
            } else {
                up
            };
            let right_down = if right >= down {
                right
            } else {
                down
            };
            let best = if left_up >= right_down {
                left_up
            } else {
                right_down
            };
            current + best
        }
    }

    /// Choose the next move for the snake with identity `player_id` on the
    /// given map snapshot.
    ///
    /// The agent's snake is resolved by identity; an absent identity is a
    /// caller bug, not a game condition, and is excluded by precondition
    /// rather than answered with a degraded direction.  The head is located by
    /// scanning the stored positions for the snake-head valuation; every
    /// legal direction's candidate destination is scored with one shared
    /// visited set, and the direction of the best-scoring candidate is
    /// recovered from its coordinate.  Ties keep the enumeration order Up,
    /// Down, Left, Right; with no legal direction the fixed default `Up` is
    /// returned.
    pub fn get_next_move(&mut self, map: &GameMap, player_id: u64) -> (d: Direction)
        requires
            map.wf(),
            map.has_snake(player_id),
        ensures
            d == select_spec(*map, player_id),
            *final(self) == *old(self),
    {
        let mut visited = VisitedSet::new();
        let idx: usize;
        match map.get_snake_by_id(player_id) {
            Some(i) => {
                idx = i;
            },
            None => {
                // unreachable: the precondition puts the identity on the map
                return Direction::Up;
            },
        }
        proof {
            lemma_first_snake_index_is(*map, player_id, idx as int);
            assert(map.snake_wf(map.snakes@[idx as int]));
        }
        let snake = &map.snakes[idx];
        let ghost s = map.snakes@[idx as int];

        // Locate the head: the first stored position whose tile valuation
        // equals the snake-head score.  The map invariant pins that to the
        // first position, which is also the origin of every candidate
        // destination below.
        let n = snake.positions.len();
        let mut head: Coordinate = snake.positions[0];
        let mut j: usize = 0;
        let mut found: bool = false;
        while !found && j < n
            invariant
                map.wf(),
                n == snake.positions@.len(),
                n > 0,
                *snake == s,
                map.snake_wf(s),
                0 <= j <= n,
                !found ==> forall|k: int|
                    0 <= k < j ==> tile_value(map.spec_tile_at(snake.positions@[k]))
                        != SNAKE_HEAD_VALUE as int,
                found ==> head == head_coordinate(s),
            decreases n - j,
        {
            let t = map.get_tile_at(snake.positions[j]);
            if t.value() == SNAKE_HEAD_VALUE {
                head = snake.positions[j];
                found = true;
                proof {
                    // only the first stored position carries the head score
                    assert(j == 0);
                }
            }
            j += 1;
        }
        proof {
            assert(found);
            assert(head == head_coordinate(s));
        }

        // Score the candidate destination of each legal direction, in the
        // enumeration order, keeping the earliest best-scoring candidate.
        let origin = snake.positions[0];
        let mut best: Option<(i32, Coordinate)> = None;

        if map.can_snake_move_in_direction(snake, Direction::Up) {
            let cand = origin.add(Direction::Up.to_movement_delta());
            let sc = Self::score_direction(cand, map, head, &mut visited);
            best = Some((sc, cand));
        }
        if map.can_snake_move_in_direction(snake, Direction::Down) {
            let cand = origin.add(Direction::Down.to_movement_delta());
            let sc = Self::score_direction(cand, map, head, &mut visited);
            best = match best {
                None => Some((sc, cand)),
                Some((bs, bc)) => if sc > bs {
                    Some((sc, cand))
                } else {
                    Some((bs, bc))
                },
            };
        }
        if map.can_snake_move_in_direction(snake, Direction::Left) {
            let cand = origin.add(Direction::Left.to_movement_delta());
            let sc = Self::score_direction(cand, map, head, &mut visited);
            best = match best {
                None => Some((sc, cand)),
                Some((bs, bc)) => if sc > bs {
                    Some((sc, cand))
                } else {
                    Some((bs, bc))
                },
            };
        }
        if map.can_snake_move_in_direction(snake, Direction::Right) {
            let cand = origin.add(Direction::Right.to_movement_delta());
            let sc = Self::score_direction(cand, map, head, &mut visited);
            best = match best {
                None => Some((sc, cand)),
                Some((bs, bc)) => if sc > bs {
                    Some((sc, cand))
                } else {
                    Some((bs, bc))
                },
            };
        }

        match best {
            None => {
                proof {
                    assert(best_direction(*map, s) == Direction::Up);
                }
                Direction::Up
            },
            Some((_, bc)) => {
                let ghost bd = best_direction(*map, s);
                proof {
                    lemma_direction_delta_round_trip(bd);
                    assert(bc == candidate_coordinate(s, bd));
                }
                let delta = bc.sub(head);
                proof {
                    assert(delta == direction_delta(bd));
                    assert(is_unit_delta(delta));
                }
                delta.from_movement_delta()
            },
        }
    }

    /// React to an inbound game-lifecycle event.  On the game-starting tag
    /// the agent resets its internal state; it holds none yet, so the hook
    /// is a placeholder and every message leaves the agent unchanged.
    pub fn on_message(&mut self, message: &InboundMessage)
        ensures
            *final(self) == *old(self),
    {
        match message {
            InboundMessage::GameStarting => {
                // stateless between turns: nothing to reset yet
            },
            _ => {},
        }
    }
}

} // verus!
