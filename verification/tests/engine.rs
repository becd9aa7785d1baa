use snake_core::geometry::{Coordinate, Direction};
use snake_core::grid::{GameMap, SnakeInfo};
use snake_core::snake::{InboundMessage, Snake};
use snake_core::tile::Tile;
use snake_core::visited::VisitedSet;

fn coord(x: i64, y: i64) -> Coordinate {
    Coordinate { x, y }
}

fn empty_tiles(width: i64, height: i64) -> Vec<Tile> {
    let mut tiles = Vec::new();
    for y in 0..height {
        for x in 0..width {
            tiles.push(Tile::Empty { coordinate: coord(x, y) });
        }
    }
    tiles
}

fn set_tile(tiles: &mut Vec<Tile>, width: i64, x: i64, y: i64, tile: Tile) {
    tiles[(y * width + x) as usize] = tile;
}

fn snake_at(id: u64, positions: Vec<Coordinate>, legal: [bool; 4]) -> SnakeInfo {
    SnakeInfo {
        id,
        positions,
        legal_up: legal[0],
        legal_down: legal[1],
        legal_left: legal[2],
        legal_right: legal[3],
    }
}

/// A 3x3 map whose only snake (id 1) sits at the center.
fn center_map(legal: [bool; 4]) -> GameMap {
    let mut tiles = empty_tiles(3, 3);
    set_tile(&mut tiles, 3, 1, 1, Tile::SnakeHead { coordinate: coord(1, 1), snake_id: 1 });
    GameMap {
        width: 3,
        height: 3,
        tiles,
        snakes: vec![snake_at(1, vec![coord(1, 1)], legal)],
    }
}

#[test]
fn direction_delta_round_trip() {
    let directions = [Direction::Up, Direction::Down, Direction::Left, Direction::Right];
    for d in directions {
        assert_eq!(d.to_movement_delta().from_movement_delta(), d);
    }
}

#[test]
fn movement_deltas_are_units() {
    assert_eq!(Direction::Up.to_movement_delta(), coord(0, -1));
    assert_eq!(Direction::Down.to_movement_delta(), coord(0, 1));
    assert_eq!(Direction::Left.to_movement_delta(), coord(-1, 0));
    assert_eq!(Direction::Right.to_movement_delta(), coord(1, 0));
}

#[test]
fn coordinate_add_sub_and_distance() {
    let a = coord(3, 4);
    let b = coord(0, 0);
    assert_eq!(a.add(coord(1, -1)), coord(4, 3));
    assert_eq!(a.sub(b), a);
    assert_eq!(a.squared_distance_to(b), 25);
    assert_eq!(b.squared_distance_to(b), 0);
}

#[test]
fn tile_values_are_fixed() {
    assert_eq!(Tile::Wall.value(), -200);
    assert_eq!(Tile::Food { coordinate: coord(0, 0) }.value(), 500);
    assert_eq!(Tile::Obstacle { coordinate: coord(0, 0) }.value(), -150);
    assert_eq!(Tile::Empty { coordinate: coord(0, 0) }.value(), 200);
    assert_eq!(Tile::SnakeHead { coordinate: coord(0, 0), snake_id: 1 }.value(), -50);
    assert_eq!(Tile::SnakeBody { coordinate: coord(0, 0), snake_id: 1 }.value(), -250);
}

#[test]
fn tile_value_depends_on_variant_only() {
    let a = Tile::Food { coordinate: coord(0, 0) };
    let b = Tile::Food { coordinate: coord(17, -4) };
    assert_eq!(a.value(), b.value());
    let c = Tile::SnakeBody { coordinate: coord(1, 1), snake_id: 1 };
    let d = Tile::SnakeBody { coordinate: coord(9, 9), snake_id: 42 };
    assert_eq!(c.value(), d.value());
}

#[test]
fn tile_lookup_outside_grid_is_wall() {
    let map = GameMap { width: 1, height: 1, tiles: empty_tiles(1, 1), snakes: Vec::new() };
    assert_eq!(map.get_tile_at(coord(0, 0)), Tile::Empty { coordinate: coord(0, 0) });
    assert_eq!(map.get_tile_at(coord(-1, 0)), Tile::Wall);
    assert_eq!(map.get_tile_at(coord(0, 5)), Tile::Wall);
    assert!(map.inside_map(coord(0, 0)));
    assert!(!map.inside_map(coord(1, 0)));
}

#[test]
fn snake_lookup_by_identity() {
    let map = center_map([true, true, true, true]);
    assert_eq!(map.get_snake_by_id(1), Some(0));
    assert_eq!(map.get_snake_by_id(9), None);
}

#[test]
fn visited_set_marks_coordinates() {
    let mut visited = VisitedSet::new();
    assert!(!visited.contains(coord(2, 3)));
    visited.insert(coord(2, 3));
    assert!(visited.contains(coord(2, 3)));
    assert!(!visited.contains(coord(3, 2)));
    visited.insert(coord(2, 3));
    assert!(visited.contains(coord(2, 3)));
}

#[test]
fn flat_score_of_lone_empty_cell() {
    // Local value 200; all four neighbors read as Wall, so the neighborhood
    // sum is -800 and its quarter -200.
    let map = GameMap { width: 1, height: 1, tiles: empty_tiles(1, 1), snakes: Vec::new() };
    let mut visited = VisitedSet::new();
    let score = Snake::score_direction(coord(0, 0), &map, coord(0, 0), &mut visited);
    assert_eq!(score, 0);
}

#[test]
fn flat_score_of_food_next_to_head() {
    // Food (500) at (2,1) on the 3x3 center map: neighbors value
    // 200 + 200 - 50 - 200 = 150, truncated quarter 37.
    let mut map = center_map([true, false, false, true]);
    set_tile(&mut map.tiles, 3, 2, 1, Tile::Food { coordinate: coord(2, 1) });
    let mut visited = VisitedSet::new();
    let score = Snake::score_direction(coord(2, 1), &map, coord(1, 1), &mut visited);
    assert_eq!(score, 537);
}

#[test]
fn flat_score_truncates_toward_zero() {
    // Out-of-bounds cell left of a 2x1 grid: local Wall -200, neighborhood
    // sum -650, truncating quarter -162 (a flooring division would give
    // -163).
    let mut tiles = empty_tiles(2, 1);
    set_tile(&mut tiles, 2, 0, 0, Tile::SnakeHead { coordinate: coord(0, 0), snake_id: 1 });
    set_tile(&mut tiles, 2, 1, 0, Tile::Food { coordinate: coord(1, 0) });
    let map = GameMap {
        width: 2,
        height: 1,
        tiles,
        snakes: vec![snake_at(1, vec![coord(0, 0)], [false, false, true, true])],
    };
    let mut visited = VisitedSet::new();
    let score = Snake::score_direction(coord(-1, 0), &map, coord(0, 0), &mut visited);
    assert_eq!(score, -362);
}

#[test]
fn recursive_path_rejects_out_of_bounds() {
    // A coordinate already marked visited and within the cutoff takes the
    // recursive path; outside the map it must return the minimum
    // representable score.
    let map = GameMap { width: 1, height: 1, tiles: empty_tiles(1, 1), snakes: Vec::new() };
    let mut visited = VisitedSet::new();
    visited.insert(coord(5, 0));
    let score = Snake::score_direction(coord(5, 0), &map, coord(0, 0), &mut visited);
    assert_eq!(score, i32::MIN);
}

#[test]
fn recursive_path_in_bounds_adds_best_neighbor() {
    // The center of the 3x3 map, pre-marked visited: flat value of the
    // center (-50 + 800/4 = 150) plus the best neighbor flat score.  Each
    // edge neighbor scores 200 + (200 + 200 - 50 - 200)/4 = 237, so the
    // total is 387.
    let map = center_map([true, true, true, true]);
    let mut visited = VisitedSet::new();
    visited.insert(coord(1, 1));
    let score = Snake::score_direction(coord(1, 1), &map, coord(1, 1), &mut visited);
    assert_eq!(score, 387);
}

#[test]
fn selector_prefers_food_over_empty() {
    // Right lands on Food (500), Up lands on Empty (200); Down and Left are
    // illegal.  The selector must return Right.
    let mut map = center_map([true, false, false, true]);
    set_tile(&mut map.tiles, 3, 2, 1, Tile::Food { coordinate: coord(2, 1) });
    let mut agent = Snake::new();
    assert_eq!(agent.get_next_move(&map, 1), Direction::Right);
}

#[test]
fn selector_defaults_to_up_when_nothing_is_legal() {
    let map = center_map([false, false, false, false]);
    let mut agent = Snake::new();
    assert_eq!(agent.get_next_move(&map, 1), Direction::Up);
}

#[test]
fn selector_never_returns_an_illegal_direction() {
    // Only Down is legal; Right would land on Food but is excluded by the
    // legal-move predicate.
    let mut map = center_map([false, true, false, false]);
    set_tile(&mut map.tiles, 3, 2, 1, Tile::Food { coordinate: coord(2, 1) });
    let mut agent = Snake::new();
    assert_eq!(agent.get_next_move(&map, 1), Direction::Down);
}

#[test]
fn selector_keeps_enumeration_order_on_ties() {
    // All four neighbors of the center are Empty with identical
    // neighborhoods by symmetry, so all four candidates tie; the first
    // enumerated direction, Up, must win.
    let map = center_map([true, true, true, true]);
    let mut agent = Snake::new();
    assert_eq!(agent.get_next_move(&map, 1), Direction::Up);
}

#[test]
fn selector_is_deterministic() {
    let mut map = center_map([true, true, true, true]);
    set_tile(&mut map.tiles, 3, 1, 0, Tile::Obstacle { coordinate: coord(1, 0) });
    set_tile(&mut map.tiles, 3, 0, 1, Tile::Food { coordinate: coord(0, 1) });
    let mut agent = Snake::new();
    let first = agent.get_next_move(&map, 1);
    let second = agent.get_next_move(&map, 1);
    assert_eq!(first, second);
    let mut other_agent = Snake::new();
    assert_eq!(other_agent.get_next_move(&map, 1), first);
}

#[test]
fn out_of_bounds_candidate_never_beats_food() {
    // Left steps off the grid (a Wall-valued cell), Right lands on Food;
    // the out-of-bounds candidate must lose.
    let mut tiles = empty_tiles(2, 1);
    set_tile(&mut tiles, 2, 0, 0, Tile::SnakeHead { coordinate: coord(0, 0), snake_id: 1 });
    set_tile(&mut tiles, 2, 1, 0, Tile::Food { coordinate: coord(1, 0) });
    let map = GameMap {
        width: 2,
        height: 1,
        tiles,
        snakes: vec![snake_at(1, vec![coord(0, 0)], [false, false, true, true])],
    };
    let mut agent = Snake::new();
    assert_eq!(agent.get_next_move(&map, 1), Direction::Right);
}

#[test]
fn selector_follows_a_longer_snake() {
    // The snake's body trails to the left of its head; the head is the
    // first stored position and the body cell values lowest, so the snake
    // moves toward the food on the right.
    let mut tiles = empty_tiles(3, 3);
    set_tile(&mut tiles, 3, 1, 1, Tile::SnakeHead { coordinate: coord(1, 1), snake_id: 1 });
    set_tile(&mut tiles, 3, 0, 1, Tile::SnakeBody { coordinate: coord(0, 1), snake_id: 1 });
    set_tile(&mut tiles, 3, 2, 1, Tile::Food { coordinate: coord(2, 1) });
    let map = GameMap {
        width: 3,
        height: 3,
        tiles,
        snakes: vec![snake_at(1, vec![coord(1, 1), coord(0, 1)], [true, true, false, true])],
    };
    let mut agent = Snake::new();
    assert_eq!(agent.get_next_move(&map, 1), Direction::Right);
}

#[test]
fn lifecycle_hook_leaves_agent_unchanged() {
    let mut agent = Snake::new();
    agent.on_message(&InboundMessage::GameStarting);
    agent.on_message(&InboundMessage::Other);
    assert_eq!(agent, Snake::new());
}
