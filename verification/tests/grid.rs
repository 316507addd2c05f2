use snake::direction::Direction;
use snake::grid::{all_distinct, all_in_arena, occupies, Position, ARENA_HEIGHT, ARENA_WIDTH};

#[test]
fn arena_is_thirty_by_thirty() {
    assert_eq!(ARENA_WIDTH, 30);
    assert_eq!(ARENA_HEIGHT, 30);
}

#[test]
fn corners_are_inside_the_arena() {
    assert!(Position::new(0, 0).is_in_arena());
    assert!(Position::new(29, 0).is_in_arena());
    assert!(Position::new(0, 29).is_in_arena());
    assert!(Position::new(29, 29).is_in_arena());
}

#[test]
fn cells_past_an_edge_are_outside_the_arena() {
    assert!(!Position::new(-1, 5).is_in_arena());
    assert!(!Position::new(30, 5).is_in_arena());
    assert!(!Position::new(5, -1).is_in_arena());
    assert!(!Position::new(5, 30).is_in_arena());
    assert!(!Position::new(-1, -1).is_in_arena());
    assert!(!Position::new(i32::MAX, 0).is_in_arena());
    assert!(!Position::new(0, i32::MIN).is_in_arena());
}

#[test]
fn step_moves_one_cell_with_up_increasing_y() {
    let start = Position::new(7, 11);
    assert_eq!(start.step(Direction::Left), Position::new(6, 11));
    assert_eq!(start.step(Direction::Right), Position::new(8, 11));
    assert_eq!(start.step(Direction::Up), Position::new(7, 12));
    assert_eq!(start.step(Direction::Down), Position::new(7, 10));
}

#[test]
fn step_may_leave_the_arena() {
    assert_eq!(Position::new(0, 0).step(Direction::Left), Position::new(-1, 0));
    assert_eq!(Position::new(0, 0).step(Direction::Down), Position::new(0, -1));
    assert_eq!(Position::new(29, 29).step(Direction::Right), Position::new(30, 29));
    assert_eq!(Position::new(29, 29).step(Direction::Up), Position::new(29, 30));
}

#[test]
fn positions_compare_by_both_coordinates() {
    assert_eq!(Position::new(3, 2), Position { x: 3, y: 2 });
    assert_ne!(Position::new(3, 2), Position::new(2, 3));
    assert_ne!(Position::new(3, 2), Position::new(3, 3));
}

#[test]
fn occupies_finds_a_cell_anywhere_in_the_list() {
    let cells = vec![Position::new(1, 1), Position::new(2, 1), Position::new(2, 2)];
    assert!(occupies(&cells, Position::new(1, 1)));
    assert!(occupies(&cells, Position::new(2, 1)));
    assert!(occupies(&cells, Position::new(2, 2)));
    assert!(!occupies(&cells, Position::new(1, 2)));
    assert!(!occupies(&Vec::new(), Position::new(1, 1)));
}

#[test]
fn all_in_arena_rejects_a_single_outside_cell() {
    assert!(all_in_arena(&Vec::new()));
    assert!(all_in_arena(&vec![Position::new(0, 0), Position::new(29, 29)]));
    assert!(!all_in_arena(&vec![Position::new(0, 0), Position::new(30, 29)]));
    assert!(!all_in_arena(&vec![Position::new(0, -1), Position::new(1, 1)]));
}

#[test]
fn all_distinct_rejects_a_repeated_cell() {
    assert!(all_distinct(&Vec::new()));
    assert!(all_distinct(&vec![Position::new(1, 1)]));
    assert!(all_distinct(&vec![Position::new(1, 1), Position::new(1, 2), Position::new(2, 1)]));
    assert!(!all_distinct(&vec![Position::new(1, 1), Position::new(1, 2), Position::new(1, 1)]));
    assert!(!all_distinct(&vec![Position::new(1, 2), Position::new(1, 2)]));
}
