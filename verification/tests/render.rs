use snake::direction::Direction;
use snake::game::Game;
use snake::grid::Position;
use snake::render::{
    Entity, EntityKind, Size, FOOD_SIZE_TENTHS, HEAD_SIZE_TENTHS, SEGMENT_SIZE_TENTHS,
};

#[test]
fn square_is_as_wide_as_high() {
    assert_eq!(Size::square(8), Size { width: 8, height: 8 });
    assert_eq!(Size::square(0), Size { width: 0, height: 0 });
}

#[test]
fn sizes_are_eight_tenths_for_head_and_food_and_seven_for_the_body() {
    assert_eq!(HEAD_SIZE_TENTHS, 8);
    assert_eq!(SEGMENT_SIZE_TENTHS, 7);
    assert_eq!(FOOD_SIZE_TENTHS, 8);
    assert_eq!(EntityKind::Head.size(), Size::square(8));
    assert_eq!(EntityKind::Segment.size(), Size::square(7));
    assert_eq!(EntityKind::Food.size(), Size::square(8));
}

#[test]
fn entity_carries_the_size_of_its_kind() {
    let entity = Entity::of(EntityKind::Segment, Position::new(4, 5));
    assert_eq!(entity.kind, EntityKind::Segment);
    assert_eq!(entity.position, Position::new(4, 5));
    assert_eq!(entity.size, Size { width: 7, height: 7 });
}

#[test]
fn entities_of_a_new_round_are_the_head_and_one_segment() {
    let list = Game::new().entities();
    assert_eq!(
        list,
        vec![
            Entity::of(EntityKind::Head, Position::new(3, 3)),
            Entity::of(EntityKind::Segment, Position::new(3, 2)),
        ]
    );
}

#[test]
fn entities_list_the_snake_head_first_and_then_the_food() {
    let snake = vec![Position::new(5, 5), Position::new(5, 4), Position::new(4, 4)];
    let food = vec![Position::new(1, 1), Position::new(5, 4)];
    let game = match Game::from_parts(Direction::Up, snake, food) {
        Some(game) => game,
        None => panic!("not a round in play"),
    };
    let list = game.entities();
    assert_eq!(
        list,
        vec![
            Entity { kind: EntityKind::Head, position: Position::new(5, 5), size: Size::square(8) },
            Entity {
                kind: EntityKind::Segment,
                position: Position::new(5, 4),
                size: Size::square(7)
            },
            Entity {
                kind: EntityKind::Segment,
                position: Position::new(4, 4),
                size: Size::square(7)
            },
            Entity { kind: EntityKind::Food, position: Position::new(1, 1), size: Size::square(8) },
            Entity { kind: EntityKind::Food, position: Position::new(5, 4), size: Size::square(8) },
        ]
    );
}
