use snake::direction::{Direction, Keys};

fn all_directions() -> [Direction; 4] {
    [Direction::Left, Direction::Up, Direction::Right, Direction::Down]
}

#[test]
fn opposite_pairs_left_with_right_and_up_with_down() {
    assert_eq!(Direction::Left.opposite(), Direction::Right);
    assert_eq!(Direction::Right.opposite(), Direction::Left);
    assert_eq!(Direction::Up.opposite(), Direction::Down);
    assert_eq!(Direction::Down.opposite(), Direction::Up);
}

#[test]
fn opposite_of_opposite_is_the_heading_itself() {
    for d in all_directions() {
        assert_eq!(d.opposite().opposite(), d);
        assert_ne!(d.opposite(), d);
    }
}

#[test]
fn steer_keeps_the_heading_on_a_request_to_reverse() {
    for d in all_directions() {
        assert_eq!(d.steer(d.opposite()), d);
    }
}

#[test]
fn steer_takes_every_other_request() {
    for d in all_directions() {
        for r in all_directions() {
            if r != d.opposite() {
                assert_eq!(d.steer(r), r);
            }
        }
    }
}

#[test]
fn steer_never_yields_the_reverse_heading() {
    for d in all_directions() {
        for r in all_directions() {
            assert_ne!(d.steer(r), d.opposite());
        }
    }
}

#[test]
fn no_key_requests_the_current_heading() {
    for d in all_directions() {
        assert_eq!(Keys::none().requested(d), d);
    }
}

#[test]
fn a_single_key_requests_its_heading() {
    for d in all_directions() {
        for current in all_directions() {
            assert_eq!(Keys::only(d).requested(current), d);
        }
    }
}

#[test]
fn held_keys_are_taken_in_the_order_left_right_down_up() {
    let all = Keys { left: true, right: true, down: true, up: true };
    assert_eq!(all.requested(Direction::Up), Direction::Left);
    let no_left = Keys { left: false, right: true, down: true, up: true };
    assert_eq!(no_left.requested(Direction::Up), Direction::Right);
    let vertical = Keys { left: false, right: false, down: true, up: true };
    assert_eq!(vertical.requested(Direction::Left), Direction::Down);
    let up = Keys { left: false, right: false, down: false, up: true };
    assert_eq!(up.requested(Direction::Left), Direction::Up);
    let left_up = Keys { left: true, right: false, down: false, up: true };
    assert_eq!(left_up.requested(Direction::Down), Direction::Left);
}

#[test]
fn keys_none_holds_nothing() {
    let keys = Keys::none();
    assert!(!keys.left && !keys.right && !keys.down && !keys.up);
}
