use ratthew::direction::Direction;
use ratthew::direction::GridDirection;
use ratthew::direction::parse_direction;

#[test]
fn left_then_right_is_identity_for_all_directions() {
    let all = [Direction::North, Direction::East, Direction::South, Direction::West];
    for d in all {
        assert_eq!(d.left().right(), d);
        assert_eq!(d.right().left(), d);
    }
}

#[test]
fn four_rotations_return_to_start() {
    let all = [Direction::North, Direction::East, Direction::South, Direction::West];
    for d in all {
        assert_eq!(d.right().right().right().right(), d);
        assert_eq!(d.left().left().left().left(), d);
    }
}

#[test]
fn rotation_tables() {
    assert_eq!(Direction::North.right(), Direction::East);
    assert_eq!(Direction::East.right(), Direction::South);
    assert_eq!(Direction::South.right(), Direction::West);
    assert_eq!(Direction::West.right(), Direction::North);
    assert_eq!(Direction::North.left(), Direction::West);
    assert_eq!(Direction::East.left(), Direction::North);
    assert_eq!(Direction::South.left(), Direction::East);
    assert_eq!(Direction::West.left(), Direction::South);
}

#[test]
fn reverse_is_two_right_turns() {
    let all = [Direction::North, Direction::East, Direction::South, Direction::West];
    for d in all {
        assert_eq!(d.reverse(), d.right().right());
        assert_eq!(d.reverse().reverse(), d);
    }
    assert_eq!(Direction::North.reverse(), Direction::South);
    assert_eq!(Direction::East.reverse(), Direction::West);
}

#[test]
fn grid_direction_rotations_wrap_the_inner_direction() {
    let gd = GridDirection(Direction::North);
    assert_eq!(gd.left(), GridDirection(Direction::West));
    assert_eq!(gd.right(), GridDirection(Direction::East));
    assert_eq!(gd.reverse(), GridDirection(Direction::South));
}

#[test]
fn direction_defaults_to_north() {
    assert_eq!(Direction::default(), Direction::North);
    assert_eq!(GridDirection::default(), GridDirection(Direction::North));
}

#[test]
fn parse_direction_accepts_the_four_cardinal_names() {
    assert_eq!(parse_direction("north"), Some(Direction::North));
    assert_eq!(parse_direction("east"), Some(Direction::East));
    assert_eq!(parse_direction("south"), Some(Direction::South));
    assert_eq!(parse_direction("west"), Some(Direction::West));
}

#[test]
fn parse_direction_rejects_other_names() {
    assert_eq!(parse_direction("North"), None);
    assert_eq!(parse_direction("up"), None);
    assert_eq!(parse_direction(""), None);
    assert_eq!(parse_direction("eastward"), None);
}
