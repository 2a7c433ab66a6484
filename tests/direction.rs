use melee_core::direction::{resolve, Direction, InputReading, Sign};

fn reading(horizontal: Sign, near_up: bool, near_down: bool) -> InputReading {
    InputReading { horizontal, near_up, near_down }
}

#[test]
fn positive_x_faces_right_whatever_y() {
    for (up, down) in [(false, false), (true, false), (false, true)] {
        assert_eq!(resolve(&reading(Sign::Positive, up, down)), Direction::Right);
    }
}

#[test]
fn negative_x_faces_left_whatever_y() {
    for (up, down) in [(false, false), (true, false), (false, true)] {
        assert_eq!(resolve(&reading(Sign::Negative, up, down)), Direction::Left);
    }
}

#[test]
fn vertical_unit_inputs() {
    assert_eq!(resolve(&reading(Sign::Neutral, true, false)), Direction::Up);
    assert_eq!(resolve(&reading(Sign::Neutral, false, true)), Direction::Down);
    assert_eq!(resolve(&reading(Sign::Neutral, false, false)), Direction::Idle);
}

#[test]
fn diagonal_favours_horizontal() {
    // (0.707, 0.707): x is above zero and y is near neither unit extreme.
    assert_eq!(resolve(&reading(Sign::Positive, false, false)), Direction::Right);
}

#[test]
fn idle_is_not_a_facing() {
    assert!(!Direction::Idle.is_facing());
    assert!(Direction::Up.is_facing());
    assert!(Direction::Left.is_facing());
}
