use grid_snake::control::{HeadController, KeysPressed};
use grid_snake::grid::Direction;

fn keys(w: bool, s: bool, a: bool, d: bool) -> KeysPressed {
    KeysPressed { w, s, a, d, space: false }
}

#[test]
fn pending_direction_is_overwritten_and_survives_reading() {
    let mut head = HeadController::new(Direction::Down);
    assert_eq!(head.take_pending_direction(), Direction::Down);
    head.set_pending_direction(Direction::Left);
    head.set_pending_direction(Direction::Up);
    assert_eq!(head.take_pending_direction(), Direction::Up);
    assert_eq!(head.take_pending_direction(), Direction::Up);
}

#[test]
fn each_steering_key_sets_its_direction() {
    let mut head = HeadController::new(Direction::Down);
    head.steer(&keys(true, false, false, false));
    assert_eq!(head.take_pending_direction(), Direction::Up);
    head.steer(&keys(false, true, false, false));
    assert_eq!(head.take_pending_direction(), Direction::Down);
    head.steer(&keys(false, false, true, false));
    assert_eq!(head.take_pending_direction(), Direction::Left);
    head.steer(&keys(false, false, false, true));
    assert_eq!(head.take_pending_direction(), Direction::Right);
}

#[test]
fn no_steering_key_keeps_the_direction() {
    let mut head = HeadController::new(Direction::Left);
    head.steer(&KeysPressed::none());
    assert_eq!(head.take_pending_direction(), Direction::Left);
    head.steer(&KeysPressed { w: false, s: false, a: false, d: false, space: true });
    assert_eq!(head.take_pending_direction(), Direction::Left);
}

#[test]
fn of_several_keys_in_one_frame_the_last_handled_wins() {
    let mut head = HeadController::new(Direction::Down);
    head.steer(&keys(true, true, true, true));
    assert_eq!(head.take_pending_direction(), Direction::Right);
    head.steer(&keys(true, true, true, false));
    assert_eq!(head.take_pending_direction(), Direction::Left);
    head.steer(&keys(true, true, false, false));
    assert_eq!(head.take_pending_direction(), Direction::Down);
}

#[test]
fn keys_none_has_nothing_down() {
    assert_eq!(
        KeysPressed::none(),
        KeysPressed { w: false, s: false, a: false, d: false, space: false }
    );
}
