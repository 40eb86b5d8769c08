use render_host::input::{
    motion, rotation, travel, Controls, Key, KeyStates, Motion, Sense, INITIAL_POSITION,
    INITIAL_YAW, KEY_COUNT, MOVE_SPEED, NANOS_PER_SECOND, TURN_SPEED,
};

fn key(code: usize) -> Key {
    Key::new(code).unwrap()
}

// Codes of W, S, Q, E, A, D and V in the numbering of the windowing layer.
fn controls() -> Controls {
    Controls {
        forward: key(32),
        back: key(28),
        strafe_right: key(26),
        strafe_left: key(14),
        turn_left: key(10),
        turn_right: key(13),
        restart: key(31),
    }
}

fn holding(codes: &[usize]) -> KeyStates {
    let mut keys = KeyStates::new();
    for code in codes {
        keys.set(key(*code), true);
    }
    keys
}

fn still() -> Motion {
    Motion { advance: Sense::Still, strafe: Sense::Still, turn: Sense::Still }
}

#[test]
fn keys_have_codes_below_the_table_size() {
    assert_eq!(KEY_COUNT, 188);
    assert_eq!(Key::new(0).map(|k| k.code()), Some(0));
    assert_eq!(Key::new(187).map(|k| k.code()), Some(187));
    assert_eq!(Key::new(188), None);
    assert_eq!(Key::new(usize::MAX), None);
}

#[test]
fn new_table_holds_no_key() {
    let keys = KeyStates::new();
    for code in 0..KEY_COUNT {
        assert!(!keys.is_pressed(key(code)));
    }
}

#[test]
fn set_changes_one_key_only() {
    let mut keys = KeyStates::new();
    keys.set(key(32), true);
    for code in 0..KEY_COUNT {
        assert_eq!(keys.is_pressed(key(code)), code == 32);
    }
    keys.set(key(187), true);
    keys.set(key(32), false);
    for code in 0..KEY_COUNT {
        assert_eq!(keys.is_pressed(key(code)), code == 187);
    }
}

#[test]
fn speeds() {
    assert_eq!(MOVE_SPEED, 3);
    assert_eq!(TURN_SPEED, 120);
}

#[test]
fn no_key_no_motion() {
    assert_eq!(motion(&KeyStates::new(), &controls()), still());
    assert_eq!(motion(&holding(&[31, 0, 100]), &controls()), still());
}

#[test]
fn forward_key_advances() {
    assert_eq!(
        motion(&holding(&[32]), &controls()),
        Motion { advance: Sense::Positive, ..still() }
    );
}

#[test]
fn back_key_retreats() {
    assert_eq!(
        motion(&holding(&[28]), &controls()),
        Motion { advance: Sense::Negative, ..still() }
    );
}

#[test]
fn forward_wins_over_back() {
    assert_eq!(
        motion(&holding(&[32, 28]), &controls()),
        Motion { advance: Sense::Positive, ..still() }
    );
}

#[test]
fn strafe_keys() {
    assert_eq!(motion(&holding(&[26]), &controls()), Motion { strafe: Sense::Positive, ..still() });
    assert_eq!(motion(&holding(&[14]), &controls()), Motion { strafe: Sense::Negative, ..still() });
    assert_eq!(
        motion(&holding(&[26, 14]), &controls()),
        Motion { strafe: Sense::Positive, ..still() }
    );
}

#[test]
fn turn_keys() {
    assert_eq!(motion(&holding(&[10]), &controls()), Motion { turn: Sense::Positive, ..still() });
    assert_eq!(motion(&holding(&[13]), &controls()), Motion { turn: Sense::Negative, ..still() });
    assert_eq!(
        motion(&holding(&[10, 13]), &controls()),
        Motion { turn: Sense::Positive, ..still() }
    );
}

#[test]
fn axes_are_independent() {
    assert_eq!(
        motion(&holding(&[28, 14, 10]), &controls()),
        Motion { advance: Sense::Negative, strafe: Sense::Negative, turn: Sense::Positive }
    );
    assert_eq!(
        motion(&holding(&[32, 28, 26, 14, 10, 13]), &controls()),
        Motion { advance: Sense::Positive, strafe: Sense::Positive, turn: Sense::Positive }
    );
}

#[test]
fn camera_starts_five_units_behind_the_origin() {
    assert_eq!(INITIAL_POSITION, (0, 0, -5));
    assert_eq!(INITIAL_YAW, 0);
}

#[test]
fn travel_is_speed_times_time() {
    assert_eq!(NANOS_PER_SECOND, 1_000_000_000);
    assert_eq!(travel(0), 0);
    assert_eq!(travel(1), 3);
    assert_eq!(travel(1_000_000_000), 3_000_000_000);
    assert_eq!(travel(16_666_667), 50_000_001);
    assert_eq!(travel(u64::MAX), 3 * u64::MAX as u128);
    let seconds = 0.25f32;
    let nanos = 250_000_000u64;
    assert_eq!(travel(nanos) as f32 / NANOS_PER_SECOND as f32, MOVE_SPEED as f32 * seconds);
}

#[test]
fn travel_does_not_depend_on_the_frame_rate() {
    let one_frame = travel(1_000_000_000);
    let fifty_frames: u128 = (0..50).map(|_| travel(20_000_000)).sum();
    assert_eq!(one_frame, fifty_frames);
}

#[test]
fn rotation_is_turn_speed_times_time() {
    assert_eq!(rotation(0), 0);
    assert_eq!(rotation(1_000_000_000), 120_000_000_000);
    assert_eq!(rotation(500_000_000), 60_000_000_000);
    assert_eq!(rotation(u64::MAX), 120 * u64::MAX as u128);
}
