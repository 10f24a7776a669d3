use arena_sim::geometry::Position;
use arena_sim::movement::KeyState;
use arena_sim::movement::player_movement;

fn keys(left: bool, right: bool, down: bool, up: bool) -> KeyState {
    KeyState { left, h: false, right, l: false, down, j: false, up, k: false }
}

#[test]
fn no_keys_no_motion() {
    let p = Position { x: 123_456, y: 654_321 };
    let r = player_movement(p, &keys(false, false, false, false), 300, 16);
    assert_eq!(r, p);
}

#[test]
fn single_axis_full_speed() {
    let p = Position { x: 400_000, y: 300_000 };
    // 300 px/s for 1000 ms: 300 pixels, exactly 300_000 milli-pixels.
    let r = player_movement(p, &keys(false, true, false, false), 300, 1000);
    assert_eq!(r, Position { x: 700_000, y: 300_000 });
}

#[test]
fn letter_synonyms_count_as_pressed() {
    let p = Position { x: 400_000, y: 300_000 };
    let arrow = player_movement(p, &keys(true, false, false, false), 300, 16);
    let letter = player_movement(
        p,
        &KeyState { left: false, h: true, right: false, l: false, down: false, j: false, up: false, k: false },
        300,
        16,
    );
    assert_eq!(arrow, letter);
    assert_eq!(arrow, Position { x: 395_200, y: 300_000 });
}

#[test]
fn opposite_keys_cancel() {
    let p = Position { x: 400_000, y: 300_000 };
    let r = player_movement(p, &keys(true, true, false, false), 300, 1000);
    assert_eq!(r, p);
}

#[test]
fn diagonal_is_normalized() {
    let p = Position { x: 400_000, y: 300_000 };
    // m = 300 * 1000 = 300_000; per-axis component floor(300_000 * 70 / 99) = 212_121.
    let r = player_movement(p, &keys(false, true, false, true), 300, 1000);
    let c: i64 = 212_121;
    assert_eq!(r, Position { x: 400_000 + c, y: 300_000 + c });
    // The squared diagonal magnitude never exceeds (speed * dt)^2 ...
    let m: i64 = 300_000;
    assert!(2 * c * c <= m * m);
    // ... and is within the 70/99 approximation of it from below.
    assert!(9_800 * m * m < 19_602 * (c + 1) * (c + 1));
}

#[test]
fn diagonal_down_left() {
    let p = Position { x: 400_000, y: 300_000 };
    let r = player_movement(p, &keys(true, false, true, false), 300, 1000);
    let c: i64 = 212_121;
    assert_eq!(r, Position { x: 400_000 - c, y: 300_000 - c });
}

#[test]
fn zero_elapsed_time_no_motion() {
    let p = Position { x: 400_000, y: 300_000 };
    let r = player_movement(p, &keys(false, true, false, false), 300, 0);
    assert_eq!(r, p);
}
