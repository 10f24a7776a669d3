use arena_sim::geometry::Position;
use arena_sim::tween::TWEEN_DURATION_MS;
use arena_sim::tween::Tween;

fn sample_tween() -> Tween {
    Tween::new(
        Position { x: 100_000, y: 200_000 },
        Position { x: 101_000, y: 200_000 },
        TWEEN_DURATION_MS,
    )
}

#[test]
fn value_at_zero_is_start() {
    let tw = sample_tween();
    assert_eq!(tw.value(0), Position { x: 100_000, y: 200_000 });
}

#[test]
fn value_at_duration_is_end() {
    let tw = sample_tween();
    assert_eq!(tw.value(TWEEN_DURATION_MS), Position { x: 101_000, y: 200_000 });
}

#[test]
fn value_past_duration_clamps_to_end() {
    let tw = sample_tween();
    assert_eq!(tw.value(TWEEN_DURATION_MS + 5_000), Position { x: 101_000, y: 200_000 });
}

#[test]
fn value_before_zero_clamps_to_start() {
    let tw = sample_tween();
    assert_eq!(tw.value(-3), Position { x: 100_000, y: 200_000 });
}

#[test]
fn value_walks_linearly_between() {
    let tw = sample_tween();
    // A quarter of the way through a 1000 milli-pixel walk: 250 milli-pixels.
    assert_eq!(tw.value(250), Position { x: 100_250, y: 200_000 });
    assert_eq!(tw.value(999), Position { x: 100_999, y: 200_000 });
}

#[test]
fn value_descends_toward_lower_end() {
    let tw = Tween::new(
        Position { x: 0, y: 500_000 },
        Position { x: 0, y: 499_000 },
        TWEEN_DURATION_MS,
    );
    assert_eq!(tw.value(400), Position { x: 0, y: 499_600 });
    assert_eq!(tw.value(TWEEN_DURATION_MS), Position { x: 0, y: 499_000 });
}
