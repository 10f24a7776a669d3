use arena_sim::geometry::Arena;
use arena_sim::geometry::Bounds;
use arena_sim::geometry::Position;
use arena_sim::geometry::confine;

fn sample_bounds() -> Bounds {
    Bounds { x_min: 32_000, x_max: 768_000, y_min: 32_000, y_max: 568_000 }
}

#[test]
fn confine_leaves_inside_point_unchanged() {
    let b = sample_bounds();
    let p = Position { x: 400_000, y: 300_000 };
    assert_eq!(confine(p, &b), p);
}

#[test]
fn confine_pulls_up_to_minimum() {
    let b = sample_bounds();
    let p = Position { x: -5_000, y: 10_000 };
    let r = confine(p, &b);
    assert_eq!(r, Position { x: 32_000, y: 32_000 });
}

#[test]
fn confine_pulls_down_to_maximum() {
    let b = sample_bounds();
    let p = Position { x: 1_070_000, y: 600_000 };
    let r = confine(p, &b);
    assert_eq!(r, Position { x: 768_000, y: 568_000 });
}

#[test]
fn confine_mixed_axes() {
    let b = sample_bounds();
    let p = Position { x: -1, y: 568_001 };
    let r = confine(p, &b);
    assert_eq!(r, Position { x: 32_000, y: 568_000 });
}

#[test]
fn confine_is_idempotent_on_samples() {
    let b = sample_bounds();
    let samples = vec![
        Position { x: -5_000, y: 10_000 },
        Position { x: 400_000, y: 300_000 },
        Position { x: 1_070_000, y: -3 },
        Position { x: 32_000, y: 568_000 },
        Position { x: 768_001, y: 567_999 },
    ];
    for p in samples {
        let once = confine(p, &b);
        let twice = confine(once, &b);
        assert_eq!(twice, once);
    }
}

#[test]
fn confine_result_is_contained() {
    let b = sample_bounds();
    let samples = vec![
        Position { x: -5_000, y: 10_000 },
        Position { x: 400_000, y: 300_000 },
        Position { x: 1_070_000, y: -3 },
        Position { x: 900_000, y: 900_000 },
    ];
    for p in samples {
        let r = confine(p, &b);
        assert!(b.x_min <= r.x && r.x <= b.x_max);
        assert!(b.y_min <= r.y && r.y <= b.y_max);
    }
}

#[test]
fn bounds_leave_half_sprite_margin() {
    let arena = Arena { width: 800_000, height: 600_000 };
    let b = arena.bounds(64_000);
    assert_eq!(b, sample_bounds());
}

#[test]
fn arena_center_is_half_dimensions() {
    let arena = Arena { width: 800_000, height: 600_000 };
    let c = arena.center();
    assert_eq!(c, Position { x: 400_000, y: 300_000 });
}
