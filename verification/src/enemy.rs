use vstd::prelude::*;
use crate::MILLI;
use crate::geometry::Position;
use crate::tween::Tween;
use crate::tween::TWEEN_DURATION_MS;
use crate::tween::clamp_time;
use vstd::arithmetic::div_mod::lemma_div_by_multiple;
use vstd::arithmetic::div_mod::lemma_div_of0;

verus! {

/// A cardinal direction of enemy motion.
#[derive(Clone, Copy, PartialEq, Eq, Structural, Debug)]
pub enum Direction {
    Left,
    Right,
    Down,
    Up,
}

/// The unit interval [0,1) of the uniform draw is modelled as the full
/// `u32` range; one quartile of it is 2^30 values wide.
pub const QUARTILE: u32 = 0x4000_0000;

/// The quartile partition of a uniform draw: the first quarter of the roll
/// space selects left, the second right, the third down and the last up.
pub open spec fn direction_spec(roll: u32) -> Direction {
    if roll < QUARTILE {
        Direction::Left
    } else if roll < 2 * QUARTILE {
        Direction::Right
    } else if roll < 3 * QUARTILE {
        Direction::Down
    } else {
        Direction::Up
    }
}

/// Map a uniform draw to a cardinal direction by quartile.
pub fn direction_for_roll(roll: u32) -> (d: Direction)
    ensures
        d == direction_spec(roll),
{
    if roll < QUARTILE {
        Direction::Left
    } else if roll < 2 * QUARTILE {
        Direction::Right
    } else if roll < 3 * QUARTILE {
        Direction::Down
    } else {
        Direction::Up
    }
}

/// Each direction is selected on exactly one quartile of the roll space,
/// and the four quartiles have equal width 2^30.
pub proof fn lemma_equal_quartiles(roll: u32)
    ensures
        direction_spec(roll) == Direction::Left <==> roll < QUARTILE,
        direction_spec(roll) == Direction::Right <==> QUARTILE <= roll < 2 * QUARTILE,
        direction_spec(roll) == Direction::Down <==> 2 * QUARTILE <= roll < 3 * QUARTILE,
        direction_spec(roll) == Direction::Up <==> 3 * QUARTILE <= roll,
        3 * QUARTILE + QUARTILE == 0x1_0000_0000u64,
{
}

/// The one-pixel unit vector of a direction, in milli-pixels.
pub open spec fn direction_offset_spec(d: Direction) -> Position {
    match d {
        Direction::Left => Position { x: (-MILLI) as i64, y: 0 },
        Direction::Right => Position { x: MILLI, y: 0 },
        Direction::Down => Position { x: 0, y: (-MILLI) as i64 },
        Direction::Up => Position { x: 0, y: MILLI },
    }
}

/// The tween one frame of enemy motion builds: from the enemy's current
/// position one pixel toward the rolled direction, over one second.
pub open spec fn enemy_tween_spec(p: Position, roll: u32) -> Tween {
    let o = direction_offset_spec(direction_spec(roll));
    Tween {
        start: p,
        end: Position { x: (p.x + o.x) as i64, y: (p.y + o.y) as i64 },
        duration_ms: TWEEN_DURATION_MS,
    }
}

/// Where one frame of enemy motion takes an enemy at `p` on roll `roll`:
/// the frame's tween evaluated at the frame's elapsed time.
pub open spec fn enemy_move_spec(p: Position, roll: u32, dt_ms: i64) -> Position {
    enemy_tween_spec(p, roll).value_spec(dt_ms as int)
}

/// One frame of motion for one enemy: partition the uniform draw into
/// quartiles, pick the cardinal direction of the quartile it fell in,
/// build a one-second tween from the current position one pixel toward
/// that direction, and evaluate it at the frame's elapsed time.
pub fn enemy_movement_step(p: Position, roll: u32, dt_ms: i64) -> (r: Position)
    requires
        p.in_range(),
    ensures
        r == enemy_move_spec(p, roll, dt_ms),
{
    let d = direction_for_roll(roll);
    let (ox, oy): (i64, i64) = match d {
        Direction::Left => (-MILLI, 0),
        Direction::Right => (MILLI, 0),
        Direction::Down => (0, -MILLI),
        Direction::Up => (0, MILLI),
    };
    let end = Position { x: p.x + ox, y: p.y + oy };
    let tween = Tween::new(p, end, TWEEN_DURATION_MS);
    tween.value(dt_ms)
}

/// Whatever the roll, one frame of enemy motion moves the enemy along
/// exactly one axis, by exactly clamp(dt, 0, duration) milli-pixels — the
/// fraction dt/duration of one pixel. Since a frame's elapsed time is far
/// below the one-second duration and the tween is rebuilt fresh every
/// frame, the visible displacement per frame stays near zero.
pub proof fn lemma_enemy_step_displacement(p: Position, roll: u32, dt_ms: i64)
    requires
        p.in_range(),
    ensures
        ({
            let r = enemy_move_spec(p, roll, dt_ms);
            let step = clamp_time(dt_ms as int, TWEEN_DURATION_MS as int);
            ||| (r.y == p.y && (r.x - p.x == step || p.x - r.x == step))
            ||| (r.x == p.x && (r.y - p.y == step || p.y - r.y == step))
        }),
{
    let step = clamp_time(dt_ms as int, TWEEN_DURATION_MS as int);
    assert(0 <= step <= MILLI);
    assert((MILLI as int * step) / (TWEEN_DURATION_MS as int) == step) by {
        assert(MILLI as int * step == step * MILLI) by (nonlinear_arith);
        lemma_div_by_multiple(step, MILLI as int);
    }
    assert((0int * step) / (TWEEN_DURATION_MS as int) == 0) by {
        assert(0int * step == 0) by (nonlinear_arith);
        lemma_div_of0(TWEEN_DURATION_MS as int);
    }
}

/// Draws one uniform value. Relies on rand::random: the value comes from
/// rand's `Standard` distribution; nothing is promised of the value drawn.
pub assume_specification<T>[ rand::random::<T> ]() -> (r: T)
    where
        rand::distributions::Standard: rand::distributions::Distribution<T>,
;

/// One frame of motion for one enemy, the uniform value drawn fresh: the
/// result is one frame of enemy motion under some roll, whatever was drawn.
pub fn enemy_movement_random(p: Position, dt_ms: i64) -> (r: Position)
    requires
        p.in_range(),
    ensures
        exists|roll: u32| r == enemy_move_spec(p, roll, dt_ms),
{
    let roll: u32 = rand::random::<u32>();
    let r = enemy_movement_step(p, roll, dt_ms);
    proof {
        assert(r == enemy_move_spec(p, roll, dt_ms));
    }
    r
}

} // verus!
