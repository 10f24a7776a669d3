use vstd::prelude::*;
use crate::MAX_COORD;
use crate::geometry::Position;
use crate::movement::MAX_DT;
use vstd::arithmetic::div_mod::lemma_div_by_multiple;
use vstd::arithmetic::div_mod::lemma_div_is_ordered;
use vstd::arithmetic::div_mod::lemma_div_of0;
use vstd::arithmetic::div_mod::lemma_div_pos_is_pos;
use vstd::arithmetic::mul::lemma_mul_inequality;

verus! {

/// The fixed duration of one enemy motion tween, in milliseconds.
pub const TWEEN_DURATION_MS: i64 = 1_000;

/// An in-flight linear interpolation between two positions over a fixed
/// duration: value(t) walks from `start` at t = 0 to `end` at t = duration,
/// clamped at both ends.
#[derive(Clone, Copy, PartialEq, Eq, Structural, Debug)]
pub struct Tween {
    pub start: Position,
    pub end: Position,
    pub duration_ms: i64,
}

/// Clamp an elapsed time into the tween's lifetime [0, dur].
pub open spec fn clamp_time(t: int, dur: int) -> int {
    if t < 0 {
        0
    } else if t > dur {
        dur
    } else {
        t
    }
}

/// Linear interpolation of one axis: `a` plus the fraction t/dur of the
/// distance from `a` to `b`, the fractional step rounded toward `a`.
pub open spec fn lerp(a: i64, b: i64, t: int, dur: int) -> int {
    if b >= a {
        a + ((b - a) * t) / dur
    } else {
        a - ((a - b) * t) / dur
    }
}

impl Tween {
    /// A positive, bounded duration and endpoint coordinates small enough
    /// for the interpolation products to fit in the machine arithmetic.
    pub open spec fn well_formed(self) -> bool {
        &&& 0 < self.duration_ms <= MAX_DT
        &&& -2 * MAX_COORD <= self.start.x <= 2 * MAX_COORD
        &&& -2 * MAX_COORD <= self.start.y <= 2 * MAX_COORD
        &&& -2 * MAX_COORD <= self.end.x <= 2 * MAX_COORD
        &&& -2 * MAX_COORD <= self.end.y <= 2 * MAX_COORD
    }

    /// The interpolated position for elapsed time `t`: both axes walk their
    /// `start`-to-`end` distance in proportion t/dur, with t clamped into
    /// [0, dur], so the value never overshoots either endpoint.
    pub open spec fn value_spec(self, t: int) -> Position {
        let ct = clamp_time(t, self.duration_ms as int);
        Position {
            x: lerp(self.start.x, self.end.x, ct, self.duration_ms as int) as i64,
            y: lerp(self.start.y, self.end.y, ct, self.duration_ms as int) as i64,
        }
    }

    /// Build a tween from `start` to `end` over `duration_ms` milliseconds.
    pub fn new(start: Position, end: Position, duration_ms: i64) -> (tw: Tween)
        requires
            0 < duration_ms <= MAX_DT,
            -2 * MAX_COORD <= start.x <= 2 * MAX_COORD,
            -2 * MAX_COORD <= start.y <= 2 * MAX_COORD,
            -2 * MAX_COORD <= end.x <= 2 * MAX_COORD,
            -2 * MAX_COORD <= end.y <= 2 * MAX_COORD,
        ensures
            tw == (Tween { start, end, duration_ms }),
            tw.well_formed(),
    {
        Tween { start, end, duration_ms }
    }

    /// Evaluate the tween at elapsed time `elapsed_ms`.
    pub fn value(&self, elapsed_ms: i64) -> (r: Position)
        requires
            self.well_formed(),
        ensures
            r == self.value_spec(elapsed_ms as int),
    {
        let t: i64 = if elapsed_ms < 0 {
            0
        } else if elapsed_ms > self.duration_ms {
            self.duration_ms
        } else {
            elapsed_ms
        };
        let x = lerp_exec(self.start.x, self.end.x, t, self.duration_ms);
        let y = lerp_exec(self.start.y, self.end.y, t, self.duration_ms);
        Position { x, y }
    }
}

/// The fraction t/dur of the non-negative distance `diff`, rounded down.
/// Never exceeds `diff` itself.
fn scaled_distance(diff: i64, t: i64, dur: i64) -> (r: i64)
    requires
        0 <= diff <= 4 * MAX_COORD,
        0 < dur <= MAX_DT,
        0 <= t <= dur,
    ensures
        r == (diff as int * t as int) / (dur as int),
        0 <= r <= diff,
{
    proof {
        lemma_mul_inequality(t as int, dur as int, diff as int);
        assert(diff * t == t * diff) by (nonlinear_arith);
        assert(diff * dur == dur * diff) by (nonlinear_arith);
        assert(0 <= diff * t <= diff * dur && diff * dur <= 4 * MAX_COORD * MAX_DT) by (nonlinear_arith)
            requires
                0 <= diff <= 4 * MAX_COORD,
                0 <= t <= dur,
                dur <= MAX_DT,
        {
        }
        lemma_div_is_ordered(diff * t, diff * dur, dur as int);
        lemma_div_by_multiple(diff as int, dur as int);
        lemma_div_pos_is_pos(diff * t, dur as int);
    }
    (diff * t) / dur
}

/// Linear interpolation of one axis, the signed distance split by direction
/// so that the quotient is taken on a non-negative value.
fn lerp_exec(a: i64, b: i64, t: i64, dur: i64) -> (r: i64)
    requires
        -2 * MAX_COORD <= a <= 2 * MAX_COORD,
        -2 * MAX_COORD <= b <= 2 * MAX_COORD,
        0 < dur <= MAX_DT,
        0 <= t <= dur,
    ensures
        r == lerp(a, b, t as int, dur as int),
{
    if b >= a {
        let q = scaled_distance(b - a, t, dur);
        a + q
    } else {
        let q = scaled_distance(a - b, t, dur);
        a - q
    }
}

/// Tween boundary values: the tween starts exactly at `start`, arrives
/// exactly at `end` when the elapsed time reaches the duration, and clamps
/// beyond both ends: value(t) == start for all t <= 0 and value(t) == end
/// for all t >= duration.
pub proof fn lemma_tween_boundary_values(tw: Tween, t: int)
    requires
        tw.well_formed(),
    ensures
        tw.value_spec(0) == tw.start,
        tw.value_spec(tw.duration_ms as int) == tw.end,
        t <= 0 ==> tw.value_spec(t) == tw.start,
        t >= tw.duration_ms ==> tw.value_spec(t) == tw.end,
{
    let dur = tw.duration_ms as int;
    lemma_lerp_endpoints(tw.start.x, tw.end.x, dur);
    lemma_lerp_endpoints(tw.start.y, tw.end.y, dur);
}

/// On one axis the interpolation hits its endpoints exactly:
/// lerp(a, b, 0, dur) == a and lerp(a, b, dur, dur) == b.
proof fn lemma_lerp_endpoints(a: i64, b: i64, dur: int)
    requires
        0 < dur,
    ensures
        lerp(a, b, 0, dur) == a,
        lerp(a, b, dur, dur) == b,
{
    lemma_div_of0(dur);
    if b >= a {
        assert((b - a) * 0 == 0) by (nonlinear_arith);
        lemma_div_by_multiple(b - a, dur);
    } else {
        assert((a - b) * 0 == 0) by (nonlinear_arith);
        lemma_div_by_multiple(a - b, dur);
    }
}

} // verus!
