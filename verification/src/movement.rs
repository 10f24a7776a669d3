use vstd::prelude::*;
use crate::geometry::Position;
use vstd::arithmetic::div_mod::lemma_fundamental_div_mod;
use vstd::arithmetic::div_mod::lemma_remainder_lower;
use vstd::arithmetic::div_mod::lemma_remainder_upper;

verus! {

/// Largest player or enemy speed the movement arithmetic admits, in pixels
/// per second.
pub const MAX_SPEED: i64 = 10_000;

/// Largest elapsed time per frame the movement arithmetic admits, in
/// milliseconds.
pub const MAX_DT: i64 = 1_000_000;

/// Numerator of the rational 70/99, the closest under-approximation of
/// 1/sqrt(2) with two-digit terms: 2 * 70^2 = 9800 < 9801 = 99^2.
pub const DIAG_NUM: i64 = 70;

/// Denominator of the rational 70/99.
pub const DIAG_DEN: i64 = 99;

/// The pressed / released state of the eight movement keys: each direction
/// has an arrow key and a letter synonym.
#[derive(Clone, Copy, PartialEq, Eq, Structural, Debug)]
pub struct KeyState {
    pub left: bool,
    pub h: bool,
    pub right: bool,
    pub l: bool,
    pub down: bool,
    pub j: bool,
    pub up: bool,
    pub k: bool,
}

impl KeyState {
    /// No movement key is pressed.
    pub open spec fn none_spec() -> KeyState {
        KeyState {
            left: false,
            h: false,
            right: false,
            l: false,
            down: false,
            j: false,
            up: false,
            k: false,
        }
    }

    /// A key state with no key pressed.
    pub fn none() -> (ks: KeyState)
        ensures
            ks == KeyState::none_spec(),
    {
        KeyState {
            left: false,
            h: false,
            right: false,
            l: false,
            down: false,
            j: false,
            up: false,
            k: false,
        }
    }

    pub open spec fn left_pressed(self) -> bool {
        self.left || self.h
    }

    pub open spec fn right_pressed(self) -> bool {
        self.right || self.l
    }

    pub open spec fn down_pressed(self) -> bool {
        self.down || self.j
    }

    pub open spec fn up_pressed(self) -> bool {
        self.up || self.k
    }

    /// Net horizontal direction: the sum of the unit vectors for the pressed
    /// left / right pairs.
    pub open spec fn dir_x(self) -> int {
        (if self.right_pressed() {
            1int
        } else {
            0int
        }) - (if self.left_pressed() {
            1int
        } else {
            0int
        })
    }

    /// Net vertical direction: the sum of the unit vectors for the pressed
    /// up / down pairs.
    pub open spec fn dir_y(self) -> int {
        (if self.up_pressed() {
            1int
        } else {
            0int
        }) - (if self.down_pressed() {
            1int
        } else {
            0int
        })
    }

    /// Both a horizontal and a vertical direction are in effect, so the
    /// combined direction vector is diagonal and must be normalized.
    pub open spec fn diagonal(self) -> bool {
        self.dir_x() != 0 && self.dir_y() != 0
    }
}

/// The per-axis component of a diagonal step of magnitude `m`: the largest
/// integer at most m * 70/99, the rational under-approximation of m/sqrt(2).
pub open spec fn diag_component(m: int) -> int {
    (m * 70) / 99
}

/// The per-axis step of one frame of player movement: the full displacement
/// magnitude `speed * dt_ms` on a single-axis move, its normalized diagonal
/// component when two orthogonal directions are pressed at once.
pub open spec fn axis_step(keys: KeyState, speed: i64, dt_ms: i64) -> int {
    if keys.diagonal() {
        diag_component(speed * dt_ms)
    } else {
        speed * dt_ms
    }
}

/// Where one frame of movement takes a player at `p`: each axis moves by the
/// net direction times the per-axis step.
pub open spec fn player_move_spec(p: Position, keys: KeyState, speed: i64, dt_ms: i64) -> Position {
    let s = axis_step(keys, speed, dt_ms);
    Position { x: (p.x + keys.dir_x() * s) as i64, y: (p.y + keys.dir_y() * s) as i64 }
}

/// The floor of m * 70/99 sits within one denominator of the exact rational:
/// 99 * c <= 70 * m < 99 * (c + 1).
proof fn lemma_diag_component_bounds(m: int)
    requires
        0 <= m,
    ensures
        99 * diag_component(m) <= 70 * m,
        70 * m < 99 * (diag_component(m) + 1),
        0 <= diag_component(m) <= m,
{
    let c = diag_component(m);
    lemma_fundamental_div_mod(m * 70, 99);
    lemma_remainder_lower(m * 70, 99);
    lemma_remainder_upper(m * 70, 99);
    assert(m * 70 == 70 * m) by (nonlinear_arith);
    assert(0 <= c <= m) by (nonlinear_arith)
        requires
            99 * c <= 70 * m,
            70 * m < 99 * (c + 1),
            0 <= m,
    {
    }
}

/// Movement normalization: a diagonal step is never faster than a
/// single-axis step. With per-axis component c = diag_component(m), the
/// squared diagonal displacement 2*c^2 never exceeds m^2, and c is as large
/// as any integer satisfying that within the 70/99 approximation:
/// 9800 * m^2 < 19602 * (c+1)^2, so the squared magnitude equals m^2 up to a
/// relative error of 1/9801 plus integer rounding. Exact equality
/// 2*c^2 == m^2 has no integer solution for m > 0.
pub proof fn lemma_diagonal_not_faster(m: int)
    requires
        0 <= m,
    ensures
        2 * (diag_component(m) * diag_component(m)) <= m * m,
        9800 * (m * m) < 19602 * ((diag_component(m) + 1) * (diag_component(m) + 1)),
        0 <= diag_component(m) <= m,
{
    let c = diag_component(m);
    lemma_diag_component_bounds(m);
    assert(2 * (c * c) <= m * m) by (nonlinear_arith)
        requires
            0 <= c,
            0 <= m,
            99 * c <= 70 * m,
    {
    }
    assert(9800 * (m * m) < 19602 * ((c + 1) * (c + 1))) by (nonlinear_arith)
        requires
            0 <= m,
            0 <= c,
            70 * m < 99 * (c + 1),
    {
    }
}

/// Movement normalization at the level of one frame: when two orthogonal
/// directions are pressed simultaneously, both axes of the resulting
/// displacement have the same magnitude, and the squared displacement
/// magnitude never exceeds (speed * dt_ms)^2 — so diagonal movement is not
/// faster than single-axis movement, and in particular not the sqrt(2)
/// times faster that unnormalized axis sums would give.
pub proof fn lemma_diagonal_displacement(p: Position, keys: KeyState, speed: i64, dt_ms: i64)
    requires
        0 <= speed <= MAX_SPEED,
        0 <= dt_ms <= MAX_DT,
        p.in_range(),
        keys.diagonal(),
    ensures
        ({
            let r = player_move_spec(p, keys, speed, dt_ms);
            let ddx = r.x - p.x;
            let ddy = r.y - p.y;
            &&& ddx * ddx == ddy * ddy
            &&& ddx * ddx + ddy * ddy <= (speed * dt_ms) * (speed * dt_ms)
        }),
{
    assert(0 <= speed * dt_ms <= MAX_SPEED * MAX_DT) by (nonlinear_arith)
        requires
            0 <= speed <= MAX_SPEED,
            0 <= dt_ms <= MAX_DT,
    {
    }
    let m = speed * dt_ms;
    let c = diag_component(m);
    lemma_diagonal_not_faster(m);
    let r = player_move_spec(p, keys, speed, dt_ms);
    let dx = keys.dir_x();
    let dy = keys.dir_y();
    assert(dx == 1 || dx == -1);
    assert(dy == 1 || dy == -1);
    assert(dx * c == (if dx == 1 {
        c
    } else {
        -c
    })) by (nonlinear_arith)
        requires
            dx == 1 || dx == -1,
    {
    }
    assert(dy * c == (if dy == 1 {
        c
    } else {
        -c
    })) by (nonlinear_arith)
        requires
            dy == 1 || dy == -1,
    {
    }
    let ddx = r.x - p.x;
    let ddy = r.y - p.y;
    assert(ddx == c || ddx == -c);
    assert(ddy == c || ddy == -c);
    assert((-c) * (-c) == c * c) by (nonlinear_arith);
    assert(ddx * ddx == c * c && ddy * ddy == c * c);
    assert(c * c + c * c == 2 * (c * c));
}

/// One frame of player movement: read the pressed direction keys, merge each
/// arrow key with its letter synonym, form the net direction vector,
/// normalize it when it is diagonal, scale by speed and elapsed time, and add
/// the displacement to the position. With no key pressed the position is
/// unchanged.
pub fn player_movement(p: Position, keys: &KeyState, speed: i64, dt_ms: i64) -> (r: Position)
    requires
        0 <= speed <= MAX_SPEED,
        0 <= dt_ms <= MAX_DT,
        p.in_range(),
    ensures
        r == player_move_spec(p, *keys, speed, dt_ms),
{
    let left = keys.left || keys.h;
    let right = keys.right || keys.l;
    let down = keys.down || keys.j;
    let up = keys.up || keys.k;
    proof {
        assert(0 <= speed * dt_ms <= MAX_SPEED * MAX_DT) by (nonlinear_arith)
            requires
                0 <= speed <= MAX_SPEED,
                0 <= dt_ms <= MAX_DT,
        {
        }
    }
    let m: i64 = speed * dt_ms;
    let dx: i64 = (if right {
        1i64
    } else {
        0i64
    }) - (if left {
        1i64
    } else {
        0i64
    });
    let dy: i64 = (if up {
        1i64
    } else {
        0i64
    }) - (if down {
        1i64
    } else {
        0i64
    });
    let step: i64 = if dx != 0 && dy != 0 {
        proof {
            lemma_diag_component_bounds(m as int);
        }
        (m * DIAG_NUM) / DIAG_DEN
    } else {
        m
    };
    proof {
        assert(dx == keys.dir_x());
        assert(dy == keys.dir_y());
        assert(step == axis_step(*keys, speed, dt_ms));
        assert(0 <= step <= m);
        assert(dx * step == if dx == 1 { step as int } else if dx == -1 { -(step as int) } else { 0int });
        assert(dy * step == if dy == 1 { step as int } else if dy == -1 { -(step as int) } else { 0int });
    }
    let sx: i64 = if dx == 1 {
        step
    } else if dx == -1 {
        -step
    } else {
        0
    };
    let sy: i64 = if dy == 1 {
        step
    } else if dy == -1 {
        -step
    } else {
        0
    };
    Position { x: p.x + sx, y: p.y + sy }
}

} // verus!
