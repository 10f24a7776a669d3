use vstd::prelude::*;
use crate::MAX_COORD;

verus! {

/// A point in the arena plane. Coordinates are in milli-pixels (thousandths
/// of a pixel), so that time-scaled velocities land exactly on stored
/// coordinates.
#[derive(Clone, Copy, PartialEq, Eq, Structural, Debug)]
pub struct Position {
    pub x: i64,
    pub y: i64,
}

impl Position {
    /// Both coordinates are small enough that one frame of movement
    /// arithmetic cannot overflow an `i64`.
    pub open spec fn in_range(self) -> bool {
        -MAX_COORD <= self.x <= MAX_COORD && -MAX_COORD <= self.y <= MAX_COORD
    }
}

/// The rectangle an entity's centre must stay within, in milli-pixels.
#[derive(Clone, Copy, PartialEq, Eq, Structural, Debug)]
pub struct Bounds {
    pub x_min: i64,
    pub x_max: i64,
    pub y_min: i64,
    pub y_max: i64,
}

impl Bounds {
    /// A bounds rectangle is well formed when it is non-empty on both axes.
    pub open spec fn well_formed(self) -> bool {
        self.x_min <= self.x_max && self.y_min <= self.y_max
    }

    /// `p` lies inside the rectangle on both axes.
    pub open spec fn contains(self, p: Position) -> bool {
        self.x_min <= p.x <= self.x_max && self.y_min <= p.y <= self.y_max
    }
}

/// One axis of the confinement rule: pull `v` up to `lo` if it is below,
/// down to `hi` if it is above, and leave it alone otherwise.
pub open spec fn clamp_coord(v: i64, lo: i64, hi: i64) -> i64 {
    if v < lo {
        lo
    } else if v > hi {
        hi
    } else {
        v
    }
}

/// The confinement rule on both axes: clamp `p` into `b`.
pub open spec fn confine_spec(p: Position, b: Bounds) -> Position {
    Position {
        x: clamp_coord(p.x, b.x_min, b.x_max),
        y: clamp_coord(p.y, b.y_min, b.y_max),
    }
}

/// Clamp a position into a bounds rectangle, axis by axis.
pub fn confine(p: Position, b: &Bounds) -> (r: Position)
    ensures
        r == confine_spec(p, *b),
{
    let mut x = p.x;
    let mut y = p.y;
    if x < b.x_min {
        x = b.x_min;
    } else if x > b.x_max {
        x = b.x_max;
    }
    if y < b.y_min {
        y = b.y_min;
    } else if y > b.y_max {
        y = b.y_max;
    }
    Position { x, y }
}

/// Clamping is idempotent: on well-formed bounds, confining an already
/// confined position changes nothing.
pub proof fn lemma_confine_idempotent(p: Position, b: Bounds)
    requires
        b.well_formed(),
    ensures
        confine_spec(confine_spec(p, b), b) == confine_spec(p, b),
{
}

/// Clamping containment: on well-formed bounds, a confined position lies
/// within the bounds on both axes.
pub proof fn lemma_confine_contains(p: Position, b: Bounds)
    requires
        b.well_formed(),
    ensures
        b.contains(confine_spec(p, b)),
{
}

/// The arena: a window-sized rectangle, dimensions in milli-pixels.
#[derive(Clone, Copy, PartialEq, Eq, Structural, Debug)]
pub struct Arena {
    pub width: i64,
    pub height: i64,
}

impl Arena {
    /// Positive dimensions, small enough for the movement arithmetic.
    pub open spec fn well_formed(self) -> bool {
        0 < self.width <= MAX_COORD && 0 < self.height <= MAX_COORD
    }

    /// The rectangle that the centre of an entity of visual extent `size`
    /// must stay within: a margin of half the extent on every side.
    pub open spec fn bounds_spec(self, size: i64) -> Bounds {
        Bounds {
            x_min: (size / 2) as i64,
            x_max: (self.width - size / 2) as i64,
            y_min: (size / 2) as i64,
            y_max: (self.height - size / 2) as i64,
        }
    }

    /// Derive the confinement bounds for an entity of visual extent `size`.
    pub fn bounds(&self, size: i64) -> (b: Bounds)
        requires
            self.well_formed(),
            0 <= size,
            size <= self.width,
            size <= self.height,
        ensures
            b == self.bounds_spec(size),
            b.well_formed(),
            0 <= b.x_min,
            b.x_max <= self.width,
            0 <= b.y_min,
            b.y_max <= self.height,
    {
        let half: i64 = size / 2;
        Bounds {
            x_min: half,
            x_max: self.width - half,
            y_min: half,
            y_max: self.height - half,
        }
    }

    /// The centre of the arena, where the player starts.
    pub fn center(&self) -> (p: Position)
        requires
            self.well_formed(),
        ensures
            p.x == self.width / 2,
            p.y == self.height / 2,
            p.in_range(),
    {
        Position { x: self.width / 2, y: self.height / 2 }
    }
}

} // verus!
