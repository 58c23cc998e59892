//! Fixed-point 2D geometry: the `Vector2` value type, the play-field
//! constants, saturating translation, and the proximity test.

use vstd::prelude::*;

verus! {

/// Ship speed per tick, in tenths of a unit (4.0 units).
pub const SPEED: i64 = 40;

/// Upward projectile speed per tick, in tenths of a unit (5.0 units).
pub const LASER_SPEED: i64 = 50;

/// Proximity threshold below which two entities collide, in tenths (22.0 units).
pub const COLLIDE_DIST: i64 = 220;

/// Play-field width in tenths of a unit (800 units).
pub const PLAY_WIDTH: i64 = 8000;

/// Play-field height in tenths of a unit (800 units).
pub const PLAY_HEIGHT: i64 = 8000;

/// Largest coordinate magnitude the simulation tracks, in tenths.
/// Positions saturate here so that all arithmetic stays inside `i64`;
/// the bound is over a hundred thousand play fields away from the origin.
pub const POS_LIMIT: i64 = 1_000_000_000;

/// Largest velocity-component magnitude any entity of the game uses, in
/// tenths per tick (the projectile's 5.0 units per tick).
pub const VEL_LIMIT: i64 = 50;

/// A 2D point or velocity, in tenths of a play-field unit.
#[derive(Clone, Copy, Debug, PartialEq, Eq, Structural)]
pub struct Vector2 {
    pub x: i64,
    pub y: i64,
}

impl Vector2 {
    /// A coordinate pair the simulation tracks: both components within
    /// the saturation bound.
    pub open spec fn in_limits(self) -> bool {
        -POS_LIMIT <= self.x <= POS_LIMIT && -POS_LIMIT <= self.y <= POS_LIMIT
    }

    /// A velocity the game can produce: both components within the speed cap.
    pub open spec fn bounded_vel(self) -> bool {
        -VEL_LIMIT <= self.x <= VEL_LIMIT && -VEL_LIMIT <= self.y <= VEL_LIMIT
    }

    /// One coordinate after a move: the exact sum, saturated at the
    /// coordinate bound.
    pub open spec fn sat_coord(c: int, d: int) -> int {
        if c + d > POS_LIMIT {
            POS_LIMIT as int
        } else if c + d < -POS_LIMIT {
            -POS_LIMIT as int
        } else {
            c + d
        }
    }

    /// The point reached by moving `self` by `v` for one tick.
    pub open spec fn moved(self, v: Vector2) -> Vector2 {
        Vector2 {
            x: Self::sat_coord(self.x as int, v.x as int) as i64,
            y: Self::sat_coord(self.y as int, v.y as int) as i64,
        }
    }

    /// Whether `self` and `other` are within the collision threshold:
    /// squared Euclidean distance below `COLLIDE_DIST` squared.
    pub open spec fn close_to(self, other: Vector2) -> bool {
        let dx = self.x - other.x;
        let dy = self.y - other.y;
        dx * dx + dy * dy < COLLIDE_DIST * COLLIDE_DIST
    }

    pub fn new(x: i64, y: i64) -> (r: Vector2)
        ensures
            r == (Vector2 { x, y }),
    {
        Vector2 { x, y }
    }

    /// Component-wise addition used for `position += velocity`, saturating
    /// at the coordinate bound.
    pub fn translate(self, v: Vector2) -> (r: Vector2)
        requires
            self.in_limits(),
            v.bounded_vel(),
        ensures
            r == self.moved(v),
            r.in_limits(),
    {
        let nx = if self.x + v.x > POS_LIMIT {
            POS_LIMIT
        } else if self.x + v.x < -POS_LIMIT {
            -POS_LIMIT
        } else {
            self.x + v.x
        };
        let ny = if self.y + v.y > POS_LIMIT {
            POS_LIMIT
        } else if self.y + v.y < -POS_LIMIT {
            -POS_LIMIT
        } else {
            self.y + v.y
        };
        Vector2 { x: nx, y: ny }
    }

    /// The proximity test both collision checks use: true exactly when the
    /// Euclidean distance between the points is below 22.0 units.
    pub fn close(self, other: Vector2) -> (r: bool)
        requires
            self.in_limits(),
            other.in_limits(),
        ensures
            r == self.close_to(other),
    {
        let dx = self.x - other.x;
        let dy = self.y - other.y;
        proof {
            assert(dx * dx <= 4_000_000_000_000_000_000 && dx * dx >= 0) by (nonlinear_arith)
                requires
                    -2_000_000_000 <= dx <= 2_000_000_000,
            ;
            assert(dy * dy <= 4_000_000_000_000_000_000 && dy * dy >= 0) by (nonlinear_arith)
                requires
                    -2_000_000_000 <= dy <= 2_000_000_000,
            ;
        }
        dx * dx + dy * dy < COLLIDE_DIST * COLLIDE_DIST
    }
}

} // verus!
