//! The three entity kinds: the player's ship, its projectiles, and the
//! falling obstacles. Each is position + velocity and advances by one
//! velocity step per tick.

use crate::geometry::{Vector2, LASER_SPEED};
use vstd::prelude::*;

verus! {

/// Ship spawn point, in tenths of a unit (100.0, 100.0).
pub const SHIP_START_X: i64 = 1000;

/// Ship spawn point, in tenths of a unit (100.0, 100.0).
pub const SHIP_START_Y: i64 = 1000;

/// A falling obstacle.
#[derive(Clone, Copy, Debug, PartialEq, Eq, Structural)]
pub struct Asteroid {
    pub position: Vector2,
    pub velocity: Vector2,
}

/// A projectile fired by the ship, moving straight up.
#[derive(Clone, Copy, Debug, PartialEq, Eq, Structural)]
pub struct Laser {
    pub position: Vector2,
    pub velocity: Vector2,
}

/// The player-controlled ship.
#[derive(Clone, Copy, Debug, PartialEq, Eq, Structural)]
pub struct Spaceship {
    pub position: Vector2,
    pub velocity: Vector2,
}

impl Asteroid {
    /// Position tracked and velocity within the game's speed cap.
    pub open spec fn wf(self) -> bool {
        self.position.in_limits() && self.velocity.bounded_vel()
    }

    /// The obstacle one tick later: moved by its velocity.
    pub open spec fn advanced(self) -> Asteroid {
        Asteroid { position: self.position.moved(self.velocity), velocity: self.velocity }
    }

    pub fn new(x: i64, y: i64, vel_x: i64, vel_y: i64) -> (r: Asteroid)
        ensures
            r == (Asteroid {
                position: Vector2 { x, y },
                velocity: Vector2 { x: vel_x, y: vel_y },
            }),
    {
        Asteroid { position: Vector2 { x, y }, velocity: Vector2 { x: vel_x, y: vel_y } }
    }

    /// Advance one tick: `position += velocity`.
    pub fn update(&mut self)
        requires
            old(self).wf(),
        ensures
            *final(self) == old(self).advanced(),
            final(self).wf(),
    {
        self.position = self.position.translate(self.velocity);
    }
}

impl Laser {
    /// Position tracked and velocity within the game's speed cap.
    pub open spec fn wf(self) -> bool {
        self.position.in_limits() && self.velocity.bounded_vel()
    }

    /// The projectile one tick later: moved by its velocity.
    pub open spec fn advanced(self) -> Laser {
        Laser { position: self.position.moved(self.velocity), velocity: self.velocity }
    }

    /// A projectile fired from `(x, y)`, moving upward at the fixed speed.
    pub fn new(x: i64, y: i64) -> (r: Laser)
        ensures
            r == (Laser {
                position: Vector2 { x, y },
                velocity: Vector2 { x: 0, y: ((-LASER_SPEED) as i64) },
            }),
    {
        Laser { position: Vector2 { x, y }, velocity: Vector2 { x: 0, y: -LASER_SPEED } }
    }

    /// Advance one tick: `position += velocity`.
    pub fn update(&mut self)
        requires
            old(self).wf(),
        ensures
            *final(self) == old(self).advanced(),
            final(self).wf(),
    {
        self.position = self.position.translate(self.velocity);
    }
}

impl Spaceship {
    /// Position tracked and velocity within the game's speed cap.
    pub open spec fn wf(self) -> bool {
        self.position.in_limits() && self.velocity.bounded_vel()
    }

    /// The ship one tick later: moved by its velocity.
    pub open spec fn advanced(self) -> Spaceship {
        Spaceship { position: self.position.moved(self.velocity), velocity: self.velocity }
    }

    /// The ship as a fresh round starts: at the spawn point, at rest.
    pub open spec fn start() -> Spaceship {
        Spaceship {
            position: Vector2 { x: SHIP_START_X, y: SHIP_START_Y },
            velocity: Vector2 { x: 0, y: 0 },
        }
    }

    /// A ship at the fixed spawn point with zero velocity.
    pub fn new() -> (r: Spaceship)
        ensures
            r == Spaceship::start(),
    {
        Spaceship {
            position: Vector2 { x: SHIP_START_X, y: SHIP_START_Y },
            velocity: Vector2 { x: 0, y: 0 },
        }
    }

    /// Advance one tick: `position += velocity`.
    pub fn update(&mut self)
        requires
            old(self).wf(),
        ensures
            *final(self) == old(self).advanced(),
            final(self).wf(),
    {
        self.position = self.position.translate(self.velocity);
    }
}

} // verus!
