//! The stochastic obstacle source: one Bernoulli trial per tick with
//! probability 1/50, and uniform draws for the new obstacle's horizontal
//! position and velocity. The generator is owned by the spawner and is
//! seeded by the caller, so tests can inject a fixed seed.
//!
//! All draws are integer draws at the simulation's tenth-of-a-unit
//! resolution, taken through a thin trusted layer over the `rand` crate.

use crate::entities::Asteroid;
use crate::geometry::{Vector2, POS_LIMIT};
use rand::Rng;
use rand::SeedableRng;
use vstd::prelude::*;

verus! {

/// Spawn odds: one tick in `SPAWN_ONE_IN` spawns an obstacle (1/50 = 0.02).
pub const SPAWN_ONE_IN: u32 = 50;

/// Largest obstacle horizontal speed, in tenths per tick (2.0 units).
pub const OBSTACLE_VX_MAX: i64 = 20;

/// Smallest obstacle downward speed, in tenths per tick (1.0 unit).
pub const OBSTACLE_VY_MIN: i64 = 10;

/// Largest obstacle downward speed, in tenths per tick (3.0 units).
pub const OBSTACLE_VY_MAX: i64 = 30;

#[verifier::external_type_specification]
#[verifier::external_body]
pub struct ExStdRng(rand::rngs::StdRng);

/// Relies on rand's `SeedableRng::seed_from_u64` for `StdRng`: it builds a
/// generator from a 64-bit seed and returns normally for every seed.
#[verifier::external_body]
fn rng_from_seed(seed: u64) -> rand::rngs::StdRng {
    rand::rngs::StdRng::seed_from_u64(seed)
}

/// Relies on rand's `Rng::gen_range` on a half-open integer range: it
/// returns a value uniform in `[lo, hi)` and panics only on an empty range,
/// which the precondition rules out.
#[verifier::external_body]
fn rng_range(rng: &mut rand::rngs::StdRng, lo: u32, hi: u32) -> (r: u32)
    requires
        lo < hi,
    ensures
        lo <= r < hi,
{
    rng.gen_range(lo..hi)
}

/// What holds of every obstacle the spawner emits: at the top edge, within
/// the field's width, drifting sideways by at most 2.0 units per tick and
/// falling at 1.0 to 3.0 units per tick.
pub open spec fn spawn_bounds(a: Asteroid, width: int) -> bool {
    &&& a.position.y == 0
    &&& 0 <= a.position.x < width
    &&& -OBSTACLE_VX_MAX <= a.velocity.x <= OBSTACLE_VX_MAX
    &&& OBSTACLE_VY_MIN <= a.velocity.y <= OBSTACLE_VY_MAX
}

/// What holds of a spawn decision: nothing, or one obstacle within the
/// spawn bounds.
pub open spec fn spawn_ok(sp: Option<Asteroid>, width: int) -> bool {
    sp matches Some(a) ==> spawn_bounds(a, width)
}

/// The spawn decision as a function of the four uniform draws: a miss on
/// any non-zero trial; on a zero trial, the obstacle assembled from the
/// draws — at the top edge, the horizontal-velocity draw recentred around
/// zero, the vertical draw taken as is.
pub fn decide_spawn(trial: u32, x: u32, vx_draw: u32, vy: u32, width: i64) -> (r: Option<
    Asteroid,
>)
    requires
        0 < width <= POS_LIMIT,
        x < width,
        vx_draw <= 2 * OBSTACLE_VX_MAX,
        OBSTACLE_VY_MIN <= vy <= OBSTACLE_VY_MAX,
    ensures
        trial != 0 ==> r is None,
        trial == 0 ==> r == Some(Asteroid {
            position: Vector2 { x: x as i64, y: 0 },
            velocity: Vector2 { x: ((vx_draw - OBSTACLE_VX_MAX) as i64), y: vy as i64 },
        }),
        spawn_ok(r, width as int),
        r matches Some(a) ==> a.wf(),
{
    if trial == 0 {
        Some(Asteroid::new(x as i64, 0, vx_draw as i64 - OBSTACLE_VX_MAX, vy as i64))
    } else {
        None
    }
}

/// The per-tick obstacle generation policy, owning its random source.
pub struct Spawner {
    rng: rand::rngs::StdRng,
}

impl Spawner {
    /// A spawner whose draws are determined by `seed`: the same seed gives
    /// the same run of spawn decisions.
    pub fn from_seed(seed: u64) -> Spawner {
        Spawner { rng: rng_from_seed(seed) }
    }

    /// One per-tick trial: with probability 1/50, a new obstacle at the top
    /// of a field `width` tenths wide, with uniformly drawn horizontal
    /// position and velocity; otherwise nothing. The four draws are taken
    /// here; what they decide is fixed, draw by draw, by `decide_spawn`,
    /// so every emitted obstacle lies within the spawn bounds whatever the
    /// generator returns.
    pub fn maybe_spawn(&mut self, width: i64) -> (r: Option<Asteroid>)
        requires
            0 < width <= POS_LIMIT,
        ensures
            spawn_ok(r, width as int),
            r matches Some(a) ==> a.wf(),
    {
        let trial = rng_range(&mut self.rng, 0, SPAWN_ONE_IN);
        let x = rng_range(&mut self.rng, 0, width as u32);
        let vx_draw = rng_range(&mut self.rng, 0, (2 * OBSTACLE_VX_MAX + 1) as u32);
        let vy = rng_range(&mut self.rng, OBSTACLE_VY_MIN as u32, (OBSTACLE_VY_MAX + 1) as u32);
        decide_spawn(trial, x, vx_draw, vy, width)
    }
}

} // verus!
