//! The collision system: the projectile-obstacle sweep and the pruning that
//! follows it.
//!
//! The sweep walks projectiles in order; each one consumes the first
//! still-alive obstacle within the proximity threshold, both are marked
//! dead, and the score rises by one. A projectile scores against at most
//! one obstacle per tick, and an obstacle is consumed by at most one
//! projectile. Pruning then drops dead projectiles, projectiles off the top
//! of the field, and dead or out-of-bounds obstacles.

use crate::entities::{Asteroid, Laser};
use crate::geometry::Vector2;
use vstd::prelude::*;

verus! {

/// A sequence of `n` `true` flags: every entity alive.
pub open spec fn all_true(n: nat) -> Seq<bool> {
    Seq::new(n, |k: int| true)
}

/// The score after one hit: one more, saturating at the integer's top.
pub open spec fn sat_inc(score: u64) -> u64 {
    if score < u64::MAX {
        (score + 1) as u64
    } else {
        score
    }
}

/// The index of the first obstacle at or after `j` that is still alive and
/// within the collision threshold of the point `p`, if any.
pub open spec fn first_hit(
    p: Vector2,
    asteroids: Seq<Asteroid>,
    alive: Seq<bool>,
    j: int,
) -> Option<int>
    decreases asteroids.len() - j,
{
    if j < 0 || j >= asteroids.len() {
        None
    } else if alive[j] && p.close_to(asteroids[j].position) {
        Some(j)
    } else {
        first_hit(p, asteroids, alive, j + 1)
    }
}

/// The projectile-obstacle sweep from projectile `i` on: for each projectile
/// in order, the first still-alive obstacle in range consumes it, both flags
/// drop, and the score rises by one. Returns the projectile flags built so
/// far extended over the rest, the final obstacle flags, and the final score.
pub open spec fn collide_loop(
    lasers: Seq<Laser>,
    asteroids: Seq<Asteroid>,
    i: int,
    laser_alive: Seq<bool>,
    ast_alive: Seq<bool>,
    score: u64,
) -> (Seq<bool>, Seq<bool>, u64)
    decreases lasers.len() - i,
{
    if i < 0 || i >= lasers.len() {
        (laser_alive, ast_alive, score)
    } else {
        match first_hit(lasers[i].position, asteroids, ast_alive, 0) {
            Some(j) => collide_loop(
                lasers,
                asteroids,
                i + 1,
                laser_alive.push(false),
                ast_alive.update(j, false),
                sat_inc(score),
            ),
            None => collide_loop(lasers, asteroids, i + 1, laser_alive.push(true), ast_alive, score),
        }
    }
}

/// The whole sweep: every projectile against every obstacle, all alive at
/// the start.
pub open spec fn collide_pass_spec(
    lasers: Seq<Laser>,
    asteroids: Seq<Asteroid>,
    score: u64,
) -> (Seq<bool>, Seq<bool>, u64) {
    collide_loop(lasers, asteroids, 0, Seq::empty(), all_true(asteroids.len()), score)
}

/// The projectiles that survive a tick: still alive after the sweep and not
/// off the top of the field.
pub open spec fn kept_lasers(
    lasers: Seq<Laser>,
    alive: Seq<bool>,
    i: int,
    acc: Seq<Laser>,
) -> Seq<Laser>
    decreases lasers.len() - i,
{
    if i < 0 || i >= lasers.len() {
        acc
    } else {
        kept_lasers(
            lasers,
            alive,
            i + 1,
            if alive[i] && lasers[i].position.y > 0 {
                acc.push(lasers[i])
            } else {
                acc
            },
        )
    }
}

/// The obstacles that survive a tick: still alive after the sweep and
/// within the field's vertical span of `height`.
pub open spec fn kept_asteroids(
    asteroids: Seq<Asteroid>,
    alive: Seq<bool>,
    height: int,
    i: int,
    acc: Seq<Asteroid>,
) -> Seq<Asteroid>
    decreases asteroids.len() - i,
{
    if i < 0 || i >= asteroids.len() {
        acc
    } else {
        kept_asteroids(
            asteroids,
            alive,
            height,
            i + 1,
            if alive[i] && 0 <= asteroids[i].position.y < height {
                acc.push(asteroids[i])
            } else {
                acc
            },
        )
    }
}

/// Law: the sweep never decreases the score, from any starting point.
pub proof fn lemma_collide_loop_score_mono(
    lasers: Seq<Laser>,
    asteroids: Seq<Asteroid>,
    i: int,
    laser_alive: Seq<bool>,
    ast_alive: Seq<bool>,
    score: u64,
)
    ensures
        collide_loop(lasers, asteroids, i, laser_alive, ast_alive, score).2 >= score,
    decreases lasers.len() - i,
{
    if 0 <= i < lasers.len() {
        match first_hit(lasers[i].position, asteroids, ast_alive, 0) {
            Some(j) => {
                lemma_collide_loop_score_mono(
                    lasers,
                    asteroids,
                    i + 1,
                    laser_alive.push(false),
                    ast_alive.update(j, false),
                    sat_inc(score),
                );
            },
            None => {
                lemma_collide_loop_score_mono(
                    lasers,
                    asteroids,
                    i + 1,
                    laser_alive.push(true),
                    ast_alive,
                    score,
                );
            },
        }
    }
}

/// One projectile-obstacle sweep. Returns which projectiles and obstacles
/// are still alive afterwards, and the new score.
pub fn collide_pass(lasers: &Vec<Laser>, asteroids: &Vec<Asteroid>, score: u64) -> (r: (
    Vec<bool>,
    Vec<bool>,
    u64,
))
    requires
        forall|k: int| 0 <= k < lasers@.len() ==> (#[trigger] lasers@[k]).position.in_limits(),
        forall|k: int|
            0 <= k < asteroids@.len() ==> (#[trigger] asteroids@[k]).position.in_limits(),
    ensures
        (r.0@, r.1@, r.2) == collide_pass_spec(lasers@, asteroids@, score),
        r.0@.len() == lasers@.len(),
        r.1@.len() == asteroids@.len(),
        r.2 >= score,
{
    let mut laser_alive: Vec<bool> = Vec::new();
    let mut ast_alive: Vec<bool> = Vec::new();
    let mut t: usize = 0;
    while t < asteroids.len()
        invariant
            t <= asteroids@.len(),
            ast_alive@.len() == t,
            forall|k: int| 0 <= k < t ==> ast_alive@[k] == true,
        decreases asteroids@.len() - t,
    {
        ast_alive.push(true);
        t += 1;
    }
    proof {
        assert(ast_alive@ =~= all_true(asteroids@.len()));
    }
    let mut sc: u64 = score;
    let mut i: usize = 0;
    while i < lasers.len()
        invariant
            i <= lasers@.len(),
            laser_alive@.len() == i,
            ast_alive@.len() == asteroids@.len(),
            sc >= score,
            forall|k: int| 0 <= k < lasers@.len() ==> (#[trigger] lasers@[k]).position.in_limits(),
            forall|k: int|
                0 <= k < asteroids@.len() ==> (#[trigger] asteroids@[k]).position.in_limits(),
            collide_pass_spec(lasers@, asteroids@, score) == collide_loop(
                lasers@,
                asteroids@,
                i as int,
                laser_alive@,
                ast_alive@,
                sc,
            ),
        decreases lasers@.len() - i,
    {
        let ghost la0 = laser_alive@;
        let ghost aa0 = ast_alive@;
        let ghost sc0 = sc;
        let p = lasers[i].position;
        let mut j: usize = 0;
        let mut found: bool = false;
        let mut hitj: usize = 0;
        while j < asteroids.len()
            invariant
                j <= asteroids@.len(),
                ast_alive@.len() == asteroids@.len(),
                ast_alive@ == aa0,
                p.in_limits(),
                forall|k: int|
                    0 <= k < asteroids@.len() ==> (#[trigger] asteroids@[k]).position.in_limits(),
                !found ==> first_hit(p, asteroids@, aa0, 0) == first_hit(p, asteroids@, aa0, j as int),
                found ==> hitj < asteroids@.len() && first_hit(p, asteroids@, aa0, 0) == Some(
                    hitj as int,
                ),
            decreases asteroids@.len() - j,
        {
            if !found && ast_alive[j] && p.close(asteroids[j].position) {
                found = true;
                hitj = j;
            }
            j += 1;
        }
        if found {
            laser_alive.push(false);
            ast_alive[hitj] = false;
            sc = if sc < u64::MAX {
                sc + 1
            } else {
                sc
            };
        } else {
            laser_alive.push(true);
        }
        proof {
            assert(collide_loop(lasers@, asteroids@, i as int, la0, aa0, sc0) == collide_loop(
                lasers@,
                asteroids@,
                i + 1,
                laser_alive@,
                ast_alive@,
                sc,
            ));
        }
        i += 1;
    }
    proof {
        assert(collide_loop(lasers@, asteroids@, lasers@.len() as int, laser_alive@, ast_alive@, sc)
            == (laser_alive@, ast_alive@, sc));
    }
    (laser_alive, ast_alive, sc)
}

/// Drop the projectiles whose flag is down or whose position has left the
/// top of the field.
pub fn prune_lasers(lasers: &mut Vec<Laser>, alive: &Vec<bool>)
    requires
        alive@.len() == old(lasers)@.len(),
        forall|k: int| 0 <= k < old(lasers)@.len() ==> (#[trigger] old(lasers)@[k]).wf(),
    ensures
        final(lasers)@ == kept_lasers(old(lasers)@, alive@, 0, Seq::empty()),
        forall|k: int| 0 <= k < final(lasers)@.len() ==> (#[trigger] final(lasers)@[k]).wf(),
{
    let mut out: Vec<Laser> = Vec::new();
    let mut i: usize = 0;
    while i < lasers.len()
        invariant
            i <= lasers@.len(),
            lasers@ == old(lasers)@,
            alive@.len() == lasers@.len(),
            forall|k: int| 0 <= k < lasers@.len() ==> (#[trigger] lasers@[k]).wf(),
            forall|k: int| 0 <= k < out@.len() ==> (#[trigger] out@[k]).wf(),
            kept_lasers(lasers@, alive@, 0, Seq::empty()) == kept_lasers(
                lasers@,
                alive@,
                i as int,
                out@,
            ),
        decreases lasers@.len() - i,
    {
        let ghost out0 = out@;
        if alive[i] && lasers[i].position.y > 0 {
            let l = lasers[i];
            out.push(l);
        }
        proof {
            assert(kept_lasers(lasers@, alive@, i as int, out0) == kept_lasers(
                lasers@,
                alive@,
                i + 1,
                out@,
            ));
        }
        i += 1;
    }
    *lasers = out;
}

/// Drop the obstacles whose flag is down or whose position has left the
/// field's vertical span of `height`.
pub fn prune_asteroids(asteroids: &mut Vec<Asteroid>, alive: &Vec<bool>, height: i64)
    requires
        alive@.len() == old(asteroids)@.len(),
        forall|k: int| 0 <= k < old(asteroids)@.len() ==> (#[trigger] old(asteroids)@[k]).wf(),
    ensures
        final(asteroids)@ == kept_asteroids(old(asteroids)@, alive@, height as int, 0, Seq::empty()),
        forall|k: int| 0 <= k < final(asteroids)@.len() ==> (#[trigger] final(asteroids)@[k]).wf(),
{
    let mut out: Vec<Asteroid> = Vec::new();
    let mut i: usize = 0;
    while i < asteroids.len()
        invariant
            i <= asteroids@.len(),
            asteroids@ == old(asteroids)@,
            alive@.len() == asteroids@.len(),
            forall|k: int| 0 <= k < asteroids@.len() ==> (#[trigger] asteroids@[k]).wf(),
            forall|k: int| 0 <= k < out@.len() ==> (#[trigger] out@[k]).wf(),
            kept_asteroids(asteroids@, alive@, height as int, 0, Seq::empty()) == kept_asteroids(
                asteroids@,
                alive@,
                height as int,
                i as int,
                out@,
            ),
        decreases asteroids@.len() - i,
    {
        let ghost out0 = out@;
        if alive[i] && asteroids[i].position.y >= 0 && asteroids[i].position.y < height {
            let a = asteroids[i];
            out.push(a);
        }
        proof {
            assert(kept_asteroids(asteroids@, alive@, height as int, i as int, out0)
                == kept_asteroids(asteroids@, alive@, height as int, i + 1, out@));
        }
        i += 1;
    }
    *asteroids = out;
}

/// The whole scoring step of a tick: run the sweep, update the score, and
/// prune both collections, obstacles against the field's `height`.
pub fn resolve(lasers: &mut Vec<Laser>, asteroids: &mut Vec<Asteroid>, score: u64, height: i64) -> (new_score:
    u64)
    requires
        forall|k: int| 0 <= k < old(lasers)@.len() ==> (#[trigger] old(lasers)@[k]).wf(),
        forall|k: int| 0 <= k < old(asteroids)@.len() ==> (#[trigger] old(asteroids)@[k]).wf(),
    ensures
        final(lasers)@ == kept_lasers(
            old(lasers)@,
            collide_pass_spec(old(lasers)@, old(asteroids)@, score).0,
            0,
            Seq::empty(),
        ),
        final(asteroids)@ == kept_asteroids(
            old(asteroids)@,
            collide_pass_spec(old(lasers)@, old(asteroids)@, score).1,
            height as int,
            0,
            Seq::empty(),
        ),
        new_score == collide_pass_spec(old(lasers)@, old(asteroids)@, score).2,
        new_score >= score,
        forall|k: int| 0 <= k < final(lasers)@.len() ==> (#[trigger] final(lasers)@[k]).wf(),
        forall|k: int| 0 <= k < final(asteroids)@.len() ==> (#[trigger] final(asteroids)@[k]).wf(),
{
    let r = collide_pass(lasers, asteroids, score);
    prune_lasers(lasers, &r.0);
    prune_asteroids(asteroids, &r.1, height);
    r.2
}

} // verus!
