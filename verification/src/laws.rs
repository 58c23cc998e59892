//! The library's stated laws, each proved over the same spec functions the
//! executable contracts use.

use crate::collision::lemma_collide_loop_score_mono;
use crate::entities::{Asteroid, Laser, Spaceship};
use crate::game::{step_spec, Game, Input};
use crate::geometry::{Vector2, POS_LIMIT};
use vstd::prelude::*;

verus! {

/// Law: wherever the exact sum stays within the tracked coordinate range,
/// one move step is exact vector addition; the saturation at `POS_LIMIT`
/// is a machine limit that acts only beyond that range. Every entity's
/// `advanced` position is `position.moved(velocity)`, so this law carries
/// over to the ship, the projectiles, and the obstacles.
pub proof fn lemma_moved_exact_in_range(p: Vector2, v: Vector2)
    requires
        -POS_LIMIT <= p.x + v.x <= POS_LIMIT,
        -POS_LIMIT <= p.y + v.y <= POS_LIMIT,
    ensures
        p.moved(v) == (Vector2 { x: ((p.x + v.x) as i64), y: ((p.y + v.y) as i64) }),
{
}

/// Law: advancing the ship with zero velocity leaves it unchanged.
pub proof fn lemma_advance_zero_velocity_ship(s: Spaceship)
    requires
        s.wf(),
        s.velocity.x == 0,
        s.velocity.y == 0,
    ensures
        s.advanced() == s,
{
}

/// Law: advancing a projectile with zero velocity leaves it unchanged.
pub proof fn lemma_advance_zero_velocity_laser(l: Laser)
    requires
        l.wf(),
        l.velocity.x == 0,
        l.velocity.y == 0,
    ensures
        l.advanced() == l,
{
}

/// Law: advancing an obstacle with zero velocity leaves it unchanged.
pub proof fn lemma_advance_zero_velocity_asteroid(a: Asteroid)
    requires
        a.wf(),
        a.velocity.x == 0,
        a.velocity.y == 0,
    ensures
        a.advanced() == a,
{
}

/// Law: a tick from a playing state in which every obstacle is at distance
/// 22.0 or more from the ship does not end the round.
pub proof fn lemma_no_collision_keeps_playing(
    pre: Game,
    input: Input,
    spawn: Option<Asteroid>,
    post: Game,
)
    requires
        !pre.game_over,
        !pre.ship_hit(),
        step_spec(pre, input, spawn, post),
    ensures
        post.game_over == false,
{
}

/// Law: a tick from a playing state in which some obstacle is within 22.0
/// of the ship ends the round and leaves the score, the ship, and both
/// entity collections untouched that tick.
pub proof fn lemma_collision_ends_game(
    pre: Game,
    input: Input,
    spawn: Option<Asteroid>,
    post: Game,
)
    requires
        !pre.game_over,
        pre.ship_hit(),
        step_spec(pre, input, spawn, post),
    ensures
        post.game_over == true,
        post.score == pre.score,
        post.spaceship == pre.spaceship,
        post.lasers@ == pre.lasers@,
        post.asteroids@ == pre.asteroids@,
{
}

/// Law: while playing, one tick never decreases the score.
pub proof fn lemma_tick_score_monotone(
    pre: Game,
    input: Input,
    spawn: Option<Asteroid>,
    post: Game,
)
    requires
        !pre.game_over,
        step_spec(pre, input, spawn, post),
    ensures
        post.score >= pre.score,
{
    if !pre.ship_hit() {
        let ls = pre.lasers_after_motion(input);
        let asts = pre.asteroids_after_motion(spawn);
        lemma_collide_loop_score_mono(
            ls,
            asts,
            0,
            Seq::empty(),
            crate::collision::all_true(asts.len()),
            pre.score,
        );
    }
}

/// Law: a restart received after a game over restores the starting state:
/// zero score, empty collections, the ship at its spawn point, round
/// running.
pub proof fn lemma_restart_round_trip(
    pre: Game,
    input: Input,
    spawn: Option<Asteroid>,
    post: Game,
)
    requires
        pre.game_over,
        input.restart,
        step_spec(pre, input, spawn, post),
    ensures
        post.fresh(),
{
}

} // verus!
