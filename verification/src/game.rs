//! The game state and its per-tick state machine.
//!
//! While playing, a tick runs in the fixed order: ship-obstacle collision
//! check first (ending the round and doing nothing else on a hit), then ship
//! control from the sampled input, firing, movement, the off-top projectile
//! prune, spawning, obstacle movement, the projectile-obstacle sweep with
//! scoring, and the final prune. After a game over, only the restart input
//! is honoured, and it rebuilds the fresh starting state.

use crate::collision::{collide_pass_spec, kept_asteroids, kept_lasers, resolve};
use crate::entities::{Asteroid, Laser, Spaceship};
use crate::geometry::{Vector2, LASER_SPEED, PLAY_HEIGHT, PLAY_WIDTH, POS_LIMIT, SPEED};
use crate::spawner::{spawn_ok, Spawner};
use vstd::prelude::*;

verus! {

/// One tick's sampled input: the four movement axes, fire, and restart.
#[derive(Clone, Copy, Debug, PartialEq, Eq, Structural)]
pub struct Input {
    pub up: bool,
    pub down: bool,
    pub left: bool,
    pub right: bool,
    pub fire: bool,
    pub restart: bool,
}

/// The ship velocity an input commands: fixed speed per axis, no
/// normalisation, and on conflicting keys the last assignment wins per
/// axis (down over up, right over left).
pub open spec fn input_velocity(input: Input) -> Vector2 {
    Vector2 {
        x: if input.right {
            SPEED
        } else if input.left {
            ((-SPEED) as i64)
        } else {
            0
        },
        y: if input.down {
            SPEED
        } else if input.up {
            ((-SPEED) as i64)
        } else {
            0
        },
    }
}

/// The projectile fired from the ship's current position: straight up at
/// the fixed speed.
pub open spec fn fired_laser(ship: Spaceship) -> Laser {
    Laser { position: ship.position, velocity: Vector2 { x: 0, y: ((-LASER_SPEED) as i64) } }
}

/// Every projectile moved one velocity step.
pub open spec fn advanced_lasers(s: Seq<Laser>) -> Seq<Laser> {
    Seq::new(s.len(), |k: int| s[k].advanced())
}

/// Every obstacle moved one velocity step.
pub open spec fn advanced_asteroids(s: Seq<Asteroid>) -> Seq<Asteroid> {
    Seq::new(s.len(), |k: int| s[k].advanced())
}

/// The positions of a sequence of projectiles, in order.
pub open spec fn laser_positions(s: Seq<Laser>) -> Seq<Vector2> {
    Seq::new(s.len(), |k: int| s[k].position)
}

/// The positions of a sequence of obstacles, in order.
pub open spec fn asteroid_positions(s: Seq<Asteroid>) -> Seq<Vector2> {
    Seq::new(s.len(), |k: int| s[k].position)
}

/// A read-only view of one frame for the renderer: the ship's position,
/// every entity position in order, the score, and the game-over flag.
pub struct Snapshot {
    pub ship: Vector2,
    pub lasers: Vec<Vector2>,
    pub asteroids: Vec<Vector2>,
    pub score: u64,
    pub game_over: bool,
}

/// The whole game: the ship, the score, both entity collections, the
/// lifecycle flag, and the play-field bounds. The state owns every entity.
/// The bounds are configuration: they default to 800 x 800 units, can be
/// set to match the host's window, and survive a restart.
pub struct Game {
    pub spaceship: Spaceship,
    pub score: u64,
    pub lasers: Vec<Laser>,
    pub asteroids: Vec<Asteroid>,
    pub game_over: bool,
    pub play_width: i64,
    pub play_height: i64,
}

impl Game {
    /// Every entity's position is tracked and every velocity is within the
    /// game's speed cap.
    pub open spec fn wf(self) -> bool {
        &&& self.spaceship.wf()
        &&& forall|k: int| 0 <= k < self.lasers@.len() ==> (#[trigger] self.lasers@[k]).wf()
        &&& forall|k: int| 0 <= k < self.asteroids@.len() ==> (#[trigger] self.asteroids@[k]).wf()
        &&& 0 < self.play_width <= POS_LIMIT
        &&& 0 < self.play_height <= POS_LIMIT
    }

    /// The fresh starting state: ship at the spawn point, zero score, no
    /// entities, round running.
    pub open spec fn fresh(self) -> bool {
        &&& self.spaceship == Spaceship::start()
        &&& self.score == 0
        &&& self.lasers@ == Seq::<Laser>::empty()
        &&& self.asteroids@ == Seq::<Asteroid>::empty()
        &&& self.game_over == false
    }

    /// Some obstacle is within the collision threshold of the ship.
    pub open spec fn ship_hit(self) -> bool {
        exists|k: int|
            0 <= k < self.asteroids@.len() && self.spaceship.position.close_to(
                (#[trigger] self.asteroids@[k]).position,
            )
    }

    /// The ship after one tick of control and movement: velocity from the
    /// input, position advanced by it.
    pub open spec fn moved_ship(self, input: Input) -> Spaceship {
        Spaceship { position: self.spaceship.position, velocity: input_velocity(input) }.advanced()
    }

    /// The projectiles after firing, movement, and the off-top prune.
    pub open spec fn lasers_after_motion(self, input: Input) -> Seq<Laser> {
        let with_fired = if input.fire {
            self.lasers@.push(fired_laser(self.spaceship))
        } else {
            self.lasers@
        };
        let moved = advanced_lasers(with_fired);
        kept_lasers(moved, crate::collision::all_true(moved.len()), 0, Seq::empty())
    }

    /// The obstacles after this tick's spawn decision and movement.
    pub open spec fn asteroids_after_motion(self, spawn: Option<Asteroid>) -> Seq<Asteroid> {
        let with_spawn = match spawn {
            Some(a) => self.asteroids@.push(a),
            None => self.asteroids@,
        };
        advanced_asteroids(with_spawn)
    }

    /// The score after the projectile-obstacle sweep.
    pub open spec fn tick_score(self, input: Input, spawn: Option<Asteroid>) -> u64 {
        collide_pass_spec(
            self.lasers_after_motion(input),
            self.asteroids_after_motion(spawn),
            self.score,
        ).2
    }

    /// The projectiles left at the end of the tick.
    pub open spec fn tick_lasers(self, input: Input, spawn: Option<Asteroid>) -> Seq<Laser> {
        let ls = self.lasers_after_motion(input);
        let asts = self.asteroids_after_motion(spawn);
        kept_lasers(ls, collide_pass_spec(ls, asts, self.score).0, 0, Seq::empty())
    }

    /// The obstacles left at the end of the tick.
    pub open spec fn tick_asteroids(self, input: Input, spawn: Option<Asteroid>) -> Seq<Asteroid> {
        let ls = self.lasers_after_motion(input);
        let asts = self.asteroids_after_motion(spawn);
        kept_asteroids(
            asts,
            collide_pass_spec(ls, asts, self.score).1,
            self.play_height as int,
            0,
            Seq::empty(),
        )
    }

    /// A fresh game in its starting state, on the default 800 x 800 field.
    pub fn new() -> (r: Game)
        ensures
            r.fresh(),
            r.wf(),
            r.play_width == PLAY_WIDTH,
            r.play_height == PLAY_HEIGHT,
    {
        Game {
            spaceship: Spaceship::new(),
            score: 0,
            lasers: Vec::new(),
            asteroids: Vec::new(),
            game_over: false,
            play_width: PLAY_WIDTH,
            play_height: PLAY_HEIGHT,
        }
    }

    /// A fresh game on a field of the given bounds, in tenths of a unit.
    /// The bounds must be positive and within the tracked coordinate range.
    pub fn with_bounds(width: i64, height: i64) -> (r: Game)
        requires
            0 < width <= POS_LIMIT,
            0 < height <= POS_LIMIT,
        ensures
            r.fresh(),
            r.wf(),
            r.play_width == width,
            r.play_height == height,
    {
        Game {
            spaceship: Spaceship::new(),
            score: 0,
            lasers: Vec::new(),
            asteroids: Vec::new(),
            game_over: false,
            play_width: width,
            play_height: height,
        }
    }

    /// Restore the starting state: zero score, empty collections, ship at
    /// the spawn point, round running. The field bounds are configuration
    /// and stay as they are.
    pub fn reset(&mut self)
        requires
            old(self).wf(),
        ensures
            final(self).fresh(),
            final(self).wf(),
            final(self).play_width == old(self).play_width,
            final(self).play_height == old(self).play_height,
    {
        self.spaceship = Spaceship::new();
        self.score = 0;
        self.lasers = Vec::new();
        self.asteroids = Vec::new();
        self.game_over = false;
    }

    /// The frame the renderer draws: every entity position in order, the
    /// score, and the game-over flag. Nothing feeds back into the state.
    pub fn render_snapshot(&self) -> (r: Snapshot)
        ensures
            r.ship == self.spaceship.position,
            r.lasers@ == laser_positions(self.lasers@),
            r.asteroids@ == asteroid_positions(self.asteroids@),
            r.score == self.score,
            r.game_over == self.game_over,
    {
        let mut lasers: Vec<Vector2> = Vec::new();
        let mut i: usize = 0;
        while i < self.lasers.len()
            invariant
                i <= self.lasers@.len(),
                lasers@.len() == i,
                forall|k: int| 0 <= k < i ==> lasers@[k] == self.lasers@[k].position,
            decreases self.lasers@.len() - i,
        {
            lasers.push(self.lasers[i].position);
            i += 1;
        }
        let mut asteroids: Vec<Vector2> = Vec::new();
        let mut j: usize = 0;
        while j < self.asteroids.len()
            invariant
                j <= self.asteroids@.len(),
                asteroids@.len() == j,
                forall|k: int| 0 <= k < j ==> asteroids@[k] == self.asteroids@[k].position,
            decreases self.asteroids@.len() - j,
        {
            asteroids.push(self.asteroids[j].position);
            j += 1;
        }
        proof {
            assert(lasers@ =~= laser_positions(self.lasers@));
            assert(asteroids@ =~= asteroid_positions(self.asteroids@));
        }
        Snapshot {
            ship: self.spaceship.position,
            lasers,
            asteroids,
            score: self.score,
            game_over: self.game_over,
        }
    }

    /// The ship-obstacle collision check: whether any obstacle is within
    /// the collision threshold of the ship.
    pub fn ship_collides(&self) -> (r: bool)
        requires
            self.wf(),
        ensures
            r == self.ship_hit(),
    {
        let mut k: usize = 0;
        while k < self.asteroids.len()
            invariant
                k <= self.asteroids@.len(),
                self.wf(),
                forall|m: int|
                    0 <= m < k ==> !self.spaceship.position.close_to(
                        (#[trigger] self.asteroids@[m]).position,
                    ),
            decreases self.asteroids@.len() - k,
        {
            if self.spaceship.position.close(self.asteroids[k].position) {
                return true;
            }
            k += 1;
        }
        false
    }
}

/// What one tick does, for every lifecycle branch: after a game over only
/// restart acts; a ship-obstacle hit ends the round and changes nothing
/// else that tick; otherwise the full playing-tick pipeline runs.
pub open spec fn step_spec(pre: Game, input: Input, spawn: Option<Asteroid>, post: Game) -> bool {
    &&& post.play_width == pre.play_width
    &&& post.play_height == pre.play_height
    &&& if pre.game_over {
        if input.restart {
            post.fresh()
        } else {
            &&& post.spaceship == pre.spaceship
            &&& post.score == pre.score
            &&& post.lasers@ == pre.lasers@
            &&& post.asteroids@ == pre.asteroids@
            &&& post.game_over == true
        }
    } else if pre.ship_hit() {
        &&& post.spaceship == pre.spaceship
        &&& post.score == pre.score
        &&& post.lasers@ == pre.lasers@
        &&& post.asteroids@ == pre.asteroids@
        &&& post.game_over == true
    } else {
        &&& post.spaceship == pre.moved_ship(input)
        &&& post.score == pre.tick_score(input, spawn)
        &&& post.lasers@ == pre.tick_lasers(input, spawn)
        &&& post.asteroids@ == pre.tick_asteroids(input, spawn)
        &&& post.game_over == false
    }
}

impl Game {
    /// One deterministic simulation tick, with this tick's spawn decision
    /// handed in as a value. The whole effect on the state is pinned by
    /// `step_spec`; the last two clauses restate its two headline
    /// consequences: a tick with every obstacle at distance 22.0 or more
    /// never ends the round, and the score never drops while playing.
    pub fn step(&mut self, input: Input, spawn: Option<Asteroid>)
        requires
            old(self).wf(),
            spawn matches Some(a) ==> a.wf(),
        ensures
            final(self).wf(),
            step_spec(*old(self), input, spawn, *final(self)),
            !old(self).game_over && !old(self).ship_hit() ==> final(self).game_over == false,
            !old(self).game_over ==> final(self).score >= old(self).score,
    {
        if self.game_over {
            if input.restart {
                self.reset();
            }
            return;
        }
        if self.ship_collides() {
            self.game_over = true;
            return;
        }
        let ghost pre = *self;
        // Ship control: fixed speed per axis, last assignment wins.
        let vx: i64 = if input.right {
            SPEED
        } else if input.left {
            -SPEED
        } else {
            0
        };
        let vy: i64 = if input.down {
            SPEED
        } else if input.up {
            -SPEED
        } else {
            0
        };
        self.spaceship.velocity = Vector2 { x: vx, y: vy };
        proof {
            assert(self.spaceship.velocity == input_velocity(input));
        }
        if input.fire {
            let l = Laser::new(self.spaceship.position.x, self.spaceship.position.y);
            self.lasers.push(l);
        }
        self.spaceship.update();
        proof {
            assert(self.spaceship == pre.moved_ship(input));
        }
        advance_all_lasers(&mut self.lasers);
        let flags = all_true_flags(self.lasers.len());
        crate::collision::prune_lasers(&mut self.lasers, &flags);
        proof {
            assert(self.lasers@ == pre.lasers_after_motion(input));
        }
        if let Some(a) = spawn {
            self.asteroids.push(a);
        }
        advance_all_asteroids(&mut self.asteroids);
        proof {
            assert(self.asteroids@ == pre.asteroids_after_motion(spawn));
        }
        let sc = resolve(&mut self.lasers, &mut self.asteroids, self.score, self.play_height);
        self.score = sc;
    }

    /// One full tick against a live spawner: the spawn decision is drawn,
    /// then the deterministic tick runs on it. Whatever the generator
    /// returned, the tick's effect is `step_spec` for some in-bounds spawn
    /// decision, and the score never drops while playing.
    pub fn update(&mut self, input: Input, spawner: &mut Spawner)
        requires
            old(self).wf(),
        ensures
            final(self).wf(),
            exists|sp: Option<Asteroid>|
                spawn_ok(sp, old(self).play_width as int) && #[trigger] step_spec(
                    *old(self),
                    input,
                    sp,
                    *final(self),
                ),
            !old(self).game_over && !old(self).ship_hit() ==> final(self).game_over == false,
            !old(self).game_over ==> final(self).score >= old(self).score,
    {
        if !self.game_over && !self.ship_collides() {
            let sp = spawner.maybe_spawn(self.play_width);
            self.step(input, sp);
            proof {
                assert(spawn_ok(sp, old(self).play_width as int) && step_spec(
                    *old(self),
                    input,
                    sp,
                    *self,
                ));
            }
        } else {
            self.step(input, None);
            proof {
                assert(spawn_ok(None::<Asteroid>, old(self).play_width as int) && step_spec(
                    *old(self),
                    input,
                    None::<Asteroid>,
                    *self,
                ));
            }
        }
    }
}

/// Build one alive-flag per projectile, all raised.
fn all_true_flags(n: usize) -> (r: Vec<bool>)
    ensures
        r@ == crate::collision::all_true(n as nat),
        r@.len() == n,
{
    let mut out: Vec<bool> = Vec::new();
    let mut i: usize = 0;
    while i < n
        invariant
            i <= n,
            out@.len() == i,
            forall|k: int| 0 <= k < i ==> out@[k] == true,
        decreases n - i,
    {
        out.push(true);
        i += 1;
    }
    proof {
        assert(out@ =~= crate::collision::all_true(n as nat));
    }
    out
}

/// Move every projectile one velocity step, in place.
fn advance_all_lasers(v: &mut Vec<Laser>)
    requires
        forall|k: int| 0 <= k < old(v)@.len() ==> (#[trigger] old(v)@[k]).wf(),
    ensures
        final(v)@ == advanced_lasers(old(v)@),
        forall|k: int| 0 <= k < final(v)@.len() ==> (#[trigger] final(v)@[k]).wf(),
{
    let n = v.len();
    let mut i: usize = 0;
    while i < n
        invariant
            i <= n,
            n == v@.len(),
            v@.len() == old(v)@.len(),
            forall|k: int| 0 <= k < old(v)@.len() ==> (#[trigger] old(v)@[k]).wf(),
            forall|k: int| 0 <= k < i ==> (#[trigger] v@[k]) == old(v)@[k].advanced(),
            forall|k: int| i <= k < n ==> (#[trigger] v@[k]) == old(v)@[k],
            forall|k: int| 0 <= k < i ==> (#[trigger] v@[k]).wf(),
        decreases n - i,
    {
        let mut l = v[i];
        l.update();
        v[i] = l;
        i += 1;
    }
    proof {
        assert(v@ =~= advanced_lasers(old(v)@));
    }
}

/// Move every obstacle one velocity step, in place.
fn advance_all_asteroids(v: &mut Vec<Asteroid>)
    requires
        forall|k: int| 0 <= k < old(v)@.len() ==> (#[trigger] old(v)@[k]).wf(),
    ensures
        final(v)@ == advanced_asteroids(old(v)@),
        forall|k: int| 0 <= k < final(v)@.len() ==> (#[trigger] final(v)@[k]).wf(),
{
    let n = v.len();
    let mut i: usize = 0;
    while i < n
        invariant
            i <= n,
            n == v@.len(),
            v@.len() == old(v)@.len(),
            forall|k: int| 0 <= k < old(v)@.len() ==> (#[trigger] old(v)@[k]).wf(),
            forall|k: int| 0 <= k < i ==> (#[trigger] v@[k]) == old(v)@[k].advanced(),
            forall|k: int| i <= k < n ==> (#[trigger] v@[k]) == old(v)@[k],
            forall|k: int| 0 <= k < i ==> (#[trigger] v@[k]).wf(),
        decreases n - i,
    {
        let mut a = v[i];
        a.update();
        v[i] = a;
        i += 1;
    }
    proof {
        assert(v@ =~= advanced_asteroids(old(v)@));
    }
}

} // verus!
