//! End-to-end tests of the simulation core: entity movement, the tick state
//! machine, collisions and scoring, pruning, restart, and the spawner's
//! Bernoulli wiring. Coordinates are in tenths of a unit.

use asteroids::collision::resolve;
use asteroids::entities::{Asteroid, Laser, Spaceship};
use asteroids::game::{Game, Input};
use asteroids::geometry::Vector2;
use asteroids::spawner::{decide_spawn, Spawner};

fn quiet() -> Input {
    Input { up: false, down: false, left: false, right: false, fire: false, restart: false }
}

#[test]
fn advance_zero_velocity_ship() {
    let mut s = Spaceship::new();
    s.update();
    assert_eq!(s.position, Vector2 { x: 1000, y: 1000 });
    assert_eq!(s.velocity, Vector2 { x: 0, y: 0 });
}

#[test]
fn advance_zero_velocity_laser() {
    let mut l = Laser {
        position: Vector2 { x: 500, y: 700 },
        velocity: Vector2 { x: 0, y: 0 },
    };
    l.update();
    assert_eq!(l.position, Vector2 { x: 500, y: 700 });
}

#[test]
fn advance_zero_velocity_asteroid() {
    let mut a = Asteroid::new(123, 456, 0, 0);
    a.update();
    assert_eq!(a.position, Vector2 { x: 123, y: 456 });
}

#[test]
fn advance_moves_by_velocity() {
    let mut a = Asteroid::new(100, 200, -20, 30);
    a.update();
    assert_eq!(a.position, Vector2 { x: 80, y: 230 });
    let mut l = Laser::new(1000, 1000);
    l.update();
    assert_eq!(l.position, Vector2 { x: 1000, y: 950 });
}

#[test]
fn tick_at_exact_threshold_keeps_playing() {
    // Obstacle exactly 22.0 units away: no collision.
    let mut g = Game::new();
    g.asteroids.push(Asteroid::new(1000, 1220, 0, 0));
    g.step(quiet(), None);
    assert!(!g.game_over);
    assert_eq!(g.asteroids.len(), 1);
}

#[test]
fn tick_below_threshold_ends_game_and_touches_nothing() {
    // Obstacle 21.9 units below the ship: the round ends and the score,
    // ship, and collections are untouched that tick.
    let mut g = Game::new();
    g.lasers.push(Laser::new(4000, 4000));
    g.asteroids.push(Asteroid::new(1000, 1219, 5, 10));
    g.step(quiet(), None);
    assert!(g.game_over);
    assert_eq!(g.score, 0);
    assert_eq!(g.spaceship.position, Vector2 { x: 1000, y: 1000 });
    assert_eq!(g.lasers.len(), 1);
    assert_eq!(g.lasers[0].position, Vector2 { x: 4000, y: 4000 });
    assert_eq!(g.asteroids.len(), 1);
    assert_eq!(g.asteroids[0].position, Vector2 { x: 1000, y: 1219 });
}

#[test]
fn ship_obstacle_overlap_ends_round() {
    // Ship at (100.0, 100.0) and an obstacle at the same point.
    let mut g = Game::new();
    assert_eq!(g.spaceship.position, Vector2 { x: 1000, y: 1000 });
    g.asteroids.push(Asteroid::new(1000, 1000, 0, 10));
    g.step(quiet(), None);
    assert!(g.game_over);
}

#[test]
fn fire_creates_one_projectile() {
    // One tick with only fire held: exactly one projectile, fired upward
    // from the ship's pre-tick position and moved once by the same tick.
    let mut g = Game::new();
    let fire = Input { fire: true, ..quiet() };
    g.step(fire, None);
    assert_eq!(g.lasers.len(), 1);
    assert_eq!(g.lasers[0].velocity, Vector2 { x: 0, y: -50 });
    assert_eq!(g.lasers[0].position, Vector2 { x: 1000, y: 950 });
    assert!(!g.game_over);
}

#[test]
fn projectile_consumes_obstacle_and_scores() {
    // Projectile at (50.0, 50.0), obstacle at (50.0, 51.0): distance 1.0.
    let mut lasers = vec![Laser {
        position: Vector2 { x: 500, y: 500 },
        velocity: Vector2 { x: 0, y: -50 },
    }];
    let mut asteroids = vec![Asteroid::new(500, 510, 0, 10)];
    let score = resolve(&mut lasers, &mut asteroids, 0, 8000);
    assert_eq!(score, 1);
    assert!(lasers.is_empty());
    assert!(asteroids.is_empty());
}

#[test]
fn resolve_at_exact_threshold_scores_nothing() {
    let mut lasers = vec![Laser {
        position: Vector2 { x: 500, y: 500 },
        velocity: Vector2 { x: 0, y: -50 },
    }];
    let mut asteroids = vec![Asteroid::new(500, 720, 0, 10)];
    let score = resolve(&mut lasers, &mut asteroids, 7, 8000);
    assert_eq!(score, 7);
    assert_eq!(lasers.len(), 1);
    assert_eq!(asteroids.len(), 1);
}

#[test]
fn obstacle_consumed_by_first_projectile_only() {
    // Two projectiles in range of one obstacle: the first consumes it, the
    // second survives, and the score rises by exactly one.
    let mut lasers = vec![
        Laser { position: Vector2 { x: 500, y: 500 }, velocity: Vector2 { x: 0, y: -50 } },
        Laser { position: Vector2 { x: 510, y: 500 }, velocity: Vector2 { x: 0, y: -50 } },
    ];
    let mut asteroids = vec![Asteroid::new(500, 510, 0, 10)];
    let score = resolve(&mut lasers, &mut asteroids, 0, 8000);
    assert_eq!(score, 1);
    assert_eq!(lasers.len(), 1);
    assert_eq!(lasers[0].position, Vector2 { x: 510, y: 500 });
    assert!(asteroids.is_empty());
}

#[test]
fn full_tick_scores_through_collision() {
    // A projectile already in flight meets a falling obstacle during a
    // tick; the score rises and both disappear.
    let mut g = Game::new();
    g.lasers.push(Laser::new(4000, 4050));
    // After this tick the projectile is at (4000, 4000) and the obstacle at
    // (4000, 4010): distance 1.0, within the threshold.
    g.asteroids.push(Asteroid::new(4000, 4000, 0, 10));
    g.step(quiet(), None);
    assert_eq!(g.score, 1);
    assert!(g.lasers.is_empty());
    assert!(g.asteroids.is_empty());
    assert!(!g.game_over);
}

#[test]
fn score_monotone_across_ticks() {
    let mut g = Game::new();
    g.lasers.push(Laser::new(4000, 4050));
    g.asteroids.push(Asteroid::new(4000, 4000, 0, 10));
    let mut last = g.score;
    let fire = Input { fire: true, ..quiet() };
    for _ in 0..50 {
        g.step(fire, None);
        assert!(g.score >= last);
        last = g.score;
    }
    assert!(g.score >= 1);
}

#[test]
fn out_of_bounds_obstacle_pruned_same_tick() {
    // Obstacle just past the bottom edge (y = 800.1): pruned on the very
    // tick, for either spawner-legal velocity tried.
    for vel in [(0i64, 10i64), (5, 30)] {
        let mut g = Game::new();
        g.asteroids.push(Asteroid::new(4000, 8001, vel.0, vel.1));
        g.step(quiet(), None);
        assert!(g.asteroids.is_empty());
        assert!(!g.game_over);
    }
}

#[test]
fn projectile_off_top_pruned() {
    let mut g = Game::new();
    // At y = 3.0, one upward step moves it to -2.0: off the top.
    g.lasers.push(Laser::new(4000, 30));
    g.step(quiet(), None);
    assert!(g.lasers.is_empty());
}

#[test]
fn game_over_freezes_simulation() {
    let mut g = Game::new();
    g.asteroids.push(Asteroid::new(1000, 1000, 0, 10));
    g.step(quiet(), None);
    assert!(g.game_over);
    let fire = Input { fire: true, ..quiet() };
    g.step(fire, None);
    assert!(g.game_over);
    assert_eq!(g.score, 0);
    assert!(g.lasers.is_empty());
    assert_eq!(g.asteroids.len(), 1);
    assert_eq!(g.asteroids[0].position, Vector2 { x: 1000, y: 1000 });
}

#[test]
fn restart_after_game_over_restores_start() {
    let mut g = Game::new();
    g.lasers.push(Laser::new(4000, 4050));
    g.asteroids.push(Asteroid::new(1000, 1000, 0, 10));
    g.step(quiet(), None);
    assert!(g.game_over);
    let restart = Input { restart: true, ..quiet() };
    g.step(restart, None);
    assert!(!g.game_over);
    assert_eq!(g.score, 0);
    assert!(g.lasers.is_empty());
    assert!(g.asteroids.is_empty());
    assert_eq!(g.spaceship.position, Vector2 { x: 1000, y: 1000 });
    assert_eq!(g.spaceship.velocity, Vector2 { x: 0, y: 0 });
}

#[test]
fn movement_keys_set_diagonal_velocity() {
    let mut g = Game::new();
    let input = Input { up: true, right: true, ..quiet() };
    g.step(input, None);
    assert_eq!(g.spaceship.position, Vector2 { x: 1040, y: 960 });
    // Conflicting keys: the later axis assignment wins (down over up,
    // right over left).
    let mut g2 = Game::new();
    let input2 = Input { up: true, down: true, left: true, right: true, ..quiet() };
    g2.step(input2, None);
    assert_eq!(g2.spaceship.position, Vector2 { x: 1040, y: 1040 });
}

#[test]
fn spawn_decision_appends_obstacle() {
    let mut g = Game::new();
    let spawned = Asteroid::new(2000, 0, -20, 10);
    g.step(quiet(), Some(spawned));
    assert_eq!(g.asteroids.len(), 1);
    // The new obstacle advances on its spawn tick.
    assert_eq!(g.asteroids[0].position, Vector2 { x: 1980, y: 10 });
}

#[test]
fn spawn_decision_miss_on_nonzero_trial() {
    for trial in [1u32, 7, 49] {
        assert_eq!(decide_spawn(trial, 123, 0, 10, 8000), None);
    }
}

#[test]
fn spawn_decision_assembles_obstacle_from_draws() {
    // Zero trial: the obstacle sits at the drawn x on the top edge, the
    // horizontal-velocity draw is recentred (0..=40 onto -2.0..=2.0), and
    // the vertical draw is taken as is.
    let a = decide_spawn(0, 123, 0, 10, 8000).unwrap();
    assert_eq!(a.position, Vector2 { x: 123, y: 0 });
    assert_eq!(a.velocity, Vector2 { x: -20, y: 10 });
    let b = decide_spawn(0, 7999, 40, 30, 8000).unwrap();
    assert_eq!(b.position, Vector2 { x: 7999, y: 0 });
    assert_eq!(b.velocity, Vector2 { x: 20, y: 30 });
    let c = decide_spawn(0, 0, 20, 17, 8000).unwrap();
    assert_eq!(c.velocity, Vector2 { x: 0, y: 17 });
}

#[test]
fn spawner_band_over_ten_thousand_trials() {
    // Bernoulli wiring: with p = 0.02 the spawn count over 10,000 trials
    // falls in a wide statistical band around 200.
    let mut sp = Spawner::from_seed(424242);
    let mut count = 0u32;
    for _ in 0..10_000 {
        if let Some(a) = sp.maybe_spawn(8000) {
            count += 1;
            assert_eq!(a.position.y, 0);
            assert!(a.position.x >= 0 && a.position.x < 8000);
            assert!(a.velocity.x >= -20 && a.velocity.x <= 20);
            assert!(a.velocity.y >= 10 && a.velocity.y <= 30);
        }
    }
    assert!(count >= 150 && count <= 250);
}

#[test]
fn spawner_same_seed_same_run() {
    let mut a = Spawner::from_seed(7);
    let mut b = Spawner::from_seed(7);
    for _ in 0..2_000 {
        assert_eq!(a.maybe_spawn(8000), b.maybe_spawn(8000));
    }
}

#[test]
fn spawner_draws_vary() {
    // The uniform draws are not constant: over many spawns both axes take
    // more than one value.
    let mut sp = Spawner::from_seed(99);
    let mut xs = std::collections::BTreeSet::new();
    let mut vys = std::collections::BTreeSet::new();
    for _ in 0..50_000 {
        if let Some(a) = sp.maybe_spawn(8000) {
            xs.insert(a.position.x);
            vys.insert(a.velocity.y);
        }
    }
    assert!(xs.len() > 10);
    assert!(vys.len() > 5);
}

#[test]
fn custom_bounds_configure_prune_and_spawn() {
    // A 100.0 x 400.0 field: an obstacle past y = 400.0 is pruned, and
    // every spawn lands within the narrow width.
    let mut g = Game::with_bounds(1000, 4000);
    g.asteroids.push(Asteroid::new(500, 4001, 0, 10));
    g.step(quiet(), None);
    assert!(g.asteroids.is_empty());
    let mut sp = Spawner::from_seed(5);
    for _ in 0..50_000 {
        if let Some(a) = sp.maybe_spawn(1000) {
            assert!(a.position.x >= 0 && a.position.x < 1000);
        }
    }
}

#[test]
fn snapshot_reflects_state() {
    let mut g = Game::new();
    g.lasers.push(Laser::new(4000, 4050));
    g.asteroids.push(Asteroid::new(2000, 3000, 5, 10));
    let frame = g.render_snapshot();
    assert_eq!(frame.ship, Vector2 { x: 1000, y: 1000 });
    assert_eq!(frame.lasers, vec![Vector2 { x: 4000, y: 4050 }]);
    assert_eq!(frame.asteroids, vec![Vector2 { x: 2000, y: 3000 }]);
    assert_eq!(frame.score, 0);
    assert!(!frame.game_over);
}

#[test]
fn update_with_live_spawner_runs() {
    let mut g = Game::new();
    let mut sp = Spawner::from_seed(1);
    for _ in 0..1_000 {
        g.update(quiet(), &mut sp);
        // No fire input: nothing can score.
        assert_eq!(g.score, 0);
        if g.game_over {
            break;
        }
    }
}
