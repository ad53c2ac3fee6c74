use starblaster::entity::{Bullet, BulletKind, Enemy, EnemyKind, Point, PowerKind, PowerUp};
use starblaster::world::{FrameInput, FrameOutcome, SpawnRolls, World};
use starblaster::rules::{kill_score, level_after, PX};
use starblaster::spawn::draw_rolls;

const WIDTH: i64 = 800 * PX;
const HEIGHT: i64 = 600 * PX;

fn input(now: u64, dt: u64) -> FrameInput {
    FrameInput {
        left: false,
        right: false,
        up: false,
        down: false,
        fire: false,
        escape: false,
        now,
        dt,
        width: WIDTH,
        height: HEIGHT,
    }
}

fn quiet_rolls() -> SpawnRolls {
    SpawnRolls {
        enemy_roll: 999_999,
        enemy_kind: 0,
        enemy_x: 0,
        power_roll: 999_999,
        power_kind: 0,
        power_x: 0,
    }
}

fn world() -> World {
    World::new(WIDTH, HEIGHT, 10, 0)
}

fn enemy_at(x: i64, y: i64, kind: EnemyKind, health: i64) -> Enemy {
    Enemy { pos: Point { x, y }, speed: 100_000, alive: true, kind, health }
}

fn bullet_at(x: i64, y: i64, kind: BulletKind) -> Bullet {
    Bullet { pos: Point { x, y }, vel: Point { x: 0, y: -400_000 }, alive: true, kind }
}

fn all_alive(w: &World) -> bool {
    w.enemies.iter().all(|e| e.alive)
        && w.bullets.iter().all(|b| b.alive)
        && w.enemy_bullets.iter().all(|b| b.alive)
        && w.power_ups.iter().all(|p| p.alive)
}

#[test]
fn new_world_starts_at_bottom_centre() {
    let w = world();
    assert_eq!(w.player, Point { x: 400 * PX, y: 550 * PX });
    assert_eq!(w.health, 3);
    assert_eq!(w.tier, 1);
    assert_eq!(w.level, 1);
    assert_eq!(w.score, 0);
}

#[test]
fn killing_normal_enemy_scores_ten() {
    let mut w = world();
    w.enemies.push(enemy_at(100 * PX, 100 * PX, EnemyKind::Normal, 1));
    w.bullets.push(bullet_at(100 * PX, 100 * PX, BulletKind::Normal));
    let out = w.step(input(1000, 0), quiet_rolls());
    assert_eq!(out, FrameOutcome::Playing);
    assert_eq!(w.score, 10);
    assert!(w.enemies.is_empty());
    assert!(w.bullets.is_empty());
}

#[test]
fn killing_tank_enemy_scores_thirty() {
    let mut w = world();
    w.enemies.push(enemy_at(100 * PX, 100 * PX, EnemyKind::Tank, 1));
    w.bullets.push(bullet_at(105 * PX, 100 * PX, BulletKind::Normal));
    w.step(input(1000, 0), quiet_rolls());
    assert_eq!(w.score, 30);
    assert!(w.enemies.is_empty());
}

#[test]
fn kill_score_follows_ordinal() {
    assert_eq!(kill_score(EnemyKind::Normal), 10);
    assert_eq!(kill_score(EnemyKind::Fast), 20);
    assert_eq!(kill_score(EnemyKind::Tank), 30);
    assert_eq!(kill_score(EnemyKind::Shooter { last_shot: 0 }), 40);
}

#[test]
fn empowered_bullets_kill_tank_in_two_hits() {
    let mut w = world();
    w.enemies.push(enemy_at(100 * PX, 100 * PX, EnemyKind::Tank, 3));
    w.bullets.push(bullet_at(100 * PX, 100 * PX, BulletKind::Empowered));
    w.step(input(1000, 0), quiet_rolls());
    assert_eq!(w.enemies.len(), 1);
    assert_eq!(w.enemies[0].health, 1);
    assert!(w.bullets.is_empty());
    assert_eq!(w.score, 0);
    w.bullets.push(bullet_at(100 * PX, 100 * PX, BulletKind::Empowered));
    w.step(input(1001, 0), quiet_rolls());
    assert!(w.enemies.is_empty());
    assert_eq!(w.score, 30);
}

#[test]
fn normal_bullets_kill_tank_in_three_hits() {
    let mut w = world();
    w.enemies.push(enemy_at(100 * PX, 100 * PX, EnemyKind::Tank, 3));
    for hit in 1..=3 {
        w.bullets.push(bullet_at(100 * PX, 100 * PX, BulletKind::Normal));
        w.step(input(1000 + hit, 0), quiet_rolls());
        if hit < 3 {
            assert_eq!(w.enemies.len(), 1);
            assert_eq!(w.enemies[0].health, 3 - hit as i64);
        }
    }
    assert!(w.enemies.is_empty());
    assert_eq!(w.score, 30);
}

#[test]
fn one_bullet_hits_every_enemy_in_reach() {
    let mut w = world();
    w.enemies.push(enemy_at(100 * PX, 100 * PX, EnemyKind::Normal, 1));
    w.enemies.push(enemy_at(110 * PX, 100 * PX, EnemyKind::Fast, 1));
    w.bullets.push(bullet_at(105 * PX, 100 * PX, BulletKind::Normal));
    w.step(input(1000, 0), quiet_rolls());
    assert!(w.enemies.is_empty());
    assert_eq!(w.score, 30);
}

#[test]
fn level_rises_only_once_score_exceeds_hundred() {
    let mut w = world();
    w.score = 100;
    w.step(input(1000, 0), quiet_rolls());
    assert_eq!(w.level, 1);
    w.score = 101;
    w.step(input(1001, 0), quiet_rolls());
    assert_eq!(w.level, 2);
    w.step(input(1002, 0), quiet_rolls());
    assert_eq!(w.level, 2);
    assert_eq!(level_after(100, 1), 1);
    assert_eq!(level_after(101, 1), 2);
    assert_eq!(level_after(201, 2), 3);
}

#[test]
fn body_collision_at_last_health_ends_the_game() {
    let mut w = world();
    w.health = 1;
    let p = w.player;
    w.enemies.push(enemy_at(p.x, p.y, EnemyKind::Normal, 1));
    let out = w.step(input(1000, 0), quiet_rolls());
    assert_eq!(out, FrameOutcome::GameOver);
    assert_eq!(w.health, 0);
    assert!(w.enemies.is_empty());
}

#[test]
fn shot_and_body_hits_each_cost_health() {
    let mut w = world();
    let p = w.player;
    w.enemies.push(enemy_at(p.x + 5 * PX, p.y, EnemyKind::Normal, 1));
    w.enemy_bullets.push(Bullet {
        pos: Point { x: p.x, y: p.y + 5 * PX },
        vel: Point { x: 0, y: 0 },
        alive: true,
        kind: BulletKind::Normal,
    });
    w.enemy_bullets.push(Bullet {
        pos: Point { x: p.x, y: p.y - 5 * PX },
        vel: Point { x: 0, y: 0 },
        alive: true,
        kind: BulletKind::Normal,
    });
    let out = w.step(input(1000, 0), quiet_rolls());
    assert_eq!(out, FrameOutcome::Playing);
    assert_eq!(w.health, 1);
    assert!(w.enemies.is_empty());
    assert!(w.enemy_bullets.is_empty());
}

#[test]
fn escape_returns_to_menu() {
    let mut w = world();
    let mut inp = input(1000, 16);
    inp.escape = true;
    assert_eq!(w.step(inp, quiet_rolls()), FrameOutcome::ExitToMenu);
}

#[test]
fn power_ups_raise_health_and_tier_up_to_five() {
    let mut w = world();
    w.health = 4;
    w.tier = 4;
    let p = w.player;
    for kind in [PowerKind::Health, PowerKind::Health, PowerKind::WeaponUpgrade, PowerKind::WeaponUpgrade] {
        w.power_ups.push(PowerUp { pos: p, speed: 0, alive: true, kind });
    }
    w.step(input(1000, 0), quiet_rolls());
    assert_eq!(w.health, 5);
    assert_eq!(w.tier, 5);
    assert!(w.power_ups.is_empty());
}

#[test]
fn volley_is_a_fan_of_tier_bullets() {
    let mut w = world();
    w.tier = 3;
    let mut inp = input(1000, 0);
    inp.fire = true;
    w.step(inp, quiet_rolls());
    let p = w.player;
    let xs: Vec<i64> = w.bullets.iter().map(|b| b.pos.x).collect();
    assert_eq!(xs, vec![p.x - 10 * PX, p.x, p.x + 10 * PX]);
    assert!(w.bullets.iter().all(|b| b.kind == BulletKind::Empowered && b.vel == Point { x: 0, y: -400_000 }));
    assert_eq!(w.last_shot, 1000);
    inp.now = 1200;
    w.step(inp, quiet_rolls());
    assert_eq!(w.bullets.len(), 3);
    inp.now = 1201;
    w.step(inp, quiet_rolls());
    assert_eq!(w.bullets.len(), 6);
}

#[test]
fn single_tier_fires_one_normal_bullet() {
    let mut w = world();
    let mut inp = input(1000, 0);
    inp.fire = true;
    w.step(inp, quiet_rolls());
    assert_eq!(w.bullets.len(), 1);
    assert_eq!(w.bullets[0].kind, BulletKind::Normal);
    assert_eq!(w.bullets[0].pos, w.player);
}

#[test]
fn player_moves_and_stays_inside() {
    let mut w = world();
    let mut inp = input(1000, 100);
    inp.right = true;
    inp.up = true;
    w.step(inp, quiet_rolls());
    assert_eq!(w.player, Point { x: 430 * PX, y: 520 * PX });
    inp.dt = 10_000;
    w.step(inp, quiet_rolls());
    assert_eq!(w.player, Point { x: 780 * PX, y: 0 });
}

#[test]
fn entities_leave_through_their_edges() {
    let mut w = world();
    w.bullets.push(bullet_at(100 * PX, 1 * PX, BulletKind::Normal));
    w.enemies.push(Enemy { pos: Point { x: 10 * PX, y: 599 * PX }, speed: 100_000, alive: true, kind: EnemyKind::Normal, health: 1 });
    w.power_ups.push(PowerUp { pos: Point { x: 10 * PX, y: 599 * PX }, speed: 80_000, alive: true, kind: PowerKind::Health });
    w.enemies.push(Enemy { pos: Point { x: 700 * PX, y: 10 * PX }, speed: 100_000, alive: true, kind: EnemyKind::Normal, health: 1 });
    w.step(input(1000, 20), quiet_rolls());
    assert!(w.bullets.is_empty());
    assert!(w.power_ups.is_empty());
    assert_eq!(w.enemies.len(), 1);
    assert_eq!(w.enemies[0].pos, Point { x: 700 * PX, y: 12 * PX });
    assert!(all_alive(&w));
}

#[test]
fn shooter_fires_at_player_after_cooldown() {
    let mut w = world();
    let p = w.player;
    w.enemies.push(Enemy {
        pos: Point { x: p.x, y: 100 * PX },
        speed: 0,
        alive: true,
        kind: EnemyKind::Shooter { last_shot: 0 },
        health: 2,
    });
    w.step(input(1000, 0), quiet_rolls());
    assert!(w.enemy_bullets.is_empty());
    w.step(input(1451, 0), quiet_rolls());
    assert_eq!(w.enemy_bullets.len(), 1);
    let b = w.enemy_bullets[0];
    assert_eq!(b.pos, Point { x: p.x + 10 * PX, y: 110 * PX });
    assert_eq!(b.vel, Point { x: 0, y: 220_000 });
    assert_eq!(w.enemies[0].kind, EnemyKind::Shooter { last_shot: 1451 });
}

#[test]
fn enemy_spawns_with_kind_table() {
    let mut w = world();
    let rolls = SpawnRolls { enemy_roll: 0, enemy_kind: 2, enemy_x: 123 * PX, ..quiet_rolls() };
    w.step(input(1000, 0), rolls);
    assert_eq!(w.enemies.len(), 1);
    let e = w.enemies[0];
    assert_eq!(e.kind, EnemyKind::Tank);
    assert_eq!(e.health, 3);
    assert_eq!(e.pos, Point { x: 123 * PX, y: 0 });
    assert_eq!(e.speed, 110_000);
    let rolls = SpawnRolls { enemy_roll: 0, enemy_kind: 1, ..quiet_rolls() };
    w.step(input(1001, 0), rolls);
    assert_eq!(w.enemies[1].speed, 165_000);
    let rolls = SpawnRolls { enemy_roll: 0, enemy_kind: 3, ..quiet_rolls() };
    w.step(input(1002, 0), rolls);
    assert_eq!(w.enemies[2].kind, EnemyKind::Shooter { last_shot: 1002 });
    assert_eq!(w.enemies[2].health, 2);
    assert_eq!(w.enemies[2].speed, 88_000);
}

#[test]
fn power_up_waits_for_cooldown() {
    let mut w = world();
    let rolls = SpawnRolls { power_roll: 0, power_kind: 1, power_x: 50 * PX, ..quiet_rolls() };
    w.step(input(10_000, 0), rolls);
    assert!(w.power_ups.is_empty());
    w.step(input(10_001, 0), rolls);
    assert_eq!(w.power_ups.len(), 1);
    assert_eq!(w.power_ups[0], PowerUp { pos: Point { x: 50 * PX, y: 0 }, speed: 80_000, alive: true, kind: PowerKind::WeaponUpgrade });
    assert_eq!(w.last_power_up, 10_001);
    w.step(input(10_002, 0), rolls);
    assert_eq!(w.power_ups.len(), 1);
}

#[test]
fn compaction_leaves_only_live_entities_and_ranges_hold() {
    let mut w = world();
    w.health = 5;
    let p = w.player;
    for i in 0..10 {
        w.enemies.push(enemy_at(i * 50 * PX, 100 * PX, EnemyKind::Normal, 1));
        w.bullets.push(bullet_at(i * 100 * PX, 100 * PX, BulletKind::Normal));
        w.power_ups.push(PowerUp { pos: p, speed: 0, alive: true, kind: PowerKind::Health });
    }
    let mut inp = input(1000, 16);
    inp.fire = true;
    for f in 0..50 {
        inp.now = 1000 + 16 * f;
        w.step(inp, quiet_rolls());
        assert!(all_alive(&w));
        assert!(w.health <= 5);
        assert!(w.tier >= 1 && w.tier <= 5);
    }
}

#[test]
fn frame_brings_loaded_vitals_into_range() {
    let mut w = world();
    w.health = -2;
    w.tier = 9;
    let out = w.step(input(1000, 0), quiet_rolls());
    assert_eq!(out, FrameOutcome::Playing);
    assert_eq!(w.health, 0);
    assert_eq!(w.tier, 5);
    w.health = 12;
    w.tier = 0;
    w.step(input(1001, 0), quiet_rolls());
    assert_eq!(w.health, 5);
    assert_eq!(w.tier, 1);
}
