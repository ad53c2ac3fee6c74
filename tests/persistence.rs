use starblaster::entity::{Bullet, BulletKind, Enemy, EnemyKind, Point, PowerKind, PowerUp};
use starblaster::world::World;
use starblaster::geometry::{aim, isqrt};
use starblaster::persist::{GameSave, Settings};
use starblaster::rules::PX;

fn same_world(a: &World, b: &World) {
    assert_eq!(a.player, b.player);
    assert_eq!(a.health, b.health);
    assert_eq!(a.tier, b.tier);
    assert_eq!(a.score, b.score);
    assert_eq!(a.level, b.level);
    assert_eq!(a.difficulty, b.difficulty);
    assert_eq!(a.enemies, b.enemies);
    assert_eq!(a.bullets, b.bullets);
    assert_eq!(a.enemy_bullets, b.enemy_bullets);
    assert_eq!(a.power_ups, b.power_ups);
}

#[test]
fn settings_default_when_missing() {
    let s = Settings::loaded_or_default(None);
    assert_eq!(s, Settings { difficulty: 10, sound_volume: 5, high_score: 0 });
    assert_eq!(Settings::default(), s);
    let kept = Settings { difficulty: 12, sound_volume: 3, high_score: 77 };
    assert_eq!(Settings::loaded_or_default(Some(kept)), kept);
}

#[test]
fn high_score_only_rises() {
    let mut s = Settings::default();
    assert!(s.record_score(50));
    assert_eq!(s.high_score, 50);
    assert!(!s.record_score(50));
    assert!(!s.record_score(20));
    assert_eq!(s.high_score, 50);
}

#[test]
fn settings_adjust_within_bounds() {
    let mut s = Settings::default();
    s.raise_difficulty();
    assert_eq!(s.difficulty, 11);
    for _ in 0..20 {
        s.lower_difficulty();
    }
    assert_eq!(s.difficulty, 5);
    for _ in 0..20 {
        s.raise_volume();
    }
    assert_eq!(s.sound_volume, 10);
    for _ in 0..20 {
        s.lower_volume();
    }
    assert_eq!(s.sound_volume, 0);
}

#[test]
fn empty_world_round_trips() {
    let w = World::new(800 * PX, 600 * PX, 10, 0);
    let back = World::from_save(&w.to_save(), 5).unwrap();
    same_world(&w, &back);
    assert_eq!(back.last_shot, 5);
    assert_eq!(back.last_power_up, 5);
}

#[test]
fn populous_world_round_trips() {
    let mut w = World::new(800 * PX, 600 * PX, 15, 0);
    w.score = 1234;
    w.level = 7;
    w.health = 2;
    w.tier = 4;
    for i in 0..5 {
        w.enemies.push(Enemy { pos: Point { x: i * PX, y: 3 * PX }, speed: 90_000, alive: true, kind: EnemyKind::Shooter { last_shot: 9 }, health: 2 });
        w.bullets.push(Bullet { pos: Point { x: 5 * PX, y: i * PX }, vel: Point { x: 0, y: -400_000 }, alive: true, kind: BulletKind::Empowered });
        w.enemy_bullets.push(Bullet { pos: Point { x: i, y: i }, vel: Point { x: 7, y: -3 }, alive: true, kind: BulletKind::Normal });
        w.power_ups.push(PowerUp { pos: Point { x: i, y: 2 }, speed: 80_000, alive: true, kind: PowerKind::WeaponUpgrade });
    }
    let back = World::from_save(&w.to_save(), 0).unwrap();
    same_world(&w, &back);
}

#[test]
fn loading_keeps_out_of_range_values() {
    let mut s = World::new(800 * PX, 600 * PX, 10, 0).to_save();
    s.player_health = -2;
    s.shot_level = 9;
    s.level = 0;
    s.score = -30;
    let w = World::from_save(&s, 0).unwrap();
    assert_eq!(w.health, -2);
    assert_eq!(w.tier, 9);
    assert_eq!(w.level, 0);
    assert_eq!(w.score, -30);
}

#[test]
fn loading_drops_dead_entities() {
    let mut s = World::new(800 * PX, 600 * PX, 10, 0).to_save();
    s.enemies.push(Enemy { pos: Point { x: 0, y: 0 }, speed: 1, alive: false, kind: EnemyKind::Fast, health: 1 });
    s.enemies.push(Enemy { pos: Point { x: 1, y: 1 }, speed: 1, alive: true, kind: EnemyKind::Normal, health: 1 });
    let w = World::from_save(&s, 0).unwrap();
    assert_eq!(w.enemies.len(), 1);
    assert_eq!(w.enemies[0].pos, Point { x: 1, y: 1 });
}

#[test]
fn loading_refuses_values_out_of_range() {
    let mut s: GameSave = World::new(800 * PX, 600 * PX, 10, 0).to_save();
    s.level = 2_000_000;
    assert!(World::from_save(&s, 0).is_none());
    let mut s = World::new(800 * PX, 600 * PX, 10, 0).to_save();
    s.bullets.push(Bullet { pos: Point { x: i64::MAX, y: 0 }, vel: Point { x: 0, y: 0 }, alive: true, kind: BulletKind::Normal });
    assert!(World::from_save(&s, 0).is_none());
}

#[test]
fn integer_square_root() {
    assert_eq!(isqrt(0), 0);
    assert_eq!(isqrt(1), 1);
    assert_eq!(isqrt(15), 3);
    assert_eq!(isqrt(16), 4);
    assert_eq!(isqrt(1 << 100), 1 << 50);
}

#[test]
fn aim_scales_direction_to_speed() {
    assert_eq!(aim(3, 4, 1000), Point { x: 600, y: 800 });
    assert_eq!(aim(-3, -4, 1000), Point { x: -600, y: -800 });
    assert_eq!(aim(0, 0, 1000), Point { x: 0, y: 0 });
    assert_eq!(aim(0, -7, 50), Point { x: 0, y: -50 });
}
