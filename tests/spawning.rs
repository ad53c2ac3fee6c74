use starblaster::world::{FrameInput, World};
use starblaster::rules::{enemy_spawns, shooter_cooldown, PX, ROLL_RANGE};
use starblaster::spawn::draw_rolls;

#[test]
fn spawn_rate_matches_chance() {
    let count = (0..ROLL_RANGE).filter(|&r| enemy_spawns(r, 10, 1)).count();
    // 0.02 × 1.0 × (1 + 1/5) of the rolls
    assert_eq!(count, 24_000);
    let count = (0..ROLL_RANGE).filter(|&r| enemy_spawns(r, 5, 10)).count();
    // 0.02 × 0.5 × (1 + 10/5)
    assert_eq!(count, 30_000);
}

#[test]
fn spawn_is_a_threshold_on_the_roll() {
    assert!(enemy_spawns(0, 10, 1));
    assert!(enemy_spawns(23_999, 10, 1));
    assert!(!enemy_spawns(24_000, 10, 1));
    assert!(!enemy_spawns(999_999, 10, 1));
}

#[test]
fn shooter_cooldown_shrinks_with_level() {
    assert_eq!(shooter_cooldown(0), 1500);
    assert_eq!(shooter_cooldown(1), 1450);
    assert_eq!(shooter_cooldown(10), 1000);
    assert_eq!(shooter_cooldown(20), 500);
    assert_eq!(shooter_cooldown(50), 500);
}

#[test]
fn drawn_rolls_lie_in_their_ranges() {
    let width = 800 * PX;
    for _ in 0..200 {
        let r = draw_rolls(width);
        assert!(r.enemy_roll < ROLL_RANGE);
        assert!(r.power_roll < ROLL_RANGE);
        assert!(r.enemy_kind < 4);
        assert!(r.power_kind < 2);
        assert!(r.enemy_x >= 0 && r.enemy_x < width);
        assert!(r.power_x >= 0 && r.power_x < width);
    }
    let one = draw_rolls(1);
    assert_eq!((one.enemy_x, one.power_x), (0, 0));
}

#[test]
fn advancing_keeps_every_entity_alive() {
    let mut w = World::new(800 * PX, 600 * PX, 20, 0);
    let mut inp = FrameInput {
        left: false,
        right: false,
        up: false,
        down: false,
        fire: true,
        escape: false,
        now: 0,
        dt: 16,
        width: 800 * PX,
        height: 600 * PX,
    };
    for f in 0..2000u64 {
        inp.now = f * 16;
        inp.left = f % 50 < 25;
        inp.right = !inp.left;
        w.advance(inp);
        assert!(w.enemies.iter().all(|e| e.alive));
        assert!(w.bullets.iter().all(|b| b.alive));
        assert!(w.enemy_bullets.iter().all(|b| b.alive));
        assert!(w.power_ups.iter().all(|p| p.alive));
        assert!(w.health <= 5 && w.tier >= 1 && w.tier <= 5);
    }
}
