//! The game's constants and the formulas built on them.
use vstd::prelude::*;
use crate::entity::{BulletKind, EnemyKind};

verus! {

/// Micro-pixels in one pixel.
pub const PX: i64 = 1_000_000;

/// Player speed: 300 pixels per second.
pub const PLAYER_SPEED: i64 = 300_000;

/// Side of the player's square, which keeps it inside the playfield.
pub const PLAYER_SIZE: i64 = 20 * PX;

/// Least time between two volleys of the player.
pub const FIRE_COOLDOWN_MS: u64 = 200;

/// Upward speed of a player bullet: 400 pixels per second.
pub const BULLET_SPEED: i64 = 400_000;

/// Sideways distance between the bullets of one volley.
pub const FAN_SPACING: i64 = 10 * PX;

/// Random rolls are drawn uniformly from `0..ROLL_RANGE`; a chance is given in parts of it.
pub const ROLL_RANGE: u64 = 1_000_000;

/// Least time between two power-ups.
pub const POWER_UP_COOLDOWN_MS: u64 = 10_000;

/// Chance per frame that a power-up appears once its cooldown is over (0.005).
pub const POWER_UP_CHANCE: u64 = 5_000;

/// Downward speed of a power-up: 80 pixels per second.
pub const POWER_UP_SPEED: i64 = 80_000;

/// The level term of the enemy spawn chance is `level / SPAWN_LEVEL_DIVISOR`.
pub const SPAWN_LEVEL_DIVISOR: u64 = 5;

/// Reach of a collision with a player bullet, an enemy body or a power-up.
pub const HIT_RADIUS: i64 = 20 * PX;

/// Reach of a collision between an enemy bullet and the player.
pub const ENEMY_BULLET_RADIUS: i64 = 15 * PX;

/// Offset of an enemy bullet from the shooter's position, on both axes.
pub const MUZZLE_OFFSET: i64 = 10 * PX;

pub const MAX_HEALTH: u32 = 5;

pub const MAX_TIER: u32 = 5;

pub const START_HEALTH: u32 = 3;

/// Points per level: the level goes up once the score exceeds `level * LEVEL_STEP`.
pub const LEVEL_STEP: u64 = 100;

/// Highest level; it keeps speeds within the simulation's arithmetic.
pub const MAX_LEVEL: u64 = 1_000_000;

/// Lowest difficulty, in tenths (0.5).
pub const MIN_DIFFICULTY: u32 = 5;

/// Highest difficulty, in tenths (100.0); it keeps speeds within the simulation's arithmetic.
pub const MAX_DIFFICULTY: u32 = 1000;

/// Longest frame the simulation advances in one step.
pub const DT_LIMIT: u64 = 65_536;

pub open spec fn kill_points(kind: EnemyKind) -> nat {
    10 * (kind.ordinal() + 1)
}

/// Points for destroying an enemy: ten times its kind's ordinal plus one.
pub fn kill_score(kind: EnemyKind) -> (r: u64)
    ensures
        r == kill_points(kind),
{
    10 * (kind.index() as u64 + 1)
}

pub open spec fn damage_of(kind: BulletKind) -> int {
    match kind {
        BulletKind::Normal => 1,
        BulletKind::Empowered => 2,
    }
}

pub fn bullet_damage(kind: BulletKind) -> (r: i64)
    ensures
        r == damage_of(kind),
{
    match kind {
        BulletKind::Normal => 1,
        BulletKind::Empowered => 2,
    }
}

/// Health of a fresh enemy.
pub open spec fn start_health_of(kind: EnemyKind) -> int {
    match kind {
        EnemyKind::Tank => 3,
        EnemyKind::Shooter { .. } => 2,
        _ => 1,
    }
}

pub fn enemy_start_health(kind: EnemyKind) -> (r: i64)
    ensures
        r == start_health_of(kind),
{
    match kind {
        EnemyKind::Tank => 3,
        EnemyKind::Shooter { .. } => 2,
        _ => 1,
    }
}

/// Base speed of an enemy kind in pixels per second: Fast 150, Shooter 80, the others 100.
pub open spec fn base_speed_of(kind: EnemyKind) -> int {
    match kind {
        EnemyKind::Fast => 150,
        EnemyKind::Shooter { .. } => 80,
        _ => 100,
    }
}

/// `base × difficulty × (1 + level/10)` pixels per second, in micro-pixels per millisecond.
pub open spec fn enemy_speed_of(kind: EnemyKind, difficulty: int, level: int) -> int {
    10 * base_speed_of(kind) * difficulty * (10 + level)
}

pub fn enemy_speed(kind: EnemyKind, difficulty: u32, level: u64) -> (r: i64)
    requires
        difficulty <= MAX_DIFFICULTY,
        level <= MAX_LEVEL,
    ensures
        r == enemy_speed_of(kind, difficulty as int, level as int),
        0 <= r <= 1_600_000_000_000,
{
    let base: i64 = match kind {
        EnemyKind::Fast => 150,
        EnemyKind::Shooter { .. } => 80,
        _ => 100,
    };
    assert(10 * base * difficulty * (10 + level) <= 1_600_000_000_000) by (nonlinear_arith)
        requires
            0 <= base <= 150,
            0 <= difficulty <= 1000,
            0 <= level <= 1_000_000,
    ;
    assert(0 <= 10 * base * difficulty * (10 + level)) by (nonlinear_arith)
        requires
            0 <= base,
            0 <= difficulty,
            0 <= level,
    ;
    let b10: i64 = 10 * base;
    assert(0 <= b10 * difficulty <= 1_500_000) by (nonlinear_arith)
        requires
            0 <= b10 <= 1500,
            0 <= difficulty <= 1000,
    ;
    let scaled: i64 = b10 * (difficulty as i64);
    assert(scaled * (10 + level) <= 1_500_000 * (10 + 1_000_000)) by (nonlinear_arith)
        requires
            0 <= scaled <= 1_500_000,
            0 <= level <= 1_000_000,
    ;
    scaled * (10 + level as i64)
}

/// Speed of a shooter's bullet: `200 × difficulty × (1 + level/10)` pixels per second.
pub open spec fn enemy_bullet_speed_of(difficulty: int, level: int) -> int {
    2000 * difficulty * (10 + level)
}

pub fn enemy_bullet_speed(difficulty: u32, level: u64) -> (r: i64)
    requires
        difficulty <= MAX_DIFFICULTY,
        level <= MAX_LEVEL,
    ensures
        r == enemy_bullet_speed_of(difficulty as int, level as int),
        0 <= r <= 2_100_000_000_000,
{
    let scaled: i64 = 2000 * (difficulty as i64);
    assert(0 <= scaled * (10 + level) <= 2_000_000 * (10 + 1_000_000)) by (nonlinear_arith)
        requires
            0 <= scaled <= 2_000_000,
            0 <= level <= 1_000_000,
    ;
    scaled * (10 + level as i64)
}

/// A shooter fires again once more than `1.5 − min(level/20, 1)` seconds have passed.
pub open spec fn shooter_cooldown_of(level: int) -> int {
    1500 - if 50 * level < 1000 { 50 * level } else { 1000 }
}

pub fn shooter_cooldown(level: u64) -> (r: u64)
    ensures
        r == shooter_cooldown_of(level as int),
{
    if level < 20 {
        1500 - 50 * level
    } else {
        500
    }
}

/// The enemy spawn chance `0.02 × difficulty × (1 + level/divisor)`, in parts of
/// `ROLL_RANGE` and multiplied by `divisor`: with difficulty in tenths,
/// `1_000_000 × 0.02 × (d/10) × (divisor + level)`.
pub open spec fn spawn_weight(difficulty: int, level: int) -> int {
    2000 * difficulty * (SPAWN_LEVEL_DIVISOR + level)
}

/// An enemy appears when the roll falls below the spawn chance.
pub open spec fn enemy_spawns_spec(roll: int, difficulty: int, level: int) -> bool {
    roll * SPAWN_LEVEL_DIVISOR < spawn_weight(difficulty, level)
}

pub fn enemy_spawns(roll: u64, difficulty: u32, level: u64) -> (r: bool)
    requires
        roll < ROLL_RANGE,
        difficulty <= MAX_DIFFICULTY,
        level <= MAX_LEVEL,
    ensures
        r == enemy_spawns_spec(roll as int, difficulty as int, level as int),
{
    assert(2000 * difficulty * (5 + level) <= 2000 * 1000 * (5 + 1_000_000)) by (nonlinear_arith)
        requires
            0 <= difficulty <= 1000,
            0 <= level <= 1_000_000,
    ;
    let scaled: u64 = 2000 * (difficulty as u64);
    assert(scaled * (5 + level) <= 2_000_000 * (5 + 1_000_000)) by (nonlinear_arith)
        requires
            0 <= scaled <= 2_000_000,
            0 <= level <= 1_000_000,
    ;
    roll * SPAWN_LEVEL_DIVISOR < scaled * (SPAWN_LEVEL_DIVISOR + level)
}

/// Number of rolls in `0..ROLL_RANGE` that spawn an enemy, as long as it does not exceed the range.
pub open spec fn spawn_threshold(difficulty: int, level: int) -> int {
    (spawn_weight(difficulty, level) + SPAWN_LEVEL_DIVISOR - 1) / (SPAWN_LEVEL_DIVISOR as int)
}

/// The enemy spawn decision is a threshold on the roll: exactly the rolls below
/// `ceil(0.02 × difficulty × (1 + level/5) × ROLL_RANGE)` spawn an enemy, so with a
/// uniform roll the chance per frame is `0.02 × difficulty × (1 + level/5)`.
pub proof fn lemma_spawn_is_threshold(roll: int, difficulty: int, level: int)
    requires
        0 <= roll < ROLL_RANGE,
        0 <= difficulty,
        0 <= level,
    ensures
        enemy_spawns_spec(roll, difficulty, level) <==> roll < spawn_threshold(difficulty, level),
{
    let w = spawn_weight(difficulty, level);
    assert(w >= 0) by (nonlinear_arith)
        requires
            w == 2000 * difficulty * (5 + level),
            0 <= difficulty,
            0 <= level,
    ;
    let t = (w + 4) / 5;
    assert(5 * t <= w + 4 && w + 4 < 5 * t + 5);
    if roll * 5 < w {
        assert(roll < t) by (nonlinear_arith)
            requires
                roll * 5 < w,
                w + 4 < 5 * t + 5,
        ;
    } else {
        assert(roll >= t) by (nonlinear_arith)
            requires
                roll * 5 >= w,
                5 * t <= w + 4,
        ;
    }
}

/// The level after a frame that ended with the given score.
pub open spec fn level_after_spec(score: int, level: int) -> int {
    if score > level * LEVEL_STEP && level < MAX_LEVEL {
        level + 1
    } else {
        level
    }
}

pub fn level_after(score: i64, level: u64) -> (r: u64)
    ensures
        r == level_after_spec(score as int, level as int),
{
    if level < MAX_LEVEL && score as i128 > level as i128 * 100 {
        level + 1
    } else {
        level
    }
}

/// The level only ever moves by at most one step, upwards, and passes 1 exactly
/// when the score exceeds 100.
pub proof fn lemma_level_progression(score: int, level: int)
    requires
        0 <= level <= MAX_LEVEL,
    ensures
        level <= level_after_spec(score, level) <= level + 1,
        level == 1 ==> (level_after_spec(score, 1) == 2 <==> score > 100),
{
}

} // verus!
