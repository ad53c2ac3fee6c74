//! Spawn policy: which enemies and power-ups appear, decided from the random draws of a frame.
use vstd::prelude::*;
use crate::entity::{COORD_LIMIT, Enemy, EnemyKind, Point, PowerKind, PowerUp};
use crate::frame::step_spec;
use crate::rules::{MAX_DIFFICULTY, MAX_LEVEL, POWER_UP_CHANCE, POWER_UP_COOLDOWN_MS, POWER_UP_SPEED, ROLL_RANGE, enemy_speed, enemy_speed_of, enemy_start_health, start_health_of};
use crate::world::{FrameInput, FrameOutcome, SpawnRolls, World};

verus! {

/// Enemy kinds by index: Normal, Fast, Tank, Shooter.
pub open spec fn enemy_kind_of(k: int, now: u64) -> EnemyKind {
    if k == 0 {
        EnemyKind::Normal
    } else if k == 1 {
        EnemyKind::Fast
    } else if k == 2 {
        EnemyKind::Tank
    } else {
        EnemyKind::Shooter { last_shot: now }
    }
}

/// A new enemy at the top edge, with its kind's health and a speed scaled by
/// difficulty and level; a shooter counts its cooldown from now.
pub open spec fn spawned_enemy(r: SpawnRolls, now: u64, difficulty: int, level: int) -> Enemy {
    let kind = enemy_kind_of(r.enemy_kind as int, now);
    Enemy {
        pos: Point { x: r.enemy_x, y: 0 },
        speed: enemy_speed_of(kind, difficulty, level) as i64,
        alive: true,
        kind,
        health: start_health_of(kind) as i64,
    }
}

/// Power-up kinds by index: Health, WeaponUpgrade.
pub open spec fn power_kind_of(k: int) -> PowerKind {
    if k == 0 {
        PowerKind::Health
    } else {
        PowerKind::WeaponUpgrade
    }
}

/// A new power-up at the top edge, falling at the fixed power-up speed.
pub open spec fn spawned_power_up(r: SpawnRolls) -> PowerUp {
    PowerUp {
        pos: Point { x: r.power_x, y: 0 },
        speed: POWER_UP_SPEED,
        alive: true,
        kind: power_kind_of(r.power_kind as int),
    }
}

/// A power-up appears once its cooldown is over and the roll falls below its chance.
pub open spec fn power_up_spawns(r: SpawnRolls, now: int, last_power_up: int) -> bool {
    now - last_power_up > POWER_UP_COOLDOWN_MS && r.power_roll < POWER_UP_CHANCE
}

/// The enemy the rolls describe.
pub fn make_enemy(r: SpawnRolls, now: u64, difficulty: u32, level: u64) -> (e: Enemy)
    requires
        difficulty <= MAX_DIFFICULTY,
        level <= MAX_LEVEL,
        r.valid_for(COORD_LIMIT as int),
    ensures
        e == spawned_enemy(r, now, difficulty as int, level as int),
        e.bounded(),
{
    let kind = if r.enemy_kind == 0 {
        EnemyKind::Normal
    } else if r.enemy_kind == 1 {
        EnemyKind::Fast
    } else if r.enemy_kind == 2 {
        EnemyKind::Tank
    } else {
        EnemyKind::Shooter { last_shot: now }
    };
    let speed = enemy_speed(kind, difficulty, level);
    let health = enemy_start_health(kind);
    Enemy { pos: Point { x: r.enemy_x, y: 0 }, speed, alive: true, kind, health }
}

/// The power-up the rolls describe.
pub fn make_power_up(r: SpawnRolls) -> (p: PowerUp)
    requires
        r.valid_for(COORD_LIMIT as int),
    ensures
        p == spawned_power_up(r),
        p.bounded(),
{
    let kind = if r.power_kind == 0 {
        PowerKind::Health
    } else {
        PowerKind::WeaponUpgrade
    };
    PowerUp { pos: Point { x: r.power_x, y: 0 }, speed: POWER_UP_SPEED, alive: true, kind }
}

/// Relies on rand's `Rng::gen_range` on `thread_rng()` with the half-open range `0..n`:
/// a value in that range (it panics on an empty range, hence `n > 0`).
#[verifier::external_body]
fn roll_below(n: u64) -> (r: u64)
    requires
        n > 0,
    ensures
        r < n,
{
    rand::Rng::gen_range(&mut rand::thread_rng(), 0..n)
}

/// Draws the rolls of one frame: chances from `0..ROLL_RANGE`, kinds uniformly,
/// positions uniformly across the playfield's width.
pub fn draw_rolls(width: i64) -> (r: SpawnRolls)
    requires
        0 < width <= COORD_LIMIT,
    ensures
        r.valid_for(width as int),
{
    let enemy_roll = roll_below(ROLL_RANGE);
    let enemy_kind = roll_below(4) as u8;
    let enemy_x = roll_below(width as u64) as i64;
    let power_roll = roll_below(ROLL_RANGE);
    let power_kind = roll_below(2) as u8;
    let power_x = roll_below(width as u64) as i64;
    SpawnRolls { enemy_roll, enemy_kind, enemy_x, power_roll, power_kind, power_x }
}

impl World {
    /// Advances the simulation by one frame, drawing its random rolls.
    pub fn advance(&mut self, inp: FrameInput) -> (outcome: FrameOutcome)
        requires
            old(self)@.wf(),
            inp.valid(),
        ensures
            exists|r: SpawnRolls|
                r.valid_for(inp.width as int) && (final(self)@, outcome) == step_spec(
                    old(self)@,
                    inp,
                    r,
                ),
            final(self)@.wf(),
    {
        let rolls = draw_rolls(inp.width);
        self.step(inp, rolls)
    }
}

} // verus!
