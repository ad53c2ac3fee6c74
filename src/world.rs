//! The simulation state: the player, the entity collections, and their compaction.
use vstd::prelude::*;
use crate::entity::{Bullet, COORD_LIMIT, Enemy, Point, PowerUp, bullets_ok, enemies_ok, live_bullets_bounded, live_enemies_bounded, live_power_ups_bounded, point_within, power_ups_ok};
use crate::rules::{DT_LIMIT, MAX_DIFFICULTY, MAX_HEALTH, MAX_LEVEL, MAX_TIER, PLAYER_SIZE, PX, ROLL_RANGE, START_HEALTH};

verus! {

/// The whole simulation state.
pub struct World {
    pub player: Point,
    /// Player health; a frame brings it into `0..=MAX_HEALTH` before anything else.
    pub health: i64,
    /// Weapon tier: the number of bullets in one volley; a frame brings it into `1..=MAX_TIER`.
    pub tier: u32,
    pub score: i64,
    pub level: u64,
    /// Difficulty in tenths.
    pub difficulty: u32,
    pub enemies: Vec<Enemy>,
    pub bullets: Vec<Bullet>,
    pub enemy_bullets: Vec<Bullet>,
    pub power_ups: Vec<PowerUp>,
    /// Time of the player's last volley.
    pub last_shot: u64,
    /// Time the last power-up appeared.
    pub last_power_up: u64,
}

/// The mathematical value of a [`World`].
pub struct WorldModel {
    pub player: Point,
    pub health: int,
    pub tier: int,
    pub score: int,
    pub level: int,
    pub difficulty: int,
    pub enemies: Seq<Enemy>,
    pub bullets: Seq<Bullet>,
    pub enemy_bullets: Seq<Bullet>,
    pub power_ups: Seq<PowerUp>,
    pub last_shot: int,
    pub last_power_up: int,
}

impl View for World {
    type V = WorldModel;

    open spec fn view(&self) -> WorldModel {
        WorldModel {
            player: self.player,
            health: self.health as int,
            tier: self.tier as int,
            score: self.score as int,
            level: self.level as int,
            difficulty: self.difficulty as int,
            enemies: self.enemies@,
            bullets: self.bullets@,
            enemy_bullets: self.enemy_bullets@,
            power_ups: self.power_ups@,
            last_shot: self.last_shot as int,
            last_power_up: self.last_power_up as int,
        }
    }
}

/// What the player asks for in one frame, and the frame's timing and playfield.
#[derive(Clone, Copy, Debug, PartialEq, Eq, Structural)]
pub struct FrameInput {
    pub left: bool,
    pub right: bool,
    pub up: bool,
    pub down: bool,
    pub fire: bool,
    pub escape: bool,
    /// Current time.
    pub now: u64,
    /// Length of the frame.
    pub dt: u64,
    pub width: i64,
    pub height: i64,
}

impl FrameInput {
    pub open spec fn valid(self) -> bool {
        &&& self.dt <= DT_LIMIT
        &&& PLAYER_SIZE <= self.width <= COORD_LIMIT
        &&& PLAYER_SIZE <= self.height <= COORD_LIMIT
    }
}

/// The random draws of one frame: each roll lies in `0..ROLL_RANGE`.
#[derive(Clone, Copy, Debug, PartialEq, Eq, Structural)]
pub struct SpawnRolls {
    pub enemy_roll: u64,
    /// Index of the enemy kind, below 4.
    pub enemy_kind: u8,
    pub enemy_x: i64,
    pub power_roll: u64,
    /// Index of the power-up kind, below 2.
    pub power_kind: u8,
    pub power_x: i64,
}

impl SpawnRolls {
    pub open spec fn valid_for(self, width: int) -> bool {
        &&& self.enemy_roll < ROLL_RANGE
        &&& self.enemy_kind < 4
        &&& 0 <= self.enemy_x < width
        &&& self.power_roll < ROLL_RANGE
        &&& self.power_kind < 2
        &&& 0 <= self.power_x < width
    }
}

/// How a frame ended for the state machine around the simulation.
#[derive(Clone, Copy, Debug, PartialEq, Eq, Structural)]
pub enum FrameOutcome {
    /// Play goes on.
    Playing,
    /// The player's health reached zero: save the game and return to the menu.
    GameOver,
    /// The player asked to leave: save the game and return to the menu.
    ExitToMenu,
}

impl WorldModel {
    /// Every entity is alive and in range, and the numbers that drive speeds fit the arithmetic.
    /// Health and tier may hold any value (a loaded save keeps what it holds).
    pub open spec fn wf(self) -> bool {
        &&& self.level <= MAX_LEVEL
        &&& self.difficulty <= MAX_DIFFICULTY
        &&& point_within(self.player, COORD_LIMIT)
        &&& enemies_ok(self.enemies)
        &&& bullets_ok(self.bullets)
        &&& bullets_ok(self.enemy_bullets)
        &&& power_ups_ok(self.power_ups)
    }

    /// Health lies in `0..=MAX_HEALTH` and the weapon tier in `1..=MAX_TIER`.
    pub open spec fn vitals_ok(self) -> bool {
        &&& 0 <= self.health <= MAX_HEALTH
        &&& 1 <= self.tier <= MAX_TIER
    }
}

pub open spec fn is_live_enemy(e: Enemy) -> bool {
    e.alive
}

pub open spec fn is_live_bullet(b: Bullet) -> bool {
    b.alive
}

pub open spec fn is_live_power_up(p: PowerUp) -> bool {
    p.alive
}

/// Compaction: the live enemies, in order.
pub fn retain_live_enemies(v: &Vec<Enemy>) -> (r: Vec<Enemy>)
    ensures
        r@ == v@.filter(|e: Enemy| is_live_enemy(e)),
        live_enemies_bounded(v@) ==> enemies_ok(r@),
{
    let mut r: Vec<Enemy> = Vec::new();
    let mut i: usize = 0;
    while i < v.len()
        invariant
            i <= v.len(),
            r@ == v@.take(i as int).filter(|e: Enemy| is_live_enemy(e)),
            live_enemies_bounded(v@) ==> enemies_ok(r@),
        decreases v.len() - i,
    {
        assert(v@.take(i + 1).drop_last() =~= v@.take(i as int));
        proof {
            reveal(Seq::filter);
        }
        if v[i].alive {
            r.push(v[i]);
        }
        i += 1;
    }
    assert(v@.take(v.len() as int) =~= v@);
    r
}

/// Compaction: the live bullets, in order.
pub fn retain_live_bullets(v: &Vec<Bullet>) -> (r: Vec<Bullet>)
    ensures
        r@ == v@.filter(|b: Bullet| is_live_bullet(b)),
        live_bullets_bounded(v@) ==> bullets_ok(r@),
{
    let mut r: Vec<Bullet> = Vec::new();
    let mut i: usize = 0;
    while i < v.len()
        invariant
            i <= v.len(),
            r@ == v@.take(i as int).filter(|b: Bullet| is_live_bullet(b)),
            live_bullets_bounded(v@) ==> bullets_ok(r@),
        decreases v.len() - i,
    {
        assert(v@.take(i + 1).drop_last() =~= v@.take(i as int));
        proof {
            reveal(Seq::filter);
        }
        if v[i].alive {
            r.push(v[i]);
        }
        i += 1;
    }
    assert(v@.take(v.len() as int) =~= v@);
    r
}

/// Compaction: the live power-ups, in order.
pub fn retain_live_power_ups(v: &Vec<PowerUp>) -> (r: Vec<PowerUp>)
    ensures
        r@ == v@.filter(|p: PowerUp| is_live_power_up(p)),
        live_power_ups_bounded(v@) ==> power_ups_ok(r@),
{
    let mut r: Vec<PowerUp> = Vec::new();
    let mut i: usize = 0;
    while i < v.len()
        invariant
            i <= v.len(),
            r@ == v@.take(i as int).filter(|p: PowerUp| is_live_power_up(p)),
            live_power_ups_bounded(v@) ==> power_ups_ok(r@),
        decreases v.len() - i,
    {
        assert(v@.take(i + 1).drop_last() =~= v@.take(i as int));
        proof {
            reveal(Seq::filter);
        }
        if v[i].alive {
            r.push(v[i]);
        }
        i += 1;
    }
    assert(v@.take(v.len() as int) =~= v@);
    r
}

impl World {
    /// A fresh run: the player near the bottom centre of a `width × height` playfield,
    /// three health, tier 1, level 1, nothing else on the field.
    pub fn new(width: i64, height: i64, difficulty: u32, now: u64) -> (w: World)
        requires
            PLAYER_SIZE <= width <= COORD_LIMIT,
            PLAYER_SIZE <= height <= COORD_LIMIT,
            difficulty <= MAX_DIFFICULTY,
        ensures
            w@.wf(),
            w@.vitals_ok(),
            w.player.x == width / 2,
            w.player.y == height - 50 * PX,
            w.health == START_HEALTH,
            w.tier == 1,
            w.score == 0,
            w.level == 1,
            w.difficulty == difficulty,
            w.enemies@.len() == 0,
            w.bullets@.len() == 0,
            w.enemy_bullets@.len() == 0,
            w.power_ups@.len() == 0,
            w.last_shot == now,
            w.last_power_up == now,
    {
        World {
            player: Point { x: width / 2, y: height - 50 * PX },
            health: START_HEALTH as i64,
            tier: 1,
            score: 0,
            level: 1,
            difficulty,
            enemies: Vec::new(),
            bullets: Vec::new(),
            enemy_bullets: Vec::new(),
            power_ups: Vec::new(),
            last_shot: now,
            last_power_up: now,
        }
    }
}

} // verus!
