//! The entities of the playfield and their bounds.
use vstd::prelude::*;

verus! {

/// Largest magnitude of a coordinate of the player, an enemy or a power-up.
pub const COORD_LIMIT: i64 = 0x100_0000_0000;

/// Largest magnitude of a bullet coordinate (bullets spawn slightly off an enemy or the player).
pub const BULLET_COORD_LIMIT: i64 = 0x200_0000_0000;

/// Largest magnitude of a speed or a velocity component.
pub const SPEED_LIMIT: i64 = 0x400_0000_0000;

/// Largest magnitude of an enemy's health.
pub const HEALTH_LIMIT: i64 = 0x100_0000_0000;

/// A point or a velocity on the playfield.
#[derive(Clone, Copy, Debug, PartialEq, Eq, Structural)]
pub struct Point {
    pub x: i64,
    pub y: i64,
}

/// What an enemy is; a shooter remembers when it last fired.
#[derive(Clone, Copy, Debug, PartialEq, Eq, Structural)]
pub enum EnemyKind {
    Normal,
    Fast,
    Tank,
    Shooter { last_shot: u64 },
}

#[derive(Clone, Copy, Debug, PartialEq, Eq, Structural)]
pub struct Enemy {
    pub pos: Point,
    /// Downward speed.
    pub speed: i64,
    pub alive: bool,
    pub kind: EnemyKind,
    pub health: i64,
}

#[derive(Clone, Copy, Debug, PartialEq, Eq, Structural)]
pub enum BulletKind {
    Normal,
    Empowered,
}

#[derive(Clone, Copy, Debug, PartialEq, Eq, Structural)]
pub struct Bullet {
    pub pos: Point,
    pub vel: Point,
    pub alive: bool,
    pub kind: BulletKind,
}

#[derive(Clone, Copy, Debug, PartialEq, Eq, Structural)]
pub enum PowerKind {
    Health,
    WeaponUpgrade,
}

#[derive(Clone, Copy, Debug, PartialEq, Eq, Structural)]
pub struct PowerUp {
    pub pos: Point,
    /// Downward speed.
    pub speed: i64,
    pub alive: bool,
    pub kind: PowerKind,
}

pub open spec fn within(v: i64, limit: i64) -> bool {
    -limit <= v <= limit
}

pub open spec fn point_within(p: Point, limit: i64) -> bool {
    within(p.x, limit) && within(p.y, limit)
}

impl EnemyKind {
    /// The kind's position in the order Normal, Fast, Tank, Shooter.
    pub open spec fn ordinal(self) -> nat {
        match self {
            EnemyKind::Normal => 0,
            EnemyKind::Fast => 1,
            EnemyKind::Tank => 2,
            EnemyKind::Shooter { .. } => 3,
        }
    }

    pub fn index(&self) -> (r: u8)
        ensures
            r == self.ordinal(),
    {
        match self {
            EnemyKind::Normal => 0,
            EnemyKind::Fast => 1,
            EnemyKind::Tank => 2,
            EnemyKind::Shooter { .. } => 3,
        }
    }
}

impl Enemy {
    /// In range for the simulation: speeds point down, magnitudes fit the arithmetic.
    pub open spec fn bounded(self) -> bool {
        &&& point_within(self.pos, COORD_LIMIT)
        &&& 0 <= self.speed <= SPEED_LIMIT
        &&& within(self.health, HEALTH_LIMIT)
    }
}

impl Bullet {
    pub open spec fn bounded(self) -> bool {
        point_within(self.pos, BULLET_COORD_LIMIT) && point_within(self.vel, SPEED_LIMIT)
    }
}

impl PowerUp {
    pub open spec fn bounded(self) -> bool {
        point_within(self.pos, COORD_LIMIT) && 0 <= self.speed <= SPEED_LIMIT
    }
}

pub open spec fn enemies_ok(s: Seq<Enemy>) -> bool {
    forall|i: int| 0 <= i < s.len() ==> (#[trigger] s[i]).alive && s[i].bounded()
}

pub open spec fn bullets_ok(s: Seq<Bullet>) -> bool {
    forall|i: int| 0 <= i < s.len() ==> (#[trigger] s[i]).alive && s[i].bounded()
}

pub open spec fn power_ups_ok(s: Seq<PowerUp>) -> bool {
    forall|i: int| 0 <= i < s.len() ==> (#[trigger] s[i]).alive && s[i].bounded()
}

/// Every live enemy is in range; dead ones await removal.
pub open spec fn live_enemies_bounded(s: Seq<Enemy>) -> bool {
    forall|i: int| 0 <= i < s.len() && (#[trigger] s[i]).alive ==> s[i].bounded()
}

pub open spec fn live_bullets_bounded(s: Seq<Bullet>) -> bool {
    forall|i: int| 0 <= i < s.len() && (#[trigger] s[i]).alive ==> s[i].bounded()
}

pub open spec fn live_power_ups_bounded(s: Seq<PowerUp>) -> bool {
    forall|i: int| 0 <= i < s.len() && (#[trigger] s[i]).alive ==> s[i].bounded()
}

} // verus!
