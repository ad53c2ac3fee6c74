//! Collisions: bullets against enemies, and everything that reaches the player.
use vstd::prelude::*;
use crate::entity::{Bullet, BulletKind, COORD_LIMIT, Enemy, EnemyKind, Point, PowerKind, PowerUp, live_bullets_bounded, live_enemies_bounded, live_power_ups_bounded, point_within};
use crate::geometry::{is_near, near};
use crate::rules::{ENEMY_BULLET_RADIUS, HIT_RADIUS, MAX_HEALTH, MAX_TIER, bullet_damage, damage_of, kill_points, kill_score};

verus! {

/// The bullet touches a live enemy.
pub open spec fn struck(b: Bullet, e: Enemy) -> bool {
    e.alive && near(b.pos, e.pos, HIT_RADIUS as int)
}

/// A touched enemy loses the bullet's damage and dies once its health is used up.
pub open spec fn strike(b: Bullet, e: Enemy) -> Enemy {
    if struck(b, e) {
        let h = e.health - damage_of(b.kind);
        Enemy { health: h as i64, alive: h > 0, ..e }
    } else {
        e
    }
}

pub open spec fn kills(b: Bullet, e: Enemy) -> bool {
    struck(b, e) && e.health - damage_of(b.kind) <= 0
}

/// Addition that stops at the largest score.
pub open spec fn sat_add(s: int, p: int) -> int {
    if s + p > i64::MAX {
        i64::MAX as int
    } else {
        s + p
    }
}

/// The score after one bullet has been tested against the enemies of `es`.
pub open spec fn scan_score(b: Bullet, es: Seq<Enemy>, s: int) -> int
    decreases es.len(),
{
    if es.len() == 0 {
        s
    } else {
        let s0 = scan_score(b, es.drop_last(), s);
        if kills(b, es.last()) {
            sat_add(s0, kill_points(es.last().kind) as int)
        } else {
            s0
        }
    }
}

/// A bullet that touches any enemy is used up, at the end of its pass over the enemies.
pub open spec fn bullet_spent(b: Bullet, es: Seq<Enemy>) -> bool {
    exists|j: int| 0 <= j < es.len() && struck(b, es[j])
}

/// Bullets, enemies and score after the first `k` bullets have been tested, in order,
/// against every enemy.
pub open spec fn hit_pass(bs: Seq<Bullet>, es: Seq<Enemy>, s: int, k: nat) -> (
    Seq<Bullet>,
    Seq<Enemy>,
    int,
)
    decreases k,
{
    if k == 0 {
        (bs, es, s)
    } else {
        let (bs1, es1, s1) = hit_pass(bs, es, s, (k - 1) as nat);
        let b = bs1[k - 1];
        if b.alive {
            let es2 = es1.map_values(|e: Enemy| strike(b, e));
            let s2 = scan_score(b, es1, s1);
            let bs2 = if bullet_spent(b, es1) {
                bs1.update(k - 1, Bullet { alive: false, ..b })
            } else {
                bs1
            };
            (bs2, es2, s2)
        } else {
            (bs1, es1, s1)
        }
    }
}

fn scan_enemies(b: Bullet, enemies: &mut Vec<Enemy>, score: &mut i64) -> (spent: bool)
    requires
        b.alive,
        b.bounded(),
        live_enemies_bounded(old(enemies)@),
    ensures
        final(enemies)@ == old(enemies)@.map_values(|e: Enemy| strike(b, e)),
        *final(score) == scan_score(b, old(enemies)@, *old(score) as int),
        spent == bullet_spent(b, old(enemies)@),
        live_enemies_bounded(final(enemies)@),
{
    let ghost start = enemies@;
    let ghost s0 = *score as int;
    let damage = bullet_damage(b.kind);
    let mut spent = false;
    let mut i: usize = 0;
    while i < enemies.len()
        invariant
            i <= enemies.len() == start.len(),
            b.bounded(),
            damage == damage_of(b.kind),
            live_enemies_bounded(start),
            forall|t: int| 0 <= t < i ==> enemies@[t] == strike(b, start[t]),
            forall|t: int| i <= t < enemies.len() ==> enemies@[t] == start[t],
            live_enemies_bounded(enemies@),
            *score == scan_score(b, start.take(i as int), s0),
            spent == exists|j: int| 0 <= j < i && struck(b, start[j]),
        decreases start.len() - i,
    {
        let e = enemies[i];
        assert(start.take(i + 1).drop_last() =~= start.take(i as int));
        assert(start.take(i + 1).last() == e);
        if e.alive && is_near(b.pos, e.pos, HIT_RADIUS) {
            let h: i64 = e.health - damage;
            if h <= 0 {
                let points = kill_score(e.kind) as i64;
                if *score > i64::MAX - points {
                    *score = i64::MAX;
                } else {
                    *score = *score + points;
                }
            }
            enemies.set(i, Enemy { health: h, alive: h > 0, ..e });
            spent = true;
        }
        i += 1;
    }
    assert(start.take(start.len() as int) =~= start);
    assert(enemies@ =~= start.map_values(|e: Enemy| strike(b, e)));
    spent
}

/// Tests every live bullet, in order, against every live enemy, applying damage and score.
pub fn resolve_bullet_hits(bullets: &mut Vec<Bullet>, enemies: &mut Vec<Enemy>, score: &mut i64)
    requires
        live_bullets_bounded(old(bullets)@),
        live_enemies_bounded(old(enemies)@),
    ensures
        (final(bullets)@, final(enemies)@, *final(score) as int) == hit_pass(
            old(bullets)@,
            old(enemies)@,
            *old(score) as int,
            old(bullets)@.len(),
        ),
        live_bullets_bounded(final(bullets)@),
        live_enemies_bounded(final(enemies)@),
{
    let ghost bs0 = bullets@;
    let ghost es0 = enemies@;
    let ghost s0 = *score as int;
    let mut k: usize = 0;
    while k < bullets.len()
        invariant
            k <= bullets.len() == bs0.len(),
            (bullets@, enemies@, *score as int) == hit_pass(bs0, es0, s0, k as nat),
            forall|t: int| k <= t < bullets.len() ==> bullets@[t] == bs0[t],
            live_bullets_bounded(bullets@),
            live_enemies_bounded(enemies@),
        decreases bs0.len() - k,
    {
        let b = bullets[k];
        if b.alive {
            let spent = scan_enemies(b, enemies, score);
            if spent {
                bullets.set(k, Bullet { alive: false, ..b });
            }
        }
        k += 1;
    }
}

/// A live enemy bullet within reach of the player.
pub open spec fn shot_hits_player(b: Bullet, player: Point) -> bool {
    b.alive && near(player, b.pos, ENEMY_BULLET_RADIUS as int)
}

/// Some enemy bullet of `s` reaches the player.
pub open spec fn any_shot_hits(s: Seq<Bullet>, player: Point) -> bool {
    exists|j: int| 0 <= j < s.len() && shot_hits_player(s[j], player)
}

/// Some enemy of `s` touches the player.
pub open spec fn any_body_hits(s: Seq<Enemy>, player: Point) -> bool {
    exists|j: int| 0 <= j < s.len() && body_hits_player(s[j], player)
}

pub open spec fn after_shot_contact(b: Bullet, player: Point) -> Bullet {
    if shot_hits_player(b, player) {
        Bullet { alive: false, ..b }
    } else {
        b
    }
}

/// A live enemy within reach of the player's body.
pub open spec fn body_hits_player(e: Enemy, player: Point) -> bool {
    e.alive && near(player, e.pos, HIT_RADIUS as int)
}

pub open spec fn after_body_contact(e: Enemy, player: Point) -> Enemy {
    if body_hits_player(e, player) {
        Enemy { alive: false, ..e }
    } else {
        e
    }
}

/// A live power-up within reach of the player.
pub open spec fn picked_up(p: PowerUp, player: Point) -> bool {
    p.alive && near(player, p.pos, HIT_RADIUS as int)
}

pub open spec fn after_pickup(p: PowerUp, player: Point) -> PowerUp {
    if picked_up(p, player) {
        PowerUp { alive: false, ..p }
    } else {
        p
    }
}

/// Health after one hit: one less, never below zero.
pub open spec fn wounded(h: int) -> int {
    if h > 0 {
        h - 1
    } else {
        0
    }
}

pub open spec fn capped_increment(v: int, cap: int) -> int {
    if v + 1 < cap {
        v + 1
    } else {
        cap
    }
}

/// Health and weapon tier after the player collects the power-ups of `ps` it touches, in order.
pub open spec fn pickup_effects(ps: Seq<PowerUp>, player: Point, health: int, tier: int) -> (
    int,
    int,
)
    decreases ps.len(),
{
    if ps.len() == 0 {
        (health, tier)
    } else {
        let (h, t) = pickup_effects(ps.drop_last(), player, health, tier);
        if picked_up(ps.last(), player) {
            match ps.last().kind {
                PowerKind::Health => (capped_increment(h, MAX_HEALTH as int), t),
                PowerKind::WeaponUpgrade => (h, capped_increment(t, MAX_TIER as int)),
            }
        } else {
            (h, t)
        }
    }
}

/// Removes the enemy bullets that reach the player; says whether any did.
pub fn resolve_shots_at_player(v: &mut Vec<Bullet>, player: Point) -> (hit: bool)
    requires
        live_bullets_bounded(old(v)@),
        point_within(player, COORD_LIMIT),
    ensures
        final(v)@ == old(v)@.map_values(|b: Bullet| after_shot_contact(b, player)),
        hit == any_shot_hits(old(v)@, player),
        live_bullets_bounded(final(v)@),
{
    let ghost start = v@;
    let mut hit = false;
    let mut i: usize = 0;
    while i < v.len()
        invariant
            i <= v.len() == start.len(),
            point_within(player, COORD_LIMIT),
            live_bullets_bounded(start),
            forall|t: int| 0 <= t < i ==> v@[t] == after_shot_contact(start[t], player),
            forall|t: int| i <= t < v.len() ==> v@[t] == start[t],
            live_bullets_bounded(v@),
            hit == exists|j: int| 0 <= j < i && shot_hits_player(start[j], player),
        decreases start.len() - i,
    {
        let b = v[i];
        if b.alive && is_near(player, b.pos, ENEMY_BULLET_RADIUS) {
            v.set(i, Bullet { alive: false, ..b });
            hit = true;
        }
        i += 1;
    }
    assert(v@ =~= start.map_values(|b: Bullet| after_shot_contact(b, player)));
    hit
}

/// Removes the enemies that touch the player; says whether any did.
pub fn resolve_body_contacts(v: &mut Vec<Enemy>, player: Point) -> (hit: bool)
    requires
        live_enemies_bounded(old(v)@),
        point_within(player, COORD_LIMIT),
    ensures
        final(v)@ == old(v)@.map_values(|e: Enemy| after_body_contact(e, player)),
        hit == any_body_hits(old(v)@, player),
        live_enemies_bounded(final(v)@),
{
    let ghost start = v@;
    let mut hit = false;
    let mut i: usize = 0;
    while i < v.len()
        invariant
            i <= v.len() == start.len(),
            point_within(player, COORD_LIMIT),
            live_enemies_bounded(start),
            forall|t: int| 0 <= t < i ==> v@[t] == after_body_contact(start[t], player),
            forall|t: int| i <= t < v.len() ==> v@[t] == start[t],
            live_enemies_bounded(v@),
            hit == exists|j: int| 0 <= j < i && body_hits_player(start[j], player),
        decreases start.len() - i,
    {
        let e = v[i];
        if e.alive && is_near(player, e.pos, HIT_RADIUS) {
            v.set(i, Enemy { alive: false, ..e });
            hit = true;
        }
        i += 1;
    }
    assert(v@ =~= start.map_values(|e: Enemy| after_body_contact(e, player)));
    hit
}

/// Removes the power-ups the player touches and applies their effects in order.
pub fn collect_power_ups(v: &mut Vec<PowerUp>, player: Point, health: &mut i64, tier: &mut u32)
    requires
        live_power_ups_bounded(old(v)@),
        point_within(player, COORD_LIMIT),
        0 <= *old(health) <= MAX_HEALTH,
        1 <= *old(tier) <= MAX_TIER,
    ensures
        final(v)@ == old(v)@.map_values(|p: PowerUp| after_pickup(p, player)),
        (*final(health) as int, *final(tier) as int) == pickup_effects(
            old(v)@,
            player,
            *old(health) as int,
            *old(tier) as int,
        ),
        0 <= *final(health) <= MAX_HEALTH,
        1 <= *final(tier) <= MAX_TIER,
        live_power_ups_bounded(final(v)@),
{
    let ghost start = v@;
    let ghost h0 = *health as int;
    let ghost t0 = *tier as int;
    let mut i: usize = 0;
    while i < v.len()
        invariant
            i <= v.len() == start.len(),
            point_within(player, COORD_LIMIT),
            live_power_ups_bounded(start),
            forall|t: int| 0 <= t < i ==> v@[t] == after_pickup(start[t], player),
            forall|t: int| i <= t < v.len() ==> v@[t] == start[t],
            live_power_ups_bounded(v@),
            (*health as int, *tier as int) == pickup_effects(start.take(i as int), player, h0, t0),
            0 <= *health <= MAX_HEALTH,
            1 <= *tier <= MAX_TIER,
        decreases start.len() - i,
    {
        let p = v[i];
        assert(start.take(i + 1).drop_last() =~= start.take(i as int));
        assert(start.take(i + 1).last() == p);
        if p.alive && is_near(player, p.pos, HIT_RADIUS) {
            v.set(i, PowerUp { alive: false, ..p });
            match p.kind {
                PowerKind::Health => {
                    if *health < MAX_HEALTH as i64 {
                        *health = *health + 1;
                    }
                },
                PowerKind::WeaponUpgrade => {
                    if *tier < MAX_TIER {
                        *tier = *tier + 1;
                    }
                },
            }
        }
        i += 1;
    }
    assert(start.take(start.len() as int) =~= start);
    assert(v@ =~= start.map_values(|p: PowerUp| after_pickup(p, player)));
}

/// A tank starts with health 3: a bullet that keeps touching it destroys it on the
/// second hit when empowered and on the third when normal; every earlier hit leaves
/// it alive, and the destroying hit is worth 30 points.
pub proof fn lemma_tank_hits(b: Bullet, e: Enemy)
    requires
        e.alive,
        e.kind == EnemyKind::Tank,
        e.health == 3,
        near(b.pos, e.pos, HIT_RADIUS as int),
    ensures
        b.kind == BulletKind::Empowered ==> {
            &&& strike(b, e).alive
            &&& kills(b, strike(b, e))
            &&& !strike(b, strike(b, e)).alive
        },
        b.kind == BulletKind::Normal ==> {
            &&& strike(b, e).alive
            &&& strike(b, strike(b, e)).alive
            &&& kills(b, strike(b, strike(b, e)))
            &&& !strike(b, strike(b, strike(b, e))).alive
        },
        kill_points(e.kind) == 30,
{
}

} // verus!
