//! Player control, firing, and the motion of every entity along its velocity.
use vstd::prelude::*;
use crate::entity::{BULLET_COORD_LIMIT, Bullet, BulletKind, COORD_LIMIT, Enemy, EnemyKind, Point, PowerUp, SPEED_LIMIT, live_bullets_bounded, live_enemies_bounded, live_power_ups_bounded, point_within, within};
use crate::geometry::{aim, aim_spec, clamp};
use crate::rules::{BULLET_SPEED, DT_LIMIT, FAN_SPACING, FIRE_COOLDOWN_MS, MAX_DIFFICULTY, MAX_LEVEL, MAX_TIER, MUZZLE_OFFSET, PLAYER_SIZE, PLAYER_SPEED, enemy_bullet_speed, enemy_bullet_speed_of, shooter_cooldown, shooter_cooldown_of};
use crate::world::FrameInput;

verus! {

/// The player moves 300 pixels per second along each requested direction and
/// stays fully inside the playfield.
pub open spec fn moved_player(p: Point, inp: FrameInput) -> Point {
    let d = PLAYER_SPEED * inp.dt;
    let x = p.x + (if inp.right { d } else { 0 }) - (if inp.left { d } else { 0 });
    let y = p.y + (if inp.down { d } else { 0 }) - (if inp.up { d } else { 0 });
    Point {
        x: clamp(x, 0, inp.width - PLAYER_SIZE) as i64,
        y: clamp(y, 0, inp.height - PLAYER_SIZE) as i64,
    }
}

fn clamp_coord(v: i64, lo: i64, hi: i64) -> (r: i64)
    requires
        lo <= hi,
    ensures
        r == clamp(v as int, lo as int, hi as int),
{
    if v < lo {
        lo
    } else if v > hi {
        hi
    } else {
        v
    }
}

/// Moves the player by the frame's input and keeps it inside the playfield.
pub fn move_player(p: Point, inp: FrameInput) -> (r: Point)
    requires
        point_within(p, COORD_LIMIT),
        inp.valid(),
    ensures
        r == moved_player(p, inp),
        0 <= r.x <= inp.width - PLAYER_SIZE,
        0 <= r.y <= inp.height - PLAYER_SIZE,
{
    let d: i64 = PLAYER_SPEED * inp.dt as i64;
    let mut x: i64 = p.x;
    let mut y: i64 = p.y;
    if inp.right {
        x = x + d;
    }
    if inp.left {
        x = x - d;
    }
    if inp.down {
        y = y + d;
    }
    if inp.up {
        y = y - d;
    }
    Point {
        x: clamp_coord(x, 0, inp.width - PLAYER_SIZE),
        y: clamp_coord(y, 0, inp.height - PLAYER_SIZE),
    }
}

/// The player fires when asked to and more than the fire cooldown has passed.
pub open spec fn fires(inp: FrameInput, last_shot: int) -> bool {
    inp.fire && inp.now - last_shot > FIRE_COOLDOWN_MS
}

/// Bullet `i` of a volley of `tier` bullets: a fan spaced 10 pixels apart, centred
/// on the player, flying straight up; every bullet is empowered once the tier exceeds 1.
pub open spec fn volley_bullet(p: Point, tier: int, i: int) -> Bullet {
    Bullet {
        pos: Point { x: (p.x - (tier - 1) * (FAN_SPACING / 2) + i * FAN_SPACING) as i64, y: p.y },
        vel: Point { x: 0, y: (-BULLET_SPEED) as i64 },
        alive: true,
        kind: if tier > 1 {
            BulletKind::Empowered
        } else {
            BulletKind::Normal
        },
    }
}

pub open spec fn volley(p: Point, tier: int) -> Seq<Bullet> {
    Seq::new(tier as nat, |i: int| volley_bullet(p, tier, i))
}

/// Appends a volley of `tier` bullets fired from `p`.
pub fn fire_volley(bullets: &mut Vec<Bullet>, p: Point, tier: u32)
    requires
        point_within(p, COORD_LIMIT),
        1 <= tier <= MAX_TIER,
        live_bullets_bounded(old(bullets)@),
    ensures
        final(bullets)@ == old(bullets)@ + volley(p, tier as int),
        live_bullets_bounded(final(bullets)@),
{
    let ghost start = bullets@;
    let kind = if tier > 1 {
        BulletKind::Empowered
    } else {
        BulletKind::Normal
    };
    assert(FAN_SPACING / 2 == 5_000_000);
    assert(0 <= (tier - 1) * (FAN_SPACING / 2) <= 20_000_000) by (nonlinear_arith)
        requires
            1 <= tier <= 5,
            FAN_SPACING / 2 == 5_000_000,
    ;
    let left: i64 = p.x - (tier as i64 - 1) * (FAN_SPACING / 2);
    let mut i: u32 = 0;
    while i < tier
        invariant
            i <= tier,
            1 <= tier <= MAX_TIER,
            point_within(p, COORD_LIMIT),
            left == p.x - (tier - 1) * (FAN_SPACING / 2),
            p.x - 20_000_000 <= left <= p.x,
            kind == volley_bullet(p, tier as int, 0).kind,
            bullets@ == start + volley(p, tier as int).take(i as int),
            live_bullets_bounded(bullets@),
            live_bullets_bounded(start),
        decreases tier - i,
    {
        assert(0 <= i * FAN_SPACING <= 50_000_000) by (nonlinear_arith)
            requires
                i < 5,
                FAN_SPACING == 10_000_000,
        ;
        let b = Bullet {
            pos: Point { x: left + i as i64 * FAN_SPACING, y: p.y },
            vel: Point { x: 0, y: -BULLET_SPEED },
            alive: true,
            kind,
        };
        assert(b == volley_bullet(p, tier as int, i as int));
        assert(b.bounded()) by {
            assert(COORD_LIMIT == 0x100_0000_0000);
            assert(BULLET_COORD_LIMIT == 0x200_0000_0000);
            assert(SPEED_LIMIT == 0x400_0000_0000);
            assert(point_within(b.vel, SPEED_LIMIT));
            assert(within(b.pos.y, BULLET_COORD_LIMIT));
            assert(within(b.pos.x, BULLET_COORD_LIMIT));
        }
        bullets.push(b);
        assert(volley(p, tier as int).take(i + 1) =~= volley(p, tier as int).take(i as int).push(b));
        i += 1;
    }
    assert(volley(p, tier as int).take(tier as int) =~= volley(p, tier as int));
}

/// A live bullet travels `vel × dt` and dies once it leaves the playfield on any side.
pub open spec fn moved_bullet(b: Bullet, dt: int, w: int, h: int) -> Bullet {
    if !b.alive {
        b
    } else {
        let x = b.pos.x + b.vel.x * dt;
        let y = b.pos.y + b.vel.y * dt;
        Bullet { pos: Point { x: x as i64, y: y as i64 }, alive: 0 <= x <= w && 0 <= y <= h, ..b }
    }
}

proof fn lemma_travel(v: int, dt: int)
    requires
        -SPEED_LIMIT <= v <= SPEED_LIMIT,
        0 <= dt <= DT_LIMIT,
    ensures
        -0x400_0000_0000_0000 <= v * dt <= 0x400_0000_0000_0000,
{
    assert(-0x400_0000_0000_0000 <= v * dt <= 0x400_0000_0000_0000) by (nonlinear_arith)
        requires
            -0x400_0000_0000 <= v <= 0x400_0000_0000,
            0 <= dt <= 0x1_0000,
    ;
}

/// Moves every live bullet and marks those that left the playfield.
pub fn move_bullets(v: &mut Vec<Bullet>, dt: u64, w: i64, h: i64)
    requires
        live_bullets_bounded(old(v)@),
        dt <= DT_LIMIT,
        0 < w <= COORD_LIMIT,
        0 < h <= COORD_LIMIT,
    ensures
        final(v)@ == old(v)@.map_values(|b: Bullet| moved_bullet(b, dt as int, w as int, h as int)),
        live_bullets_bounded(final(v)@),
{
    let ghost start = v@;
    let mut i: usize = 0;
    while i < v.len()
        invariant
            i <= v.len() == start.len(),
            dt <= DT_LIMIT,
            0 < w <= COORD_LIMIT,
            0 < h <= COORD_LIMIT,
            live_bullets_bounded(start),
            forall|t: int| 0 <= t < i ==> v@[t] == moved_bullet(start[t], dt as int, w as int, h as int),
            forall|t: int| i <= t < v.len() ==> v@[t] == start[t],
            live_bullets_bounded(v@),
        decreases start.len() - i,
    {
        let b = v[i];
        if b.alive {
            proof {
                lemma_travel(b.vel.x as int, dt as int);
                lemma_travel(b.vel.y as int, dt as int);
            }
            let x: i64 = b.pos.x + b.vel.x * dt as i64;
            let y: i64 = b.pos.y + b.vel.y * dt as i64;
            let nb = Bullet { pos: Point { x, y }, alive: 0 <= x && x <= w && 0 <= y && y <= h, ..b };
            v.set(i, nb);
        }
        i += 1;
    }
    assert(v@ =~= start.map_values(|b: Bullet| moved_bullet(b, dt as int, w as int, h as int)));
}

/// A live power-up falls `speed × dt` and dies once it passes the bottom edge.
pub open spec fn moved_power_up(p: PowerUp, dt: int, h: int) -> PowerUp {
    if !p.alive {
        p
    } else {
        let y = p.pos.y + p.speed * dt;
        PowerUp { pos: Point { x: p.pos.x, y: y as i64 }, alive: y <= h, ..p }
    }
}

/// Moves every live power-up down and marks those past the bottom edge.
pub fn move_power_ups(v: &mut Vec<PowerUp>, dt: u64, h: i64)
    requires
        live_power_ups_bounded(old(v)@),
        dt <= DT_LIMIT,
        0 < h <= COORD_LIMIT,
    ensures
        final(v)@ == old(v)@.map_values(|p: PowerUp| moved_power_up(p, dt as int, h as int)),
        live_power_ups_bounded(final(v)@),
{
    let ghost start = v@;
    let mut i: usize = 0;
    while i < v.len()
        invariant
            i <= v.len() == start.len(),
            dt <= DT_LIMIT,
            0 < h <= COORD_LIMIT,
            live_power_ups_bounded(start),
            forall|t: int| 0 <= t < i ==> v@[t] == moved_power_up(start[t], dt as int, h as int),
            forall|t: int| i <= t < v.len() ==> v@[t] == start[t],
            live_power_ups_bounded(v@),
        decreases start.len() - i,
    {
        let p = v[i];
        if p.alive {
            proof {
                lemma_travel(p.speed as int, dt as int);
            }
            let y: i64 = p.pos.y + p.speed * dt as i64;
            let np = PowerUp { pos: Point { x: p.pos.x, y }, alive: y <= h, ..p };
            v.set(i, np);
        }
        i += 1;
    }
    assert(v@ =~= start.map_values(|p: PowerUp| moved_power_up(p, dt as int, h as int)));
}

/// A live enemy falls `speed × dt` and dies once it passes the bottom edge.
pub open spec fn moved_enemy(e: Enemy, dt: int, h: int) -> Enemy {
    if !e.alive {
        e
    } else {
        let y = e.pos.y + e.speed * dt;
        Enemy { pos: Point { x: e.pos.x, y: y as i64 }, alive: y <= h, ..e }
    }
}

/// A live shooter whose cooldown has run out fires.
pub open spec fn shooter_ready(e: Enemy, now: int, level: int) -> bool {
    e.alive && match e.kind {
        EnemyKind::Shooter { last_shot } => now - last_shot > shooter_cooldown_of(level),
        _ => false,
    }
}

/// The enemy after a frame's motion, with its cooldown restarted if it fired.
pub open spec fn advanced_enemy(e: Enemy, inp: FrameInput, level: int) -> Enemy {
    let m = moved_enemy(e, inp.dt as int, inp.height as int);
    if shooter_ready(m, inp.now as int, level) {
        Enemy { kind: EnemyKind::Shooter { last_shot: inp.now }, ..m }
    } else {
        m
    }
}

/// The bullet a shooter fires: from its muzzle, aimed at the player.
pub open spec fn enemy_shot(e: Enemy, player: Point, difficulty: int, level: int) -> Bullet {
    Bullet {
        pos: Point { x: (e.pos.x + MUZZLE_OFFSET) as i64, y: (e.pos.y + MUZZLE_OFFSET) as i64 },
        vel: aim_spec(
            player.x - e.pos.x,
            player.y - e.pos.y,
            enemy_bullet_speed_of(difficulty, level),
        ),
        alive: true,
        kind: BulletKind::Normal,
    }
}

/// The bullets fired by the enemies of `es` in one frame, in the enemies' order.
pub open spec fn shots(
    es: Seq<Enemy>,
    inp: FrameInput,
    player: Point,
    difficulty: int,
    level: int,
) -> Seq<Bullet>
    decreases es.len(),
{
    if es.len() == 0 {
        Seq::empty()
    } else {
        let prev = shots(es.drop_last(), inp, player, difficulty, level);
        let m = moved_enemy(es.last(), inp.dt as int, inp.height as int);
        if shooter_ready(m, inp.now as int, level) {
            prev.push(enemy_shot(m, player, difficulty, level))
        } else {
            prev
        }
    }
}

fn shooter_fires(e: &Enemy, now: u64, level: u64) -> (r: bool)
    ensures
        r == shooter_ready(*e, now as int, level as int),
{
    if !e.alive {
        return false;
    }
    match e.kind {
        EnemyKind::Shooter { last_shot } => now >= last_shot && now - last_shot > shooter_cooldown(level),
        _ => false,
    }
}

/// Moves every live enemy down, marks those past the bottom edge, and lets ready shooters fire.
pub fn advance_enemies(
    enemies: &mut Vec<Enemy>,
    enemy_bullets: &mut Vec<Bullet>,
    inp: FrameInput,
    player: Point,
    difficulty: u32,
    level: u64,
)
    requires
        live_enemies_bounded(old(enemies)@),
        live_bullets_bounded(old(enemy_bullets)@),
        inp.valid(),
        point_within(player, COORD_LIMIT),
        difficulty <= MAX_DIFFICULTY,
        level <= MAX_LEVEL,
    ensures
        final(enemies)@ == old(enemies)@.map_values(|e: Enemy| advanced_enemy(e, inp, level as int)),
        final(enemy_bullets)@ == old(enemy_bullets)@ + shots(
            old(enemies)@,
            inp,
            player,
            difficulty as int,
            level as int,
        ),
        live_enemies_bounded(final(enemies)@),
        live_bullets_bounded(final(enemy_bullets)@),
{
    let ghost start = enemies@;
    let ghost start_bullets = enemy_bullets@;
    let speed = enemy_bullet_speed(difficulty, level);
    let mut i: usize = 0;
    while i < enemies.len()
        invariant
            i <= enemies.len() == start.len(),
            inp.valid(),
            point_within(player, COORD_LIMIT),
            speed == enemy_bullet_speed_of(difficulty as int, level as int),
            0 <= speed <= 2_100_000_000_000,
            live_enemies_bounded(start),
            forall|t: int| 0 <= t < i ==> enemies@[t] == advanced_enemy(start[t], inp, level as int),
            forall|t: int| i <= t < enemies.len() ==> enemies@[t] == start[t],
            live_enemies_bounded(enemies@),
            enemy_bullets@ == start_bullets + shots(
                start.take(i as int),
                inp,
                player,
                difficulty as int,
                level as int,
            ),
            live_bullets_bounded(enemy_bullets@),
        decreases start.len() - i,
    {
        let e = enemies[i];
        assert(start.take(i + 1).drop_last() =~= start.take(i as int));
        assert(start.take(i + 1).last() == e);
        if e.alive {
            proof {
                lemma_travel(e.speed as int, inp.dt as int);
            }
            let y: i64 = e.pos.y + e.speed * inp.dt as i64;
            let mut m = Enemy { pos: Point { x: e.pos.x, y }, alive: y <= inp.height, ..e };
            assert(m == moved_enemy(e, inp.dt as int, inp.height as int));
            if shooter_fires(&m, inp.now, level) {
                let vel = aim(player.x - m.pos.x, player.y - m.pos.y, speed);
                let shot = Bullet {
                    pos: Point { x: m.pos.x + MUZZLE_OFFSET, y: m.pos.y + MUZZLE_OFFSET },
                    vel,
                    alive: true,
                    kind: BulletKind::Normal,
                };
                assert(shot == enemy_shot(m, player, difficulty as int, level as int));
                enemy_bullets.push(shot);
                m = Enemy { kind: EnemyKind::Shooter { last_shot: inp.now }, ..m };
            }
            enemies.set(i, m);
        }
        i += 1;
    }
    assert(start.take(start.len() as int) =~= start);
    assert(enemies@ =~= start.map_values(|e: Enemy| advanced_enemy(e, inp, level as int)));
}

} // verus!
