//! The persisted documents: settings and the single game save.
use vstd::prelude::*;
use crate::entity::{Bullet, BULLET_COORD_LIMIT, COORD_LIMIT, Enemy, HEALTH_LIMIT, Point, PowerUp, SPEED_LIMIT, live_bullets_bounded, live_enemies_bounded, live_power_ups_bounded, point_within};
use crate::rules::{MAX_DIFFICULTY, MAX_LEVEL, MIN_DIFFICULTY};
use crate::world::{World, WorldModel, is_live_bullet, is_live_enemy, is_live_power_up, retain_live_bullets, retain_live_enemies, retain_live_power_ups};

verus! {

/// Settings kept between runs.
#[derive(Clone, Copy, Debug, PartialEq, Eq, Structural)]
pub struct Settings {
    /// Difficulty multiplier in tenths; the menu keeps it at 0.5 or more.
    pub difficulty: i32,
    /// Sound volume in tenths; the menu keeps it between 0 and 10.
    pub sound_volume: i32,
    pub high_score: i64,
}

/// Loudest sound volume, in tenths.
pub const MAX_VOLUME: i32 = 10;

pub open spec fn default_settings() -> Settings {
    Settings { difficulty: 10, sound_volume: 5, high_score: 0 }
}

impl Default for Settings {
    /// Difficulty 1.0, volume 0.5, no high score.
    fn default() -> (r: Settings)
        ensures
            r == default_settings(),
    {
        Settings { difficulty: 10, sound_volume: 5, high_score: 0 }
    }
}

impl Settings {
    /// The settings that were read, or the defaults when none could be read.
    pub fn loaded_or_default(loaded: Option<Settings>) -> (r: Settings)
        ensures
            r == match loaded {
                Some(s) => s,
                None => default_settings(),
            },
    {
        match loaded {
            Some(s) => s,
            None => Settings { difficulty: 10, sound_volume: 5, high_score: 0 },
        }
    }

    /// Raises the high score to `score` if it beats it; says whether it did.
    pub fn record_score(&mut self, score: i64) -> (improved: bool)
        ensures
            improved == (score > old(self).high_score),
            final(self).high_score == if improved {
                score
            } else {
                old(self).high_score
            },
            final(self).difficulty == old(self).difficulty,
            final(self).sound_volume == old(self).sound_volume,
    {
        if score > self.high_score {
            self.high_score = score;
            true
        } else {
            false
        }
    }

    /// One tenth more difficulty, up to the highest.
    pub fn raise_difficulty(&mut self)
        ensures
            final(self).difficulty == if old(self).difficulty < MAX_DIFFICULTY {
                old(self).difficulty + 1
            } else {
                old(self).difficulty as int
            },
            final(self).sound_volume == old(self).sound_volume,
            final(self).high_score == old(self).high_score,
    {
        if self.difficulty < MAX_DIFFICULTY as i32 {
            self.difficulty = self.difficulty + 1;
        }
    }

    /// One tenth less difficulty, never below 0.5.
    pub fn lower_difficulty(&mut self)
        ensures
            final(self).difficulty == if old(self).difficulty > MIN_DIFFICULTY + 1 {
                old(self).difficulty - 1
            } else {
                MIN_DIFFICULTY as int
            },
            final(self).sound_volume == old(self).sound_volume,
            final(self).high_score == old(self).high_score,
    {
        if self.difficulty > MIN_DIFFICULTY as i32 + 1 {
            self.difficulty = self.difficulty - 1;
        } else {
            self.difficulty = MIN_DIFFICULTY as i32;
        }
    }

    /// One tenth more volume, at most 1.0.
    pub fn raise_volume(&mut self)
        ensures
            final(self).sound_volume == if old(self).sound_volume + 1 < MAX_VOLUME {
                old(self).sound_volume + 1
            } else {
                MAX_VOLUME as int
            },
            final(self).difficulty == old(self).difficulty,
            final(self).high_score == old(self).high_score,
    {
        if self.sound_volume < MAX_VOLUME - 1 {
            self.sound_volume = self.sound_volume + 1;
        } else {
            self.sound_volume = MAX_VOLUME;
        }
    }

    /// One tenth less volume, never below 0.
    pub fn lower_volume(&mut self)
        ensures
            final(self).sound_volume == if old(self).sound_volume > 0 {
                old(self).sound_volume - 1
            } else {
                0
            },
            final(self).difficulty == old(self).difficulty,
            final(self).high_score == old(self).high_score,
    {
        if self.sound_volume > 0 {
            self.sound_volume = self.sound_volume - 1;
        } else {
            self.sound_volume = 0;
        }
    }
}

/// A saved game.
pub struct GameSave {
    pub score: i64,
    pub player_pos: Point,
    /// Difficulty in tenths.
    pub difficulty: u32,
    pub enemies: Vec<Enemy>,
    pub bullets: Vec<Bullet>,
    pub enemy_bullets: Vec<Bullet>,
    pub power_ups: Vec<PowerUp>,
    pub player_health: i64,
    pub level: u64,
    pub shot_level: u32,
}

/// The mathematical value of a [`GameSave`].
pub struct SaveModel {
    pub score: int,
    pub player_pos: Point,
    pub difficulty: int,
    pub enemies: Seq<Enemy>,
    pub bullets: Seq<Bullet>,
    pub enemy_bullets: Seq<Bullet>,
    pub power_ups: Seq<PowerUp>,
    pub player_health: int,
    pub level: int,
    pub shot_level: int,
}

impl View for GameSave {
    type V = SaveModel;

    open spec fn view(&self) -> SaveModel {
        SaveModel {
            score: self.score as int,
            player_pos: self.player_pos,
            difficulty: self.difficulty as int,
            enemies: self.enemies@,
            bullets: self.bullets@,
            enemy_bullets: self.enemy_bullets@,
            power_ups: self.power_ups@,
            player_health: self.player_health as int,
            level: self.level as int,
            shot_level: self.shot_level as int,
        }
    }
}

/// What a save records of a world: everything but the two timers.
pub open spec fn save_of(m: WorldModel) -> SaveModel {
    SaveModel {
        score: m.score,
        player_pos: m.player,
        difficulty: m.difficulty,
        enemies: m.enemies,
        bullets: m.bullets,
        enemy_bullets: m.enemy_bullets,
        power_ups: m.power_ups,
        player_health: m.health,
        level: m.level,
        shot_level: m.tier,
    }
}

/// A save can be loaded when every value of a live entity, the level, the difficulty
/// and the player's position lie within the simulation's ranges. Score, health and
/// weapon tier are taken as they are.
pub open spec fn loadable(s: SaveModel) -> bool {
    &&& s.level <= MAX_LEVEL
    &&& s.difficulty <= MAX_DIFFICULTY
    &&& point_within(s.player_pos, COORD_LIMIT)
    &&& live_enemies_bounded(s.enemies)
    &&& live_bullets_bounded(s.bullets)
    &&& live_bullets_bounded(s.enemy_bullets)
    &&& live_power_ups_bounded(s.power_ups)
}

/// The world a loadable save gives: every value as the save holds it, dead entities
/// dropped, both timers restarted at `now`.
pub open spec fn loaded(s: SaveModel, now: int) -> WorldModel {
    WorldModel {
        player: s.player_pos,
        health: s.player_health,
        tier: s.shot_level,
        score: s.score,
        level: s.level,
        difficulty: s.difficulty,
        enemies: s.enemies.filter(|e: Enemy| is_live_enemy(e)),
        bullets: s.bullets.filter(|b: Bullet| is_live_bullet(b)),
        enemy_bullets: s.enemy_bullets.filter(|b: Bullet| is_live_bullet(b)),
        power_ups: s.power_ups.filter(|p: PowerUp| is_live_power_up(p)),
        last_shot: now,
        last_power_up: now,
    }
}

fn enemies_in_range(v: &Vec<Enemy>) -> (r: bool)
    ensures
        r == live_enemies_bounded(v@),
{
    let mut i: usize = 0;
    while i < v.len()
        invariant
            i <= v.len(),
            forall|t: int| 0 <= t < i && (#[trigger] v@[t]).alive ==> v@[t].bounded(),
        decreases v.len() - i,
    {
        let e = v[i];
        if e.alive && !(-COORD_LIMIT <= e.pos.x && e.pos.x <= COORD_LIMIT && -COORD_LIMIT
            <= e.pos.y && e.pos.y <= COORD_LIMIT && 0 <= e.speed && e.speed
            <= SPEED_LIMIT && -HEALTH_LIMIT <= e.health && e.health
            <= HEALTH_LIMIT) {
            assert(!v@[i as int].bounded());
            return false;
        }
        i += 1;
    }
    true
}

fn bullets_in_range(v: &Vec<Bullet>) -> (r: bool)
    ensures
        r == live_bullets_bounded(v@),
{
    let lim = BULLET_COORD_LIMIT;
    let sl = SPEED_LIMIT;
    let mut i: usize = 0;
    while i < v.len()
        invariant
            i <= v.len(),
            lim == BULLET_COORD_LIMIT,
            sl == SPEED_LIMIT,
            forall|t: int| 0 <= t < i && (#[trigger] v@[t]).alive ==> v@[t].bounded(),
        decreases v.len() - i,
    {
        let b = v[i];
        if b.alive && !(-lim <= b.pos.x && b.pos.x <= lim && -lim <= b.pos.y && b.pos.y <= lim
            && -sl <= b.vel.x && b.vel.x <= sl && -sl <= b.vel.y && b.vel.y <= sl) {
            assert(!v@[i as int].bounded());
            return false;
        }
        i += 1;
    }
    true
}

fn power_ups_in_range(v: &Vec<PowerUp>) -> (r: bool)
    ensures
        r == live_power_ups_bounded(v@),
{
    let mut i: usize = 0;
    while i < v.len()
        invariant
            i <= v.len(),
            forall|t: int| 0 <= t < i && (#[trigger] v@[t]).alive ==> v@[t].bounded(),
        decreases v.len() - i,
    {
        let p = v[i];
        if p.alive && !(-COORD_LIMIT <= p.pos.x && p.pos.x <= COORD_LIMIT && -COORD_LIMIT
            <= p.pos.y && p.pos.y <= COORD_LIMIT && 0 <= p.speed && p.speed
            <= SPEED_LIMIT) {
            assert(!v@[i as int].bounded());
            return false;
        }
        i += 1;
    }
    true
}

fn copy_enemies(v: &Vec<Enemy>) -> (r: Vec<Enemy>)
    ensures
        r@ == v@,
{
    let mut r: Vec<Enemy> = Vec::new();
    let mut i: usize = 0;
    while i < v.len()
        invariant
            i <= v.len(),
            r@ == v@.take(i as int),
        decreases v.len() - i,
    {
        r.push(v[i]);
        assert(v@.take(i + 1) =~= v@.take(i as int).push(v@[i as int]));
        i += 1;
    }
    assert(v@.take(v.len() as int) =~= v@);
    r
}

fn copy_bullets(v: &Vec<Bullet>) -> (r: Vec<Bullet>)
    ensures
        r@ == v@,
{
    let mut r: Vec<Bullet> = Vec::new();
    let mut i: usize = 0;
    while i < v.len()
        invariant
            i <= v.len(),
            r@ == v@.take(i as int),
        decreases v.len() - i,
    {
        r.push(v[i]);
        assert(v@.take(i + 1) =~= v@.take(i as int).push(v@[i as int]));
        i += 1;
    }
    assert(v@.take(v.len() as int) =~= v@);
    r
}

fn copy_power_ups(v: &Vec<PowerUp>) -> (r: Vec<PowerUp>)
    ensures
        r@ == v@,
{
    let mut r: Vec<PowerUp> = Vec::new();
    let mut i: usize = 0;
    while i < v.len()
        invariant
            i <= v.len(),
            r@ == v@.take(i as int),
        decreases v.len() - i,
    {
        r.push(v[i]);
        assert(v@.take(i + 1) =~= v@.take(i as int).push(v@[i as int]));
        i += 1;
    }
    assert(v@.take(v.len() as int) =~= v@);
    r
}

impl World {
    /// The save that records this world.
    pub fn to_save(&self) -> (s: GameSave)
        ensures
            s@ == save_of(self@),
    {
        GameSave {
            score: self.score,
            player_pos: self.player,
            difficulty: self.difficulty,
            enemies: copy_enemies(&self.enemies),
            bullets: copy_bullets(&self.bullets),
            enemy_bullets: copy_bullets(&self.enemy_bullets),
            power_ups: copy_power_ups(&self.power_ups),
            player_health: self.health,
            level: self.level,
            shot_level: self.tier,
        }
    }

    /// The world a save records, or `None` when it holds a value out of range.
    pub fn from_save(s: &GameSave, now: u64) -> (r: Option<World>)
        ensures
            r is Some <==> loadable(s@),
            r matches Some(w) ==> w@ == loaded(s@, now as int) && w@.wf(),
    {
        if !(s.level <= MAX_LEVEL && s.difficulty <= MAX_DIFFICULTY && -COORD_LIMIT
            <= s.player_pos.x && s.player_pos.x <= COORD_LIMIT && -COORD_LIMIT <= s.player_pos.y
            && s.player_pos.y <= COORD_LIMIT) {
            return None;
        }
        if !enemies_in_range(&s.enemies) || !bullets_in_range(&s.bullets) || !bullets_in_range(
            &s.enemy_bullets,
        ) || !power_ups_in_range(&s.power_ups) {
            return None;
        }
        Some(
            World {
                player: s.player_pos,
                health: s.player_health,
                tier: s.shot_level,
                score: s.score,
                level: s.level,
                difficulty: s.difficulty,
                enemies: retain_live_enemies(&s.enemies),
                bullets: retain_live_bullets(&s.bullets),
                enemy_bullets: retain_live_bullets(&s.enemy_bullets),
                power_ups: retain_live_power_ups(&s.power_ups),
                last_shot: now,
                last_power_up: now,
            },
        )
    }
}

proof fn lemma_filter_keeps_all<A>(s: Seq<A>, pred: spec_fn(A) -> bool)
    requires
        forall|i: int| 0 <= i < s.len() ==> pred(#[trigger] s[i]),
    ensures
        s.filter(pred) == s,
    decreases s.len(),
{
    reveal(Seq::filter);
    if s.len() > 0 {
        assert forall|i: int| 0 <= i < s.drop_last().len() implies pred(
            #[trigger] s.drop_last()[i],
        ) by {
            assert(s.drop_last()[i] == s[i]);
        }
        lemma_filter_keeps_all(s.drop_last(), pred);
        assert(pred(s[s.len() - 1]));
        assert(s.drop_last().push(s.last()) =~= s);
    }
}

/// Saving a well-formed world and loading the save gives the same world back, field
/// for field (score, health, level, tier, every collection), with only the two timers
/// restarted at the time of loading.
pub proof fn lemma_save_round_trip(m: WorldModel, now: int)
    requires
        m.wf(),
    ensures
        loadable(save_of(m)),
        loaded(save_of(m), now) == (WorldModel { last_shot: now, last_power_up: now, ..m }),
{
    lemma_filter_keeps_all(m.enemies, |e: Enemy| is_live_enemy(e));
    lemma_filter_keeps_all(m.bullets, |b: Bullet| is_live_bullet(b));
    lemma_filter_keeps_all(m.enemy_bullets, |b: Bullet| is_live_bullet(b));
    lemma_filter_keeps_all(m.power_ups, |p: PowerUp| is_live_power_up(p));
}

} // verus!
