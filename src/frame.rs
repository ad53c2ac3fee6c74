//! One frame of the simulation, from input to compaction.
use vstd::prelude::*;
use crate::collide::{after_body_contact, after_pickup, after_shot_contact, any_body_hits, any_shot_hits, collect_power_ups, hit_pass, pickup_effects, resolve_body_contacts, resolve_bullet_hits, resolve_shots_at_player, wounded};
use crate::entity::{Bullet, Enemy, PowerUp};
use crate::motion::{advance_enemies, advanced_enemy, fire_volley, fires, move_bullets, move_player, move_power_ups, moved_bullet, moved_player, moved_power_up, shots, volley};
use crate::geometry::clamp;
use crate::rules::{lemma_level_progression, lemma_spawn_is_threshold, spawn_threshold, ROLL_RANGE, MAX_HEALTH, MAX_TIER, FIRE_COOLDOWN_MS, POWER_UP_CHANCE, POWER_UP_COOLDOWN_MS, enemy_spawns, enemy_spawns_spec, level_after, level_after_spec};
use crate::spawn::{make_enemy, make_power_up, power_up_spawns, spawned_enemy, spawned_power_up};
use crate::world::{FrameInput, FrameOutcome, SpawnRolls, World, WorldModel, is_live_bullet, is_live_enemy, is_live_power_up, retain_live_bullets, retain_live_enemies, retain_live_power_ups};

verus! {

/// The enemies of a frame once its spawn decision is made: one more at the end when
/// the roll spawns an enemy.
pub open spec fn enemies_after_spawn(m: WorldModel, inp: FrameInput, r: SpawnRolls) -> Seq<Enemy> {
    if enemy_spawns_spec(r.enemy_roll as int, m.difficulty, m.level) {
        m.enemies.push(spawned_enemy(r, inp.now, m.difficulty, m.level))
    } else {
        m.enemies
    }
}

/// One frame from a world whose health and tier lie in their ranges: move the player, fire, spawn, move everything, resolve collisions in
/// the order bullets against enemies, enemy bullets against the player, enemy bodies
/// against the player, power-ups against the player; then progress the level and
/// drop every dead entity.
pub open spec fn frame_spec(m: WorldModel, inp: FrameInput, r: SpawnRolls) -> (WorldModel, FrameOutcome) {
    let dt = inp.dt as int;
    let w = inp.width as int;
    let h = inp.height as int;
    let player = moved_player(m.player, inp);
    let fired = fires(inp, m.last_shot);
    let bullets0 = if fired {
        m.bullets + volley(player, m.tier)
    } else {
        m.bullets
    };
    let last_shot = if fired {
        inp.now as int
    } else {
        m.last_shot
    };
    let enemies0 = enemies_after_spawn(m, inp, r);
    let power_up_new = power_up_spawns(r, inp.now as int, m.last_power_up);
    let power_ups0 = if power_up_new {
        m.power_ups.push(spawned_power_up(r))
    } else {
        m.power_ups
    };
    let last_power_up = if power_up_new {
        inp.now as int
    } else {
        m.last_power_up
    };
    let bullets1 = bullets0.map_values(|b: Bullet| moved_bullet(b, dt, w, h));
    let enemy_bullets1 = m.enemy_bullets.map_values(|b: Bullet| moved_bullet(b, dt, w, h)) + shots(
        enemies0,
        inp,
        player,
        m.difficulty,
        m.level,
    );
    let enemies1 = enemies0.map_values(|e: Enemy| advanced_enemy(e, inp, m.level));
    let power_ups1 = power_ups0.map_values(|p: PowerUp| moved_power_up(p, dt, h));
    let (bullets2, enemies2, score) = hit_pass(bullets1, enemies1, m.score, bullets1.len());
    let shot_hit = any_shot_hits(enemy_bullets1, player);
    let enemy_bullets2 = enemy_bullets1.map_values(|b: Bullet| after_shot_contact(b, player));
    let health1 = if shot_hit {
        wounded(m.health)
    } else {
        m.health
    };
    let body_hit = any_body_hits(enemies2, player);
    let enemies3 = enemies2.map_values(|e: Enemy| after_body_contact(e, player));
    let health2 = if body_hit {
        wounded(health1)
    } else {
        health1
    };
    let dead = (shot_hit && health1 == 0) || (body_hit && health2 == 0);
    let (health3, tier) = pickup_effects(power_ups1, player, health2, m.tier);
    let power_ups2 = power_ups1.map_values(|p: PowerUp| after_pickup(p, player));
    let next = WorldModel {
        player,
        health: health3,
        tier,
        score,
        level: level_after_spec(score, m.level),
        difficulty: m.difficulty,
        enemies: enemies3.filter(|e: Enemy| is_live_enemy(e)),
        bullets: bullets2.filter(|b: Bullet| is_live_bullet(b)),
        enemy_bullets: enemy_bullets2.filter(|b: Bullet| is_live_bullet(b)),
        power_ups: power_ups2.filter(|p: PowerUp| is_live_power_up(p)),
        last_shot,
        last_power_up,
    };
    let outcome = if dead {
        FrameOutcome::GameOver
    } else if inp.escape {
        FrameOutcome::ExitToMenu
    } else {
        FrameOutcome::Playing
    };
    (next, outcome)
}

/// The world with health clamped to `0..=MAX_HEALTH` and weapon tier to `1..=MAX_TIER`.
pub open spec fn with_vitals_in_range(m: WorldModel) -> WorldModel {
    WorldModel {
        health: clamp(m.health, 0, MAX_HEALTH as int),
        tier: clamp(m.tier, 1, MAX_TIER as int),
        ..m
    }
}

/// One frame: health and weapon tier are first brought into their ranges (a loaded
/// save may hold any value), then the frame runs as [`frame_spec`] says.
pub open spec fn step_spec(m: WorldModel, inp: FrameInput, r: SpawnRolls) -> (WorldModel, FrameOutcome) {
    frame_spec(with_vitals_in_range(m), inp, r)
}

impl World {
    /// Advances the simulation by one frame with the given random draws.
    pub fn step(&mut self, inp: FrameInput, rolls: SpawnRolls) -> (outcome: FrameOutcome)
        requires
            old(self)@.wf(),
            inp.valid(),
            rolls.valid_for(inp.width as int),
        ensures
            (final(self)@, outcome) == step_spec(old(self)@, inp, rolls),
            final(self)@.wf(),
            final(self)@.vitals_ok(),
    {
        if self.health < 0 {
            self.health = 0;
        } else if self.health > MAX_HEALTH as i64 {
            self.health = MAX_HEALTH as i64;
        }
        if self.tier < 1 {
            self.tier = 1;
        } else if self.tier > MAX_TIER {
            self.tier = MAX_TIER;
        }
        self.run_frame(inp, rolls)
    }

    fn run_frame(&mut self, inp: FrameInput, rolls: SpawnRolls) -> (outcome: FrameOutcome)
        requires
            old(self)@.wf(),
            old(self)@.vitals_ok(),
            inp.valid(),
            rolls.valid_for(inp.width as int),
        ensures
            (final(self)@, outcome) == frame_spec(old(self)@, inp, rolls),
            final(self)@.wf(),
            final(self)@.vitals_ok(),
    {
        self.player = move_player(self.player, inp);
        let player = self.player;
        if inp.fire && inp.now >= self.last_shot && inp.now - self.last_shot > FIRE_COOLDOWN_MS {
            fire_volley(&mut self.bullets, player, self.tier);
            self.last_shot = inp.now;
        }
        if enemy_spawns(rolls.enemy_roll, self.difficulty, self.level) {
            let e = make_enemy(rolls, inp.now, self.difficulty, self.level);
            self.enemies.push(e);
        }
        if inp.now >= self.last_power_up && inp.now - self.last_power_up > POWER_UP_COOLDOWN_MS
            && rolls.power_roll < POWER_UP_CHANCE {
            let p = make_power_up(rolls);
            self.power_ups.push(p);
            self.last_power_up = inp.now;
        }
        move_bullets(&mut self.bullets, inp.dt, inp.width, inp.height);
        move_bullets(&mut self.enemy_bullets, inp.dt, inp.width, inp.height);
        advance_enemies(
            &mut self.enemies,
            &mut self.enemy_bullets,
            inp,
            player,
            self.difficulty,
            self.level,
        );
        move_power_ups(&mut self.power_ups, inp.dt, inp.height);
        resolve_bullet_hits(&mut self.bullets, &mut self.enemies, &mut self.score);
        let mut dead = false;
        if resolve_shots_at_player(&mut self.enemy_bullets, player) {
            if self.health > 0 {
                self.health = self.health - 1;
            }
            dead = self.health == 0;
        }
        if resolve_body_contacts(&mut self.enemies, player) {
            if self.health > 0 {
                self.health = self.health - 1;
            }
            dead = dead || self.health == 0;
        }
        collect_power_ups(&mut self.power_ups, player, &mut self.health, &mut self.tier);
        self.level = level_after(self.score, self.level);
        self.enemies = retain_live_enemies(&self.enemies);
        self.bullets = retain_live_bullets(&self.bullets);
        self.enemy_bullets = retain_live_bullets(&self.enemy_bullets);
        self.power_ups = retain_live_power_ups(&self.power_ups);
        if dead {
            FrameOutcome::GameOver
        } else if inp.escape {
            FrameOutcome::ExitToMenu
        } else {
            FrameOutcome::Playing
        }
    }
}

/// The level moves from 1 to 2 in exactly the frame whose score, once its
/// collisions are resolved, exceeds 100; it never moves by more than one step.
pub proof fn lemma_step_level(m: WorldModel, inp: FrameInput, r: SpawnRolls)
    requires
        m.wf(),
        0 <= m.level,
    ensures
        m.level <= step_spec(m, inp, r).0.level <= m.level + 1,
        m.level == 1 ==> (step_spec(m, inp, r).0.level == 2 <==> step_spec(m, inp, r).0.score > 100),
{
    lemma_level_progression(step_spec(m, inp, r).0.score, m.level);
}

/// A frame adds exactly one enemy when its roll lies below the spawn threshold
/// (`0.02 × difficulty × (1 + level/5)` of the rolls) and none otherwise.
pub proof fn lemma_step_spawn(m: WorldModel, inp: FrameInput, r: SpawnRolls)
    requires
        r.enemy_roll < ROLL_RANGE,
        0 <= m.difficulty,
        0 <= m.level,
    ensures
        enemies_after_spawn(with_vitals_in_range(m), inp, r).len() == m.enemies.len() + if r.enemy_roll
            < spawn_threshold(m.difficulty, m.level) {
            1int
        } else {
            0int
        },
{
    lemma_spawn_is_threshold(r.enemy_roll as int, m.difficulty, m.level);
}

/// Number of rolls of `rolls` that spawn an enemy.
pub open spec fn spawn_count(rolls: Seq<u64>, difficulty: int, level: int) -> nat
    decreases rolls.len(),
{
    if rolls.len() == 0 {
        0
    } else {
        spawn_count(rolls.drop_last(), difficulty, level) + if enemy_spawns_spec(
            rolls.last() as int,
            difficulty,
            level,
        ) {
            1nat
        } else {
            0nat
        }
    }
}

/// Number of rolls of `rolls` below `t`.
pub open spec fn count_below(rolls: Seq<u64>, t: int) -> nat
    decreases rolls.len(),
{
    if rolls.len() == 0 {
        0
    } else {
        count_below(rolls.drop_last(), t) + if (rolls.last() as int) < t {
            1nat
        } else {
            0nat
        }
    }
}

/// Over the rolls of N frames at a fixed difficulty and level, the frames that spawn
/// an enemy are exactly those whose roll lies below the spawn threshold, so with
/// uniform rolls the spawn rate is `0.02 × difficulty × (1 + level/5)`.
pub proof fn lemma_spawn_count(rolls: Seq<u64>, difficulty: int, level: int)
    requires
        forall|i: int| 0 <= i < rolls.len() ==> (#[trigger] rolls[i]) < ROLL_RANGE,
        0 <= difficulty,
        0 <= level,
    ensures
        spawn_count(rolls, difficulty, level) == count_below(
            rolls,
            spawn_threshold(difficulty, level),
        ),
    decreases rolls.len(),
{
    if rolls.len() > 0 {
        let init = rolls.drop_last();
        assert forall|i: int| 0 <= i < init.len() implies (#[trigger] init[i]) < ROLL_RANGE by {
            assert(init[i] == rolls[i]);
        }
        lemma_spawn_count(init, difficulty, level);
        assert(rolls.last() == rolls[rolls.len() - 1]);
        lemma_spawn_is_threshold(rolls.last() as int, difficulty, level);
    }
}

} // verus!
