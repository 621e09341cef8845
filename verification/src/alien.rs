//! The alien state machine: dormant in the pool, active under one of three
//! movement patterns, destroyed by a player bullet or by leaving the alien
//! arena, then returned to the pool. The world owns the alien's node
//! position; each tick the library computes the new position from the one
//! the world reports, and the world performs the detach once a tick reports
//! the destruct transition.

use vstd::prelude::*;
use crate::env::{Env, AlienEnv};
use crate::scalar::{MILLI, tdiv, lemma_mul_bound, lemma_tdiv_bound};
use crate::vec3::{
    Vec3, normalize, normalize_spec, rotate_xz_vec3, rotate_xz_spec, axis_step, axis_step_spec,
    scaled_step, scaled_step_spec, COORD_CAP, SPEED_CAP, DELTA_CAP, POS_CAP,
};

verus! {

/// Base speed of a freshly created alien, five units per second.
pub const ALIEN_DEFAULT_SPEED: i64 = 5000;

/// Largest speed an alien itself can reach: the base-speed cap scaled by the
/// saturated difficulty multiplier. Alien bullets fly thirty percent faster,
/// which still fits under the movement helpers' overall speed cap.
pub const ALIEN_SPEED_CAP: i64 = 1_000_000_000_000_000;

/// Largest base speed an alien can be configured with, one thousand units
/// per second.
pub const BASE_SPEED_CAP: i64 = 1_000_000;

/// Largest timer span accepted, in thousandths of a second.
pub const SPAN_CAP: i64 = 1_000_000;

/// Shortest default fire interval, in thousandths of a second.
pub const DEFAULT_MIN_FIRE_INTERVAL: i64 = 5000;

/// Longest default fire interval, in thousandths of a second.
pub const DEFAULT_MAX_FIRE_INTERVAL: i64 = 10_000;

/// The collision layer of player bullets: the only layer whose collisions an
/// alien honours, so aliens cannot destroy one another.
pub const PLAYER_BULLET_LAYER: i64 = 4;

/// How much faster an alien's bullets fly than the alien itself, in
/// thousandths: one and three tenths.
pub const FIRE_SPEED_RATIO: i64 = 1300;

/// Largest position coordinate `fire` accepts, so that the aim vector
/// toward the player stays within the normalization helper's range.
pub const FIRE_POS_CAP: i64 = 400_000_000;

/// The heading an alien falls back to when a requested direction is
/// degenerate: straight up the arena, away from the player.
pub open spec fn default_alien_dir() -> Vec3 {
    Vec3 { x: 0, y: 0, z: -(MILLI as int) as i64 }
}

/// The movement strategy an alien is released with, dispatched each tick.
#[derive(Clone, Copy, PartialEq, Eq, Structural, Debug)]
pub enum AlienProcessPattern {
    /// Ping-pong along the horizontal axis, rebounding at the stage edges.
    Default,
    /// March straight down a fixed forward axis and leave past the arena.
    Invasion,
    /// Follow a per-instance heading, perturbed periodically, and leave past
    /// the arena.
    Dir,
}

/// What an alien emits when its fire timer lapses: a barrage request the
/// stage turns into bullets.
#[derive(Clone, Copy, PartialEq, Eq, Structural, Debug)]
pub struct FireCommand {
    /// Where the barrage originates: the alien's position.
    pub pos: Vec3,
    /// The aim direction: the alien's heading, or toward the player.
    pub dir: Vec3,
    /// The bullets' speed: faster than the alien itself.
    pub speed: i64,
    /// The barrage-pattern index, drawn uniformly over the pattern table.
    pub kind: i64,
}

pub struct Alien {
    /// Whether the alien is active in the world; a destroyed alien ignores
    /// collisions.
    pub alive: bool,
    /// Current speed, in thousandths of a unit per second; the bounce
    /// pattern flips its sign at the stage edges.
    pub speed: i64,
    /// Unit heading, in thousandths; always set through `set_dir`.
    pub direction: Vec3,
    /// The base speed restored on every reset, before difficulty scaling.
    pub setted_speed: i64,
    /// The stage boundary the bounce pattern rebounds at.
    pub env: Env,
    /// The alien arena whose exceedance self-destructs the alien.
    pub alien_env: AlienEnv,
    /// The movement strategy dispatched each tick.
    pub process_pattern: AlienProcessPattern,
    /// The wait time programmed into the world's direction-change timer, in
    /// thousandths of a second.
    pub change_dir_wait: i64,
    /// The wait time programmed into the world's fire timer, in thousandths
    /// of a second.
    pub fire_wait: i64,
    /// Shortest fire interval the world draws from, in thousandths of a
    /// second.
    pub default_min_fire_interval: i64,
    /// Longest fire interval the world draws from, in thousandths of a
    /// second.
    pub default_max_fire_interval: i64,
}

impl Alien {
    /// Every scalar stays within what the movement helpers accept.
    pub open spec fn wf(self) -> bool {
        &&& -ALIEN_SPEED_CAP <= self.speed <= ALIEN_SPEED_CAP
        &&& 0 <= self.setted_speed <= BASE_SPEED_CAP
        &&& self.direction.bounded(MILLI as int)
        &&& 0 <= self.default_min_fire_interval <= self.default_max_fire_interval <= SPAN_CAP
    }

    pub fn new() -> (r: Alien)
        ensures
            !r.alive,
            r.speed == ALIEN_DEFAULT_SPEED,
            r.direction == default_alien_dir(),
            r.setted_speed == ALIEN_DEFAULT_SPEED,
            r.process_pattern == AlienProcessPattern::Default,
            r.change_dir_wait == 0,
            r.fire_wait == 0,
            r.default_min_fire_interval == DEFAULT_MIN_FIRE_INTERVAL,
            r.default_max_fire_interval == DEFAULT_MAX_FIRE_INTERVAL,
            r.wf(),
    {
        Alien {
            alive: false,
            speed: ALIEN_DEFAULT_SPEED,
            direction: Vec3 { x: 0, y: 0, z: -MILLI },
            setted_speed: ALIEN_DEFAULT_SPEED,
            env: Env::new(),
            alien_env: AlienEnv::new(),
            process_pattern: AlienProcessPattern::Default,
            change_dir_wait: 0,
            fire_wait: 0,
            default_min_fire_interval: DEFAULT_MIN_FIRE_INTERVAL,
            default_max_fire_interval: DEFAULT_MAX_FIRE_INTERVAL,
        }
    }

    /// One-time setup once the alien enters the world: it comes alive, its
    /// configured speed becomes the base to restore on resets, both arena
    /// boundaries are cached, and both timers get an initial unscaled span
    /// (the world draws `dir_span_draw` and `fire_span_draw` from the
    /// direction-change and fire-interval ranges).
    pub fn ready(
        &mut self,
        left: i64,
        right: i64,
        up: i64,
        down: i64,
        alien_left: i64,
        alien_right: i64,
        alien_up: i64,
        alien_down: i64,
        dir_span_draw: i64,
        fire_span_draw: i64,
    )
        requires
            old(self).wf(),
            0 <= old(self).speed <= BASE_SPEED_CAP,
            left <= right,
            up <= down,
            alien_left <= alien_right,
            alien_up <= alien_down,
            0 <= dir_span_draw <= SPAN_CAP,
            0 <= fire_span_draw <= SPAN_CAP,
        ensures
            final(self).alive,
            final(self).setted_speed == old(self).speed,
            final(self).speed == old(self).speed,
            final(self).direction == old(self).direction,
            final(self).process_pattern == old(self).process_pattern,
            final(self).env.left_limit == left && final(self).env.right_limit == right,
            final(self).env.up_limit == up && final(self).env.down_limit == down,
            final(self).alien_env.left_limit == alien_left,
            final(self).alien_env.right_limit == alien_right,
            final(self).alien_env.up_limit == alien_up,
            final(self).alien_env.down_limit == alien_down,
            final(self).change_dir_wait == dir_span_draw,
            final(self).fire_wait == fire_span_draw,
            final(self).default_min_fire_interval == old(self).default_min_fire_interval,
            final(self).default_max_fire_interval == old(self).default_max_fire_interval,
            final(self).wf(),
    {
        self.alive = true;
        self.setted_speed = self.speed;
        self.env.init(left, right, up, down);
        self.alien_env.init(alien_left, alien_right, alien_up, alien_down);
        self.set_dir_change_span_random(dir_span_draw, MILLI);
        self.set_fire_span_random(fire_span_draw, MILLI);
        proof {
            assert(tdiv(dir_span_draw * (MILLI as int), MILLI as int) == dir_span_draw)
                by (nonlinear_arith)
                requires
                    dir_span_draw >= 0,
            ;
            assert(tdiv(fire_span_draw * (MILLI as int), MILLI as int) == fire_span_draw)
                by (nonlinear_arith)
                requires
                    fire_span_draw >= 0,
            ;
        }
    }

    /// Revives a pooled alien for release: alive again, at its base speed.
    pub fn reset(&mut self)
        ensures
            *final(self) == (Alien {
                alive: true,
                speed: old(self).setted_speed,
                ..*old(self)
            }),
    {
        self.alive = true;
        self.speed = self.setted_speed;
    }

    /// Scales the current speed by `times` thousandths: the difficulty
    /// multiplier applied at release.
    pub fn speed_up(&mut self, times: i64)
        requires
            0 <= times,
            0 <= old(self).speed,
            old(self).speed * times <= (MILLI as int) * (ALIEN_SPEED_CAP as int),
        ensures
            *final(self) == (Alien {
                speed: tdiv(old(self).speed * times, MILLI as int) as i64,
                ..*old(self)
            }),
            0 <= final(self).speed <= ALIEN_SPEED_CAP,
    {
        proof {
            assert(0 <= self.speed * times) by (nonlinear_arith)
                requires
                    self.speed >= 0,
                    times >= 0,
            ;
            lemma_tdiv_bound(self.speed * times, (MILLI as int) * (ALIEN_SPEED_CAP as int));
        }
        let p: i64 = self.speed * times;
        self.speed = p / MILLI;
    }

    /// The stored heading for a requested one: scaled to unit length, or the
    /// default upward heading when the request is degenerate (zero).
    pub open spec fn dir_of(dir: Vec3) -> Vec3 {
        if dir == (Vec3 { x: 0i64, y: 0i64, z: 0i64 }) {
            default_alien_dir()
        } else {
            normalize_spec(dir)
        }
    }

    /// Points the alien along `dir`, normalized; a degenerate direction is
    /// recovered locally by substituting the default upward heading.
    pub fn set_dir(&mut self, dir: Vec3)
        requires
            dir.bounded(COORD_CAP as int),
        ensures
            *final(self) == (Alien { direction: Self::dir_of(dir), ..*old(self) }),
            final(self).direction.bounded(MILLI as int),
    {
        match normalize(dir) {
            Some(u) => {
                self.direction = u;
            }
            None => {
                self.direction = Vec3 { x: 0, y: 0, z: -MILLI };
            }
        }
    }

    /// Perturbs the heading by the bounded random rotation the world drew,
    /// given as the angle's cosine and sine in thousandths. Only the
    /// directional pattern retargets; the others ignore the timer.
    pub fn change_dir_random(&mut self, c: i64, s: i64)
        requires
            old(self).wf(),
            -(MILLI as int) <= c <= MILLI as int,
            -(MILLI as int) <= s <= MILLI as int,
        ensures
            *final(self) == if old(self).process_pattern == AlienProcessPattern::Dir {
                Alien {
                    direction: Self::dir_of(
                        rotate_xz_spec(old(self).direction, c as int, s as int),
                    ),
                    ..*old(self)
                }
            } else {
                *old(self)
            },
            final(self).wf(),
    {
        if self.process_pattern != AlienProcessPattern::Dir {
            return;
        }
        let rotated = rotate_xz_vec3(self.direction, c, s);
        proof {
            crate::vec3::lemma_rotate_xz_bounded(
                old(self).direction,
                c as int,
                s as int,
                MILLI as int,
                MILLI as int,
            );
        }
        self.set_dir(rotated);
    }

    /// Programs the direction-change timer: the world's draw (from zero to
    /// three seconds) scaled by `ratio` thousandths, the inverse heat.
    pub fn set_dir_change_span_random(&mut self, draw: i64, ratio: i64)
        requires
            0 <= draw <= SPAN_CAP,
            0 <= ratio <= MILLI,
        ensures
            *final(self) == (Alien {
                change_dir_wait: tdiv(draw * ratio, MILLI as int) as i64,
                ..*old(self)
            }),
            0 <= final(self).change_dir_wait <= SPAN_CAP,
    {
        proof {
            lemma_mul_bound(draw as int, ratio as int, SPAN_CAP as int, MILLI as int);
            lemma_tdiv_bound(draw * ratio, (SPAN_CAP as int) * (MILLI as int));
            assert(tdiv(draw * ratio, MILLI as int) >= 0) by (nonlinear_arith)
                requires
                    draw * ratio >= 0,
            ;
        }
        let p: i64 = draw * ratio;
        self.change_dir_wait = p / MILLI;
    }

    /// Programs the fire timer: the world's draw (from the configured
    /// fire-interval range) scaled by `ratio` thousandths, the inverse heat.
    pub fn set_fire_span_random(&mut self, draw: i64, ratio: i64)
        requires
            0 <= draw <= SPAN_CAP,
            0 <= ratio <= MILLI,
        ensures
            *final(self) == (Alien {
                fire_wait: tdiv(draw * ratio, MILLI as int) as i64,
                ..*old(self)
            }),
            0 <= final(self).fire_wait <= SPAN_CAP,
    {
        proof {
            lemma_mul_bound(draw as int, ratio as int, SPAN_CAP as int, MILLI as int);
            lemma_tdiv_bound(draw * ratio, (SPAN_CAP as int) * (MILLI as int));
            assert(tdiv(draw * ratio, MILLI as int) >= 0) by (nonlinear_arith)
                requires
                    draw * ratio >= 0,
            ;
        }
        let p: i64 = draw * ratio;
        self.fire_wait = p / MILLI;
    }

    /// Selects the movement strategy dispatched each tick.
    pub fn set_process(&mut self, process: AlienProcessPattern)
        ensures
            *final(self) == (Alien { process_pattern: process, ..*old(self) }),
    {
        self.process_pattern = process;
    }

    /// One tick's displacement under the current movement pattern.
    pub open spec fn step_spec(self, delta: int) -> Vec3 {
        match self.process_pattern {
            AlienProcessPattern::Default => Vec3 {
                x: axis_step_spec(self.speed as int, delta) as i64,
                y: 0,
                z: 0,
            },
            AlienProcessPattern::Invasion => Vec3 {
                x: 0,
                y: 0,
                z: axis_step_spec(self.speed as int, delta) as i64,
            },
            AlienProcessPattern::Dir => scaled_step_spec(self.direction, self.speed as int, delta),
        }
    }

    /// Where one tick takes the alien.
    pub open spec fn moved_spec(self, pos: Vec3, delta: int) -> Vec3 {
        let d = self.step_spec(delta);
        Vec3 { x: (pos.x + d.x) as i64, y: (pos.y + d.y) as i64, z: (pos.z + d.z) as i64 }
    }

    /// Whether the bounce pattern rebounds this tick: it has reached a stage
    /// edge while still heading toward it.
    pub open spec fn bounce_rebounds(self, pos: Vec3, delta: int) -> bool {
        let new_pos = self.moved_spec(pos, delta);
        ||| (new_pos.x < self.env.left_limit && self.speed < 0)
        ||| (new_pos.x > self.env.right_limit && self.speed > 0)
    }

    /// Whether this tick carries the alien strictly out of the alien arena,
    /// which self-destructs it (only the invasion and directional patterns
    /// check the arena).
    pub open spec fn tick_exits(self, pos: Vec3, delta: int) -> bool {
        &&& self.process_pattern != AlienProcessPattern::Default
        &&& self.alien_env.gone_far_away_spec(self.moved_spec(pos, delta))
    }

    /// The alien's state after one tick.
    pub open spec fn after_tick(self, pos: Vec3, delta: int) -> Alien {
        match self.process_pattern {
            AlienProcessPattern::Default => if self.bounce_rebounds(pos, delta) {
                Alien { speed: -self.speed as i64, ..self }
            } else {
                self
            },
            _ => if self.tick_exits(pos, delta) {
                Alien { alive: false, ..self }
            } else {
                self
            },
        }
    }

    /// Dispatches one simulation tick to the current movement pattern.
    /// Returns the new position and whether the alien destructed and asks to
    /// be detached and collected; the world must stop ticking a collected
    /// alien, exactly as the engine stops ticking a detached node.
    pub fn physics_process(&mut self, pos: Vec3, delta: i64) -> (r: (Vec3, bool))
        requires
            old(self).wf(),
            0 <= delta <= DELTA_CAP,
            pos.bounded(POS_CAP as int),
        ensures
            r.0 == old(self).moved_spec(pos, delta as int),
            r.1 == old(self).tick_exits(pos, delta as int),
            *final(self) == old(self).after_tick(pos, delta as int),
            final(self).wf(),
    {
        match self.process_pattern {
            AlienProcessPattern::Default => {
                let new_pos = self.default_process_pattern(pos, delta);
                (new_pos, false)
            }
            AlienProcessPattern::Invasion => self.invasion_pattern(pos, delta),
            AlienProcessPattern::Dir => self.dir_pattern(pos, delta),
        }
    }

    /// The bounce pattern: constant speed along the horizontal axis,
    /// rebounding (speed sign flipped) on reaching either stage edge.
    /// Terminal only via being shot.
    pub fn default_process_pattern(&mut self, pos: Vec3, delta: i64) -> (new_pos: Vec3)
        requires
            old(self).wf(),
            old(self).process_pattern == AlienProcessPattern::Default,
            0 <= delta <= DELTA_CAP,
            pos.bounded(POS_CAP as int),
        ensures
            new_pos == old(self).moved_spec(pos, delta as int),
            *final(self) == old(self).after_tick(pos, delta as int),
            final(self).wf(),
    {
        let d = axis_step(self.speed, delta);
        let new_pos = Vec3 { x: pos.x + d, y: pos.y, z: pos.z };
        if (new_pos.x < self.env.left_limit && self.speed < 0) || (new_pos.x
            > self.env.right_limit && self.speed > 0) {
            self.speed = -self.speed;
        }
        new_pos
    }

    /// The invasion pattern: straight down the forward axis; self-destructs
    /// once strictly outside the alien arena.
    pub fn invasion_pattern(&mut self, pos: Vec3, delta: i64) -> (r: (Vec3, bool))
        requires
            old(self).wf(),
            old(self).process_pattern == AlienProcessPattern::Invasion,
            0 <= delta <= DELTA_CAP,
            pos.bounded(POS_CAP as int),
        ensures
            r.0 == old(self).moved_spec(pos, delta as int),
            r.1 == old(self).tick_exits(pos, delta as int),
            *final(self) == old(self).after_tick(pos, delta as int),
            final(self).wf(),
    {
        let d = axis_step(self.speed, delta);
        let new_pos = Vec3 { x: pos.x, y: pos.y, z: pos.z + d };
        let mut collect = false;
        if self.alien_env.gone_far_away(new_pos) {
            self.destruct();
            collect = true;
        }
        (new_pos, collect)
    }

    /// The directional pattern: along the per-instance heading;
    /// self-destructs once strictly outside the alien arena.
    pub fn dir_pattern(&mut self, pos: Vec3, delta: i64) -> (r: (Vec3, bool))
        requires
            old(self).wf(),
            old(self).process_pattern == AlienProcessPattern::Dir,
            0 <= delta <= DELTA_CAP,
            pos.bounded(POS_CAP as int),
        ensures
            r.0 == old(self).moved_spec(pos, delta as int),
            r.1 == old(self).tick_exits(pos, delta as int),
            *final(self) == old(self).after_tick(pos, delta as int),
            final(self).wf(),
    {
        let d = scaled_step(self.direction, self.speed, delta);
        let new_pos = Vec3 { x: pos.x + d.x, y: pos.y + d.y, z: pos.z + d.z };
        let mut collect = false;
        if self.alien_env.gone_far_away(new_pos) {
            self.destruct();
            collect = true;
        }
        (new_pos, collect)
    }

    /// The alien's state after a collision signal from layer `layer`: only a
    /// living alien hit by a player bullet transitions, halting dead.
    pub open spec fn after_shot(self, layer: int) -> Alien {
        if self.alive && layer == PLAYER_BULLET_LAYER as int {
            Alien { speed: 0, alive: false, ..self }
        } else {
            self
        }
    }

    /// Records a collision. A living alien struck from the player-bullet
    /// layer is destroyed and reports the kill (the stage's score event);
    /// collisions from any other layer, or on a destroyed alien, are
    /// ignored. The world then plays the destruction effects and defers the
    /// detach.
    pub fn shooted(&mut self, collision_layer: i64) -> (beated: bool)
        ensures
            *final(self) == old(self).after_shot(collision_layer as int),
            beated == (old(self).alive && collision_layer == PLAYER_BULLET_LAYER),
    {
        if !self.alive {
            return false;
        }
        if collision_layer != PLAYER_BULLET_LAYER {
            return false;
        }
        self.speed = 0;
        self.alive = false;
        true
    }

    /// Marks the alien destroyed; the world defers the detach that returns
    /// it to the pool.
    pub fn destruct(&mut self)
        ensures
            *final(self) == (Alien { alive: false, ..*old(self) }),
    {
        self.alive = false;
    }

    /// Emits a barrage request when the fire timer lapses, for a living
    /// alien: from its position, half the time along its own heading and
    /// half the time toward the player (`aim_at_player` is the world's
    /// coin), at one and three tenths of its speed, with a barrage pattern
    /// drawn uniformly over the table. An alien sitting exactly on the
    /// player aims along its own heading. A destroyed alien fires nothing.
    pub fn fire(&self, pos: Vec3, player_pos: Vec3, aim_at_player: bool, kind: i64) -> (r: Option<
        FireCommand,
    >)
        requires
            self.wf(),
            0 <= kind < crate::barrage::BARRAGE_PLAN_COUNT,
            pos.bounded(FIRE_POS_CAP as int),
            player_pos.bounded(FIRE_POS_CAP as int),
        ensures
            r is Some <==> self.alive,
            r matches Some(cmd) ==> cmd == (FireCommand {
                pos,
                dir: self.fire_dir(pos, player_pos, aim_at_player),
                speed: tdiv(self.speed * (FIRE_SPEED_RATIO as int), MILLI as int) as i64,
                kind,
            }),
            r matches Some(cmd) ==> -SPEED_CAP <= cmd.speed <= SPEED_CAP && cmd.dir.bounded(
                MILLI as int,
            ),
    {
        if !self.alive {
            return None;
        }
        let dir = if !aim_at_player {
            self.direction
        } else {
            let diff = player_pos.sub(pos);
            match normalize(diff) {
                Some(u) => u,
                None => self.direction,
            }
        };
        proof {
            lemma_mul_bound(
                self.speed as int,
                FIRE_SPEED_RATIO as int,
                ALIEN_SPEED_CAP as int,
                FIRE_SPEED_RATIO as int,
            );
            lemma_tdiv_bound(
                self.speed * FIRE_SPEED_RATIO,
                (ALIEN_SPEED_CAP as int) * (FIRE_SPEED_RATIO as int),
            );
        }
        let p: i64 = self.speed * FIRE_SPEED_RATIO;
        let speed = p / MILLI;
        Some(FireCommand { pos, dir, speed, kind })
    }

    /// The direction a barrage aims: the alien's own heading, or the unit
    /// vector toward the player, falling back to the heading when the two
    /// positions coincide.
    pub open spec fn fire_dir(self, pos: Vec3, player_pos: Vec3, aim_at_player: bool) -> Vec3 {
        if !aim_at_player {
            self.direction
        } else {
            let diff = Vec3 {
                x: (player_pos.x - pos.x) as i64,
                y: (player_pos.y - pos.y) as i64,
                z: (player_pos.z - pos.z) as i64,
            };
            if diff == (Vec3 { x: 0i64, y: 0i64, z: 0i64 }) {
                self.direction
            } else {
                normalize_spec(diff)
            }
        }
    }
}

/// A destroyed alien ignores every further collision signal: hitting it
/// again, from any layer, changes nothing.
pub proof fn law_shot_ignored_when_destroyed(a: Alien, layer: int)
    requires
        !a.alive,
    ensures
        a.after_shot(layer) == a,
{
}

/// Destruction by collision is idempotent: sending the hit twice has the
/// same observable effect as sending it once.
pub proof fn law_shot_idempotent(a: Alien, layer: int)
    ensures
        a.after_shot(layer).after_shot(layer) == a.after_shot(layer),
{
}

} // verus!
