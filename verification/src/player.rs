//! The player's ship: input-driven movement clamped to the player arena,
//! firing from a private bullet pool, and the crash transition. The world
//! polls the input devices and reports the pressed actions as plain flags;
//! the cosmetic bobbing and the ship-tilt animation are the world's own
//! floating-point trigonometry and change no game state.

use vstd::prelude::*;
use crate::bullet::Bullet;
use crate::env::Env;
use crate::magazine::Magazine;
use crate::scalar::{MILLI, tdiv, lemma_mul_bound, lemma_tdiv_bound};
use crate::vec3::{
    Vec3, normalize, normalize_spec, scaled_step, scaled_step_spec, SPEED_CAP, DELTA_CAP, POS_CAP,
};

verus! {

/// Base speed of the ship, five units per second.
pub const PLAYER_DEFAULT_SPEED: i64 = 5000;

/// Largest base speed the ship can be configured with.
pub const PLAYER_SPEED_CAP: i64 = 1_000_000;

/// The speed factor while holding fire, in thousandths: half speed.
pub const FIRING_SPEED_WEIGHT: i64 = 500;

/// The collision layers the ship honours: aliens and alien bullets.
pub const ALIEN_LAYER: i64 = 2;

/// The second hostile collision layer.
pub const ALIEN_BULLET_LAYER: i64 = 8;

/// The pressed state of the player's actions, polled by the world each
/// tick.
#[derive(Clone, Copy, PartialEq, Eq, Structural, Debug)]
pub struct InputState {
    pub shoot: bool,
    pub right: bool,
    pub left: bool,
    pub up: bool,
    pub down: bool,
}

/// Which barrel a shot leaves from; the barrels alternate with the clock.
#[derive(Clone, Copy, PartialEq, Eq, Structural, Debug)]
pub enum Barrel {
    Left,
    Right,
}

pub struct Player {
    /// Current speed, in thousandths of a unit per second; zeroed by a
    /// crash, restored on reset.
    pub speed: i64,
    /// The base speed restored on every reset.
    pub setted_speed: i64,
    /// Whether the ship is alive; a crashed ship neither moves nor fires.
    pub alive: bool,
    /// The player arena and session clock.
    pub env: Env,
    /// The ship's private bullet pool.
    pub magazine: Magazine<Bullet>,
}

impl Player {
    /// Every scalar stays within what the movement helpers accept.
    pub open spec fn wf(self) -> bool {
        &&& 0 <= self.speed <= PLAYER_SPEED_CAP
        &&& 0 <= self.setted_speed <= PLAYER_SPEED_CAP
        &&& 0 <= self.env.time
    }

    pub fn new() -> (r: Player)
        ensures
            r.speed == PLAYER_DEFAULT_SPEED,
            r.setted_speed == PLAYER_DEFAULT_SPEED,
            r.alive,
            r.env.time == 0,
            r.magazine@ == Seq::<Bullet>::empty(),
            r.wf(),
    {
        let slots: Vec<Option<Bullet>> = Vec::new();
        let magazine = Magazine::new(slots);
        proof {
            assert(crate::magazine::somes_of(Seq::<Option<Bullet>>::empty())
                =~= Seq::<Bullet>::empty());
        }
        Player {
            speed: PLAYER_DEFAULT_SPEED,
            setted_speed: PLAYER_DEFAULT_SPEED,
            alive: true,
            env: Env::new(),
            magazine,
        }
    }

    /// One-time setup once the ship enters the world: the configured speed
    /// becomes the base to restore on resets, the bullet pool is filled from
    /// the factory's output, and the arena limits are cached.
    pub fn ready(&mut self, slots: Vec<Option<Bullet>>, left: i64, right: i64, up: i64, down: i64)
        requires
            old(self).wf(),
            left <= right,
            up <= down,
        ensures
            final(self).alive,
            final(self).speed == old(self).speed,
            final(self).setted_speed == old(self).speed,
            final(self).magazine@ == crate::magazine::somes_of(slots@),
            final(self).env.left_limit == left && final(self).env.right_limit == right,
            final(self).env.up_limit == up && final(self).env.down_limit == down,
            final(self).env.time == old(self).env.time,
            final(self).wf(),
    {
        self.setted_speed = self.speed;
        self.magazine = Magazine::new(slots);
        self.env.init(left, right, up, down);
        self.alive = true;
    }

    /// Revives the ship after a crash: alive again, at its base speed, back
    /// at the arena's origin — the returned position is where the world
    /// places the node.
    pub fn reset(&mut self) -> (pos: Vec3)
        ensures
            final(self).alive,
            final(self).speed == old(self).setted_speed,
            final(self).setted_speed == old(self).setted_speed,
            final(self).env == old(self).env,
            final(self).magazine == old(self).magazine,
            pos == (Vec3 { x: 0i64, y: 0i64, z: 0i64 }),
            old(self).wf() ==> final(self).wf(),
    {
        self.alive = true;
        self.speed = self.setted_speed;
        Vec3 { x: 0, y: 0, z: 0 }
    }

    /// The raw movement request: one unit along each pressed axis, opposing
    /// presses cancelling.
    pub open spec fn move_vec(input: InputState) -> Vec3 {
        Vec3 {
            x: ((if input.right {
                MILLI as int
            } else {
                0
            }) - (if input.left {
                MILLI as int
            } else {
                0
            })) as i64,
            y: 0,
            z: ((if input.down {
                MILLI as int
            } else {
                0
            }) - (if input.up {
                MILLI as int
            } else {
                0
            })) as i64,
        }
    }

    /// The speed factor for this tick: half while holding fire.
    pub open spec fn speed_weight(input: InputState) -> int {
        if input.shoot {
            FIRING_SPEED_WEIGHT as int
        } else {
            MILLI as int
        }
    }

    /// One tick's displacement under the input: the normalized movement
    /// request scaled by the weighted speed, or none for a dead ship or no
    /// press.
    pub open spec fn move_step_spec(self, delta: int, input: InputState) -> Vec3 {
        let v = Self::move_vec(input);
        if !self.alive || v == (Vec3 { x: 0i64, y: 0i64, z: 0i64 }) {
            Vec3 { x: 0, y: 0, z: 0 }
        } else {
            scaled_step_spec(
                normalize_spec(v),
                tdiv(self.speed * Self::speed_weight(input), MILLI as int),
                delta,
            )
        }
    }

    /// Moves the ship for one tick under the pressed axes: the movement
    /// request is normalized (so diagonals are no faster) and scaled by the
    /// weighted speed, and a dead ship stays put. The ship-tilt animation
    /// that accompanies sideways movement is the world's.
    pub fn move_control(&self, pos: Vec3, delta: i64, input: InputState, speed_weight: i64) -> (new_pos: Vec3)
        requires
            self.wf(),
            speed_weight == Self::speed_weight(input),
            0 <= delta <= DELTA_CAP,
            pos.bounded(POS_CAP as int),
        ensures
            ({
                let d = self.move_step_spec(delta as int, input);
                new_pos == (Vec3 {
                    x: (pos.x + d.x) as i64,
                    y: (pos.y + d.y) as i64,
                    z: (pos.z + d.z) as i64,
                })
            }),
    {
        if !self.alive {
            return pos;
        }
        let vx: i64 = (if input.right {
            MILLI
        } else {
            0
        }) - (if input.left {
            MILLI
        } else {
            0
        });
        let vz: i64 = (if input.down {
            MILLI
        } else {
            0
        }) - (if input.up {
            MILLI
        } else {
            0
        });
        let v = Vec3 { x: vx, y: 0, z: vz };
        match normalize(v) {
            Some(u) => {
                proof {
                    lemma_mul_bound(
                        self.speed as int,
                        speed_weight as int,
                        PLAYER_SPEED_CAP as int,
                        MILLI as int,
                    );
                    lemma_tdiv_bound(
                        self.speed * speed_weight,
                        (PLAYER_SPEED_CAP as int) * (MILLI as int),
                    );
                }
                let p: i64 = self.speed * speed_weight;
                let weighted: i64 = p / MILLI;
                let d = scaled_step(u, weighted, delta);
                Vec3 { x: pos.x + d.x, y: pos.y + d.y, z: pos.z + d.z }
            }
            None => pos,
        }
    }

    /// Pins the ship back into the player arena after a move.
    pub fn coordinate_modifying(&self, pos: Vec3) -> (r: Vec3)
        ensures
            r == self.env.clamp_spec(pos),
    {
        self.env.clamp(pos)
    }

    /// Fires one bullet if the ship is alive and the pool is not empty: the
    /// front bullet leaves the pool flying, from the barrel the clock
    /// selects (they alternate every hundredth of a second). A depleted
    /// pool skips the shot; it never fails.
    pub fn shoot(&mut self) -> (r: Option<(Bullet, Barrel)>)
        requires
            old(self).wf(),
        ensures
            r is Some <==> (old(self).alive && old(self).magazine@.len() > 0),
            r matches Some((b, barrel)) ==> {
                &&& b == (Bullet { flying: true, ..old(self).magazine@[0] })
                &&& final(self).magazine@ == old(self).magazine@.drop_first()
                &&& barrel == (if tdiv(old(self).env.time as int, 10int) % 2 == 0 {
                    Barrel::Left
                } else {
                    Barrel::Right
                })
            },
            r is None ==> *final(self) == *old(self),
            final(self).speed == old(self).speed && final(self).alive == old(self).alive,
            final(self).setted_speed == old(self).setted_speed,
            final(self).env == old(self).env,
            final(self).wf(),
    {
        if !self.alive {
            return None;
        }
        if self.magazine.get_left_num() < 1 {
            return None;
        }
        let popped = self.magazine.hammer();
        match popped {
            Some(mut b) => {
                b.flying = true;
                let t: i64 = self.env.time / 10;
                let barrel = if t % 2 == 0 {
                    Barrel::Left
                } else {
                    Barrel::Right
                };
                Some((b, barrel))
            }
            None => None,
        }
    }

    /// The ship's state after a collision signal from layer `layer`: only a
    /// living ship struck from a hostile layer crashes, halting dead.
    pub open spec fn after_crash(self, layer: int) -> Player {
        if self.alive && (layer == ALIEN_LAYER as int || layer == ALIEN_BULLET_LAYER as int) {
            Player { speed: 0, alive: false, ..self }
        } else {
            self
        }
    }

    /// Records a collision. A living ship struck by an alien or an alien
    /// bullet crashes and reports it (the world plays the effects, defers
    /// the collision toggle, and later raises the stage's life-loss event);
    /// collisions from any other layer, or on a crashed ship, are ignored.
    pub fn crash(&mut self, collision_layer: i64) -> (beated: bool)
        ensures
            *final(self) == old(self).after_crash(collision_layer as int),
            beated == (old(self).alive && (collision_layer == ALIEN_LAYER || collision_layer
                == ALIEN_BULLET_LAYER)),
    {
        if !self.alive {
            return false;
        }
        if collision_layer != ALIEN_LAYER && collision_layer != ALIEN_BULLET_LAYER {
            return false;
        }
        self.speed = 0;
        self.alive = false;
        true
    }

    /// Returns a grounded bullet to the ship's pool.
    pub fn collect_bullet(&mut self, bullet: Bullet)
        requires
            old(self).magazine@.len() < usize::MAX,
        ensures
            final(self).magazine@ == old(self).magazine@.push(bullet),
            final(self).speed == old(self).speed && final(self).alive == old(self).alive,
            final(self).setted_speed == old(self).setted_speed,
            final(self).env == old(self).env,
    {
        self.magazine.charge_bullet(bullet);
    }

    /// Advances the ship one tick: the session clock advances, holding fire
    /// shoots (at half movement speed), the pressed axes move the ship, and
    /// the arena clamps the result. Returns the new position and the shot,
    /// if one left a barrel.
    pub fn physics_process(&mut self, pos: Vec3, delta: i64, input: InputState) -> (r: (
        Vec3,
        Option<(Bullet, Barrel)>,
    ))
        requires
            old(self).wf(),
            0 <= delta <= DELTA_CAP,
            old(self).env.time + delta <= i64::MAX,
            pos.bounded(POS_CAP as int),
        ensures
            ({
                let clock = Player { env: Env { time: (old(self).env.time + delta) as i64, ..old(self).env }, ..*old(self) };
                let d = old(self).move_step_spec(delta as int, input);
                let moved = Vec3 {
                    x: (pos.x + d.x) as i64,
                    y: (pos.y + d.y) as i64,
                    z: (pos.z + d.z) as i64,
                };
                &&& r.0 == old(self).env.clamp_spec(moved)
                &&& final(self).env.time == old(self).env.time + delta
                &&& (r.1 is Some <==> (input.shoot && old(self).alive && old(self).magazine@.len()
                    > 0))
                &&& (r.1 matches Some((b, barrel)) ==> {
                    &&& b == (Bullet { flying: true, ..old(self).magazine@[0] })
                    &&& final(self).magazine@ == old(self).magazine@.drop_first()
                    &&& barrel == (if tdiv(clock.env.time as int, 10int) % 2 == 0 {
                        Barrel::Left
                    } else {
                        Barrel::Right
                    })
                })
                &&& (r.1 is None ==> final(self).magazine@ == old(self).magazine@)
            }),
            final(self).speed == old(self).speed && final(self).alive == old(self).alive,
            final(self).setted_speed == old(self).setted_speed,
            final(self).env.left_limit == old(self).env.left_limit,
            final(self).env.right_limit == old(self).env.right_limit,
            final(self).env.up_limit == old(self).env.up_limit,
            final(self).env.down_limit == old(self).env.down_limit,
            final(self).wf(),
    {
        self.env.advance_time(delta);
        let (shot, weight) = if input.shoot {
            (self.shoot(), FIRING_SPEED_WEIGHT)
        } else {
            (None, MILLI)
        };
        let moved = self.move_control(pos, delta, input, weight);
        let clamped = self.coordinate_modifying(moved);
        (clamped, shot)
    }
}

/// A crashed ship ignores every further collision signal.
pub proof fn law_crash_ignored_when_dead(p: Player, layer: int)
    requires
        !p.alive,
    ensures
        p.after_crash(layer) == p,
{
}

/// Crashing is idempotent: a second collision signal changes nothing.
pub proof fn law_crash_idempotent(p: Player, layer: int)
    ensures
        p.after_crash(layer).after_crash(layer) == p.after_crash(layer),
{
}

} // verus!
