//! The aliens' projectile. It differs from the player's bullet in two ways:
//! its direction is set at spawn (so one barrage can fan out), and it
//! self-destructs past the alien arena instead of flying forever.

use vstd::prelude::*;
use crate::env::AlienEnv;
use crate::scalar::MILLI;
use crate::vec3::{
    Vec3, normalize, normalize_spec, scaled_step, scaled_step_spec, COORD_CAP, SPEED_CAP,
    DELTA_CAP, POS_CAP,
};

verus! {

/// Base speed of a freshly created alien bullet, five units per second.
pub const ALIEN_BULLET_DEFAULT_SPEED: i64 = 5000;

/// The heading an alien bullet falls back to when its direction would be
/// degenerate: straight down the arena, toward the player.
pub open spec fn default_bullet_dir() -> Vec3 {
    Vec3 { x: 0, y: 0, z: MILLI as i64 }
}

pub struct AlienBullet {
    /// Flight speed, in thousandths of a unit per second.
    pub speed: i64,
    /// Unit heading, in thousandths; always set through `set_dir`.
    pub direction: Vec3,
    /// Whether the bullet is in flight; only a flying bullet self-destructs.
    pub flying: bool,
    /// The alien arena, cached once at setup.
    pub alien_env: AlienEnv,
}

impl AlienBullet {
    /// Speed and heading stay within what the movement helpers accept.
    pub open spec fn wf(self) -> bool {
        &&& -SPEED_CAP <= self.speed <= SPEED_CAP
        &&& self.direction.bounded(MILLI as int)
    }

    pub fn new() -> (r: AlienBullet)
        ensures
            r.speed == ALIEN_BULLET_DEFAULT_SPEED,
            r.direction == default_bullet_dir(),
            !r.flying,
            r.alien_env.left_limit == 0 && r.alien_env.right_limit == 0,
            r.alien_env.up_limit == 0 && r.alien_env.down_limit == 0,
            r.wf(),
    {
        AlienBullet {
            speed: ALIEN_BULLET_DEFAULT_SPEED,
            direction: Vec3 { x: 0, y: 0, z: MILLI },
            flying: false,
            alien_env: AlienEnv::new(),
        }
    }

    /// Caches the alien-arena limits, read once from the world at setup.
    pub fn ready(&mut self, left: i64, right: i64, up: i64, down: i64)
        requires
            left <= right,
            up <= down,
        ensures
            final(self).alien_env.left_limit == left,
            final(self).alien_env.right_limit == right,
            final(self).alien_env.up_limit == up,
            final(self).alien_env.down_limit == down,
            final(self).speed == old(self).speed,
            final(self).direction == old(self).direction,
            final(self).flying == old(self).flying,
            old(self).wf() ==> final(self).wf(),
    {
        self.alien_env.init(left, right, up, down);
    }

    pub fn set_speed(&mut self, speed: i64)
        requires
            -SPEED_CAP <= speed <= SPEED_CAP,
        ensures
            final(self).speed == speed,
            final(self).direction == old(self).direction,
            final(self).flying == old(self).flying,
            final(self).alien_env == old(self).alien_env,
            old(self).wf() ==> final(self).wf(),
    {
        self.speed = speed;
    }

    /// The stored heading for a requested one: scaled to unit length, or the
    /// default downward heading when the request is degenerate (zero).
    pub open spec fn dir_of(dir: Vec3) -> Vec3 {
        if dir == (Vec3 { x: 0i64, y: 0i64, z: 0i64 }) {
            default_bullet_dir()
        } else {
            normalize_spec(dir)
        }
    }

    /// Points the bullet along `dir`, normalized; a degenerate direction is
    /// recovered locally by substituting the default downward heading.
    pub fn set_dir(&mut self, dir: Vec3)
        requires
            dir.bounded(COORD_CAP as int),
        ensures
            final(self).direction == Self::dir_of(dir),
            final(self).direction.bounded(MILLI as int),
            final(self).speed == old(self).speed,
            final(self).flying == old(self).flying,
            final(self).alien_env == old(self).alien_env,
    {
        match normalize(dir) {
            Some(u) => {
                self.direction = u;
            }
            None => {
                self.direction = Vec3 { x: 0, y: 0, z: MILLI };
            }
        }
    }

    /// Where one tick of flight takes the bullet.
    pub open spec fn flight_spec(self, pos: Vec3, delta: int) -> Vec3 {
        let d = scaled_step_spec(self.direction, self.speed as int, delta);
        Vec3 { x: (pos.x + d.x) as i64, y: (pos.y + d.y) as i64, z: (pos.z + d.z) as i64 }
    }

    /// The bullet after its destruct transition: grounded.
    pub open spec fn after_destruct(self) -> AlienBullet {
        AlienBullet { flying: false, ..self }
    }

    /// Advances the bullet one tick: it moves along its heading, and
    /// self-destructs once strictly outside the alien arena. Returns the new
    /// position and whether the bullet asks to be detached and collected.
    pub fn physics_process(&mut self, pos: Vec3, delta: i64) -> (r: (Vec3, bool))
        requires
            old(self).wf(),
            0 <= delta <= DELTA_CAP,
            pos.bounded(POS_CAP as int),
        ensures
            r.0 == old(self).flight_spec(pos, delta as int),
            r.1 == (old(self).alien_env.gone_far_away_spec(old(self).flight_spec(
                pos,
                delta as int,
            )) && old(self).flying),
            *final(self) == if old(self).alien_env.gone_far_away_spec(old(self).flight_spec(
                pos,
                delta as int,
            )) {
                old(self).after_destruct()
            } else {
                *old(self)
            },
    {
        let d = scaled_step(self.direction, self.speed, delta);
        let new_pos = Vec3 { x: pos.x + d.x, y: pos.y + d.y, z: pos.z + d.z };
        let mut collect = false;
        if self.alien_env.gone_far_away(new_pos) {
            collect = self.destruct();
        }
        (new_pos, collect)
    }

    /// Records a collision: any hit destructs the bullet.
    pub fn hit(&mut self) -> (collect: bool)
        ensures
            *final(self) == old(self).after_destruct(),
            collect == old(self).flying,
    {
        self.destruct()
    }

    /// Grounds a flying bullet and asks for it to be detached and collected;
    /// a bullet that is already grounded ignores the signal entirely.
    pub fn destruct(&mut self) -> (collect: bool)
        ensures
            *final(self) == old(self).after_destruct(),
            collect == old(self).flying,
    {
        if !self.flying {
            return false;
        }
        self.flying = false;
        true
    }
}

/// Destruction is idempotent: a second collision or out-of-bounds signal on
/// a grounded bullet changes nothing and raises no second collect request.
pub proof fn law_destruct_idempotent(b: AlienBullet)
    ensures
        b.after_destruct().after_destruct() == b.after_destruct(),
        !b.after_destruct().flying,
{
}

} // verus!
