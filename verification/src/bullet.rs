//! The player's projectile: pooled while inert, flying once shot, grounded
//! on its first collision, then handed back to the pool. Its world position
//! belongs to the engine's node; each tick the library computes the new
//! position from the one the world reports.

use vstd::prelude::*;
use crate::vec3::{Vec3, axis_step, axis_step_spec, SPEED_CAP, DELTA_CAP, POS_CAP};

verus! {

/// Base speed of a freshly created bullet, five units per second.
pub const BULLET_DEFAULT_SPEED: i64 = 5000;

pub struct Bullet {
    /// Flight speed, in thousandths of a unit per second.
    pub speed: i64,
    /// Whether the bullet is in flight; only a flying bullet honours a hit.
    pub flying: bool,
}

impl Bullet {
    /// The speed stays within the range the movement helpers accept.
    pub open spec fn wf(self) -> bool {
        0 <= self.speed <= SPEED_CAP
    }

    pub fn new() -> (r: Bullet)
        ensures
            r == (Bullet { speed: BULLET_DEFAULT_SPEED, flying: false }),
            r.wf(),
    {
        Bullet { speed: BULLET_DEFAULT_SPEED, flying: false }
    }

    /// Where one tick of flight takes the bullet: straight ahead, along the
    /// negative depth axis, at constant speed.
    pub open spec fn flight_spec(self, pos: Vec3, delta: int) -> Vec3 {
        Vec3 {
            x: pos.x,
            y: pos.y,
            z: (pos.z - axis_step_spec(self.speed as int, delta)) as i64,
        }
    }

    /// Advances the bullet one tick and returns its new position.
    pub fn physics_process(&self, pos: Vec3, delta: i64) -> (new_pos: Vec3)
        requires
            self.wf(),
            0 <= delta <= DELTA_CAP,
            pos.bounded(POS_CAP as int),
        ensures
            new_pos == self.flight_spec(pos, delta as int),
    {
        let d = axis_step(self.speed, delta);
        Vec3 { x: pos.x, y: pos.y, z: pos.z - d }
    }

    /// The bullet after a hit lands: grounded, everything else unchanged.
    pub open spec fn after_hit(self) -> Bullet {
        Bullet { flying: false, ..self }
    }

    /// Records a collision. A flying bullet is grounded and asks to be
    /// detached and collected (the caller queues that for the next tick); a
    /// bullet that is already grounded ignores the signal entirely.
    pub fn hit(&mut self) -> (collect: bool)
        ensures
            *final(self) == old(self).after_hit(),
            collect == old(self).flying,
    {
        if !self.flying {
            return false;
        }
        self.flying = false;
        true
    }
}

/// Grounding is idempotent: a second hit signal changes nothing, so sending
/// `hit` twice has the same observable effect as sending it once.
pub proof fn law_hit_idempotent(b: Bullet)
    ensures
        b.after_hit().after_hit() == b.after_hit(),
        !b.after_hit().flying,
{
}

} // verus!
