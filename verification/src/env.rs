//! Arena boundaries. Two independent rectangles exist: the player arena
//! (`Env`), which clamps positions, and the alien arena (`AlienEnv`), which
//! detects strict exceedance. Their limits are read once from the world's
//! reference points at setup and handed in as plain scalars.

use vstd::prelude::*;
use crate::vec3::Vec3;

verus! {

/// The player arena: four axis-aligned limits in the horizontal plane, plus
/// the running session time in thousandths of a second (used to alternate
/// the firing barrel).
pub struct Env {
    pub time: i64,
    pub left_limit: i64,
    pub right_limit: i64,
    pub up_limit: i64,
    pub down_limit: i64,
}

impl Env {
    /// A boundary is well formed when each pair of limits is ordered.
    pub open spec fn wf(self) -> bool {
        &&& self.left_limit <= self.right_limit
        &&& self.up_limit <= self.down_limit
    }

    pub fn new() -> (r: Env)
        ensures
            r.time == 0,
            r.left_limit == 0 && r.right_limit == 0 && r.up_limit == 0 && r.down_limit == 0,
            r.wf(),
    {
        Env { time: 0, left_limit: 0, right_limit: 0, up_limit: 0, down_limit: 0 }
    }

    /// Caches the four limits read once from the world's reference points.
    pub fn init(&mut self, left: i64, right: i64, up: i64, down: i64)
        requires
            left <= right,
            up <= down,
        ensures
            final(self).left_limit == left,
            final(self).right_limit == right,
            final(self).up_limit == up,
            final(self).down_limit == down,
            final(self).time == old(self).time,
            final(self).wf(),
    {
        self.left_limit = left;
        self.right_limit = right;
        self.up_limit = up;
        self.down_limit = down;
    }

    /// `pos` with each horizontal axis pinned into the rectangle.
    pub open spec fn clamp_spec(self, pos: Vec3) -> Vec3 {
        Vec3 {
            x: if pos.x < self.left_limit {
                self.left_limit
            } else if pos.x > self.right_limit {
                self.right_limit
            } else {
                pos.x
            },
            y: pos.y,
            z: if pos.z < self.up_limit {
                self.up_limit
            } else if pos.z > self.down_limit {
                self.down_limit
            } else {
                pos.z
            },
        }
    }

    /// Whether `pos` already lies inside the rectangle (the vertical axis is
    /// unconstrained).
    pub open spec fn in_bounds(self, pos: Vec3) -> bool {
        &&& self.left_limit <= pos.x <= self.right_limit
        &&& self.up_limit <= pos.z <= self.down_limit
    }

    /// Pins each horizontal axis of `pos` into the rectangle.
    pub fn clamp(&self, pos: Vec3) -> (r: Vec3)
        ensures
            r == self.clamp_spec(pos),
    {
        let x = if pos.x < self.left_limit {
            self.left_limit
        } else if pos.x > self.right_limit {
            self.right_limit
        } else {
            pos.x
        };
        let z = if pos.z < self.up_limit {
            self.up_limit
        } else if pos.z > self.down_limit {
            self.down_limit
        } else {
            pos.z
        };
        Vec3 { x, y: pos.y, z }
    }

    /// Advances the session clock by one tick.
    pub fn advance_time(&mut self, delta: i64)
        requires
            0 <= delta,
            old(self).time + delta <= i64::MAX,
            0 <= old(self).time,
        ensures
            final(self).time == old(self).time + delta,
            final(self).left_limit == old(self).left_limit,
            final(self).right_limit == old(self).right_limit,
            final(self).up_limit == old(self).up_limit,
            final(self).down_limit == old(self).down_limit,
    {
        self.time = self.time + delta;
    }
}

/// Clamping an in-bounds position is a no-op.
pub proof fn law_clamp_noop(env: Env, pos: Vec3)
    requires
        env.in_bounds(pos),
    ensures
        env.clamp_spec(pos) == pos,
{
}

/// A clamped position always lies within the rectangle, for any well-formed
/// boundary.
pub proof fn law_clamp_in_bounds(env: Env, pos: Vec3)
    requires
        env.wf(),
    ensures
        env.in_bounds(env.clamp_spec(pos)),
{
}

/// Clamping is idempotent: clamping a clamped position changes nothing.
pub proof fn law_clamp_idempotent(env: Env, pos: Vec3)
    requires
        env.wf(),
    ensures
        env.clamp_spec(env.clamp_spec(pos)) == env.clamp_spec(pos),
{
}

/// The alien arena: the rectangle past which aliens and their bullets
/// self-destruct.
pub struct AlienEnv {
    pub left_limit: i64,
    pub right_limit: i64,
    pub up_limit: i64,
    pub down_limit: i64,
}

impl AlienEnv {
    pub fn new() -> (r: AlienEnv)
        ensures
            r.left_limit == 0 && r.right_limit == 0 && r.up_limit == 0 && r.down_limit == 0,
    {
        AlienEnv { left_limit: 0, right_limit: 0, up_limit: 0, down_limit: 0 }
    }

    /// Caches the four limits read once from the world's reference points.
    pub fn init(&mut self, left: i64, right: i64, up: i64, down: i64)
        requires
            left <= right,
            up <= down,
        ensures
            final(self).left_limit == left,
            final(self).right_limit == right,
            final(self).up_limit == up,
            final(self).down_limit == down,
    {
        self.left_limit = left;
        self.right_limit = right;
        self.up_limit = up;
        self.down_limit = down;
    }

    /// Strict exceedance on any horizontal axis.
    pub open spec fn gone_far_away_spec(self, pos: Vec3) -> bool {
        ||| pos.x < self.left_limit
        ||| pos.x > self.right_limit
        ||| pos.z < self.up_limit
        ||| pos.z > self.down_limit
    }

    /// Reports whether `pos` lies strictly outside the rectangle.
    pub fn gone_far_away(&self, pos: Vec3) -> (r: bool)
        ensures
            r == self.gone_far_away_spec(pos),
    {
        pos.x < self.left_limit || pos.x > self.right_limit || pos.z < self.up_limit
            || pos.z > self.down_limit
    }
}

} // verus!
