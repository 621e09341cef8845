//! Three-component vectors in fixed-point thousandths, with the rotation
//! and normalization helpers that movement and barrage-fan generation use.

use vstd::prelude::*;
use crate::scalar::{
    MILLI, tdiv, sqrt_nat, is_sqrt, isqrt, mul_div_milli, lemma_mul_bound, lemma_tdiv_bound,
};

verus! {

/// Largest coordinate magnitude the vector helpers accept; keeps every
/// intermediate product inside `i64`.
pub const COORD_CAP: i64 = 1_000_000_000;

/// Largest speed magnitude an entity can reach, in thousandths of a unit per
/// second: the base speed cap scaled by the saturated difficulty multiplier,
/// with headroom for the faster alien bullets.
pub const SPEED_CAP: i64 = 2_000_000_000_000_000;

/// Longest single tick accepted, in thousandths of a second: two seconds,
/// far beyond any real frame, keeping the displacement products in range.
pub const DELTA_CAP: i64 = 2000;

/// Largest position coordinate the movement helpers accept: one tick's
/// displacement added to it still fits a machine word.
pub const POS_CAP: i64 = 9_000_000_000_000_000_000;

/// Largest displacement one tick can produce along one axis.
pub const STEP_CAP: i64 = 8_000_000_000_000_000;

/// Largest rotation coefficient magnitude (cosine and sine in thousandths
/// never exceed one unit, with headroom).
pub const ROT_CAP: i64 = 2000;

#[derive(Clone, Copy, PartialEq, Eq, Structural, Debug)]
pub struct Vec3 {
    pub x: i64,
    pub y: i64,
    pub z: i64,
}

impl Vec3 {
    pub fn new(x: i64, y: i64, z: i64) -> (r: Vec3)
        ensures
            r == (Vec3 { x, y, z }),
    {
        Vec3 { x, y, z }
    }

    /// The squared length, exact.
    pub open spec fn len_sq(self) -> int {
        self.x * self.x + self.y * self.y + self.z * self.z
    }

    /// Whether every coordinate magnitude stays within `cap`.
    pub open spec fn bounded(self, cap: int) -> bool {
        &&& -cap <= self.x <= cap
        &&& -cap <= self.y <= cap
        &&& -cap <= self.z <= cap
    }

    /// Componentwise sum.
    pub fn add(self, other: Vec3) -> (r: Vec3)
        requires
            i64::MIN <= self.x + other.x <= i64::MAX,
            i64::MIN <= self.y + other.y <= i64::MAX,
            i64::MIN <= self.z + other.z <= i64::MAX,
        ensures
            r == (Vec3 { x: (self.x + other.x) as i64, y: (self.y + other.y) as i64, z: (self.z + other.z) as i64 }),
    {
        Vec3 { x: self.x + other.x, y: self.y + other.y, z: self.z + other.z }
    }

    /// Componentwise difference.
    pub fn sub(self, other: Vec3) -> (r: Vec3)
        requires
            i64::MIN <= self.x - other.x <= i64::MAX,
            i64::MIN <= self.y - other.y <= i64::MAX,
            i64::MIN <= self.z - other.z <= i64::MAX,
        ensures
            r == (Vec3 { x: (self.x - other.x) as i64, y: (self.y - other.y) as i64, z: (self.z - other.z) as i64 }),
    {
        Vec3 { x: self.x - other.x, y: self.y - other.y, z: self.z - other.z }
    }
}

/// Rotation of `v` around the vertical (y) axis, with the angle given as a
/// fixed-point cosine and sine pair.
pub open spec fn rotate_xz_spec(v: Vec3, c: int, s: int) -> Vec3 {
    Vec3 {
        x: tdiv(v.x * c - v.z * s, MILLI as int) as i64,
        y: v.y,
        z: tdiv(v.x * s + v.z * c, MILLI as int) as i64,
    }
}

/// Rotates `v` in the horizontal (x, z) plane by the angle whose cosine and
/// sine are `c` and `s`, both in thousandths.
pub fn rotate_xz_vec3(v: Vec3, c: i64, s: i64) -> (r: Vec3)
    requires
        v.bounded(COORD_CAP as int),
        -ROT_CAP <= c <= ROT_CAP,
        -ROT_CAP <= s <= ROT_CAP,
    ensures
        r == rotate_xz_spec(v, c as int, s as int),
        r.bounded(2 * (COORD_CAP as int) * (ROT_CAP as int) / (MILLI as int)),
{
    proof {
        lemma_rotate_products_bounded(v, c as int, s as int);
    }
    let xc: i64 = v.x * c;
    let zs: i64 = v.z * s;
    let xs: i64 = v.x * s;
    let zc: i64 = v.z * c;
    let nx: i64 = (xc - zs) / MILLI;
    let nz: i64 = (xs + zc) / MILLI;
    proof {
        lemma_tdiv_magnitude(v.x * c - v.z * s, 2 * (COORD_CAP as int) * (ROT_CAP as int));
        lemma_tdiv_magnitude(v.x * s + v.z * c, 2 * (COORD_CAP as int) * (ROT_CAP as int));
    }
    Vec3 { x: nx, y: v.y, z: nz }
}

proof fn lemma_rotate_products_bounded(v: Vec3, c: int, s: int)
    requires
        v.bounded(COORD_CAP as int),
        -ROT_CAP <= c <= ROT_CAP,
        -ROT_CAP <= s <= ROT_CAP,
    ensures
        -(COORD_CAP as int) * (ROT_CAP as int) <= v.x * c <= (COORD_CAP as int) * (ROT_CAP as int),
        -(COORD_CAP as int) * (ROT_CAP as int) <= v.x * s <= (COORD_CAP as int) * (ROT_CAP as int),
        -(COORD_CAP as int) * (ROT_CAP as int) <= v.z * c <= (COORD_CAP as int) * (ROT_CAP as int),
        -(COORD_CAP as int) * (ROT_CAP as int) <= v.z * s <= (COORD_CAP as int) * (ROT_CAP as int),
{
    assert forall|a: int, b: int|
        -(COORD_CAP as int) <= a <= (COORD_CAP as int) && -(ROT_CAP as int) <= b <= (ROT_CAP as int)
            implies -(COORD_CAP as int) * (ROT_CAP as int) <= #[trigger] (a * b) <= (COORD_CAP as int) * (ROT_CAP as int) by {
        assert(-(COORD_CAP as int) * (ROT_CAP as int) <= a * b <= (COORD_CAP as int) * (ROT_CAP as int))
            by (nonlinear_arith)
            requires
                -(COORD_CAP as int) <= a <= (COORD_CAP as int),
                -(ROT_CAP as int) <= b <= (ROT_CAP as int),
        ;
    }
}

/// Rotating a bounded vector keeps it bounded: each rotated coordinate is a
/// scaled sum of two bounded products, and the vertical coordinate is
/// untouched.
pub proof fn lemma_rotate_xz_bounded(v: Vec3, c: int, s: int, b: int, rc: int)
    requires
        v.bounded(b),
        -rc <= c <= rc,
        -rc <= s <= rc,
        0 <= b,
        0 <= rc,
    ensures
        rotate_xz_spec(v, c, s).bounded(2 * b * rc / (MILLI as int) + b),
{
    lemma_mul_bound(v.x as int, c, b, rc);
    lemma_mul_bound(v.z as int, s, b, rc);
    lemma_mul_bound(v.x as int, s, b, rc);
    lemma_mul_bound(v.z as int, c, b, rc);
    assert(2 * b * rc == 2 * (b * rc)) by (nonlinear_arith);
    lemma_tdiv_bound(v.x * c - v.z * s, 2 * b * rc);
    lemma_tdiv_bound(v.x * s + v.z * c, 2 * b * rc);
}

/// Truncating division never grows a magnitude bound.
pub proof fn lemma_tdiv_magnitude(a: int, cap: int)
    requires
        -cap <= a <= cap,
        cap >= 0,
    ensures
        -cap <= tdiv(a, MILLI as int) <= cap,
        tdiv(a, MILLI as int) <= a || a < 0,
{
    if a >= 0 {
        assert(0 <= a / (MILLI as int) <= a) by (nonlinear_arith)
            requires
                a >= 0,
        ;
    } else {
        assert(0 <= (-a) / (MILLI as int) <= -a) by (nonlinear_arith)
            requires
                -a >= 0,
        ;
    }
}

/// The unit vector (scaled to one thousand) pointing along `v`, defined for
/// nonzero `v`.
pub open spec fn normalize_spec(v: Vec3) -> Vec3 {
    let l = sqrt_nat(v.len_sq() as nat) as int;
    Vec3 {
        x: tdiv(v.x * (MILLI as int), l) as i64,
        y: tdiv(v.y * (MILLI as int), l) as i64,
        z: tdiv(v.z * (MILLI as int), l) as i64,
    }
}

/// Scales `v` to length one thousand (one unit, in thousandths), truncating.
/// Returns `None` for the zero vector, whose direction is undefined; each
/// caller recovers locally by substituting its default heading.
pub fn normalize(v: Vec3) -> (r: Option<Vec3>)
    requires
        v.bounded(COORD_CAP as int),
    ensures
        (v == (Vec3 { x: 0i64, y: 0i64, z: 0i64 })) <==> r is None,
        r matches Some(u) ==> u == normalize_spec(v) && u.bounded(MILLI as int),
{
    proof {
        lemma_squares_bounded(v);
    }
    let sq: i64 = v.x * v.x + v.y * v.y + v.z * v.z;
    if sq == 0 {
        proof {
            lemma_zero_len_sq(v);
        }
        return None;
    }
    proof {
        assert(v.x != 0 || v.y != 0 || v.z != 0) by (nonlinear_arith)
            requires
                v.x * v.x + v.y * v.y + v.z * v.z != 0,
        ;
    }
    let l64: u64 = isqrt(sq as u64);
    proof {
        lemma_sqrt_component_bound(v, l64 as int);
    }
    let l: i64 = l64 as i64;
    let nx: i64 = (v.x * MILLI) / l;
    let ny: i64 = (v.y * MILLI) / l;
    let nz: i64 = (v.z * MILLI) / l;
    proof {
        lemma_unit_component(v.x as int, l as int);
        lemma_unit_component(v.y as int, l as int);
        lemma_unit_component(v.z as int, l as int);
    }
    Some(Vec3 { x: nx, y: ny, z: nz })
}

proof fn lemma_squares_bounded(v: Vec3)
    requires
        v.bounded(COORD_CAP as int),
    ensures
        0 <= v.x * v.x <= (COORD_CAP as int) * (COORD_CAP as int),
        0 <= v.y * v.y <= (COORD_CAP as int) * (COORD_CAP as int),
        0 <= v.z * v.z <= (COORD_CAP as int) * (COORD_CAP as int),
{
    assert forall|a: int| -(COORD_CAP as int) <= a <= (COORD_CAP as int)
            implies 0 <= #[trigger] (a * a) <= (COORD_CAP as int) * (COORD_CAP as int) by {
        assert(0 <= a * a <= (COORD_CAP as int) * (COORD_CAP as int)) by (nonlinear_arith)
            requires
                -(COORD_CAP as int) <= a <= (COORD_CAP as int),
        ;
    }
}

proof fn lemma_zero_len_sq(v: Vec3)
    requires
        v.len_sq() == 0,
    ensures
        v == (Vec3 { x: 0i64, y: 0i64, z: 0i64 }),
{
    assert(v.x == 0 && v.y == 0 && v.z == 0) by (nonlinear_arith)
        requires
            v.x * v.x + v.y * v.y + v.z * v.z == 0,
    ;
}

/// Each coordinate magnitude is at most the vector's length.
proof fn lemma_sqrt_component_bound(v: Vec3, l: int)
    requires
        is_sqrt(v.len_sq() as nat, l as nat),
        v.len_sq() > 0,
        l >= 0,
    ensures
        l >= 1,
        -l <= v.x <= l,
        -l <= v.y <= l,
        -l <= v.z <= l,
{
    assert(l >= 1 && -l <= v.x <= l && -l <= v.y <= l && -l <= v.z <= l) by (nonlinear_arith)
        requires
            (l as nat) * (l as nat) <= (v.len_sq() as nat),
            (v.len_sq() as nat) < ((l as nat) + 1) * ((l as nat) + 1),
            v.len_sq() == v.x * v.x + v.y * v.y + v.z * v.z,
            v.len_sq() > 0,
            l >= 0,
    ;
}

/// The distance covered along one axis in one tick: speed times elapsed
/// time, scaled back to thousandths.
pub open spec fn axis_step_spec(speed: int, delta: int) -> int {
    tdiv(speed * delta, MILLI as int)
}

/// Computes one tick's displacement along a single axis.
pub fn axis_step(speed: i64, delta: i64) -> (r: i64)
    requires
        -SPEED_CAP <= speed <= SPEED_CAP,
        0 <= delta <= DELTA_CAP,
    ensures
        r == axis_step_spec(speed as int, delta as int),
        -STEP_CAP <= r <= STEP_CAP,
{
    proof {
        lemma_mul_bound(speed as int, delta as int, SPEED_CAP as int, DELTA_CAP as int);
        lemma_tdiv_bound(speed * delta, (SPEED_CAP as int) * (DELTA_CAP as int));
    }
    mul_div_milli(speed, delta)
}

/// One tick's displacement along a direction vector: each coordinate of the
/// direction is scaled by the speed and then by the elapsed time, truncating
/// at each step, as the fixed-point evaluation order fixes it.
pub open spec fn scaled_step_spec(dir: Vec3, speed: int, delta: int) -> Vec3 {
    Vec3 {
        x: tdiv(tdiv(dir.x * speed, MILLI as int) * delta, MILLI as int) as i64,
        y: tdiv(tdiv(dir.y * speed, MILLI as int) * delta, MILLI as int) as i64,
        z: tdiv(tdiv(dir.z * speed, MILLI as int) * delta, MILLI as int) as i64,
    }
}

/// Computes one tick's displacement along `dir`.
pub fn scaled_step(dir: Vec3, speed: i64, delta: i64) -> (r: Vec3)
    requires
        dir.bounded(2 * (MILLI as int)),
        -SPEED_CAP <= speed <= SPEED_CAP,
        0 <= delta <= DELTA_CAP,
    ensures
        r == scaled_step_spec(dir, speed as int, delta as int),
        r.bounded(STEP_CAP as int),
{
    let x = scaled_step_axis(dir.x, speed, delta);
    let y = scaled_step_axis(dir.y, speed, delta);
    let z = scaled_step_axis(dir.z, speed, delta);
    Vec3 { x, y, z }
}

fn scaled_step_axis(c: i64, speed: i64, delta: i64) -> (r: i64)
    requires
        -2 * (MILLI as int) <= c <= 2 * (MILLI as int),
        -SPEED_CAP <= speed <= SPEED_CAP,
        0 <= delta <= DELTA_CAP,
    ensures
        r == tdiv(tdiv(c * speed, MILLI as int) * delta, MILLI as int),
        -STEP_CAP <= r <= STEP_CAP,
{
    proof {
        lemma_mul_bound(c as int, speed as int, 2 * (MILLI as int), SPEED_CAP as int);
        lemma_tdiv_bound(c * speed, 2 * (MILLI as int) * (SPEED_CAP as int));
    }
    let s1 = mul_div_milli(c, speed);
    proof {
        lemma_mul_bound(s1 as int, delta as int, 2 * (SPEED_CAP as int), DELTA_CAP as int);
        lemma_tdiv_bound(s1 * delta, 2 * (SPEED_CAP as int) * (DELTA_CAP as int));
    }
    mul_div_milli(s1, delta)
}

/// A coordinate no larger than the length scales to at most one unit.
proof fn lemma_unit_component(a: int, l: int)
    requires
        l >= 1,
        -l <= a <= l,
    ensures
        -(MILLI as int) <= tdiv(a * (MILLI as int), l) <= MILLI as int,
{
    if a >= 0 {
        assert(0 <= (a * (MILLI as int)) / l <= MILLI as int) by (nonlinear_arith)
            requires
                l >= 1,
                0 <= a <= l,
        ;
    } else {
        assert(0 <= ((-a) * (MILLI as int)) / l <= MILLI as int) by (nonlinear_arith)
            requires
                l >= 1,
                0 <= -a <= l,
        ;
        assert(-(a * (MILLI as int)) == (-a) * (MILLI as int)) by (nonlinear_arith);
    }
}

} // verus!
