//! Barrage patterns: pure functions from one aim direction to the list of
//! fan-out directions fired at once. The table deliberately repeats the
//! single-shot pattern four times so that a uniform random index picks it
//! with weight four out of seven — gameplay balance, not duplication to fix.

use vstd::prelude::*;
use crate::scalar::MILLI;
use crate::vec3::{Vec3, rotate_xz_vec3, rotate_xz_spec, COORD_CAP};

verus! {

/// Cosine of sixty degrees, in thousandths.
pub const COS_60: i64 = 500;

/// Sine of sixty degrees, in thousandths (truncated).
pub const SIN_60: i64 = 866;

/// How many patterns the table holds.
pub const BARRAGE_PLAN_COUNT: i64 = 7;

/// The fan of directions for pattern `kind` (taken modulo the table size):
/// indices zero to three fire a single shot straight along `dir`, four and
/// five a three-way fan at plus and minus sixty degrees, six a six-way ring
/// at sixty-degree increments.
pub open spec fn barrage_spec(kind: int, dir: Vec3) -> Seq<Vec3> {
    let k = kind % (BARRAGE_PLAN_COUNT as int);
    if k <= 3 {
        seq![dir]
    } else if k <= 5 {
        seq![
            dir,
            rotate_xz_spec(dir, COS_60 as int, SIN_60 as int),
            rotate_xz_spec(dir, COS_60 as int, -SIN_60 as int),
        ]
    } else {
        seq![
            rotate_xz_spec(dir, MILLI as int, 0),
            rotate_xz_spec(dir, COS_60 as int, SIN_60 as int),
            rotate_xz_spec(dir, -COS_60 as int, SIN_60 as int),
            rotate_xz_spec(dir, -(MILLI as int), 0),
            rotate_xz_spec(dir, -COS_60 as int, -SIN_60 as int),
            rotate_xz_spec(dir, COS_60 as int, -SIN_60 as int),
        ]
    }
}

/// Computes the fan of directions for pattern `kind`.
pub fn barrage_plan(kind: i64, dir: Vec3) -> (dirs: Vec<Vec3>)
    requires
        kind >= 0,
        dir.bounded(COORD_CAP as int),
    ensures
        dirs@ == barrage_spec(kind as int, dir),
        forall|i: int| 0 <= i < dirs@.len() ==> (#[trigger] dirs@[i]).bounded(4 * (COORD_CAP as int)),
{
    let k = kind % BARRAGE_PLAN_COUNT;
    let mut dirs: Vec<Vec3> = Vec::new();
    if k <= 3 {
        dirs.push(dir);
        proof {
            assert(dirs@ =~= barrage_spec(kind as int, dir));
        }
    } else if k <= 5 {
        dirs.push(dir);
        dirs.push(rotate_xz_vec3(dir, COS_60, SIN_60));
        dirs.push(rotate_xz_vec3(dir, COS_60, -SIN_60));
        proof {
            assert(dirs@ =~= barrage_spec(kind as int, dir));
        }
    } else {
        dirs.push(rotate_xz_vec3(dir, MILLI, 0));
        dirs.push(rotate_xz_vec3(dir, COS_60, SIN_60));
        dirs.push(rotate_xz_vec3(dir, -COS_60, SIN_60));
        dirs.push(rotate_xz_vec3(dir, -MILLI, 0));
        dirs.push(rotate_xz_vec3(dir, -COS_60, -SIN_60));
        dirs.push(rotate_xz_vec3(dir, COS_60, -SIN_60));
        proof {
            assert(dirs@ =~= barrage_spec(kind as int, dir));
        }
    }
    dirs
}

/// Every direction a barrage fans out to stays within three times the aim
/// direction's bound: each is the aim direction itself or a rotation of it.
pub proof fn lemma_barrage_bounded(kind: int, dir: Vec3, b: int)
    requires
        dir.bounded(b),
        0 <= b,
    ensures
        forall|i: int| 0 <= i < barrage_spec(kind, dir).len() ==> (#[trigger] barrage_spec(
            kind,
            dir,
        )[i]).bounded(3 * b),
{
    crate::vec3::lemma_rotate_xz_bounded(dir, COS_60 as int, SIN_60 as int, b, MILLI as int);
    crate::vec3::lemma_rotate_xz_bounded(dir, COS_60 as int, -(SIN_60 as int), b, MILLI as int);
    crate::vec3::lemma_rotate_xz_bounded(dir, -(COS_60 as int), SIN_60 as int, b, MILLI as int);
    crate::vec3::lemma_rotate_xz_bounded(dir, -(COS_60 as int), -(SIN_60 as int), b, MILLI as int);
    crate::vec3::lemma_rotate_xz_bounded(dir, MILLI as int, 0, b, MILLI as int);
    crate::vec3::lemma_rotate_xz_bounded(dir, -(MILLI as int), 0, b, MILLI as int);
    assert(2 * b * (MILLI as int) / (MILLI as int) + b == 3 * b) by (nonlinear_arith);
}

/// The three-way fan always holds exactly three directions, the first of
/// them the aim direction itself, for every aim direction.
pub proof fn law_three_way_fan(kind: int, dir: Vec3)
    requires
        kind % (BARRAGE_PLAN_COUNT as int) == 4 || kind % (BARRAGE_PLAN_COUNT as int) == 5,
    ensures
        barrage_spec(kind, dir).len() == 3,
        barrage_spec(kind, dir)[0] == dir,
{
}

/// The ring pattern always holds exactly six directions, spaced at sixty
/// degree increments around the aim direction, for every aim direction.
pub proof fn law_six_way_ring(kind: int, dir: Vec3)
    requires
        kind % (BARRAGE_PLAN_COUNT as int) == 6,
    ensures
        barrage_spec(kind, dir).len() == 6,
        barrage_spec(kind, dir)[0] == rotate_xz_spec(dir, MILLI as int, 0),
        barrage_spec(kind, dir)[1] == rotate_xz_spec(dir, COS_60 as int, SIN_60 as int),
        barrage_spec(kind, dir)[2] == rotate_xz_spec(dir, -(COS_60 as int), SIN_60 as int),
        barrage_spec(kind, dir)[3] == rotate_xz_spec(dir, -(MILLI as int), 0),
        barrage_spec(kind, dir)[4] == rotate_xz_spec(dir, -(COS_60 as int), -(SIN_60 as int)),
        barrage_spec(kind, dir)[5] == rotate_xz_spec(dir, COS_60 as int, -(SIN_60 as int)),
{
}

/// Every single-shot entry of the table fires exactly the aim direction.
pub proof fn law_single_shot(kind: int, dir: Vec3)
    requires
        0 <= kind % (BARRAGE_PLAN_COUNT as int) <= 3,
    ensures
        barrage_spec(kind, dir) == seq![dir],
{
}

} // verus!
