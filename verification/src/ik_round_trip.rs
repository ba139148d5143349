//! The forward kinematics undoes the inverse kinematics.
//!
//! The law is one of real numbers. It is stated for a reading of scalars as real
//! numbers under which the steps of the two maps are exact, and proved from what
//! root, sine, cosine and their inverses are.

use vstd::prelude::*;
use crate::arith::{angle, cosine, difference, product, root, sine, sum, vec_difference, Arithmetic};
use crate::config::LegKinematics;
use crate::ik::{
    about_x, foot_position, hip_roll, knee_angle, lateral_offset, leg_ik, planar_ahead,
    planar_height, planar_height_squared, thigh_angle, triangle_angle, PI_BITS,
};
use crate::reals::{
    associates, cancels, commutes, distributes, distributes_left, negates, not_negative,
    one_is_neutral, same_square, square_of_difference, square_of_product, subtracts, subtracts_left,
    swaps, times,
};
use crate::scalar::{Scalar, Vec3};

verus! {

/// Sine and cosine of an angle.
pub struct Turn {
    /// The sine.
    pub s: real,
    /// The cosine.
    pub c: real,
}

/// The turn by the sum of two angles.
pub open spec fn joined(a: Turn, b: Turn) -> Turn {
    Turn { s: times(a.s, b.c) + times(a.c, b.s), c: times(a.c, b.c) - times(a.s, b.s) }
}

/// The turn by the opposite angle.
pub open spec fn turned_back(a: Turn) -> Turn {
    Turn { s: -a.s, c: a.c }
}

/// The turn by half a turn less an angle.
pub open spec fn supplement(a: Turn) -> Turn {
    Turn { s: a.s, c: -a.c }
}

/// `a` is the angle between the sides `x` and `y` of a triangle, opposite `z`, by the
/// law of cosines.
pub open spec fn is_corner(a: Turn, x: real, y: real, z: real) -> bool {
    &&& times(a.s, a.s) + times(a.c, a.c) == 1real
    &&& a.s >= 0real
    &&& 2real * times(x, times(y, a.c)) == times(x, x) + times(y, y) - times(z, z)
}

proof fn scaled_square(k: real, a: Turn)
    requires
        times(a.s, a.s) + times(a.c, a.c) == 1real,
    ensures
        times(times(k, a.s), times(k, a.s)) == times(k, k) - times(times(k, a.c), times(k, a.c)),
{
    square_of_product(k, a.s);
    square_of_product(k, a.c);
    distributes(times(k, k), times(a.s, a.s), times(a.c, a.c));
    one_is_neutral(times(k, k));
}

/// In a triangle with sides `a`, `b` and `r`, the corner between `a` and `b` and the
/// one between `a` and `r` see the third corner at the same place.
proof fn corners_meet(p: Turn, q: Turn, a: real, b: real, r: real)
    requires
        a > 0real,
        b > 0real,
        r > 0real,
        is_corner(p, a, b, r),
        is_corner(q, a, r, b),
    ensures
        times(b, p.c) == a - times(r, q.c),
        times(b, p.s) == times(r, q.s),
{
    let m = times(b, p.c);
    let n = times(r, q.c);
    distributes(a, m, n);
    assert(times(a, m + n) == times(a, a));
    cancels(a, m + n, a);
    assert(n == a - m);
    square_of_difference(a, m);
    assert(times(n, n) == times(a, a) - 2real * times(a, m) + times(m, m));
    scaled_square(b, p);
    scaled_square(r, q);
    not_negative(b, p.s);
    not_negative(r, q.s);
    assert(times(times(b, p.s), times(b, p.s)) == times(times(r, q.s), times(r, q.s)));
    same_square(times(b, p.s), times(r, q.s));
}

/// Two segments, the second turned against the first by half a turn less `a`, seen
/// from the end of the first.
proof fn chain_regroups(l1: real, l2: real, t: Turn, a: Turn)
    ensures
        times(l1, t.s) + times(l2, joined(t, supplement(a)).s) == times(t.s, l1 - times(l2, a.c))
            + times(t.c, times(l2, a.s)),
        -times(l1, t.c) - times(l2, joined(t, supplement(a)).c) == times(t.s, times(l2, a.s))
            - times(t.c, l1 - times(l2, a.c)),
{
    let e = joined(t, supplement(a));
    negates(t.s, a.c);
    negates(t.c, a.c);
    assert(e.s == times(t.c, a.s) - times(t.s, a.c));
    assert(e.c == -times(t.c, a.c) - times(t.s, a.s));
    subtracts(l2, times(t.c, a.s), times(t.s, a.c));
    swaps(l2, t.c, a.s);
    swaps(l2, t.s, a.c);
    commutes(l1, t.s);
    subtracts(t.s, l1, times(l2, a.c));
    distributes(l2, times(t.c, a.c), times(t.s, a.s));
    negates(l2, times(t.c, a.c) + times(t.s, a.s));
    assert(e.c == -(times(t.c, a.c) + times(t.s, a.s)));
    swaps(l2, t.c, a.c);
    swaps(l2, t.s, a.s);
    commutes(l1, t.c);
    subtracts(t.c, l1, times(l2, a.c));
}

/// Turning away by an angle and back by it.
proof fn turning_back(d: Turn, b: Turn, t: Turn)
    requires
        times(b.s, b.s) + times(b.c, b.c) == 1real,
        t.s == times(d.s, b.c) - times(d.c, b.s),
        t.c == times(d.c, b.c) + times(d.s, b.s),
    ensures
        times(t.s, b.c) + times(t.c, b.s) == d.s,
        times(t.s, b.s) - times(t.c, b.c) == -d.c,
{
    subtracts_left(b.c, times(d.s, b.c), times(d.c, b.s));
    distributes_left(b.s, times(d.c, b.c), times(d.s, b.s));
    associates(d.s, b.c, b.c);
    associates(d.c, b.s, b.c);
    associates(d.c, b.c, b.s);
    associates(d.s, b.s, b.s);
    commutes(b.s, b.c);
    distributes(d.s, times(b.s, b.s), times(b.c, b.c));
    one_is_neutral(d.s);
    subtracts_left(b.s, times(d.s, b.c), times(d.c, b.s));
    distributes_left(b.c, times(d.c, b.c), times(d.s, b.s));
    associates(d.s, b.c, b.s);
    associates(d.c, b.s, b.s);
    associates(d.c, b.c, b.c);
    associates(d.s, b.s, b.c);
    distributes(d.c, times(b.s, b.s), times(b.c, b.c));
    one_is_neutral(d.c);
}

/// The planar chain ends at distance `r` in the direction `d`, when its corners are
/// those of a triangle; `b` may be turned back together with `a`.
proof fn signed_chain_closes(l1: real, l2: real, r: real, d: Turn, a: Turn, b: Turn)
    requires
        times(b.s, b.s) + times(b.c, b.c) == 1real,
        times(l2, a.c) == l1 - times(r, b.c),
        times(l2, a.s) == times(r, b.s),
    ensures
        ({
            let t = joined(d, turned_back(b));
            let e = joined(t, supplement(a));
            &&& times(l1, t.s) + times(l2, e.s) == times(r, d.s)
            &&& -times(l1, t.c) - times(l2, e.c) == -times(r, d.c)
        }),
{
    let t = joined(d, turned_back(b));
    negates(d.c, b.s);
    negates(d.s, b.s);
    turning_back(d, b, t);
    chain_regroups(l1, l2, t, a);
    assert(l1 - times(l2, a.c) == times(r, b.c));
    swaps(t.s, r, b.c);
    swaps(t.c, r, b.s);
    distributes(r, times(t.s, b.c), times(t.c, b.s));
    swaps(t.s, r, b.s);
    swaps(t.c, r, b.c);
    subtracts(r, times(t.s, b.s), times(t.c, b.c));
    negates(r, d.c);
}

/// The planar chain ends at distance `r` in the direction `d`, on either branch.
proof fn chain_closes(l1: real, l2: real, r: real, d: Turn, fold: Turn, side: Turn, front: bool)
    requires
        l1 > 0real,
        l2 > 0real,
        r > 0real,
        is_corner(fold, l1, l2, r),
        is_corner(side, l1, r, l2),
    ensures
        ({
            let calf = if front {
                turned_back(supplement(fold))
            } else {
                supplement(fold)
            };
            let t = if front {
                joined(d, side)
            } else {
                joined(d, turned_back(side))
            };
            let e = joined(t, calf);
            &&& times(l1, t.s) + times(l2, e.s) == times(r, d.s)
            &&& -times(l1, t.c) - times(l2, e.c) == -times(r, d.c)
        }),
{
    corners_meet(fold, side, l1, l2, r);
    if front {
        let a = turned_back(fold);
        let b = turned_back(side);
        negates(side.s, side.s);
        negates(-side.s, side.s);
        negates(l2, fold.s);
        negates(r, side.s);
        signed_chain_closes(l1, l2, r, d, a, b);
        assert(turned_back(b) == side);
        assert(supplement(a) == turned_back(supplement(fold)));
    } else {
        signed_chain_closes(l1, l2, r, d, fold, side);
    }
}

/// The hip turns the plane of the leg onto the target.
proof fn roll_closes(l: real, z: real, y: real, h: real, roll: Turn, d: real)
    requires
        d == times(l, l) + times(z, z),
        d > 0real,
        times(d, roll.c) == times(l, y) + times(z, h),
        times(d, roll.s) == times(l, h) - times(z, y),
    ensures
        times(l, roll.c) - times(z, roll.s) == y,
        times(l, roll.s) + times(z, roll.c) == h,
{
    let c = roll.c;
    let s = roll.s;
    subtracts(d, times(l, c), times(z, s));
    swaps(d, l, c);
    swaps(d, z, s);
    distributes(l, times(l, y), times(z, h));
    subtracts(z, times(l, h), times(z, y));
    swaps(z, l, h);
    associates(l, l, y);
    associates(z, z, y);
    distributes_left(y, times(l, l), times(z, z));
    assert(times(d, times(l, c) - times(z, s)) == times(d, y));
    cancels(d, times(l, c) - times(z, s), y);
    distributes(d, times(l, s), times(z, c));
    swaps(d, l, s);
    swaps(d, z, c);
    subtracts(l, times(l, h), times(z, y));
    distributes(z, times(l, y), times(z, h));
    swaps(z, l, y);
    associates(l, l, h);
    associates(z, z, h);
    distributes_left(h, times(l, l), times(z, z));
    assert(times(d, times(l, s) + times(z, c)) == times(d, h));
    cancels(d, times(l, s) + times(z, c), h);
}

/// The turn that the arithmetic gives of an angle.
pub open spec fn turn_of<A: Arithmetic>(ar: &A, val: spec_fn(Scalar) -> real, a: Scalar) -> Turn {
    Turn { s: val(sine(ar, a)), c: val(cosine(ar, a)) }
}

/// The steps of the inverse map are exact under the reading `val`: the target as
/// seen from the hip, the height and the reach in the plane of the leg, the
/// direction and the corners of the planar chain, the roll of the hip, and the
/// angles put together of them.
pub open spec fn inverse_is_exact<A: Arithmetic>(
    ar: &A,
    val: spec_fn(Scalar) -> real,
    kin: LegKinematics,
    target: Vec3,
    knee_forward: bool,
) -> bool {
    let p = vec_difference(ar, target, kin.hip_offset);
    let l = lateral_offset(kin);
    let z = root(ar, planar_height_squared(ar, l, p)).neg_spec();
    let r = root(ar, sum(ar, product(ar, p.x, p.x), product(ar, z, z)));
    let l1 = kin.upper_leg_m;
    let l2 = kin.lower_leg_m;
    let d = times(val(l), val(l)) + times(val(z), val(z));
    let dir = turn_of(ar, val, angle(ar, p.x, z.neg_spec()));
    let fold = turn_of(ar, val, triangle_angle(ar, l1, l2, r));
    let side = turn_of(ar, val, triangle_angle(ar, l1, r, l2));
    let roll = turn_of(ar, val, hip_roll(ar, l, z, p));
    let ik = leg_ik(ar, kin, target, knee_forward).joint_angles();
    &&& val(p.x) + val(kin.hip_offset.x) == val(target.x)
    &&& val(p.y) + val(kin.hip_offset.y) == val(target.y)
    &&& val(p.z) + val(kin.hip_offset.z) == val(target.z)
    &&& d > 0real
    &&& val(r) > 0real
    &&& times(val(r), dir.s) == val(p.x)
    &&& times(val(r), dir.c) == -val(z)
    &&& is_corner(fold, val(l1), val(l2), val(r))
    &&& is_corner(side, val(l1), val(r), val(l2))
    &&& times(d, roll.c) == times(val(l), val(p.y)) + times(val(z), val(p.z))
    &&& times(d, roll.s) == times(val(l), val(p.z)) - times(val(z), val(p.y))
    &&& turn_of(ar, val, ik.2) == (if knee_forward {
        turned_back(supplement(fold))
    } else {
        supplement(fold)
    })
    &&& turn_of(ar, val, ik.1) == (if knee_forward {
        joined(dir, side)
    } else {
        joined(dir, turned_back(side))
    })
    &&& turn_of(ar, val, sum(ar, ik.1, ik.2)) == joined(
        turn_of(ar, val, ik.1),
        turn_of(ar, val, ik.2),
    )
}

/// The steps of the forward map are exact under the reading `val`.
pub open spec fn forward_is_exact<A: Arithmetic>(
    ar: &A,
    val: spec_fn(Scalar) -> real,
    kin: LegKinematics,
    hip: Scalar,
    thigh: Scalar,
    calf: Scalar,
) -> bool {
    let foot = foot_position(ar, kin, hip, thigh, calf);
    let l = val(lateral_offset(kin));
    let z = val(planar_height(ar, kin, thigh, calf));
    let t = turn_of(ar, val, thigh);
    let end = turn_of(ar, val, sum(ar, thigh, calf));
    let roll = turn_of(ar, val, about_x(kin.leg, hip));
    let l1 = val(kin.upper_leg_m);
    let l2 = val(kin.lower_leg_m);
    &&& val(planar_ahead(ar, kin, thigh, calf)) == times(l1, t.s) + times(l2, end.s)
    &&& z == -times(l1, t.c) - times(l2, end.c)
    &&& val(foot.x) == val(planar_ahead(ar, kin, thigh, calf)) + val(kin.hip_offset.x)
    &&& val(foot.y) == times(l, roll.c) - times(z, roll.s) + val(kin.hip_offset.y)
    &&& val(foot.z) == times(l, roll.s) + times(z, roll.c) + val(kin.hip_offset.z)
}

/// The foot of a leg with the angles that were found for a target in reach is at
/// the target, on either knee branch.
pub proof fn forward_undoes_inverse<A: Arithmetic>(
    ar: &A,
    val: spec_fn(Scalar) -> real,
    kin: LegKinematics,
    target: Vec3,
    knee_forward: bool,
)
    requires
        leg_ik(ar, kin, target, knee_forward) is Reached,
        val(kin.upper_leg_m) > 0real,
        val(kin.lower_leg_m) > 0real,
        inverse_is_exact(ar, val, kin, target, knee_forward),
        ({
            let q = leg_ik(ar, kin, target, knee_forward).joint_angles();
            forward_is_exact(ar, val, kin, q.0, q.1, q.2)
        }),
    ensures
        ({
            let q = leg_ik(ar, kin, target, knee_forward).joint_angles();
            let foot = foot_position(ar, kin, q.0, q.1, q.2);
            &&& val(foot.x) == val(target.x)
            &&& val(foot.y) == val(target.y)
            &&& val(foot.z) == val(target.z)
        }),
{
    let p = vec_difference(ar, target, kin.hip_offset);
    let l = lateral_offset(kin);
    let z = root(ar, planar_height_squared(ar, l, p)).neg_spec();
    let r = root(ar, sum(ar, product(ar, p.x, p.x), product(ar, z, z)));
    let l1 = kin.upper_leg_m;
    let l2 = kin.lower_leg_m;
    let d = times(val(l), val(l)) + times(val(z), val(z));
    let dir = turn_of(ar, val, angle(ar, p.x, z.neg_spec()));
    let fold = turn_of(ar, val, triangle_angle(ar, l1, l2, r));
    let side = turn_of(ar, val, triangle_angle(ar, l1, r, l2));
    let roll = turn_of(ar, val, hip_roll(ar, l, z, p));
    let q = leg_ik(ar, kin, target, knee_forward).joint_angles();
    assert(about_x(kin.leg, q.0) == hip_roll(ar, l, z, p));
    chain_closes(val(l1), val(l2), val(r), dir, fold, side, knee_forward);
    assert(val(planar_height(ar, kin, q.1, q.2)) == val(z));
    roll_closes(val(l), val(z), val(p.y), val(p.z), roll, d);
}

/// The angles that the planar chain is put together of add up as angles do, under the
/// reading `val`: half a turn less the fold, the direction with the side added or taken off,
/// and the thigh with the knee.
pub open spec fn angles_add_up<A: Arithmetic>(
    ar: &A,
    val: spec_fn(Scalar) -> real,
    dir: Scalar,
    fold: Scalar,
    side: Scalar,
    knee_forward: bool,
) -> bool {
    let bend = difference(ar, Scalar { bits: PI_BITS }, fold);
    let knee = if knee_forward { bend.neg_spec() } else { bend };
    let thigh = if knee_forward { sum(ar, dir, side) } else { difference(ar, dir, side) };
    let d = turn_of(ar, val, dir);
    let s = turn_of(ar, val, side);
    &&& turn_of(ar, val, bend) == supplement(turn_of(ar, val, fold))
    &&& turn_of(ar, val, bend.neg_spec()) == turned_back(turn_of(ar, val, bend))
    &&& turn_of(ar, val, sum(ar, dir, side)) == joined(d, s)
    &&& turn_of(ar, val, difference(ar, dir, side)) == joined(d, turned_back(s))
    &&& turn_of(ar, val, sum(ar, thigh, knee)) == joined(
        turn_of(ar, val, thigh),
        turn_of(ar, val, knee),
    )
}

/// Thigh and knee reach the point: the two segments, the second turned by the knee against
/// the first, end at `x` ahead and `z` above, on either knee branch.
pub proof fn thigh_and_knee_reach_the_point<A: Arithmetic>(
    ar: &A,
    val: spec_fn(Scalar) -> real,
    l1: Scalar,
    l2: Scalar,
    r: Scalar,
    x: Scalar,
    z: Scalar,
    knee_forward: bool,
)
    requires
        val(l1) > 0real,
        val(l2) > 0real,
        val(r) > 0real,
        ({
            let dir = angle(ar, x, z.neg_spec());
            let fold = triangle_angle(ar, l1, l2, r);
            let side = triangle_angle(ar, l1, r, l2);
            &&& times(val(r), val(sine(ar, dir))) == val(x)
            &&& times(val(r), val(cosine(ar, dir))) == -val(z)
            &&& is_corner(turn_of(ar, val, fold), val(l1), val(l2), val(r))
            &&& is_corner(turn_of(ar, val, side), val(l1), val(r), val(l2))
            &&& angles_add_up(ar, val, dir, fold, side, knee_forward)
        }),
    ensures
        ({
            let thigh = thigh_angle(ar, l1, l2, r, x, z, knee_forward);
            let low = sum(ar, thigh, knee_angle(ar, l1, l2, r, knee_forward));
            &&& times(val(l1), val(sine(ar, thigh))) + times(val(l2), val(sine(ar, low))) == val(x)
            &&& -times(val(l1), val(cosine(ar, thigh))) - times(val(l2), val(cosine(ar, low)))
                == val(z)
        }),
{
    let dir = turn_of(ar, val, angle(ar, x, z.neg_spec()));
    let fold = turn_of(ar, val, triangle_angle(ar, l1, l2, r));
    let side = turn_of(ar, val, triangle_angle(ar, l1, r, l2));
    chain_closes(val(l1), val(l2), val(r), dir, fold, side, knee_forward);
}

} // verus!
