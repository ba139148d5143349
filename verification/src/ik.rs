//! Inverse and forward kinematics of a roll-pitch-pitch leg.
//!
//! The hip rolls about x; thigh and calf pitch about y and form a planar chain
//! in the rolled plane. With all angles zero the leg hangs straight down. A
//! positive hip roll moves the foot outward, away from the long axis of the body,
//! so the hips of the right legs turn the other way about x.

use vstd::prelude::*;
use crate::arith::{
    angle, arc_cosine, cosine, deterministic, difference, keeps_order, product, quotient, root,
    sine, sum, vec_difference, vec_minus, vec_plus, vec_sum, Arithmetic,
};
use crate::config::{LegId, LegKinematics};
use crate::scalar::{minus_one, one, zero, Scalar, Vec3};

verus! {

/// Bits of pi.
pub const PI_BITS: u64 = 0x4009_21FB_5444_2D18;

/// Bits of two.
pub const TWO_BITS: u64 = 0x4000_0000_0000_0000;

/// Bits of 0.999, the fraction of the full reach a far target is drawn in to.
pub const DRAWN_IN_BITS: u64 = 0x3FEF_F7CE_D916_872B;

/// Bits of 1.001, the multiple of the least reach a near target is pushed out to.
pub const PUSHED_OUT_BITS: u64 = 0x3FF0_0418_9374_BC6A;

/// Joint angles for a foot target (rad).
#[derive(Clone, Copy, Debug, PartialEq, Eq, Structural)]
pub enum LegIkSolution {
    /// The foot reaches the target.
    Reached { hip: Scalar, thigh: Scalar, calf: Scalar },
    /// The target is out of reach; a nearby posture.
    Unreachable { hip: Scalar, thigh: Scalar, calf: Scalar },
}

impl LegIkSolution {
    /// The angles, reached or not.
    pub open spec fn joint_angles(self) -> (Scalar, Scalar, Scalar) {
        match self {
            LegIkSolution::Reached { hip, thigh, calf } => (hip, thigh, calf),
            LegIkSolution::Unreachable { hip, thigh, calf } => (hip, thigh, calf),
        }
    }

    /// Hip, thigh and calf angle, reached or not.
    pub fn angles(&self) -> (r: (Scalar, Scalar, Scalar))
        ensures
            r == self.joint_angles(),
    {
        match *self {
            LegIkSolution::Reached { hip, thigh, calf } => (hip, thigh, calf),
            LegIkSolution::Unreachable { hip, thigh, calf } => (hip, thigh, calf),
        }
    }

    /// Whether the foot reaches the target.
    pub fn is_reachable(&self) -> (r: bool)
        ensures
            r == (self is Reached),
    {
        matches!(self, LegIkSolution::Reached { .. })
    }
}

/// Lateral offset of the thigh axis: outward, so negative on the right.
pub open spec fn lateral_offset(kin: LegKinematics) -> Scalar {
    if kin.leg == LegId::FL || kin.leg == LegId::RL {
        kin.hip_to_thigh_y
    } else {
        kin.hip_to_thigh_y.neg_spec()
    }
}

/// Lateral offset of the thigh axis.
pub fn lateral_offset_of(kin: &LegKinematics) -> (r: Scalar)
    ensures
        r == lateral_offset(*kin),
{
    if kin.leg.is_left() {
        kin.hip_to_thigh_y
    } else {
        kin.hip_to_thigh_y.neg()
    }
}

/// The rotation about x of the hip of a leg that rolls outward by `roll`, and the
/// outward roll of a hip rotated by `roll`.
pub open spec fn about_x(leg: LegId, roll: Scalar) -> Scalar {
    if leg == LegId::FL || leg == LegId::RL {
        roll
    } else {
        roll.neg_spec()
    }
}

/// The rotation about x of the hip of a leg that rolls outward by `roll`, and the
/// outward roll of a hip rotated by `roll`.
pub fn roll_about_x(leg: LegId, roll: Scalar) -> (r: Scalar)
    ensures
        r == about_x(leg, roll),
{
    if leg.is_left() {
        roll
    } else {
        roll.neg()
    }
}

/// Squared height of the foot in the rolled plane: `y^2 + z^2 - l^2`. Negative
/// when the lateral offset exceeds the distance from the roll axis.
pub open spec fn planar_height_squared<A: Arithmetic>(ar: &A, l: Scalar, p: Vec3) -> Scalar {
    difference(
        ar,
        sum(ar, product(ar, p.y, p.y), product(ar, p.z, p.z)),
        product(ar, l, l),
    )
}

/// Rotation of the hip about x that brings the foot to height `z` in the rolled
/// plane.
pub open spec fn hip_roll<A: Arithmetic>(ar: &A, l: Scalar, z: Scalar, p: Vec3) -> Scalar {
    let denom = sum(ar, product(ar, l, l), product(ar, z, z));
    let c = quotient(ar, sum(ar, product(ar, l, p.y), product(ar, z, p.z)), denom);
    let s = quotient(ar, difference(ar, product(ar, l, p.z), product(ar, z, p.y)), denom);
    angle(ar, s, c)
}

/// The distance `r` of the foot drawn into the reach of the planar chain.
pub open spec fn clamped_reach<A: Arithmetic>(ar: &A, l1: Scalar, l2: Scalar, r: Scalar) -> Scalar {
    let longest = sum(ar, l1, l2);
    let shortest = difference(ar, l1, l2).abs_spec();
    if longest.lt_spec(r) {
        product(ar, longest, Scalar { bits: DRAWN_IN_BITS })
    } else if r.lt_spec(shortest) {
        product(ar, shortest, Scalar { bits: PUSHED_OUT_BITS })
    } else {
        r
    }
}

/// Whether a distance is outside the reach of the planar chain.
pub open spec fn out_of_reach<A: Arithmetic>(ar: &A, l1: Scalar, l2: Scalar, r: Scalar) -> bool {
    sum(ar, l1, l2).lt_spec(r) || r.lt_spec(difference(ar, l1, l2).abs_spec())
}

/// Angle between sides `a` and `b` of a triangle, opposite side `c`.
pub open spec fn triangle_angle<A: Arithmetic>(ar: &A, a: Scalar, b: Scalar, c: Scalar) -> Scalar {
    let cos = quotient(
        ar,
        difference(ar, sum(ar, product(ar, a, a), product(ar, b, b)), product(ar, c, c)),
        product(ar, product(ar, Scalar { bits: TWO_BITS }, a), b),
    );
    arc_cosine(ar, cos.clamp_spec(minus_one(), one()))
}

/// Knee angle of the planar chain: bends forward when negative.
pub open spec fn knee_angle<A: Arithmetic>(
    ar: &A,
    l1: Scalar,
    l2: Scalar,
    r: Scalar,
    knee_forward: bool,
) -> Scalar {
    let q = difference(ar, Scalar { bits: PI_BITS }, triangle_angle(ar, l1, l2, r));
    if knee_forward {
        q.neg_spec()
    } else {
        q
    }
}

/// Thigh pitch of the planar chain for a foot at `x` ahead and `z` above.
pub open spec fn thigh_angle<A: Arithmetic>(
    ar: &A,
    l1: Scalar,
    l2: Scalar,
    r: Scalar,
    x: Scalar,
    z: Scalar,
    knee_forward: bool,
) -> Scalar {
    let direction = angle(ar, x, z.neg_spec());
    let side = triangle_angle(ar, l1, r, l2);
    if knee_forward {
        sum(ar, direction, side)
    } else {
        difference(ar, direction, side)
    }
}

/// Joint angles for a foot target in the body frame.
pub open spec fn leg_ik<A: Arithmetic>(
    ar: &A,
    kin: LegKinematics,
    target: Vec3,
    knee_forward: bool,
) -> LegIkSolution {
    let p = vec_difference(ar, target, kin.hip_offset);
    let l = lateral_offset(kin);
    let inner = planar_height_squared(ar, l, p);
    if inner.lt_spec(zero()) {
        LegIkSolution::Unreachable { hip: zero(), thigh: zero(), calf: zero() }
    } else {
        let z = root(ar, inner).neg_spec();
        let r = root(ar, sum(ar, product(ar, p.x, p.x), product(ar, z, z)));
        let rc = clamped_reach(ar, kin.upper_leg_m, kin.lower_leg_m, r);
        let hip = about_x(kin.leg, hip_roll(ar, l, z, p));
        let thigh = thigh_angle(ar, kin.upper_leg_m, kin.lower_leg_m, rc, p.x, z, knee_forward);
        let calf = knee_angle(ar, kin.upper_leg_m, kin.lower_leg_m, rc, knee_forward);
        if out_of_reach(ar, kin.upper_leg_m, kin.lower_leg_m, r) {
            LegIkSolution::Unreachable { hip, thigh, calf }
        } else {
            LegIkSolution::Reached { hip, thigh, calf }
        }
    }
}

fn angle_of_triangle<A: Arithmetic>(ar: &A, a: Scalar, b: Scalar, c: Scalar) -> (r: Scalar)
    ensures
        deterministic(ar) ==> r == triangle_angle(ar, a, b, c),
{
    let top = ar.minus(ar.plus(ar.times(a, a), ar.times(b, b)), ar.times(c, c));
    let bottom = ar.times(ar.times(Scalar { bits: TWO_BITS }, a), b);
    ar.acos(ar.over(top, bottom).clamp(minus_one(), one()))
}

/// Solves the leg for a foot target in the body frame.
///
/// The hip angle is positive outward on either side. `knee_forward` picks the
/// branch with the knee in front. A target outside the
/// reach of the leg is reported as such, with the angles of a nearby posture.
pub fn solve_leg_ik<A: Arithmetic>(
    ar: &A,
    kin: &LegKinematics,
    target_body: Vec3,
    knee_forward: bool,
) -> (r: LegIkSolution)
    ensures
        deterministic(ar) ==> r == leg_ik(ar, *kin, target_body, knee_forward),
{
    let p = vec_minus(ar, target_body, kin.hip_offset);
    let l = lateral_offset_of(kin);
    let l1 = kin.upper_leg_m;
    let l2 = kin.lower_leg_m;
    let inner = ar.minus(ar.plus(ar.times(p.y, p.y), ar.times(p.z, p.z)), ar.times(l, l));
    if inner.lt(zero()) {
        return LegIkSolution::Unreachable { hip: zero(), thigh: zero(), calf: zero() };
    }
    let z = ar.sqrt(inner).neg();
    let denom = ar.plus(ar.times(l, l), ar.times(z, z));
    let c1 = ar.over(ar.plus(ar.times(l, p.y), ar.times(z, p.z)), denom);
    let s1 = ar.over(ar.minus(ar.times(l, p.z), ar.times(z, p.y)), denom);
    let hip = roll_about_x(kin.leg, ar.atan2(s1, c1));

    let reach = ar.sqrt(ar.plus(ar.times(p.x, p.x), ar.times(z, z)));
    let longest = ar.plus(l1, l2);
    let shortest = ar.minus(l1, l2).abs();
    let mut unreachable = false;
    let rc = if longest.lt(reach) {
        unreachable = true;
        ar.times(longest, Scalar { bits: DRAWN_IN_BITS })
    } else if reach.lt(shortest) {
        unreachable = true;
        ar.times(shortest, Scalar { bits: PUSHED_OUT_BITS })
    } else {
        reach
    };

    let bend = ar.minus(Scalar { bits: PI_BITS }, angle_of_triangle(ar, l1, l2, rc));
    let calf = if knee_forward { bend.neg() } else { bend };
    let direction = ar.atan2(p.x, z.neg());
    let side = angle_of_triangle(ar, l1, rc, l2);
    let thigh = if knee_forward { ar.plus(direction, side) } else { ar.minus(direction, side) };
    if unreachable {
        LegIkSolution::Unreachable { hip, thigh, calf }
    } else {
        LegIkSolution::Reached { hip, thigh, calf }
    }
}

/// Forward position of the foot in the rolled plane.
pub open spec fn planar_ahead<A: Arithmetic>(
    ar: &A,
    kin: LegKinematics,
    thigh: Scalar,
    calf: Scalar,
) -> Scalar {
    sum(
        ar,
        product(ar, kin.upper_leg_m, sine(ar, thigh)),
        product(ar, kin.lower_leg_m, sine(ar, sum(ar, thigh, calf))),
    )
}

/// Height of the foot in the rolled plane, negative below the hip.
pub open spec fn planar_height<A: Arithmetic>(
    ar: &A,
    kin: LegKinematics,
    thigh: Scalar,
    calf: Scalar,
) -> Scalar {
    difference(
        ar,
        product(ar, kin.upper_leg_m.neg_spec(), cosine(ar, thigh)),
        product(ar, kin.lower_leg_m, cosine(ar, sum(ar, thigh, calf))),
    )
}

/// Foot position in the body frame for given joint angles.
pub open spec fn foot_position<A: Arithmetic>(
    ar: &A,
    kin: LegKinematics,
    hip: Scalar,
    thigh: Scalar,
    calf: Scalar,
) -> Vec3 {
    let l = lateral_offset(kin);
    let z = planar_height(ar, kin, thigh, calf);
    let c = cosine(ar, about_x(kin.leg, hip));
    let s = sine(ar, about_x(kin.leg, hip));
    vec_sum(
        ar,
        Vec3 {
            x: planar_ahead(ar, kin, thigh, calf),
            y: difference(ar, product(ar, l, c), product(ar, z, s)),
            z: sum(ar, product(ar, l, s), product(ar, z, c)),
        },
        kin.hip_offset,
    )
}

/// Foot position in the body frame for given joint angles; the hip angle is
/// positive outward on either side.
pub fn forward_leg_kinematics<A: Arithmetic>(
    ar: &A,
    kin: &LegKinematics,
    hip: Scalar,
    thigh: Scalar,
    calf: Scalar,
) -> (r: Vec3)
    ensures
        deterministic(ar) ==> r == foot_position(ar, *kin, hip, thigh, calf),
{
    let l1 = kin.upper_leg_m;
    let l2 = kin.lower_leg_m;
    let l = lateral_offset_of(kin);
    let q23 = ar.plus(thigh, calf);
    let x = ar.plus(ar.times(l1, ar.sin(thigh)), ar.times(l2, ar.sin(q23)));
    let z = ar.minus(ar.times(l1.neg(), ar.cos(thigh)), ar.times(l2, ar.cos(q23)));
    let roll = roll_about_x(kin.leg, hip);
    let cos1 = ar.cos(roll);
    let sin1 = ar.sin(roll);
    let y_after = ar.minus(ar.times(l, cos1), ar.times(z, sin1));
    let z_after = ar.plus(ar.times(l, sin1), ar.times(z, cos1));
    vec_plus(ar, Vec3::new(x, y_after, z_after), kin.hip_offset)
}

/// The two knee branches of a reachable target bend by opposite angles and
/// share the hip roll; both reach the target or neither does.
pub proof fn knee_branches_mirror<A: Arithmetic>(ar: &A, kin: LegKinematics, target: Vec3)
    ensures
        ({
            let back = leg_ik(ar, kin, target, false);
            let front = leg_ik(ar, kin, target, true);
            &&& (back is Reached) == (front is Reached)
            &&& back.joint_angles().0 == front.joint_angles().0
            &&& back is Reached ==> front.joint_angles().2 == back.joint_angles().2.neg_spec()
        }),
{
}

/// Facts of the arc cosine and the difference that every rounding keeps: on
/// [-1, 1] the arc cosine lies between zero and pi, and NaN stays NaN.
pub open spec fn bends_by_half_a_turn<A: Arithmetic>(ar: &A) -> bool {
    &&& forall|x: Scalar|
        minus_one().le_spec(x) && x.le_spec(one()) ==> zero().le_spec(
            #[trigger] arc_cosine(ar, x),
        ) && arc_cosine(ar, x).le_spec(Scalar { bits: PI_BITS })
    &&& forall|x: Scalar| x.is_nan_spec() ==> (#[trigger] arc_cosine(ar, x)).is_nan_spec()
    &&& forall|a: Scalar, b: Scalar|
        b.is_nan_spec() ==> (#[trigger] difference(ar, a, b)).is_nan_spec()
}

/// A knee in front has a calf angle that is not positive, a knee behind one that
/// is not negative, for every target.
pub proof fn the_branch_gives_the_sign_of_the_calf<A: Arithmetic>(
    ar: &A,
    kin: LegKinematics,
    target: Vec3,
    knee_forward: bool,
)
    requires
        keeps_order(ar),
        bends_by_half_a_turn(ar),
    ensures
        ({
            let calf = leg_ik(ar, kin, target, knee_forward).joint_angles().2;
            if knee_forward {
                !zero().lt_spec(calf)
            } else {
                !calf.lt_spec(zero())
            }
        }),
{
    let p = vec_difference(ar, target, kin.hip_offset);
    let inner = planar_height_squared(ar, lateral_offset(kin), p);
    if !inner.lt_spec(zero()) {
        let z = root(ar, inner).neg_spec();
        let r = root(ar, sum(ar, product(ar, p.x, p.x), product(ar, z, z)));
        let rc = clamped_reach(ar, kin.upper_leg_m, kin.lower_leg_m, r);
        let fold = triangle_angle(ar, kin.upper_leg_m, kin.lower_leg_m, rc);
        let bend = difference(ar, Scalar { bits: PI_BITS }, fold);
        assert(fold.is_nan_spec() || fold.le_spec(Scalar { bits: PI_BITS }));
        assert(!bend.lt_spec(zero()));
    }
}

/// A right leg moves as a left leg with lateral offset and hip angle negated.
pub proof fn a_right_leg_is_a_mirrored_left_leg<A: Arithmetic>(
    ar: &A,
    left: LegKinematics,
    right: LegKinematics,
    hip: Scalar,
    thigh: Scalar,
    calf: Scalar,
)
    requires
        left.leg == LegId::FL || left.leg == LegId::RL,
        right.leg == LegId::FR || right.leg == LegId::RR,
        right.hip_to_thigh_y == left.hip_to_thigh_y.neg_spec(),
        right.upper_leg_m == left.upper_leg_m,
        right.lower_leg_m == left.lower_leg_m,
        right.hip_offset == left.hip_offset,
    ensures
        foot_position(ar, right, hip, thigh, calf) == foot_position(
            ar,
            left,
            hip.neg_spec(),
            thigh,
            calf,
        ),
{
}

/// The steps that place a foot to the side are exact under the reading `val` of
/// scalars as real numbers: negation, the two products, their difference and the
/// sum with the place of the hip.
pub open spec fn side_is_exact<A: Arithmetic>(
    ar: &A,
    val: spec_fn(Scalar) -> real,
    kin: LegKinematics,
    hip: Scalar,
    z: Scalar,
) -> bool {
    let l = lateral_offset(kin);
    let c = cosine(ar, about_x(kin.leg, hip));
    let s = sine(ar, about_x(kin.leg, hip));
    let y = difference(ar, product(ar, l, c), product(ar, z, s));
    &&& val(kin.hip_to_thigh_y.neg_spec()) == -val(kin.hip_to_thigh_y)
    &&& val(product(ar, l, c)) == val(l) * val(c)
    &&& val(product(ar, z, s)) == val(z) * val(s)
    &&& val(y) == val(product(ar, l, c)) - val(product(ar, z, s))
    &&& val(sum(ar, y, kin.hip_offset.y)) == val(y) + val(kin.hip_offset.y)
}

/// Sine and cosine of the angle `a`, and of its negative, are those of an angle
/// between zero and a quarter turn, both excluded, and of its negative.
pub open spec fn is_acute<A: Arithmetic>(ar: &A, val: spec_fn(Scalar) -> real, a: Scalar) -> bool {
    let s = val(sine(ar, a));
    let c = val(cosine(ar, a));
    &&& s > 0real
    &&& c > 0real
    &&& s * s + c * c == 1real
    &&& val(sine(ar, a.neg_spec())) == -s
    &&& val(cosine(ar, a.neg_spec())) == c
}

/// A positive hip roll below a quarter turn moves the foot outward on either
/// side, when the foot hangs lower than the thigh axis is offset: to the left of
/// its place without roll on the left, to the right of it on the right.
pub proof fn positive_roll_moves_the_foot_outward<A: Arithmetic>(
    ar: &A,
    val: spec_fn(Scalar) -> real,
    kin: LegKinematics,
    hip: Scalar,
    thigh: Scalar,
    calf: Scalar,
)
    requires
        is_acute(ar, val, hip),
        side_is_exact(ar, val, kin, hip, planar_height(ar, kin, thigh, calf)),
        0real <= val(kin.hip_to_thigh_y),
        val(kin.hip_to_thigh_y) <= -val(planar_height(ar, kin, thigh, calf)),
        val(planar_height(ar, kin, thigh, calf)) < 0real,
    ensures
        ({
            let y = val(foot_position(ar, kin, hip, thigh, calf).y);
            let rest = val(lateral_offset(kin)) + val(kin.hip_offset.y);
            if kin.leg == LegId::FL || kin.leg == LegId::RL {
                y > rest
            } else {
                y < rest
            }
        }),
{
    let l = val(kin.hip_to_thigh_y);
    let d = -val(planar_height(ar, kin, thigh, calf));
    let s = val(sine(ar, hip));
    let c = val(cosine(ar, hip));
    assert(c < 1real) by (nonlinear_arith)
        requires
            s > 0real,
            c > 0real,
            s * s + c * c == 1real,
    ;
    assert(s > 1real - c) by (nonlinear_arith)
        requires
            s > 0real,
            0real < c < 1real,
            s * s + c * c == 1real,
    ;
    assert(l * c + d * s > l) by (nonlinear_arith)
        requires
            0real <= l <= d,
            d > 0real,
            0real < c < 1real,
            s > 1real - c,
    ;
    let z = val(planar_height(ar, kin, thigh, calf));
    assert(z * s == -(d * s) && z * (-s) == d * s && (-l) * c == -(l * c)) by (nonlinear_arith)
        requires
            d == -z,
    ;
}

} // verus!
