//! Laws of the linear models: what their blocks and rows owe to the body they stand for.
//!
//! Each law is stated for a reading of scalars as real numbers under which the steps
//! that it rests on are exact.

use vstd::prelude::*;
use crate::arith::{cosine, cross, difference, product, sine, sum, Arithmetic};
use crate::dynamics::LEAST_MASS_BITS;
use crate::estimation_laws::row_sum;
use crate::exact::{
    adds, adds_product, ahead, aside, crossed, heading_parts, inner, mapped, read, shares, takes,
    turns, RealVec,
};
use crate::full_centroidal_iter::HorizonKernel;
use crate::full_centroidal_mpc::{FootTarget, FullCentroidalState};
use crate::horizon_feet::{
    carried, foothold, input_entry, miss_start, selector, velocity_coef, LegFrame,
};
use crate::leg_odometry::mat_times;
use crate::linear_blocks::{
    basis, force_block, inverse_mass, joint_block, mat_difference, mat_negated, mat_product,
    tilt_column, tilt_torque, yaw_frame,
};
use crate::linearisation::body_state_entry;
use crate::mechanics_laws::{adds_vector, crosses, dots, joined, maps, takes_vector};
use crate::reals::{
    associates, commutes, distributes, distributes_left, is_reading, negates, one_is_neutral,
    subtracts_left, times, vanishes,
};
use crate::scalar::{one, skew_3, zero, Mat3, Scalar, Vec3};

verus! {

/// A row times a matrix, as a vector, is exact.
pub open spec fn row_maps<A: Arithmetic>(
    ar: &A,
    val: spec_fn(Scalar) -> real,
    r: Vec3,
    m: Mat3,
) -> bool {
    &&& dots(ar, val, r, Vec3 { x: m.x.x, y: m.y.x, z: m.z.x })
    &&& dots(ar, val, r, Vec3 { x: m.x.y, y: m.y.y, z: m.z.y })
    &&& dots(ar, val, r, Vec3 { x: m.x.z, y: m.y.z, z: m.z.z })
}

/// A matrix times a matrix is exact, entry by entry.
pub open spec fn composes<A: Arithmetic>(
    ar: &A,
    val: spec_fn(Scalar) -> real,
    a: Mat3,
    b: Mat3,
) -> bool {
    row_maps(ar, val, a.x, b) && row_maps(ar, val, a.y, b) && row_maps(ar, val, a.z, b)
}

/// `((a p + b q) + c r) d` in three parts.
proof fn spreads(a: real, p: real, b: real, q: real, c: real, r: real, d: real)
    ensures
        times(times(a, p) + times(b, q) + times(c, r), d) == times(a, times(p, d)) + times(
            b,
            times(q, d),
        ) + times(c, times(r, d)),
{
    distributes_left(d, times(a, p) + times(b, q), times(c, r));
    distributes_left(d, times(a, p), times(b, q));
    associates(a, p, d);
    associates(b, q, d);
    associates(c, r, d);
}

/// `a (p + q + r)` in three parts.
proof fn spreads_sum(a: real, p: real, q: real, r: real)
    ensures
        times(a, p + q + r) == times(a, p) + times(a, q) + times(a, r),
{
    distributes(a, p + q, r);
    distributes(a, p, q);
}

/// A row applied after a matrix is the row times the matrix.
proof fn row_through(r: RealVec, x: RealVec, y: RealVec, z: RealVec, v: RealVec)
    ensures
        times(times(r.x, x.x) + times(r.y, y.x) + times(r.z, z.x), v.x) + times(
            times(r.x, x.y) + times(r.y, y.y) + times(r.z, z.y),
            v.y,
        ) + times(times(r.x, x.z) + times(r.y, y.z) + times(r.z, z.z), v.z) == inner(
            r,
            RealVec { x: inner(x, v), y: inner(y, v), z: inner(z, v) },
        ),
{
    spreads(r.x, x.x, r.y, y.x, r.z, z.x, v.x);
    spreads(r.x, x.y, r.y, y.y, r.z, z.y, v.y);
    spreads(r.x, x.z, r.y, y.z, r.z, z.z, v.z);
    spreads_sum(r.x, times(x.x, v.x), times(x.y, v.y), times(x.z, v.z));
    spreads_sum(r.y, times(y.x, v.x), times(y.y, v.y), times(y.z, v.z));
    spreads_sum(r.z, times(z.x, v.x), times(z.y, v.y), times(z.z, v.z));
}

/// A product of matrices applies one after the other.
pub proof fn a_product_applies_both<A: Arithmetic>(
    ar: &A,
    val: spec_fn(Scalar) -> real,
    a: Mat3,
    b: Mat3,
    v: RealVec,
)
    requires
        composes(ar, val, a, b),
    ensures
        mapped(val, mat_product(ar, a, b), v) == mapped(val, a, mapped(val, b, v)),
{
    row_through(read(val, a.x), read(val, b.x), read(val, b.y), read(val, b.z), v);
    row_through(read(val, a.y), read(val, b.x), read(val, b.y), read(val, b.z), v);
    row_through(read(val, a.z), read(val, b.x), read(val, b.y), read(val, b.z), v);
}

/// The skew matrix of a vector takes another to their cross product.
pub proof fn a_skew_matrix_crosses(val: spec_fn(Scalar) -> real, a: Vec3, v: RealVec)
    requires
        is_reading(val),
    ensures
        mapped(val, skew_3(a), v) == crossed(read(val, a), v),
{
    vanishes(v.x);
    vanishes(v.y);
    vanishes(v.z);
    commutes(0real, v.x);
    commutes(0real, v.y);
    commutes(0real, v.z);
    assert(val(a.x.neg_spec()) == -val(a.x));
    assert(val(a.y.neg_spec()) == -val(a.y));
    assert(val(a.z.neg_spec()) == -val(a.z));
    negates(val(a.z), v.y);
    negates(val(a.x), v.z);
    negates(val(a.y), v.x);
}

/// A matrix with its sign changed gives the opposite.
proof fn a_negated_matrix_reverses(val: spec_fn(Scalar) -> real, m: Mat3, v: RealVec)
    requires
        is_reading(val),
    ensures
        ({
            let a = mapped(val, mat_negated(m), v);
            let b = mapped(val, m, v);
            a.x == -b.x && a.y == -b.y && a.z == -b.z
        }),
{
    negated_row(val, m.x, v);
    negated_row(val, m.y, v);
    negated_row(val, m.z, v);
}

proof fn negated_row(val: spec_fn(Scalar) -> real, r: Vec3, v: RealVec)
    requires
        is_reading(val),
    ensures
        inner(
            RealVec { x: val(r.x.neg_spec()), y: val(r.y.neg_spec()), z: val(r.z.neg_spec()) },
            v,
        ) == -inner(read(val, r), v),
{
    assert(val(r.x.neg_spec()) == -val(r.x));
    assert(val(r.y.neg_spec()) == -val(r.y));
    assert(val(r.z.neg_spec()) == -val(r.z));
    negates(val(r.x), v.x);
    negates(val(r.y), v.y);
    negates(val(r.z), v.z);
}

/// The force block takes a force to the angular acceleration that its torque at the arm
/// gives.
pub proof fn the_force_block_turns_by_the_torque<A: Arithmetic>(
    ar: &A,
    val: spec_fn(Scalar) -> real,
    inv: Mat3,
    arm: Vec3,
    f: RealVec,
)
    requires
        is_reading(val),
        composes(ar, val, inv, skew_3(arm)),
    ensures
        mapped(val, force_block(ar, inv, arm), f) == mapped(
            val,
            inv,
            crossed(read(val, arm), f),
        ),
{
    a_product_applies_both(ar, val, inv, skew_3(arm), f);
    a_skew_matrix_crosses(val, arm, f);
}

/// The joint block takes a change of the joint angles to the angular acceleration that the
/// force gives at the foot so moved: by the torque of the way the foot moves, turned into
/// the world, with the force.
pub proof fn the_joint_block_turns_by_the_moved_foot<A: Arithmetic>(
    ar: &A,
    val: spec_fn(Scalar) -> real,
    inv: Mat3,
    f: Vec3,
    rz: Mat3,
    j: Mat3,
    dq: RealVec,
)
    requires
        is_reading(val),
        composes(ar, val, mat_negated(inv), skew_3(f)),
        composes(ar, val, mat_product(ar, mat_negated(inv), skew_3(f)), rz),
        composes(
            ar,
            val,
            mat_product(ar, mat_product(ar, mat_negated(inv), skew_3(f)), rz),
            j,
        ),
    ensures
        mapped(val, joint_block(ar, inv, f, rz, j), dq) == mapped(
            val,
            inv,
            crossed(mapped(val, rz, mapped(val, j, dq)), read(val, f)),
        ),
{
    let turn = mat_product(ar, mat_negated(inv), skew_3(f));
    let way = mapped(val, rz, mapped(val, j, dq));
    a_product_applies_both(ar, val, mat_product(ar, turn, rz), j, dq);
    a_product_applies_both(ar, val, turn, rz, mapped(val, j, dq));
    a_product_applies_both(ar, val, mat_negated(inv), skew_3(f), way);
    a_skew_matrix_crosses(val, f, way);
    let g = read(val, f);
    let back = crossed(g, way);
    a_negated_matrix_reverses(val, inv, back);
    let forth = crossed(way, g);
    commutes(g.y, way.z);
    commutes(g.z, way.y);
    commutes(g.z, way.x);
    commutes(g.x, way.z);
    commutes(g.x, way.y);
    commutes(g.y, way.x);
    assert(forth.x == -back.x && forth.y == -back.y && forth.z == -back.z);
    opposite_row(read(val, inv.x), back, forth);
    opposite_row(read(val, inv.y), back, forth);
    opposite_row(read(val, inv.z), back, forth);
}

proof fn opposite_row(r: RealVec, a: RealVec, b: RealVec)
    requires
        b.x == -a.x,
        b.y == -a.y,
        b.z == -a.z,
    ensures
        inner(r, b) == -inner(r, a),
{
    negates(r.x, a.x);
    negates(r.y, a.y);
    negates(r.z, a.z);
}

/// One over the mass times the mass is one, for a mass at or above the floor.
pub proof fn the_inverse_mass_undoes_the_mass<A: Arithmetic>(
    ar: &A,
    val: spec_fn(Scalar) -> real,
    mass: Scalar,
)
    requires
        val(one()) == 1real,
        !mass.is_nan_spec(),
        !mass.lt_spec(Scalar { bits: LEAST_MASS_BITS }),
        shares(ar, val, one(), mass),
    ensures
        times(val(inverse_mass(ar, mass)), val(mass)) == 1real,
{
}

/// A yaw frame turns a vector to the heading: what was ahead in the body is ahead of the
/// heading, what was to the left is to its left, and the height stays.
pub proof fn a_yaw_frame_turns_to_the_heading<A: Arithmetic>(
    ar: &A,
    val: spec_fn(Scalar) -> real,
    yaw: Scalar,
    v: RealVec,
)
    requires
        is_reading(val),
        val(one()) == 1real,
        turns(ar, val, yaw),
    ensures
        ({
            let w = mapped(val, yaw_frame(ar, yaw), v);
            &&& ahead(ar, val, yaw, w.x, w.y) == v.x
            &&& aside(ar, val, yaw, w.x, w.y) == v.y
            &&& w.z == v.z
        }),
{
    let c = val(cosine(ar, yaw));
    let s = val(sine(ar, yaw));
    assert(val(sine(ar, yaw).neg_spec()) == -s);
    negates(s, v.y);
    vanishes(v.x);
    vanishes(v.y);
    vanishes(v.z);
    commutes(0real, v.x);
    commutes(0real, v.y);
    commutes(0real, v.z);
    one_is_neutral(v.z);
    commutes(1real, v.z);
    commutes(c, v.x);
    commutes(s, v.y);
    commutes(s, v.x);
    commutes(c, v.y);
    heading_parts(c, s, v.x, v.y);
}

/// A foothold given in the world stays there; one given as an offset lies that far ahead
/// of the base and to its left, at the heading of the state.
pub proof fn a_foothold_lies_where_it_is_given<A: Arithmetic>(
    ar: &A,
    val: spec_fn(Scalar) -> real,
    t: FootTarget,
    s: FullCentroidalState,
)
    requires
        is_reading(val),
        val(one()) == 1real,
        turns(ar, val, s.base_euler_zyx.z),
        ({
            let (x, y) = match t {
                FootTarget::World { x, y } => (x, y),
                FootTarget::BodyOffset { x, y } => (x, y),
            };
            let frame = yaw_frame(ar, s.base_euler_zyx.z);
            let v = Vec3 { x, y, z: zero() };
            let turned = mat_times(ar, frame, v);
            &&& maps(ar, val, frame, v)
            &&& adds(ar, val, s.base_pos_world.x, turned.x)
            &&& adds(ar, val, s.base_pos_world.y, turned.y)
        }),
    ensures
        ({
            let r = read(val, foothold(ar, t, s));
            let b = read(val, s.base_pos_world);
            let yaw = s.base_euler_zyx.z;
            match t {
                FootTarget::World { x, y } => r.x == val(x) && r.y == val(y),
                FootTarget::BodyOffset { x, y } => {
                    &&& ahead(ar, val, yaw, r.x - b.x, r.y - b.y) == val(x)
                    &&& aside(ar, val, yaw, r.x - b.x, r.y - b.y) == val(y)
                },
            }
        }),
{
    match t {
        FootTarget::World { x, y } => {},
        FootTarget::BodyOffset { x, y } => {
            let v = Vec3 { x, y, z: zero() };
            a_yaw_frame_turns_to_the_heading(ar, val, s.base_euler_zyx.z, read(val, v));
        },
    }
}

/// A point at an arm moves with the body and turns with it: along each axis, by the linear
/// velocity and the angular velocity crossed with the arm.
pub proof fn a_point_is_carried_by_the_body<A: Arithmetic>(
    ar: &A,
    val: spec_fn(Scalar) -> real,
    arm: Vec3,
    ax: int,
    linear: Scalar,
    w: Vec3,
)
    requires
        is_reading(val),
        0 <= ax < 3,
        ({
            let x = skew_3(arm).at(ax, 0).neg_spec();
            let y = skew_3(arm).at(ax, 1).neg_spec();
            let z = skew_3(arm).at(ax, 2).neg_spec();
            let one_part = sum(ar, linear, product(ar, x, w.x));
            let two_parts = sum(ar, one_part, product(ar, y, w.y));
            &&& adds_product(ar, val, linear, x, w.x)
            &&& adds_product(ar, val, one_part, y, w.y)
            &&& adds_product(ar, val, two_parts, z, w.z)
        }),
    ensures
        ({
            let r = val(carried(ar, arm, ax, linear, w.x, w.y, w.z));
            let turn = crossed(read(val, w), read(val, arm));
            r - val(linear) == (if ax == 0 {
                turn.x
            } else if ax == 1 {
                turn.y
            } else {
                turn.z
            })
        }),
{
    let a = read(val, arm);
    let o = read(val, w);
    let m = skew_3(arm);
    assert(val(m.at(ax, 0).neg_spec()) == -val(m.at(ax, 0)));
    assert(val(m.at(ax, 1).neg_spec()) == -val(m.at(ax, 1)));
    assert(val(m.at(ax, 2).neg_spec()) == -val(m.at(ax, 2)));
    assert(val(arm.x.neg_spec()) == -a.x);
    assert(val(arm.y.neg_spec()) == -a.y);
    assert(val(arm.z.neg_spec()) == -a.z);
    vanishes(o.x);
    vanishes(o.y);
    vanishes(o.z);
    commutes(0real, o.x);
    commutes(0real, o.y);
    commutes(0real, o.z);
    negates(a.x, o.y);
    negates(a.x, o.z);
    negates(a.y, o.x);
    negates(a.y, o.z);
    negates(a.z, o.x);
    negates(a.z, o.y);
    commutes(a.x, o.y);
    commutes(a.x, o.z);
    commutes(a.y, o.x);
    commutes(a.y, o.z);
    commutes(a.z, o.x);
    commutes(a.z, o.y);
}

/// The constant part of a miss and what the joint angles account for are the foot less the
/// target.
pub proof fn the_miss_is_the_foot_less_the_target<A: Arithmetic>(
    ar: &A,
    val: spec_fn(Scalar) -> real,
    frame: LegFrame,
    ax: int,
    target: Scalar,
)
    requires
        0 <= ax < 3,
        maps(ar, val, frame.jacobian, frame.q),
        ({
            let way = mat_times(ar, frame.jacobian, frame.q).at(ax);
            &&& takes(ar, val, frame.foot.at(ax), way)
            &&& takes(ar, val, difference(ar, frame.foot.at(ax), way), target)
        }),
    ensures
        ({
            let way = mapped(val, frame.jacobian, read(val, frame.q));
            let along = if ax == 0 {
                way.x
            } else if ax == 1 {
                way.y
            } else {
                way.z
            };
            val(miss_start(ar, frame, ax, target)) + along == val(frame.foot.at(ax)) - val(target)
        }),
{
}

/// A matrix less a matrix is exact, entry by entry.
pub open spec fn takes_matrix<A: Arithmetic>(
    ar: &A,
    val: spec_fn(Scalar) -> real,
    a: Mat3,
    b: Mat3,
) -> bool {
    &&& takes_vector(ar, val, a.x, b.x)
    &&& takes_vector(ar, val, a.y, b.y)
    &&& takes_vector(ar, val, a.z, b.z)
}

/// Difference of two vectors.
pub open spec fn parted(a: RealVec, b: RealVec) -> RealVec {
    RealVec { x: a.x - b.x, y: a.y - b.y, z: a.z - b.z }
}

proof fn parted_row(a: RealVec, b: RealVec, v: RealVec)
    ensures
        inner(parted(a, b), v) == inner(a, v) - inner(b, v),
{
    subtracts_left(v.x, a.x, b.x);
    subtracts_left(v.y, a.y, b.y);
    subtracts_left(v.z, a.z, b.z);
}

proof fn a_difference_applies_both<A: Arithmetic>(
    ar: &A,
    val: spec_fn(Scalar) -> real,
    a: Mat3,
    b: Mat3,
    v: RealVec,
)
    requires
        takes_matrix(ar, val, a, b),
    ensures
        mapped(val, mat_difference(ar, a, b), v) == parted(mapped(val, a, v), mapped(val, b, v)),
{
    parted_row(read(val, a.x), read(val, b.x), v);
    parted_row(read(val, a.y), read(val, b.y), v);
    parted_row(read(val, a.z), read(val, b.z), v);
}

/// The unit vector along an axis.
pub open spec fn axis(k: int) -> RealVec {
    RealVec {
        x: if k == 0 { 1real } else { 0real },
        y: if k == 1 { 1real } else { 0real },
        z: if k == 2 { 1real } else { 0real },
    }
}

/// As the body tilts about an axis, each stance foot changes the torque by that of its
/// force at the way the foot goes: the axis crossed with its arm, turned into the world. A
/// foot in the air changes nothing.
pub proof fn a_stance_foot_tilts_the_torque<A: Arithmetic>(
    ar: &A,
    val: spec_fn(Scalar) -> real,
    rz: Mat3,
    arms: Seq<Vec3>,
    f: Seq<Vec3>,
    stance: Seq<bool>,
    k: int,
    n: int,
)
    requires
        is_reading(val),
        val(one()) == 1real,
        0 <= k < 3,
        0 <= n,
        ({
            let turn = mat_product(ar, rz, skew_3(basis(k)));
            let way = mat_times(ar, turn, arms[n]);
            &&& composes(ar, val, rz, skew_3(basis(k)))
            &&& maps(ar, val, turn, arms[n])
            &&& crosses(ar, val, way, f[n])
            &&& adds_vector(
                ar,
                val,
                tilt_torque(ar, rz, arms, f, stance, k, n),
                cross(ar, way, f[n]),
            )
        }),
    ensures
        ({
            let before = read(val, tilt_torque(ar, rz, arms, f, stance, k, n));
            let after = read(val, tilt_torque(ar, rz, arms, f, stance, k, n + 1));
            let way = mapped(val, rz, crossed(axis(k), read(val, arms[n])));
            after == (if stance[n] {
                joined(before, crossed(way, read(val, f[n])))
            } else {
                before
            })
        }),
{
    let e = skew_3(basis(k));
    a_product_applies_both(ar, val, rz, e, read(val, arms[n]));
    a_skew_matrix_crosses(val, basis(k), read(val, arms[n]));
    assert(read(val, basis(k)) == axis(k));
    let way = mat_times(ar, mat_product(ar, rz, e), arms[n]);
    assert(read(val, way) == mapped(val, mat_product(ar, rz, e), read(val, arms[n])));
}

/// The steps of a tilt column are exact.
pub open spec fn tilt_is_exact<A: Arithmetic>(
    ar: &A,
    val: spec_fn(Scalar) -> real,
    rz: Mat3,
    inv: Mat3,
    body: Mat3,
    tilt: Vec3,
    inv_tau: Vec3,
    k: int,
) -> bool {
    let e = skew_3(basis(k));
    let ahead_part = mat_product(ar, e, body);
    let behind_part = mat_product(ar, body, e);
    let commutator = mat_difference(ar, ahead_part, behind_part);
    let half = mat_product(ar, rz, commutator);
    let turn = mat_product(ar, half, rz.transposed());
    let back = mat_product(ar, mat_negated(inv), turn);
    &&& composes(ar, val, e, body)
    &&& composes(ar, val, body, e)
    &&& takes_matrix(ar, val, ahead_part, behind_part)
    &&& composes(ar, val, rz, commutator)
    &&& composes(ar, val, half, rz.transposed())
    &&& composes(ar, val, mat_negated(inv), turn)
    &&& maps(ar, val, inv, tilt)
    &&& maps(ar, val, back, inv_tau)
    &&& adds_vector(ar, val, mat_times(ar, inv, tilt), mat_times(ar, back, inv_tau))
}

/// A tilt changes the angular acceleration by the change of the torque, less what the
/// inertia that turns with the body takes up of the acceleration there was: the change of
/// the inertia is the turn about the axis after it less the turn before it.
pub proof fn a_tilt_turns_torque_and_inertia<A: Arithmetic>(
    ar: &A,
    val: spec_fn(Scalar) -> real,
    rz: Mat3,
    inv: Mat3,
    body: Mat3,
    tilt: Vec3,
    inv_tau: Vec3,
    k: int,
)
    requires
        is_reading(val),
        val(one()) == 1real,
        0 <= k < 3,
        tilt_is_exact(ar, val, rz, inv, body, tilt, inv_tau, k),
    ensures
        ({
            let r = read(val, tilt_column(ar, rz, inv, body, tilt, inv_tau, k));
            let y = mapped(val, rz.transposed(), read(val, inv_tau));
            let change = mapped(
                val,
                rz,
                parted(
                    crossed(axis(k), mapped(val, body, y)),
                    mapped(val, body, crossed(axis(k), y)),
                ),
            );
            r == parted(mapped(val, inv, read(val, tilt)), mapped(val, inv, change))
        }),
{
    let e = skew_3(basis(k));
    let a = mat_product(ar, e, body);
    let b = mat_product(ar, body, e);
    let commutator = mat_difference(ar, a, b);
    let half = mat_product(ar, rz, commutator);
    let turn = mat_product(ar, half, rz.transposed());
    let t = read(val, inv_tau);
    let y = mapped(val, rz.transposed(), t);
    assert(read(val, basis(k)) == axis(k));
    a_product_applies_both(ar, val, mat_negated(inv), turn, t);
    a_product_applies_both(ar, val, half, rz.transposed(), t);
    a_product_applies_both(ar, val, rz, commutator, y);
    a_difference_applies_both(ar, val, a, b, y);
    a_product_applies_both(ar, val, e, body, y);
    a_product_applies_both(ar, val, body, e, y);
    a_skew_matrix_crosses(val, basis(k), mapped(val, body, y));
    a_skew_matrix_crosses(val, basis(k), y);
    a_negated_matrix_reverses(val, inv, mapped(val, turn, t));
}

/// A foot that the joints of its leg drive moves as they drive it, besides what the body
/// carries it.
pub proof fn a_leg_moves_its_own_foot<M, A: Arithmetic, K: HorizonKernel<M>>(
    ar: &A,
    kernel: &K,
    val: spec_fn(Scalar) -> real,
    frame: LegFrame,
    b_u: Seq<Vec<M>>,
    k: int,
    slot: int,
    ax: int,
    col: int,
)
    requires
        ({
            let base = carried(
                ar,
                frame.arm,
                ax,
                input_entry(kernel, b_u, k, ax, col),
                input_entry(kernel, b_u, k, 3, col),
                input_entry(kernel, b_u, k, 4, col),
                input_entry(kernel, b_u, k, 5, col),
            );
            let joint = 24 * k + 12 + 3 * slot;
            joint <= col < joint + 3 ==> adds(ar, val, base, frame.jacobian.at(ax, col - joint))
        }),
    ensures
        ({
            let base = carried(
                ar,
                frame.arm,
                ax,
                input_entry(kernel, b_u, k, ax, col),
                input_entry(kernel, b_u, k, 3, col),
                input_entry(kernel, b_u, k, 4, col),
                input_entry(kernel, b_u, k, 5, col),
            );
            let joint = 24 * k + 12 + 3 * slot;
            let r = val(velocity_coef(ar, kernel, frame, b_u, k, slot, ax, col));
            r - val(base) == (if joint <= col < joint + 3 {
                val(frame.jacobian.at(ax, col - joint))
            } else {
                0real
            })
        }),
{
}

/// A row of real coefficients with at most four that are not zero, times a state.
proof fn row_picks_four(
    val: spec_fn(Scalar) -> real,
    f: Seq<Scalar>,
    x: Seq<Scalar>,
    n: int,
    a: int,
    b: int,
)
    requires
        is_reading(val),
        0 <= n <= f.len(),
        n <= x.len(),
        0 <= a,
        a < b,
        forall|j: int|
            0 <= j < n && j != a && !(b <= j < b + 3) ==> #[trigger] f[j] == zero(),
    ensures
        row_sum(val, f, x, n) == (if a < n {
            times(val(f[a]), val(x[a]))
        } else {
            0real
        }) + (if b < n {
            times(val(f[b]), val(x[b]))
        } else {
            0real
        }) + (if b + 1 < n {
            times(val(f[b + 1]), val(x[b + 1]))
        } else {
            0real
        }) + (if b + 2 < n {
            times(val(f[b + 2]), val(x[b + 2]))
        } else {
            0real
        }),
    decreases n,
{
    if n > 0 {
        row_picks_four(val, f, x, n - 1, a, b);
        let j = n - 1;
        if j != a && !(b <= j < b + 3) {
            assert(f[j] == zero());
            vanishes(val(x[j]));
            commutes(0real, val(x[j]));
        }
    }
}

/// The row of a foothold takes a state to where the base and the joints of the leg put the
/// foot along a level axis.
pub proof fn the_selector_takes_base_and_joints(
    val: spec_fn(Scalar) -> real,
    frame: LegFrame,
    slot: int,
    ax: int,
    x: Seq<Scalar>,
)
    requires
        is_reading(val),
        val(one()) == 1real,
        0 <= slot < 4,
        0 <= ax < 3,
        x.len() == 25,
    ensures
        ({
            let j = 12 + 3 * slot;
            let q = RealVec { x: val(x[j]), y: val(x[j + 1]), z: val(x[j + 2]) };
            let way = mapped(val, frame.jacobian, q);
            let along = if ax == 0 {
                way.x
            } else if ax == 1 {
                way.y
            } else {
                way.z
            };
            row_sum(val, selector(frame, slot, ax), x, 25) == val(x[6 + ax]) + along
        }),
{
    let e = selector(frame, slot, ax);
    row_picks_four(val, e, x, 25, 6 + ax, 12 + 3 * slot);
    let p = val(x[6 + ax]);
    one_is_neutral(p);
    commutes(1real, p);
}

/// The rows of the state matrix of a body at rest in the air: gravity changes the vertical
/// velocity, the velocity moves the base, the angular velocity, seen from the heading,
/// turns the angles, and nothing else changes the velocities.
pub proof fn the_state_matrix_moves_the_body(
    val: spec_fn(Scalar) -> real,
    rz_t: Mat3,
    g: int,
    i: int,
    x: Seq<Scalar>,
)
    requires
        is_reading(val),
        val(one()) == 1real,
        12 <= g < x.len(),
        0 <= i < 12,
    ensures
        ({
            let row = Seq::new(x.len(), |j: int| body_state_entry(rz_t, g, i, j));
            let turned = mapped(
                val,
                rz_t,
                RealVec { x: val(x[3]), y: val(x[4]), z: val(x[5]) },
            );
            row_sum(val, row, x, x.len() as int) == (if i == 2 {
                val(x[g])
            } else if 6 <= i < 9 {
                val(x[i - 6])
            } else if i == 9 {
                turned.x
            } else if i == 10 {
                turned.y
            } else if i == 11 {
                turned.z
            } else {
                0real
            })
        }),
{
    let n = x.len() as int;
    let row = Seq::new(x.len(), |j: int| body_state_entry(rz_t, g, i, j));
    if i == 2 {
        row_picks_four(val, row, x, n, g, n + 1);
        one_is_neutral(val(x[g]));
        commutes(1real, val(x[g]));
    } else if 6 <= i < 9 {
        row_picks_four(val, row, x, n, i - 6, n + 1);
        one_is_neutral(val(x[i - 6]));
        commutes(1real, val(x[i - 6]));
    } else if i >= 9 {
        row_picks_four(val, row, x, n, 0, 3);
        vanishes(val(x[0]));
        commutes(0real, val(x[0]));
    } else {
        row_picks_four(val, row, x, n, n + 1, n + 2);
    }
}

} // verus!
