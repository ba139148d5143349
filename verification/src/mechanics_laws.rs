//! Laws of mechanics: what velocities, forces and torques owe to one another.
//!
//! Each law is stated for a reading of scalars as real numbers under which the steps
//! that it rests on are exact.

use vstd::prelude::*;
use crate::arith::{
    cosine, counted, cross, product, quotient, sine, sum, vec_difference, Arithmetic,
};
use crate::config::{KinematicsConfig, LegId, LegKinematics};
use crate::controller::{foot_jacobian, LegModel};
use crate::dynamics::{
    angular_acceleration, body_rates, euler_rate, foot_world, force_sum, inverted,
    linear_acceleration, rotated, torque, BodyAlgebra, LEAST_COSINE_BITS, LEAST_MASS_BITS,
};
use crate::exact::{
    adds, adds_product, adds_products, ahead, aside, crossed, heading_parts, mapped, multiplies,
    read, shares, takes, takes_products, turns, RealVec,
};
use crate::full_centroidal_mpc::{FullCentroidalMpcConfig, FullCentroidalState, GRAVITY_Z_BITS};
use crate::ik::foot_position;
use crate::leg_odometry::{
    leg_velocity, mat_times, new_velocity, stance_count, travelled, velocity_sum, LegMeasurement,
};
use crate::motion_laws::{turning_is_exact, turning_keeps_the_parts};
use crate::reals::{associates, commutes, distributes, is_reading, times};
use crate::scalar::{zero, Mat3, Scalar, Vec3};

verus! {

/// `a . b` is exact, step by step.
pub open spec fn dots<A: Arithmetic>(
    ar: &A,
    val: spec_fn(Scalar) -> real,
    a: Vec3,
    b: Vec3,
) -> bool {
    let xy = sum(ar, product(ar, a.x, b.x), product(ar, a.y, b.y));
    &&& multiplies(ar, val, a.x, b.x)
    &&& multiplies(ar, val, a.y, b.y)
    &&& multiplies(ar, val, a.z, b.z)
    &&& adds(ar, val, product(ar, a.x, b.x), product(ar, a.y, b.y))
    &&& adds(ar, val, xy, product(ar, a.z, b.z))
}

/// A matrix times a vector is exact, row by row.
pub open spec fn maps<A: Arithmetic>(
    ar: &A,
    val: spec_fn(Scalar) -> real,
    m: Mat3,
    v: Vec3,
) -> bool {
    dots(ar, val, m.x, v) && dots(ar, val, m.y, v) && dots(ar, val, m.z, v)
}

/// `a x b` is exact, step by step.
pub open spec fn crosses<A: Arithmetic>(
    ar: &A,
    val: spec_fn(Scalar) -> real,
    a: Vec3,
    b: Vec3,
) -> bool {
    &&& takes_products(ar, val, a.y, b.z, a.z, b.y)
    &&& takes_products(ar, val, a.z, b.x, a.x, b.z)
    &&& takes_products(ar, val, a.x, b.y, a.y, b.x)
}

/// `a - b` is exact, part by part.
pub open spec fn takes_vector<A: Arithmetic>(
    ar: &A,
    val: spec_fn(Scalar) -> real,
    a: Vec3,
    b: Vec3,
) -> bool {
    takes(ar, val, a.x, b.x) && takes(ar, val, a.y, b.y) && takes(ar, val, a.z, b.z)
}

/// `a + b` is exact, part by part.
pub open spec fn adds_vector<A: Arithmetic>(
    ar: &A,
    val: spec_fn(Scalar) -> real,
    a: Vec3,
    b: Vec3,
) -> bool {
    adds(ar, val, a.x, b.x) && adds(ar, val, a.y, b.y) && adds(ar, val, a.z, b.z)
}

/// The parts of two vectors cancel.
pub open spec fn opposite(a: RealVec, b: RealVec) -> bool {
    a.x + b.x == 0real && a.y + b.y == 0real && a.z + b.z == 0real
}

/// Sum of two vectors.
pub open spec fn joined(a: RealVec, b: RealVec) -> RealVec {
    RealVec { x: a.x + b.x, y: a.y + b.y, z: a.z + b.z }
}

/// A standing foot does not move: the velocity of the body as its leg gives it, the
/// turning of the body at the foot and the motion of the joints cancel.
pub proof fn a_standing_foot_does_not_move<A: Arithmetic, S: LegModel>(
    ar: &A,
    val: spec_fn(Scalar) -> real,
    model: &S,
    kin: LegKinematics,
    leg: LegMeasurement,
    omega: Vec3,
)
    requires
        is_reading(val),
        ({
            let p = foot_position(ar, kin, leg.q.x, leg.q.y, leg.q.z);
            let m = mat_times(ar, foot_jacobian(model, kin, leg.q.x, leg.q.y, leg.q.z), leg.qd);
            &&& maps(ar, val, foot_jacobian(model, kin, leg.q.x, leg.q.y, leg.q.z), leg.qd)
            &&& crosses(ar, val, omega, p)
            &&& takes_vector(
                ar,
                val,
                Vec3 { x: m.x.neg_spec(), y: m.y.neg_spec(), z: m.z.neg_spec() },
                cross(ar, omega, p),
            )
        }),
    ensures
        ({
            let p = read(val, foot_position(ar, kin, leg.q.x, leg.q.y, leg.q.z));
            let j = foot_jacobian(model, kin, leg.q.x, leg.q.y, leg.q.z);
            let v = read(val, leg_velocity(ar, model, kin, leg, omega));
            opposite(
                v,
                joined(crossed(read(val, omega), p), mapped(val, j, read(val, leg.qd))),
            )
        }),
{
}

/// Sum of the body velocities that the standing legs among the first `n` give.
pub open spec fn seen_by_standing_legs<A: Arithmetic, S: LegModel>(
    ar: &A,
    val: spec_fn(Scalar) -> real,
    model: &S,
    kin: KinematicsConfig,
    legs: Seq<LegMeasurement>,
    omega: Vec3,
    n: int,
) -> RealVec
    decreases n,
{
    if n <= 0 {
        RealVec { x: 0real, y: 0real, z: 0real }
    } else {
        let before = seen_by_standing_legs(ar, val, model, kin, legs, omega, n - 1);
        if legs[n - 1].stance {
            joined(
                before,
                read(
                    val,
                    leg_velocity(ar, model, kin.of(LegId::at_slot(n - 1)), legs[n - 1], omega),
                ),
            )
        } else {
            before
        }
    }
}

/// The sums over the standing legs are exact.
pub open spec fn standing_legs_add_up<A: Arithmetic, S: LegModel>(
    ar: &A,
    val: spec_fn(Scalar) -> real,
    model: &S,
    kin: KinematicsConfig,
    legs: Seq<LegMeasurement>,
    omega: Vec3,
) -> bool {
    forall|n: int|
        0 <= n < 4 && (#[trigger] legs[n]).stance ==> adds_vector(
            ar,
            val,
            velocity_sum(ar, model, kin, legs, omega, n),
            leg_velocity(ar, model, kin.of(LegId::at_slot(n)), legs[n], omega),
        )
}

proof fn standing_legs_sum<A: Arithmetic, S: LegModel>(
    ar: &A,
    val: spec_fn(Scalar) -> real,
    model: &S,
    kin: KinematicsConfig,
    legs: Seq<LegMeasurement>,
    omega: Vec3,
    n: int,
)
    requires
        is_reading(val),
        0 <= n <= 4,
        standing_legs_add_up(ar, val, model, kin, legs, omega),
    ensures
        read(val, velocity_sum(ar, model, kin, legs, omega, n)) == seen_by_standing_legs(
            ar,
            val,
            model,
            kin,
            legs,
            omega,
            n,
        ),
    decreases n,
{
    if n > 0 {
        standing_legs_sum(ar, val, model, kin, legs, omega, n - 1);
        assert(legs[n - 1].stance == legs[n - 1].stance);
    }
}

/// With standing legs the new velocity has ahead, aside and up the mean of what they
/// give; without one it stays what it was.
pub proof fn standing_legs_give_the_velocity<A: Arithmetic, S: LegModel>(
    ar: &A,
    val: spec_fn(Scalar) -> real,
    model: &S,
    kin: KinematicsConfig,
    legs: Seq<LegMeasurement>,
    omega: Vec3,
    yaw: Scalar,
    previous: Vec3,
)
    requires
        is_reading(val),
        turns(ar, val, yaw),
        standing_legs_add_up(ar, val, model, kin, legs, omega),
        stance_count(legs, 4) > 0 ==> ({
            let v = velocity_sum(ar, model, kin, legs, omega, 4);
            let k = counted(ar, stance_count(legs, 4) as usize);
            &&& shares(ar, val, v.x, k)
            &&& shares(ar, val, v.y, k)
            &&& shares(ar, val, v.z, k)
            &&& turning_is_exact(ar, val, quotient(ar, v.x, k), quotient(ar, v.y, k), yaw)
        }),
    ensures
        ({
            let r = new_velocity(ar, model, kin, legs, omega, yaw, previous);
            let w = read(val, r);
            let k = val(counted(ar, stance_count(legs, 4) as usize));
            let seen = seen_by_standing_legs(ar, val, model, kin, legs, omega, 4);
            if exists|i: int| 0 <= i < 4 && (#[trigger] legs[i]).stance {
                &&& times(ahead(ar, val, yaw, w.x, w.y), k) == seen.x
                &&& times(aside(ar, val, yaw, w.x, w.y), k) == seen.y
                &&& times(w.z, k) == seen.z
            } else {
                r == previous
            }
        }),
{
    standing_legs_sum(ar, val, model, kin, legs, omega, 4);
    reveal_with_fuel(stance_count, 5);
    if stance_count(legs, 4) > 0 {
        let v = velocity_sum(ar, model, kin, legs, omega, 4);
        let k = counted(ar, stance_count(legs, 4) as usize);
        let mean = Vec3 {
            x: quotient(ar, v.x, k),
            y: quotient(ar, v.y, k),
            z: quotient(ar, v.z, k),
        };
        turning_keeps_the_parts(ar, val, mean, yaw);
        assert(legs[0].stance || legs[1].stance || legs[2].stance || legs[3].stance);
    } else {
        assert forall|i: int| 0 <= i < 4 implies !(#[trigger] legs[i]).stance by {
            assert(i == 0 || i == 1 || i == 2 || i == 3);
        }
    }
}

/// The forces accelerate the mass against gravity, which pulls down: mass times
/// acceleration less gravity is the sum of the forces.
pub proof fn forces_accelerate_the_mass<A: Arithmetic>(
    ar: &A,
    val: spec_fn(Scalar) -> real,
    mass: Scalar,
    f: Seq<Vec3>,
)
    requires
        is_reading(val),
        !mass.lt_spec(Scalar { bits: LEAST_MASS_BITS }),
        !mass.is_nan_spec(),
        forall|n: int|
            0 <= n < 4 ==> adds_vector(ar, val, force_sum(ar, f, n), #[trigger] f[n]),
        ({
            let t = force_sum(ar, f, 4);
            &&& shares(ar, val, t.x, mass)
            &&& shares(ar, val, t.y, mass)
            &&& shares(ar, val, t.z, mass)
            &&& adds(ar, val, quotient(ar, t.x, mass), zero())
            &&& adds(ar, val, quotient(ar, t.y, mass), zero())
            &&& adds(ar, val, quotient(ar, t.z, mass), Scalar { bits: GRAVITY_Z_BITS })
        }),
    ensures
        ({
            let a = read(val, linear_acceleration(ar, mass, f));
            let g = val(Scalar { bits: GRAVITY_Z_BITS });
            let m = val(mass);
            &&& g < 0real
            &&& times(a.x, m) == val(f[0].x) + val(f[1].x) + val(f[2].x) + val(f[3].x)
            &&& times(a.y, m) == val(f[0].y) + val(f[1].y) + val(f[2].y) + val(f[3].y)
            &&& times(a.z - g, m) == val(f[0].z) + val(f[1].z) + val(f[2].z) + val(f[3].z)
        }),
{
    reveal_with_fuel(force_sum, 5);
    let g = Scalar { bits: GRAVITY_Z_BITS };
    assert(g.lt_spec(zero()));
    assert(!g.is_nan_spec() && !zero().is_nan_spec());
    assert(adds_vector(ar, val, force_sum(ar, f, 0), f[0]));
    assert(adds_vector(ar, val, force_sum(ar, f, 1), f[1]));
    assert(adds_vector(ar, val, force_sum(ar, f, 2), f[2]));
    assert(adds_vector(ar, val, force_sum(ar, f, 3), f[3]));
}

/// Torque of a force at a point about another.
pub open spec fn lever(
    val: spec_fn(Scalar) -> real,
    at: Vec3,
    about: Vec3,
    f: Vec3,
) -> RealVec {
    crossed(
        RealVec {
            x: val(at.x) - val(about.x),
            y: val(at.y) - val(about.y),
            z: val(at.z) - val(about.z),
        },
        read(val, f),
    )
}

/// The torque of four forces is the sum of their torques about the point.
pub proof fn forces_turn_about_the_point<A: Arithmetic>(
    ar: &A,
    val: spec_fn(Scalar) -> real,
    feet: Seq<Vec3>,
    f: Seq<Vec3>,
    about: Vec3,
)
    requires
        is_reading(val),
        forall|n: int|
            #![trigger feet[n]]
            0 <= n < 4 ==> {
                let arm = vec_difference(ar, feet[n], about);
                &&& takes_vector(ar, val, feet[n], about)
                &&& crosses(ar, val, arm, f[n])
                &&& adds_vector(ar, val, torque(ar, feet, f, about, n), cross(ar, arm, f[n]))
            },
    ensures
        read(val, torque(ar, feet, f, about, 4)) == joined(
            joined(lever(val, feet[0], about, f[0]), lever(val, feet[1], about, f[1])),
            joined(lever(val, feet[2], about, f[2]), lever(val, feet[3], about, f[3])),
        ),
{
    reveal_with_fuel(torque, 5);
    assert(takes_vector(ar, val, feet[0], about));
    assert(takes_vector(ar, val, feet[1], about));
    assert(takes_vector(ar, val, feet[2], about));
    assert(takes_vector(ar, val, feet[3], about));
}

/// The angular acceleration takes up the torque: inertia times it, and the change of
/// direction of the angular momentum, are the torque.
pub proof fn the_torque_is_taken_up<A: Arithmetic, B: BodyAlgebra>(
    ar: &A,
    ba: &B,
    val: spec_fn(Scalar) -> real,
    inertia: Mat3,
    omega: Vec3,
    tau: Vec3,
)
    requires
        is_reading(val),
        forall|v: RealVec|
            mapped(val, inertia, #[trigger] mapped(val, inverted(ba, inertia), v)) == v,
        ({
            let momentum = mat_times(ar, inertia, omega);
            let left = vec_difference(ar, tau, cross(ar, omega, momentum));
            &&& maps(ar, val, inertia, omega)
            &&& crosses(ar, val, omega, momentum)
            &&& takes_vector(ar, val, tau, cross(ar, omega, momentum))
            &&& maps(ar, val, inverted(ba, inertia), left)
        }),
    ensures
        ({
            let alpha = read(val, angular_acceleration(ar, ba, inertia, omega, tau));
            let w = read(val, omega);
            joined(mapped(val, inertia, alpha), crossed(w, mapped(val, inertia, w))) == read(
                val,
                tau,
            )
        }),
{
    let momentum = mat_times(ar, inertia, omega);
    let left = vec_difference(ar, tau, cross(ar, omega, momentum));
    assert(read(val, momentum) == mapped(val, inertia, read(val, omega)));
    assert(read(val, angular_acceleration(ar, ba, inertia, omega, tau)) == mapped(
        val,
        inverted(ba, inertia),
        read(val, left),
    ));
}

/// The centre of mass moves with the base and turns about it: its velocity is that of
/// the base and the turning of the offset.
pub proof fn the_mass_turns_about_the_base<A: Arithmetic, B: BodyAlgebra>(
    ar: &A,
    ba: &B,
    val: spec_fn(Scalar) -> real,
    mass: Scalar,
    inertia: Mat3,
    offset: Vec3,
    v: Vec3,
    omega: Vec3,
    pos: Vec3,
    euler: Vec3,
    feet: Seq<Vec3>,
    f: Seq<Vec3>,
)
    requires
        maps(ar, val, rotated(ba, euler), offset),
        ({
            let com = mat_times(ar, rotated(ba, euler), offset);
            crosses(ar, val, omega, com) && takes_vector(ar, val, v, cross(ar, omega, com))
        }),
    ensures
        ({
            let r = body_rates(ar, ba, mass, inertia, offset, v, omega, pos, euler, feet, f);
            let com = mapped(val, rotated(ba, euler), read(val, offset));
            joined(read(val, r.base), crossed(read(val, omega), com)) == read(val, v)
        }),
{
}

/// A foot of the world stands where the turned leg reaches from the base.
pub proof fn a_foot_hangs_from_the_base<A: Arithmetic, B: BodyAlgebra>(
    ar: &A,
    ba: &B,
    val: spec_fn(Scalar) -> real,
    state: FullCentroidalState,
    cfg: FullCentroidalMpcConfig,
    slot: int,
)
    requires
        0 <= slot < 4,
        ({
            let q = state.joint_q@;
            let foot = foot_position(
                ar,
                cfg.kinematics.of(LegId::at_slot(slot)),
                q[3 * slot],
                q[3 * slot + 1],
                q[3 * slot + 2],
            );
            let turned = mat_times(ar, rotated(ba, state.base_euler_zyx), foot);
            &&& maps(ar, val, rotated(ba, state.base_euler_zyx), foot)
            &&& adds_vector(ar, val, state.base_pos_world, turned)
        }),
    ensures
        ({
            let q = state.joint_q@;
            let foot = foot_position(
                ar,
                cfg.kinematics.of(LegId::at_slot(slot)),
                q[3 * slot],
                q[3 * slot + 1],
                q[3 * slot + 2],
            );
            read(val, foot_world(ar, ba, state, cfg, slot)) == joined(
                read(val, state.base_pos_world),
                mapped(val, rotated(ba, state.base_euler_zyx), read(val, foot)),
            )
        }),
{
}

/// The steps from an angular velocity to the rates of the angles are exact.
pub open spec fn euler_rate_is_exact<A: Arithmetic>(
    ar: &A,
    val: spec_fn(Scalar) -> real,
    euler: Vec3,
    w: Vec3,
) -> bool {
    let sr = sine(ar, euler.x);
    let cr = cosine(ar, euler.x);
    let sp = sine(ar, euler.y);
    let cp = cosine(ar, euler.y);
    let tan = quotient(ar, sp, cp);
    let across = product(ar, product(ar, sr, tan), w.y);
    let along = product(ar, product(ar, cr, tan), w.z);
    &&& shares(ar, val, sp, cp)
    &&& shares(ar, val, sr, cp)
    &&& shares(ar, val, cr, cp)
    &&& multiplies(ar, val, sr, tan)
    &&& multiplies(ar, val, cr, tan)
    &&& multiplies(ar, val, product(ar, sr, tan), w.y)
    &&& multiplies(ar, val, product(ar, cr, tan), w.z)
    &&& adds(ar, val, w.x, across)
    &&& adds(ar, val, sum(ar, w.x, across), along)
    &&& takes_products(ar, val, cr, w.y, sr, w.z)
    &&& adds_products(ar, val, quotient(ar, sr, cp), w.y, quotient(ar, cr, cp), w.z)
}

/// The rates of roll, pitch and yaw add up to the angular velocity in the body: roll
/// turns about the body's own axis, pitch about the axis that roll has turned, and yaw
/// about the vertical.
pub proof fn rates_of_the_angles_turn_the_body<A: Arithmetic>(
    ar: &A,
    val: spec_fn(Scalar) -> real,
    euler: Vec3,
    w: Vec3,
)
    requires
        turns(ar, val, euler.x),
        !cosine(ar, euler.y).abs_spec().lt_spec(Scalar { bits: LEAST_COSINE_BITS }),
        euler_rate_is_exact(ar, val, euler, w),
    ensures
        ({
            let e = read(val, euler_rate(ar, euler, w));
            let sr = val(sine(ar, euler.x));
            let cr = val(cosine(ar, euler.x));
            let sp = val(sine(ar, euler.y));
            let cp = val(cosine(ar, euler.y));
            &&& val(w.x) == e.x - times(sp, e.z)
            &&& val(w.y) == times(cr, e.y) + times(sr, times(cp, e.z))
            &&& val(w.z) == times(cr, times(cp, e.z)) - times(sr, e.y)
        }),
{
    let e = read(val, euler_rate(ar, euler, w));
    let sr = val(sine(ar, euler.x));
    let cr = val(cosine(ar, euler.x));
    let sp = val(sine(ar, euler.y));
    let cp = val(cosine(ar, euler.y));
    let a = val(quotient(ar, sine(ar, euler.x), cosine(ar, euler.y)));
    let b = val(quotient(ar, cosine(ar, euler.x), cosine(ar, euler.y)));
    let t = val(quotient(ar, sine(ar, euler.y), cosine(ar, euler.y)));
    let y = val(w.y);
    let z = val(w.z);
    distributes(cp, times(a, y), times(b, z));
    associates(cp, a, y);
    associates(cp, b, z);
    commutes(cp, a);
    commutes(cp, b);
    assert(times(cp, e.z) == times(sr, y) + times(cr, z));
    associates(t, cp, e.z);
    distributes(t, times(sr, y), times(cr, z));
    associates(t, sr, y);
    associates(t, cr, z);
    commutes(t, sr);
    commutes(t, cr);
    heading_parts(cr, sr, y, z);
    commutes(cr, e.y);
    commutes(sr, e.y);
    commutes(cr, times(cp, e.z));
    commutes(sr, times(cp, e.z));
    commutes(cr, y);
    commutes(sr, z);
    commutes(sr, y);
    commutes(cr, z);
}

/// Odometry moves on by the velocity times the time.
pub proof fn odometry_moves_on_by_the_velocity<A: Arithmetic>(
    ar: &A,
    val: spec_fn(Scalar) -> real,
    from: Vec3,
    v: Vec3,
    t: Scalar,
)
    requires
        adds_product(ar, val, from.x, v.x, t),
        adds_product(ar, val, from.y, v.y, t),
        adds_product(ar, val, from.z, v.z, t),
    ensures
        ({
            let r = read(val, travelled(ar, from, v, t));
            &&& r.x - val(from.x) == times(val(v.x), val(t))
            &&& r.y - val(from.y) == times(val(v.y), val(t))
            &&& r.z - val(from.z) == times(val(v.z), val(t))
        }),
{
}

} // verus!
