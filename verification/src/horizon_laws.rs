//! Laws of the horizon: what the matrices of a step, the rows of a foot and the maps of a
//! horizon owe to one another.
//!
//! Each law is stated for a reading of scalars as real numbers under which the steps
//! that it rests on are exact.

use vstd::prelude::*;
use crate::algebra_laws::composes_maps;
use crate::arith::{cross, sum, vec_difference, vec_sum, Arithmetic};
use crate::controller::LegModel;
use crate::dense::DenseAlgebra;
use crate::dynamics::{feet_world, inverted, torque, turned, turning, BodyAlgebra};
use crate::exact::{adds, adds_product, crossed, mapped, read, RealVec};
use crate::full_centroidal_iter::HorizonKernel;
use crate::full_centroidal_mpc::{FullCentroidalInput, FullCentroidalMpcConfig, FullCentroidalState};
use crate::horizon_feet::{
    carried, entry_of, input_entry, leg_frame, miss, picked_input, picked_state, velocity_drift,
    LegFrame,
};
use crate::leg_odometry::mat_times;
use crate::lift::{has_input_row, is_input_map, is_input_row, is_state_map};
use crate::linear_blocks::{
    inverse_inertia, is_linearised, leg_arms, leg_jacobian, leg_point, stance_torque, with_columns,
    yaw_frame, LinearBlocks,
};
use crate::linearisation::{force_entry, full_state_entry};
use crate::mechanics_laws::{
    adds_vector, crosses, forces_turn_about_the_point, joined, lever, maps, takes_vector,
    the_torque_is_taken_up,
};
use crate::model_laws::{
    a_product_applies_both, composes, parted, the_force_block_turns_by_the_torque,
};
use crate::reals::{commutes, is_reading, times, vanishes};
use crate::scalar::{skew_3, zero, Mat3, Scalar, Vec3};

verus! {

/// What three entries of a row, from a column on, make of a vector.
pub open spec fn three_of(
    val: spec_fn(Scalar) -> real,
    row: spec_fn(int) -> Scalar,
    c: int,
    v: RealVec,
) -> real {
    times(val(row(c)), v.x) + times(val(row(c + 1)), v.y) + times(val(row(c + 2)), v.z)
}

/// A part of a vector.
pub open spec fn part(v: RealVec, i: int) -> real {
    if i == 0 {
        v.x
    } else if i == 1 {
        v.y
    } else {
        v.z
    }
}

proof fn nothing(v: RealVec)
    ensures
        times(0real, v.x) == 0real,
        times(0real, v.y) == 0real,
        times(0real, v.z) == 0real,
{
    vanishes(v.x);
    vanishes(v.y);
    vanishes(v.z);
    commutes(0real, v.x);
    commutes(0real, v.y);
    commutes(0real, v.z);
}

/// The force of a stance foot accelerates the body along its own direction by the inverse
/// mass and turns it by the foot's block; that of a foot in the air does nothing, and no force
/// moves the pose at once.
pub proof fn a_force_moves_and_turns_the_body(
    val: spec_fn(Scalar) -> real,
    stance: Seq<bool>,
    inv_mass: Scalar,
    blocks: Seq<Mat3>,
    slot: int,
    i: int,
    f: RealVec,
)
    requires
        is_reading(val),
        0 <= slot < 4,
        0 <= i,
    ensures
        three_of(val, |j: int| force_entry(stance, inv_mass, blocks, i, j), 3 * slot, f) == (
        if !stance[slot] || i >= 6 {
            0real
        } else if i < 3 {
            times(val(inv_mass), part(f, i))
        } else {
            part(mapped(val, blocks[slot], f), i - 3)
        }),
{
    nothing(f);
    let c = 3 * slot;
    assert(c / 3 == slot && (c + 1) / 3 == slot && (c + 2) / 3 == slot);
    assert(c % 3 == 0 && (c + 1) % 3 == 1 && (c + 2) % 3 == 2);
}

/// The joints of a stance leg and the tilt of the body turn it by their blocks; the joints of
/// a leg in the air do not.
pub proof fn joints_and_tilt_turn_the_body(
    val: spec_fn(Scalar) -> real,
    stance: Seq<bool>,
    joints: Seq<Mat3>,
    euler: Mat3,
    rz_t: Mat3,
    slot: int,
    i: int,
    v: RealVec,
)
    requires
        is_reading(val),
        0 <= slot < 4,
        3 <= i < 6,
    ensures
        ({
            let row = |j: int| full_state_entry(stance, joints, euler, rz_t, i, j);
            &&& three_of(val, row, 9, v) == part(mapped(val, euler, v), i - 3)
            &&& three_of(val, row, 12 + 3 * slot, v) == (if stance[slot] {
                part(mapped(val, joints[slot], v), i - 3)
            } else {
                0real
            })
        }),
{
    nothing(v);
    let c = 3 * slot;
    assert(c / 3 == slot && (c + 1) / 3 == slot && (c + 2) / 3 == slot);
    assert(c % 3 == 0 && (c + 1) % 3 == 1 && (c + 2) % 3 == 2);
}

/// A vector stretched by a number.
pub open spec fn stretched(a: RealVec, k: real) -> RealVec {
    RealVec { x: times(a.x, k), y: times(a.y, k), z: times(a.z, k) }
}

/// A matrix of columns takes a vector to the sum of the columns by its parts.
pub proof fn columns_add_up_by_the_parts(
    val: spec_fn(Scalar) -> real,
    a: Vec3,
    b: Vec3,
    c: Vec3,
    v: RealVec,
)
    ensures
        mapped(val, with_columns(a, b, c), v) == joined(
            joined(stretched(read(val, a), v.x), stretched(read(val, b), v.y)),
            stretched(read(val, c), v.z),
        ),
{
}

/// In the linear model, the force of a foot turns the body by its torque about the centre of
/// mass, which lies off the base by the offset turned to the heading.
pub proof fn a_force_turns_about_the_mass<A: Arithmetic, K: LegModel + BodyAlgebra>(
    ar: &A,
    kernel: &K,
    val: spec_fn(Scalar) -> real,
    cfg: FullCentroidalMpcConfig,
    s: FullCentroidalState,
    u: FullCentroidalInput,
    stance: Seq<bool>,
    psi: Scalar,
    bl: LinearBlocks,
    slot: int,
    f: RealVec,
)
    requires
        is_reading(val),
        is_linearised(ar, kernel, cfg, s, u, stance, psi, bl),
        0 <= slot < 4,
        ({
            let rz = yaw_frame(ar, psi);
            let inv = inverse_inertia(ar, kernel, cfg.centroidal_inertia_body, psi);
            let off = mat_times(ar, rz, cfg.com_offset_body);
            let com = vec_sum(ar, s.base_pos_world, off);
            let foot = feet_world(ar, kernel, s, cfg)[slot];
            &&& maps(ar, val, rz, cfg.com_offset_body)
            &&& adds_vector(ar, val, s.base_pos_world, off)
            &&& takes_vector(ar, val, foot, com)
            &&& composes(ar, val, inv, skew_3(vec_difference(ar, foot, com)))
        }),
    ensures
        ({
            let rz = yaw_frame(ar, psi);
            let inv = inverse_inertia(ar, kernel, cfg.centroidal_inertia_body, psi);
            let com = joined(
                read(val, s.base_pos_world),
                mapped(val, rz, read(val, cfg.com_offset_body)),
            );
            let foot = read(val, feet_world(ar, kernel, s, cfg)[slot]);
            mapped(val, bl.force_blocks@[slot], f) == mapped(
                val,
                inv,
                crossed(parted(foot, com), f),
            )
        }),
{
    let rz = yaw_frame(ar, psi);
    let inv = inverse_inertia(ar, kernel, cfg.centroidal_inertia_body, psi);
    let com = vec_sum(ar, s.base_pos_world, mat_times(ar, rz, cfg.com_offset_body));
    let foot = feet_world(ar, kernel, s, cfg)[slot];
    the_force_block_turns_by_the_torque(ar, val, inv, vec_difference(ar, foot, com), f);
}

/// Each stance foot adds the torque of its force about the point; a foot in the air adds none.
pub proof fn a_stance_foot_adds_its_torque<A: Arithmetic>(
    ar: &A,
    val: spec_fn(Scalar) -> real,
    feet: Seq<Vec3>,
    f: Seq<Vec3>,
    about: Vec3,
    stance: Seq<bool>,
    n: int,
)
    requires
        0 <= n,
        ({
            let arm = vec_difference(ar, feet[n], about);
            &&& takes_vector(ar, val, feet[n], about)
            &&& crosses(ar, val, arm, f[n])
            &&& adds_vector(
                ar,
                val,
                stance_torque(ar, feet, f, about, stance, n),
                cross(ar, arm, f[n]),
            )
        }),
    ensures
        ({
            let before = read(val, stance_torque(ar, feet, f, about, stance, n));
            let after = read(val, stance_torque(ar, feet, f, about, stance, n + 1));
            after == (if stance[n] {
                joined(before, lever(val, feet[n], about, f[n]))
            } else {
                before
            })
        }),
{
}

/// The arm of a leg is its foot less the centre of mass, and in the frame of the leg it is
/// turned to the heading, as the foot and what the joints do to it are.
pub proof fn a_leg_is_turned_to_the_heading<M, A: Arithmetic, K: HorizonKernel<M>>(
    ar: &A,
    kernel: &K,
    val: spec_fn(Scalar) -> real,
    cfg: FullCentroidalMpcConfig,
    s: FullCentroidalState,
    slot: int,
    dq: RealVec,
)
    requires
        0 <= slot < 4,
        ({
            let rz = yaw_frame(ar, s.base_euler_zyx.z);
            let p = leg_point(ar, cfg, s, slot);
            &&& takes_vector(ar, val, p, cfg.com_offset_body)
            &&& maps(ar, val, rz, vec_difference(ar, p, cfg.com_offset_body))
            &&& maps(ar, val, rz, p)
            &&& composes(ar, val, rz, leg_jacobian(kernel, cfg, s, slot))
        }),
    ensures
        ({
            let rz = yaw_frame(ar, s.base_euler_zyx.z);
            let p = read(val, leg_point(ar, cfg, s, slot));
            let arm = parted(p, read(val, cfg.com_offset_body));
            let frame = leg_frame::<M, A, K>(ar, kernel, cfg, s, slot);
            &&& read(val, leg_arms(ar, cfg, s)[slot]) == arm
            &&& read(val, frame.arm) == mapped(val, rz, arm)
            &&& read(val, frame.foot) == mapped(val, rz, p)
            &&& mapped(val, frame.jacobian, dq) == mapped(
                val,
                rz,
                mapped(val, leg_jacobian(kernel, cfg, s, slot), dq),
            )
            &&& frame.q.x == s.joint_q@[3 * slot]
            &&& frame.q.y == s.joint_q@[3 * slot + 1]
            &&& frame.q.z == s.joint_q@[3 * slot + 2]
        }),
{
    let rz = yaw_frame(ar, s.base_euler_zyx.z);
    a_product_applies_both(ar, val, rz, leg_jacobian(kernel, cfg, s, slot), dq);
}

/// The forces at the feet turn the body about its centre of mass: inertia times the angular
/// acceleration, and the change of direction of the angular momentum, are the torques of the
/// four forces about the base and the turned offset.
pub proof fn the_forces_turn_the_body_about_its_mass<A: Arithmetic, B: BodyAlgebra>(
    ar: &A,
    ba: &B,
    val: spec_fn(Scalar) -> real,
    inertia: Mat3,
    offset: Vec3,
    r: Mat3,
    omega: Vec3,
    pos: Vec3,
    feet: Seq<Vec3>,
    f: Seq<Vec3>,
)
    requires
        is_reading(val),
        forall|v: RealVec|
            mapped(
                val,
                turned(ba, r, inertia),
                #[trigger] mapped(val, inverted(ba, turned(ba, r, inertia)), v),
            ) == v,
        ({
            let world = turned(ba, r, inertia);
            let off = mat_times(ar, r, offset);
            let com = vec_sum(ar, pos, off);
            let tau = torque(ar, feet, f, com, 4);
            let momentum = mat_times(ar, world, omega);
            let left = vec_difference(ar, tau, cross(ar, omega, momentum));
            &&& maps(ar, val, r, offset)
            &&& adds_vector(ar, val, pos, off)
            &&& maps(ar, val, world, omega)
            &&& crosses(ar, val, omega, momentum)
            &&& takes_vector(ar, val, tau, cross(ar, omega, momentum))
            &&& maps(ar, val, inverted(ba, world), left)
            &&& forall|n: int|
                #![trigger feet[n]]
                0 <= n < 4 ==> {
                    let arm = vec_difference(ar, feet[n], com);
                    &&& takes_vector(ar, val, feet[n], com)
                    &&& crosses(ar, val, arm, f[n])
                    &&& adds_vector(ar, val, torque(ar, feet, f, com, n), cross(ar, arm, f[n]))
                }
        }),
    ensures
        ({
            let world = turned(ba, r, inertia);
            let alpha = read(val, turning(ar, ba, inertia, offset, r, omega, pos, feet, f));
            let w = read(val, omega);
            let com = joined(read(val, pos), mapped(val, r, read(val, offset)));
            let push = |n: int|
                crossed(parted(read(val, feet[n]), com), read(val, f[n]));
            joined(mapped(val, world, alpha), crossed(w, mapped(val, world, w))) == joined(
                joined(push(0), push(1)),
                joined(push(2), push(3)),
            )
        }),
{
    let com = vec_sum(ar, pos, mat_times(ar, r, offset));
    let tau = torque(ar, feet, f, com, 4);
    the_torque_is_taken_up(ar, ba, val, turned(ba, r, inertia), omega, tau);
    forces_turn_about_the_point(ar, val, feet, f, com);
}

/// The velocity of a foot without inputs gathers one part of the state after the other, each
/// as the body that it moves carries the foot.
pub proof fn each_part_of_the_state_carries_the_foot<M, A: Arithmetic, K: HorizonKernel<M>>(
    ar: &A,
    kernel: &K,
    val: spec_fn(Scalar) -> real,
    frame: LegFrame,
    a: M,
    x: Seq<Scalar>,
    ax: int,
    n: int,
)
    requires
        is_reading(val),
        0 <= n,
        ({
            let row = carried(
                ar,
                frame.arm,
                ax,
                sum(ar, zero(), entry_of(kernel, a, ax as usize, n as usize)),
                entry_of(kernel, a, 3, n as usize),
                entry_of(kernel, a, 4, n as usize),
                entry_of(kernel, a, 5, n as usize),
            );
            adds_product(ar, val, velocity_drift(ar, kernel, frame, a, x, ax, n), row, x[n])
        }),
    ensures
        ({
            let row = carried(
                ar,
                frame.arm,
                ax,
                sum(ar, zero(), entry_of(kernel, a, ax as usize, n as usize)),
                entry_of(kernel, a, 3, n as usize),
                entry_of(kernel, a, 4, n as usize),
                entry_of(kernel, a, 5, n as usize),
            );
            &&& val(velocity_drift(ar, kernel, frame, a, x, ax, 0)) == 0real
            &&& val(velocity_drift(ar, kernel, frame, a, x, ax, n + 1)) - val(
                velocity_drift(ar, kernel, frame, a, x, ax, n),
            ) == times(val(row), val(x[n]))
        }),
{
}

/// The miss of a foothold gathers one part of the state after the other, each by what the row
/// of the foot picks of it, from the part that does not depend on the state; what is picked
/// gathers likewise, entry by entry.
pub proof fn a_miss_gathers_what_the_row_picks<M, A: Arithmetic, K: HorizonKernel<M>>(
    ar: &A,
    kernel: &K,
    val: spec_fn(Scalar) -> real,
    e: Seq<Scalar>,
    start: Scalar,
    a: M,
    b_u: Seq<Vec<M>>,
    x: Seq<Scalar>,
    k: int,
    col: int,
    n: int,
)
    requires
        is_reading(val),
        0 <= n,
        adds_product(
            ar,
            val,
            miss(ar, kernel, e, start, a, x, n),
            picked_state(ar, kernel, e, a, n, 25),
            x[n],
        ),
        adds_product(
            ar,
            val,
            picked_state(ar, kernel, e, a, col, n),
            e[n],
            entry_of(kernel, a, n as usize, col as usize),
        ),
        adds_product(
            ar,
            val,
            picked_input(ar, kernel, e, b_u, k, col, n),
            e[n],
            input_entry(kernel, b_u, k, n, col),
        ),
    ensures
        miss(ar, kernel, e, start, a, x, 0) == start,
        val(miss(ar, kernel, e, start, a, x, n + 1)) - val(miss(ar, kernel, e, start, a, x, n))
            == times(val(picked_state(ar, kernel, e, a, n, 25)), val(x[n])),
        val(picked_state(ar, kernel, e, a, col, 0)) == 0real,
        val(picked_state(ar, kernel, e, a, col, n + 1)) - val(
            picked_state(ar, kernel, e, a, col, n),
        ) == times(val(e[n]), val(entry_of(kernel, a, n as usize, col as usize))),
        val(picked_input(ar, kernel, e, b_u, k, col, 0)) == 0real,
        val(picked_input(ar, kernel, e, b_u, k, col, n + 1)) - val(
            picked_input(ar, kernel, e, b_u, k, col, n),
        ) == times(val(e[n]), val(input_entry(kernel, b_u, k, n, col))),
{
}

/// The state map of a step is the step after the map of the step before it.
pub proof fn a_state_goes_on_step_by_step<M, L: DenseAlgebra<M>>(
    la: &L,
    val: spec_fn(Scalar) -> real,
    acts: spec_fn(M, Seq<real>) -> Seq<real>,
    identity: M,
    a: Seq<M>,
    a_x: Seq<M>,
    k: int,
    x: Seq<real>,
)
    requires
        composes_maps(la, val, acts),
        is_state_map(la, identity, a, a_x),
        acts(identity, x) == x,
        0 <= k < a.len(),
    ensures
        acts(a_x[k], x) == acts(
            a[k],
            if k == 0 {
                x
            } else {
                acts(a_x[k - 1], x)
            },
        ),
{
    assert(acts(a_x[k], x) == acts(a_x[k], x));
}

proof fn tails_go_on<M, L: DenseAlgebra<M>>(
    la: &L,
    val: spec_fn(Scalar) -> real,
    acts: spec_fn(M, Seq<real>) -> Seq<real>,
    identity: M,
    a: Seq<M>,
    b: Seq<M>,
    k: int,
    before: Seq<M>,
    row: Seq<M>,
    after: Seq<M>,
    next: Seq<M>,
    j: int,
    v: Seq<real>,
)
    requires
        composes_maps(la, val, acts),
        forall|u: Seq<real>| #[trigger] acts(identity, u) == u,
        is_input_row(la, identity, a, b, k, before, row),
        is_input_row(la, identity, a, b, k + 1, after, next),
        0 <= j <= k,
    ensures
        acts(after[j], v) == acts(a[k + 1], acts(before[j], v)),
    decreases k - j,
{
    if j == k {
        assert(call_ensures(L::times, (la, &after[k + 1], &a[k + 1]), after[k + 1 - 1]));
        assert(acts(after[k], v) == acts(after[k + 1], acts(a[k + 1], v)));
        assert(acts(before[k], v) == v);
    } else {
        let i = j + 1;
        assert(call_ensures(L::times, (la, &after[i], &a[i]), after[i - 1]));
        assert(call_ensures(L::times, (la, &before[i], &a[i]), before[i - 1]));
        tails_go_on(la, val, acts, identity, a, b, k, before, row, after, next, i, acts(a[i], v));
        assert(acts(after[j], v) == acts(after[i], acts(a[i], v)));
        assert(acts(before[j], v) == acts(before[i], acts(a[i], v)));
    }
}

/// What an input does at its own step is its input matrix, and from each step to the next it
/// goes on as the state does.
pub proof fn an_input_goes_on_step_by_step<M, L: DenseAlgebra<M>>(
    la: &L,
    val: spec_fn(Scalar) -> real,
    acts: spec_fn(M, Seq<real>) -> Seq<real>,
    identity: M,
    a: Seq<M>,
    b: Seq<M>,
    b_u: Seq<Vec<M>>,
    k: int,
    j: int,
    v: Seq<real>,
)
    requires
        composes_maps(la, val, acts),
        forall|u: Seq<real>| #[trigger] acts(identity, u) == u,
        is_input_map(la, identity, a, b, b_u),
        0 <= j <= k,
        k < a.len(),
    ensures
        acts(b_u[k]@[k], v) == acts(b[k], v),
        k + 1 < a.len() ==> acts(b_u[k + 1]@[j], v) == acts(a[k + 1], acts(b_u[k]@[j], v)),
{
    assert(has_input_row(la, identity, a, b, k, b_u[k]@));
    let before = choose|t: Seq<M>| is_input_row(la, identity, a, b, k, t, b_u[k]@);
    assert(call_ensures(L::times, (la, &before[k], &b[k]), b_u[k]@[k]));
    assert(acts(b_u[k]@[k], v) == acts(before[k], acts(b[k], v)));
    if k + 1 < a.len() {
        assert(has_input_row(la, identity, a, b, k + 1, b_u[k + 1]@));
        let m = k + 1;
        let next = b_u[m]@;
        let after = choose|t: Seq<M>| is_input_row(la, identity, a, b, m, t, next);
        assert(call_ensures(L::times, (la, &after[j], &b[j]), b_u[k + 1]@[j]));
        assert(call_ensures(L::times, (la, &before[j], &b[j]), b_u[k]@[j]));
        let w = acts(b[j], v);
        tails_go_on(la, val, acts, identity, a, b, k, before, b_u[k]@, after, b_u[k + 1]@, j, w);
        assert(acts(b_u[k + 1]@[j], v) == acts(after[j], w));
        assert(acts(b_u[k]@[j], v) == acts(before[j], w));
    }
}

} // verus!
