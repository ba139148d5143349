//! Feet over the horizon as linear functions of its inputs.
//!
//! The lifted dynamics give each state as a linear function of the inputs; the
//! velocity of a foot and its miss of a target follow from rows of that function.

use vstd::prelude::*;
use crate::arith::{
    deterministic, difference, product, sum, vec_difference, vec_minus, Arithmetic,
};
use crate::config::LegId;
use crate::controller::steady;
use crate::dynamics::settled;
use crate::foot_cost::FootTerm;
use crate::full_centroidal_iter::HorizonKernel;
use crate::full_centroidal_mpc::{FootTarget, FullCentroidalMpcConfig, FullCentroidalState};
use crate::full_centroidal_qp::FootVelocity;
use crate::leg_odometry::{mat_times, mat_times_of};
use crate::linear_blocks::{
    leg_jacobian, leg_point, leg_pose, mat_product, mat_product_of, yaw_frame, yaw_frame_of,
};
use crate::scalar::{one, skew_3, zero, Mat3, Scalar, Vec3};

verus! {

/// The value read from a block.
pub open spec fn entry_of<M, K: HorizonKernel<M>>(kernel: &K, m: M, i: usize, j: usize) -> Scalar {
    choose|s: Scalar| call_ensures(K::entry, (kernel, &m, i, j), s)
}

/// Arithmetic, geometry and block entries are functions of what they are asked.
pub open spec fn exact<M, A: Arithmetic, K: HorizonKernel<M>>(ar: &A, kernel: &K) -> bool {
    &&& deterministic(ar)
    &&& steady(kernel)
    &&& settled(kernel)
    &&& forall|m: M, i: usize, j: usize, s: Scalar| #[trigger]
        call_ensures(K::entry, (kernel, &m, i, j), s) ==> s == entry_of(kernel, m, i, j)
}

/// Entry of the map from an input, counted over the horizon, to the state at
/// step `k`. Later inputs have no effect.
pub open spec fn input_entry<M, K: HorizonKernel<M>>(
    kernel: &K,
    b_u: Seq<Vec<M>>,
    k: int,
    i: int,
    col: int,
) -> Scalar {
    if col / 24 <= k {
        entry_of(kernel, b_u[k]@[col / 24], i as usize, (col % 24) as usize)
    } else {
        zero()
    }
}

/// Foot, Jacobian and joint angles of a leg, turned by the yaw of a state.
pub struct LegFrame {
    /// Foot about the centre of mass.
    pub arm: Vec3,
    /// Foot about the base.
    pub foot: Vec3,
    /// Jacobian.
    pub jacobian: Mat3,
    /// Joint angles.
    pub q: Vec3,
}

/// The frame of the leg in a slot.
pub open spec fn leg_frame<M, A: Arithmetic, K: HorizonKernel<M>>(
    ar: &A,
    kernel: &K,
    cfg: FullCentroidalMpcConfig,
    s: FullCentroidalState,
    slot: int,
) -> LegFrame {
    let rz = yaw_frame(ar, s.base_euler_zyx.z);
    let p = leg_point(ar, cfg, s, slot);
    LegFrame {
        arm: mat_times(ar, rz, vec_difference(ar, p, cfg.com_offset_body)),
        foot: mat_times(ar, rz, p),
        jacobian: mat_product(ar, rz, leg_jacobian(kernel, cfg, s, slot)),
        q: Vec3 {
            x: s.joint_q@[3 * slot],
            y: s.joint_q@[3 * slot + 1],
            z: s.joint_q@[3 * slot + 2],
        },
    }
}

/// Velocity along an axis of a point at an arm, from the linear velocity along
/// the axis and the angular velocity.
pub open spec fn carried<A: Arithmetic>(
    ar: &A,
    arm: Vec3,
    ax: int,
    linear: Scalar,
    wx: Scalar,
    wy: Scalar,
    wz: Scalar,
) -> Scalar {
    let m = skew_3(arm);
    sum(
        ar,
        sum(
            ar,
            sum(ar, linear, product(ar, m.at(ax, 0).neg_spec(), wx)),
            product(ar, m.at(ax, 1).neg_spec(), wy),
        ),
        product(ar, m.at(ax, 2).neg_spec(), wz),
    )
}

/// Foot velocity along an axis at step `k` per unit of an input: carried by the
/// body, and moved by the joints of the leg.
pub open spec fn velocity_coef<M, A: Arithmetic, K: HorizonKernel<M>>(
    ar: &A,
    kernel: &K,
    frame: LegFrame,
    b_u: Seq<Vec<M>>,
    k: int,
    slot: int,
    ax: int,
    col: int,
) -> Scalar {
    let base = carried(
        ar,
        frame.arm,
        ax,
        input_entry(kernel, b_u, k, ax, col),
        input_entry(kernel, b_u, k, 3, col),
        input_entry(kernel, b_u, k, 4, col),
        input_entry(kernel, b_u, k, 5, col),
    );
    let joint = 24 * k + 12 + 3 * slot;
    if joint <= col < joint + 3 {
        sum(ar, base, frame.jacobian.at(ax, col - joint))
    } else {
        base
    }
}

/// Foot velocity along an axis at step `k` under zero input, from the first `n`
/// components of the present state.
pub open spec fn velocity_drift<M, A: Arithmetic, K: HorizonKernel<M>>(
    ar: &A,
    kernel: &K,
    frame: LegFrame,
    a: M,
    x_now: Seq<Scalar>,
    ax: int,
    n: int,
) -> Scalar
    decreases n,
{
    if n <= 0 {
        zero()
    } else {
        let row = carried(
            ar,
            frame.arm,
            ax,
            sum(ar, zero(), entry_of(kernel, a, ax as usize, (n - 1) as usize)),
            entry_of(kernel, a, 3, (n - 1) as usize),
            entry_of(kernel, a, 4, (n - 1) as usize),
            entry_of(kernel, a, 5, (n - 1) as usize),
        );
        sum(
            ar,
            velocity_drift(ar, kernel, frame, a, x_now, ax, n - 1),
            product(ar, row, x_now[n - 1]),
        )
    }
}

/// `out` is the velocity of the foot in a slot at step `k` of `n`.
pub open spec fn is_foot_velocity<M, A: Arithmetic, K: HorizonKernel<M>>(
    ar: &A,
    kernel: &K,
    cfg: FullCentroidalMpcConfig,
    s: FullCentroidalState,
    slot: int,
    k: int,
    n: int,
    a_x: Seq<M>,
    b_u: Seq<Vec<M>>,
    x_now: Seq<Scalar>,
    out: FootVelocity,
) -> bool {
    let frame = leg_frame(ar, kernel, cfg, s, slot);
    &&& out.spans(n)
    &&& exact(ar, kernel) ==> forall|ax: int, col: int|
        0 <= ax < 3 && 0 <= col < 24 * n ==> #[trigger] out.coef@[ax]@[col] == velocity_coef(
            ar,
            kernel,
            frame,
            b_u,
            k,
            slot,
            ax,
            col,
        )
    &&& exact(ar, kernel) ==> forall|ax: int|
        0 <= ax < 3 ==> #[trigger] out.drift@[ax] == velocity_drift(
            ar,
            kernel,
            frame,
            a_x[k],
            x_now,
            ax,
            25,
        )
}

/// The row that takes a state to the position of a foot along a level axis: the
/// base, and the joints of the leg.
pub open spec fn selector(frame: LegFrame, slot: int, ax: int) -> Seq<Scalar> {
    Seq::new(
        25,
        |i: int|
            if i == 6 + ax {
                one()
            } else if 12 + 3 * slot <= i < 15 + 3 * slot {
                frame.jacobian.at(ax, i - 12 - 3 * slot)
            } else {
                zero()
            },
    )
}

/// The first `n` entries of a row times a column of the input map.
pub open spec fn picked_input<M, A: Arithmetic, K: HorizonKernel<M>>(
    ar: &A,
    kernel: &K,
    e: Seq<Scalar>,
    b_u: Seq<Vec<M>>,
    k: int,
    col: int,
    n: int,
) -> Scalar
    decreases n,
{
    if n <= 0 {
        zero()
    } else {
        sum(
            ar,
            picked_input(ar, kernel, e, b_u, k, col, n - 1),
            product(ar, e[n - 1], input_entry(kernel, b_u, k, n - 1, col)),
        )
    }
}

/// The first `n` entries of a row times a column of the state map.
pub open spec fn picked_state<M, A: Arithmetic, K: HorizonKernel<M>>(
    ar: &A,
    kernel: &K,
    e: Seq<Scalar>,
    a: M,
    col: int,
    n: int,
) -> Scalar
    decreases n,
{
    if n <= 0 {
        zero()
    } else {
        sum(
            ar,
            picked_state(ar, kernel, e, a, col, n - 1),
            product(ar, e[n - 1], entry_of(kernel, a, (n - 1) as usize, col as usize)),
        )
    }
}

/// Miss of a target under zero input, from the first `n` components of the
/// present state.
pub open spec fn miss<M, A: Arithmetic, K: HorizonKernel<M>>(
    ar: &A,
    kernel: &K,
    e: Seq<Scalar>,
    start: Scalar,
    a: M,
    x_now: Seq<Scalar>,
    n: int,
) -> Scalar
    decreases n,
{
    if n <= 0 {
        start
    } else {
        sum(
            ar,
            miss(ar, kernel, e, start, a, x_now, n - 1),
            product(ar, picked_state(ar, kernel, e, a, n - 1, 25), x_now[n - 1]),
        )
    }
}

/// A foothold in the world, seen from a state; its height is left at zero.
pub open spec fn foothold<A: Arithmetic>(ar: &A, t: FootTarget, s: FullCentroidalState) -> Vec3 {
    match t {
        FootTarget::World { x, y } => Vec3 { x, y, z: zero() },
        FootTarget::BodyOffset { x, y } => {
            let turned = mat_times(
                ar,
                yaw_frame(ar, s.base_euler_zyx.z),
                Vec3 { x, y, z: zero() },
            );
            Vec3 {
                x: sum(ar, s.base_pos_world.x, turned.x),
                y: sum(ar, s.base_pos_world.y, turned.y),
                z: zero(),
            }
        },
    }
}

/// Position of a foot along an axis less what its joint angles account for, and
/// less the target.
pub open spec fn miss_start<A: Arithmetic>(ar: &A, frame: LegFrame, ax: int, target: Scalar) -> Scalar {
    difference(
        ar,
        difference(ar, frame.foot.at(ax), mat_times(ar, frame.jacobian, frame.q).at(ax)),
        target,
    )
}

/// `out` is the miss of a target along a level axis by the foot in a slot at
/// step `k` of `n`.
pub open spec fn is_foot_term<M, A: Arithmetic, K: HorizonKernel<M>>(
    ar: &A,
    kernel: &K,
    cfg: FullCentroidalMpcConfig,
    s: FullCentroidalState,
    slot: int,
    ax: int,
    target: Scalar,
    k: int,
    n: int,
    a_x: Seq<M>,
    b_u: Seq<Vec<M>>,
    x_now: Seq<Scalar>,
    out: FootTerm,
) -> bool {
    let frame = leg_frame(ar, kernel, cfg, s, slot);
    let e = selector(frame, slot, ax);
    &&& out.b@.len() == 24 * n
    &&& exact(ar, kernel) ==> forall|col: int|
        0 <= col < 24 * n ==> #[trigger] out.b@[col] == picked_input(
            ar,
            kernel,
            e,
            b_u,
            k,
            col,
            25,
        )
    &&& exact(ar, kernel) ==> out.r0 == miss(
        ar,
        kernel,
        e,
        miss_start(ar, frame, ax, target),
        a_x[k],
        x_now,
        25,
    )
}

/// The lifted maps have a block per step, and one per input up to the step.
pub open spec fn are_lifted<M>(a_x: Seq<M>, b_u: Seq<Vec<M>>, n: int) -> bool {
    &&& a_x.len() == n
    &&& b_u.len() == n
    &&& forall|k: int| 0 <= k < n ==> (#[trigger] b_u[k])@.len() == k + 1
}

/// A foothold in the world, seen from a state.
pub fn foothold_of<A: Arithmetic>(ar: &A, t: FootTarget, s: &FullCentroidalState) -> (r: Vec3)
    ensures
        t is World ==> r == foothold(ar, t, *s),
        deterministic(ar) ==> r == foothold(ar, t, *s),
{
    match t {
        FootTarget::World { x, y } => Vec3::new(x, y, zero()),
        FootTarget::BodyOffset { x, y } => {
            let rz = yaw_frame_of(ar, s.base_euler_zyx.z);
            let turned = mat_times_of(ar, &rz, Vec3::new(x, y, zero()));
            Vec3::new(
                ar.plus(s.base_pos_world.x, turned.x),
                ar.plus(s.base_pos_world.y, turned.y),
                zero(),
            )
        },
    }
}

fn leg_frame_of<M, A: Arithmetic, K: HorizonKernel<M>>(
    ar: &A,
    kernel: &K,
    cfg: &FullCentroidalMpcConfig,
    s: &FullCentroidalState,
    leg: LegId,
    slot: usize,
) -> (r: LegFrame)
    requires
        slot < 4,
        leg == LegId::at_slot(slot as int),
    ensures
        deterministic(ar) && steady(kernel) ==> r == leg_frame(
            ar,
            kernel,
            *cfg,
            *s,
            slot as int,
        ),
{
    let rz = yaw_frame_of(ar, s.base_euler_zyx.z);
    let pose = leg_pose(ar, kernel, cfg, s, leg, slot);
    let q = s.leg_joint_q(slot);
    assert(q@[0] == s.joint_q@[3 * slot]);
    assert(q@[1] == s.joint_q@[3 * slot + 1]);
    assert(q@[2] == s.joint_q@[3 * slot + 2]);
    LegFrame {
        arm: mat_times_of(ar, &rz, vec_minus(ar, pose.0, cfg.com_offset_body)),
        foot: mat_times_of(ar, &rz, pose.0),
        jacobian: mat_product_of(ar, &rz, &pose.1),
        q: Vec3::new(q[0], q[1], q[2]),
    }
}

fn input_entry_of<M, K: HorizonKernel<M>>(
    kernel: &K,
    b_u: &Vec<Vec<M>>,
    k: usize,
    i: usize,
    col: usize,
) -> (r: Scalar)
    requires
        k < b_u@.len(),
        b_u@[k as int]@.len() == k + 1,
    ensures
        (forall|m: M, i: usize, j: usize, s: Scalar| #[trigger]
            call_ensures(K::entry, (kernel, &m, i, j), s)
                ==> s == entry_of(kernel, m, i, j)) ==> r == input_entry(
            kernel,
            b_u@,
            k as int,
            i as int,
            col as int,
        ),
{
    if col / 24 <= k {
        kernel.entry(&b_u[k][col / 24], i, col % 24)
    } else {
        zero()
    }
}

fn carried_of<A: Arithmetic>(
    ar: &A,
    arm: Vec3,
    ax: usize,
    linear: Scalar,
    wx: Scalar,
    wy: Scalar,
    wz: Scalar,
) -> (r: Scalar)
    requires
        ax < 3,
    ensures
        deterministic(ar) ==> r == carried(ar, arm, ax as int, linear, wx, wy, wz),
{
    let m = skew_3(arm);
    let a = ar.plus(linear, ar.times(m.get(ax, 0).neg(), wx));
    let b = ar.plus(a, ar.times(m.get(ax, 1).neg(), wy));
    ar.plus(b, ar.times(m.get(ax, 2).neg(), wz))
}

fn velocity_row_of<M, A: Arithmetic, K: HorizonKernel<M>>(
    ar: &A,
    kernel: &K,
    frame: &LegFrame,
    b_u: &Vec<Vec<M>>,
    k: usize,
    slot: usize,
    ax: usize,
    n: usize,
) -> (r: Vec<Scalar>)
    requires
        slot < 4,
        ax < 3,
        k < n,
        32 * n < usize::MAX,
        k < b_u@.len(),
        b_u@[k as int]@.len() == k + 1,
    ensures
        r@.len() == 24 * n,
        exact(ar, kernel) ==> forall|col: int|
            0 <= col < 24 * n ==> #[trigger] r@[col] == velocity_coef(
                ar,
                kernel,
                *frame,
                b_u@,
                k as int,
                slot as int,
                ax as int,
                col,
            ),
{
    let total: usize = 24 * n;
    let joint: usize = 24 * k + 12 + 3 * slot;
    let mut row: Vec<Scalar> = Vec::new();
    let mut col: usize = 0;
    while col < total
        invariant
            col <= total,
            total == 24 * n,
            joint == 24 * k + 12 + 3 * slot,
            joint + 3 <= total,
            ax < 3,
            k < b_u@.len(),
            b_u@[k as int]@.len() == k + 1,
            row@.len() == col,
            exact(ar, kernel) ==> forall|c: int|
                0 <= c < col ==> #[trigger] row@[c] == velocity_coef(
                    ar,
                    kernel,
                    *frame,
                    b_u@,
                    k as int,
                    slot as int,
                    ax as int,
                    c,
                ),
        decreases total - col,
    {
        let linear = input_entry_of(kernel, b_u, k, ax, col);
        let wx = input_entry_of(kernel, b_u, k, 3, col);
        let wy = input_entry_of(kernel, b_u, k, 4, col);
        let wz = input_entry_of(kernel, b_u, k, 5, col);
        let base = carried_of(ar, frame.arm, ax, linear, wx, wy, wz);
        let coef = if joint <= col && col < joint + 3 {
            ar.plus(base, frame.jacobian.get(ax, col - joint))
        } else {
            base
        };
        row.push(coef);
        col += 1;
    }
    row
}

fn velocity_drift_of<M, A: Arithmetic, K: HorizonKernel<M>>(
    ar: &A,
    kernel: &K,
    frame: &LegFrame,
    a: &M,
    x_now: &[Scalar; 25],
    ax: usize,
) -> (r: Scalar)
    requires
        ax < 3,
    ensures
        exact(ar, kernel) ==> r == velocity_drift(ar, kernel, *frame, *a, x_now@, ax as int, 25),
{
    let mut t = zero();
    let mut col: usize = 0;
    while col < 25
        invariant
            col <= 25,
            ax < 3,
            exact(ar, kernel) ==> t == velocity_drift(
                ar,
                kernel,
                *frame,
                *a,
                x_now@,
                ax as int,
                col as int,
            ),
        decreases 25 - col,
    {
        let linear = ar.plus(zero(), kernel.entry(a, ax, col));
        let wx = kernel.entry(a, 3, col);
        let wy = kernel.entry(a, 4, col);
        let wz = kernel.entry(a, 5, col);
        let row = carried_of(ar, frame.arm, ax, linear, wx, wy, wz);
        t = ar.plus(t, ar.times(row, x_now[col]));
        col += 1;
    }
    t
}

/// Velocity of a foot at step `k` of `n` as a function of the inputs.
pub fn foot_velocity<M, A: Arithmetic, K: HorizonKernel<M>>(
    ar: &A,
    kernel: &K,
    cfg: &FullCentroidalMpcConfig,
    s: &FullCentroidalState,
    leg: LegId,
    slot: usize,
    k: usize,
    n: usize,
    a_x: &Vec<M>,
    b_u: &Vec<Vec<M>>,
    x_now: &[Scalar; 25],
) -> (r: FootVelocity)
    requires
        slot < 4,
        leg == LegId::at_slot(slot as int),
        k < n,
        32 * n < usize::MAX,
        are_lifted(a_x@, b_u@, n as int),
    ensures
        is_foot_velocity(
            ar,
            kernel,
            *cfg,
            *s,
            slot as int,
            k as int,
            n as int,
            a_x@,
            b_u@,
            x_now@,
            r,
        ),
{
    let frame = leg_frame_of(ar, kernel, cfg, s, leg, slot);
    let coef = [
        velocity_row_of(ar, kernel, &frame, b_u, k, slot, 0, n),
        velocity_row_of(ar, kernel, &frame, b_u, k, slot, 1, n),
        velocity_row_of(ar, kernel, &frame, b_u, k, slot, 2, n),
    ];
    let drift = [
        velocity_drift_of(ar, kernel, &frame, &a_x[k], x_now, 0),
        velocity_drift_of(ar, kernel, &frame, &a_x[k], x_now, 1),
        velocity_drift_of(ar, kernel, &frame, &a_x[k], x_now, 2),
    ];
    FootVelocity { coef, drift }
}

fn selector_of(frame: &LegFrame, slot: usize, ax: usize) -> (r: Vec<Scalar>)
    requires
        slot < 4,
        ax < 2,
    ensures
        r@ == selector(*frame, slot as int, ax as int),
{
    let mut e: Vec<Scalar> = Vec::new();
    let joint: usize = 12 + 3 * slot;
    let mut i: usize = 0;
    while i < 25
        invariant
            i <= 25,
            slot < 4,
            ax < 2,
            joint == 12 + 3 * slot,
            e@ == selector(*frame, slot as int, ax as int).take(i as int),
        decreases 25 - i,
    {
        let v = if i == 6 + ax {
            one()
        } else if joint <= i && i < joint + 3 {
            frame.jacobian.get(ax, i - joint)
        } else {
            zero()
        };
        e.push(v);
        i += 1;
        assert(e@ =~= selector(*frame, slot as int, ax as int).take(i as int));
    }
    assert(e@ =~= selector(*frame, slot as int, ax as int));
    e
}

fn picked_input_of<M, A: Arithmetic, K: HorizonKernel<M>>(
    ar: &A,
    kernel: &K,
    e: &Vec<Scalar>,
    b_u: &Vec<Vec<M>>,
    k: usize,
    col: usize,
) -> (r: Scalar)
    requires
        e@.len() == 25,
        k < b_u@.len(),
        b_u@[k as int]@.len() == k + 1,
    ensures
        exact(ar, kernel) ==> r == picked_input(
            ar,
            kernel,
            e@,
            b_u@,
            k as int,
            col as int,
            25,
        ),
{
    let mut t = zero();
    let mut i: usize = 0;
    while i < 25
        invariant
            i <= 25,
            e@.len() == 25,
            k < b_u@.len(),
            b_u@[k as int]@.len() == k + 1,
            exact(ar, kernel) ==> t == picked_input(
                ar,
                kernel,
                e@,
                b_u@,
                k as int,
                col as int,
                i as int,
            ),
        decreases 25 - i,
    {
        t = ar.plus(t, ar.times(e[i], input_entry_of(kernel, b_u, k, i, col)));
        i += 1;
    }
    t
}

fn picked_state_of<M, A: Arithmetic, K: HorizonKernel<M>>(
    ar: &A,
    kernel: &K,
    e: &Vec<Scalar>,
    a: &M,
    col: usize,
) -> (r: Scalar)
    requires
        e@.len() == 25,
    ensures
        exact(ar, kernel) ==> r == picked_state(ar, kernel, e@, *a, col as int, 25),
{
    let mut t = zero();
    let mut i: usize = 0;
    while i < 25
        invariant
            i <= 25,
            e@.len() == 25,
            exact(ar, kernel) ==> t == picked_state(ar, kernel, e@, *a, col as int, i as int),
        decreases 25 - i,
    {
        t = ar.plus(t, ar.times(e[i], kernel.entry(a, i, col)));
        i += 1;
    }
    t
}

/// Miss of a target along a level axis by a foot at step `k` of `n`, as a
/// function of the inputs.
pub fn foot_term<M, A: Arithmetic, K: HorizonKernel<M>>(
    ar: &A,
    kernel: &K,
    cfg: &FullCentroidalMpcConfig,
    s: &FullCentroidalState,
    leg: LegId,
    slot: usize,
    ax: usize,
    target: Scalar,
    k: usize,
    n: usize,
    a_x: &Vec<M>,
    b_u: &Vec<Vec<M>>,
    x_now: &[Scalar; 25],
) -> (r: FootTerm)
    requires
        slot < 4,
        leg == LegId::at_slot(slot as int),
        ax < 2,
        k < n,
        32 * n < usize::MAX,
        are_lifted(a_x@, b_u@, n as int),
    ensures
        is_foot_term(
            ar,
            kernel,
            *cfg,
            *s,
            slot as int,
            ax as int,
            target,
            k as int,
            n as int,
            a_x@,
            b_u@,
            x_now@,
            r,
        ),
{
    let frame = leg_frame_of(ar, kernel, cfg, s, leg, slot);
    let e = selector_of(&frame, slot, ax);
    let total: usize = 24 * n;
    let mut b: Vec<Scalar> = Vec::new();
    let mut col: usize = 0;
    while col < total
        invariant
            col <= total,
            total == 24 * n,
            k < b_u@.len(),
            b_u@[k as int]@.len() == k + 1,
            e@.len() == 25,
            b@.len() == col,
            exact(ar, kernel) ==> forall|c: int|
                0 <= c < col ==> #[trigger] b@[c] == picked_input(
                    ar,
                    kernel,
                    e@,
                    b_u@,
                    k as int,
                    c,
                    25,
                ),
        decreases total - col,
    {
        b.push(picked_input_of(ar, kernel, &e, b_u, k, col));
        col += 1;
    }
    let through = mat_times_of(ar, &frame.jacobian, frame.q);
    let offset = ar.minus(frame.foot.get(ax), through.get(ax));
    let start = ar.minus(offset, target);
    let mut r0 = start;
    let mut c: usize = 0;
    while c < 25
        invariant
            c <= 25,
            k < a_x@.len(),
            e@.len() == 25,
            exact(ar, kernel) ==> r0 == miss(
                ar,
                kernel,
                e@,
                start,
                a_x@[k as int],
                x_now@,
                c as int,
            ),
        decreases 25 - c,
    {
        r0 = ar.plus(r0, ar.times(picked_state_of(ar, kernel, &e, &a_x[k], c), x_now[c]));
        c += 1;
    }
    FootTerm { b, r0 }
}

} // verus!
