//! Continuous-time linear models about a yaw-only reference.
//!
//! The state ends with a constant gravity component that feeds the vertical
//! velocity. Forces of swing legs have no effect. The numeric blocks come from
//! the caller.

use vstd::prelude::*;
use crate::csc::has_shape;
use crate::rows::make_zero_row;
use crate::scalar::{one, zero, Mat3, Scalar};

verus! {

/// State matrix entry shared by both models: gravity into vertical velocity,
/// velocity into position, angular velocity into attitude. `g` is the index of
/// the gravity component and `rz_t` the transposed yaw rotation.
pub open spec fn body_state_entry(rz_t: Mat3, g: int, i: int, j: int) -> Scalar {
    if i == 2 && j == g {
        one()
    } else if 6 <= i < 9 && j == i - 6 {
        one()
    } else if 9 <= i < 12 && 3 <= j < 6 {
        rz_t.at(i - 9, j - 3)
    } else {
        zero()
    }
}

/// Input matrix entry of the forces: a stance leg's force accelerates the body
/// by the inverse mass and turns it by its block.
pub open spec fn force_entry(
    stance: Seq<bool>,
    inv_mass: Scalar,
    force_blocks: Seq<Mat3>,
    i: int,
    j: int,
) -> Scalar {
    if 0 <= j < 12 && stance[j / 3] {
        if 0 <= i < 3 && j % 3 == i {
            inv_mass
        } else if 3 <= i < 6 {
            force_blocks[j / 3].at(i - 3, j % 3)
        } else {
            zero()
        }
    } else {
        zero()
    }
}

/// State matrix entry of the full model: the body part, and the response of the
/// angular acceleration to attitude and to the joints of stance legs.
pub open spec fn full_state_entry(
    stance: Seq<bool>,
    joint_blocks: Seq<Mat3>,
    euler_block: Mat3,
    rz_t: Mat3,
    i: int,
    j: int,
) -> Scalar {
    if 3 <= i < 6 && 9 <= j < 12 {
        euler_block.at(i - 3, j - 9)
    } else if 3 <= i < 6 && 12 <= j < 24 {
        if stance[(j - 12) / 3] {
            joint_blocks[(j - 12) / 3].at(i - 3, (j - 12) % 3)
        } else {
            zero()
        }
    } else {
        body_state_entry(rz_t, 24, i, j)
    }
}

/// Input matrix entry of the full model: the forces, and joint velocities that
/// drive the joints one to one.
pub open spec fn full_input_entry(
    stance: Seq<bool>,
    inv_mass: Scalar,
    force_blocks: Seq<Mat3>,
    i: int,
    j: int,
) -> Scalar {
    if 12 <= i < 24 && j == i {
        one()
    } else {
        force_entry(stance, inv_mass, force_blocks, i, j)
    }
}

fn body_state_value(rz_t: &Mat3, g: usize, i: usize, j: usize) -> (r: Scalar)
    ensures
        r == body_state_entry(*rz_t, g as int, i as int, j as int),
{
    if i == 2 && j == g {
        one()
    } else if 6 <= i && i < 9 && j == i - 6 {
        one()
    } else if 9 <= i && i < 12 && 3 <= j && j < 6 {
        rz_t.get(i - 9, j - 3)
    } else {
        zero()
    }
}

fn force_value(
    stance: &[bool; 4],
    inv_mass: Scalar,
    force_blocks: &[Mat3; 4],
    i: usize,
    j: usize,
) -> (r: Scalar)
    ensures
        r == force_entry(stance@, inv_mass, force_blocks@, i as int, j as int),
{
    if j < 12 && stance[j / 3] {
        if i < 3 && j % 3 == i {
            inv_mass
        } else if 3 <= i && i < 6 {
            force_blocks[j / 3].get(i - 3, j % 3)
        } else {
            zero()
        }
    } else {
        zero()
    }
}

fn full_state_value(
    stance: &[bool; 4],
    joint_blocks: &[Mat3; 4],
    euler_block: &Mat3,
    rz_t: &Mat3,
    i: usize,
    j: usize,
) -> (r: Scalar)
    ensures
        r == full_state_entry(
            stance@,
            joint_blocks@,
            *euler_block,
            *rz_t,
            i as int,
            j as int,
        ),
{
    if 3 <= i && i < 6 && 9 <= j && j < 12 {
        euler_block.get(i - 3, j - 9)
    } else if 3 <= i && i < 6 && 12 <= j && j < 24 {
        let leg: usize = (j - 12) / 3;
        if stance[leg] {
            joint_blocks[leg].get(i - 3, (j - 12) % 3)
        } else {
            zero()
        }
    } else {
        body_state_value(rz_t, 24, i, j)
    }
}

/// Matrices of the full model: 25 by 25 and 25 by 24.
pub fn continuous_dynamics_full(
    stance: &[bool; 4],
    inv_mass: Scalar,
    force_blocks: &[Mat3; 4],
    joint_blocks: &[Mat3; 4],
    euler_block: &Mat3,
    rz_t: &Mat3,
) -> (r: (Vec<Vec<Scalar>>, Vec<Vec<Scalar>>))
    ensures
        has_shape(r.0@, 25, 25),
        has_shape(r.1@, 25, 24),
        forall|i: int, j: int|
            0 <= i < 25 && 0 <= j < 25 ==> #[trigger] r.0@[i]@[j] == full_state_entry(
                stance@,
                joint_blocks@,
                *euler_block,
                *rz_t,
                i,
                j,
            ),
        forall|i: int, j: int|
            0 <= i < 25 && 0 <= j < 24 ==> #[trigger] r.1@[i]@[j] == full_input_entry(
                stance@,
                inv_mass,
                force_blocks@,
                i,
                j,
            ),
{
    let mut a: Vec<Vec<Scalar>> = Vec::new();
    let mut b: Vec<Vec<Scalar>> = Vec::new();
    let mut i: usize = 0;
    while i < 25
        invariant
            i <= 25,
            has_shape(a@, i as nat, 25),
            has_shape(b@, i as nat, 24),
            forall|p: int, q: int|
                0 <= p < i && 0 <= q < 25 ==> #[trigger] a@[p]@[q] == full_state_entry(
                    stance@,
                    joint_blocks@,
                    *euler_block,
                    *rz_t,
                    p,
                    q,
                ),
            forall|p: int, q: int|
                0 <= p < i && 0 <= q < 24 ==> #[trigger] b@[p]@[q] == full_input_entry(
                    stance@,
                    inv_mass,
                    force_blocks@,
                    p,
                    q,
                ),
        decreases 25 - i,
    {
        let mut a_row = make_zero_row(25);
        let mut j: usize = 0;
        while j < 25
            invariant
                i < 25,
                j <= 25,
                a_row@.len() == 25,
                forall|q: int|
                    0 <= q < j ==> a_row@[q] == full_state_entry(
                        stance@,
                        joint_blocks@,
                        *euler_block,
                        *rz_t,
                        i as int,
                        q,
                    ),
            decreases 25 - j,
        {
            a_row[j] = full_state_value(stance, joint_blocks, euler_block, rz_t, i, j);
            j += 1;
        }
        let mut b_row = make_zero_row(24);
        let mut c: usize = 0;
        while c < 24
            invariant
                i < 25,
                c <= 24,
                b_row@.len() == 24,
                forall|q: int|
                    0 <= q < c ==> b_row@[q] == full_input_entry(
                        stance@,
                        inv_mass,
                        force_blocks@,
                        i as int,
                        q,
                    ),
            decreases 24 - c,
        {
            b_row[c] = if 12 <= i && i < 24 && c == i {
                one()
            } else {
                force_value(stance, inv_mass, force_blocks, i, c)
            };
            c += 1;
        }
        a.push(a_row);
        b.push(b_row);
        i += 1;
    }
    (a, b)
}

/// Matrices of the body-only model: 13 by 13 and 13 by 12.
pub fn continuous_dynamics(
    stance: &[bool; 4],
    inv_mass: Scalar,
    force_blocks: &[Mat3; 4],
    rz_t: &Mat3,
) -> (r: (Vec<Vec<Scalar>>, Vec<Vec<Scalar>>))
    ensures
        has_shape(r.0@, 13, 13),
        has_shape(r.1@, 13, 12),
        forall|i: int, j: int|
            0 <= i < 13 && 0 <= j < 13 ==> #[trigger] r.0@[i]@[j] == body_state_entry(
                *rz_t,
                12,
                i,
                j,
            ),
        forall|i: int, j: int|
            0 <= i < 13 && 0 <= j < 12 ==> #[trigger] r.1@[i]@[j] == force_entry(
                stance@,
                inv_mass,
                force_blocks@,
                i,
                j,
            ),
{
    let mut a: Vec<Vec<Scalar>> = Vec::new();
    let mut b: Vec<Vec<Scalar>> = Vec::new();
    let mut i: usize = 0;
    while i < 13
        invariant
            i <= 13,
            has_shape(a@, i as nat, 13),
            has_shape(b@, i as nat, 12),
            forall|p: int, q: int|
                0 <= p < i && 0 <= q < 13 ==> #[trigger] a@[p]@[q] == body_state_entry(
                    *rz_t,
                    12,
                    p,
                    q,
                ),
            forall|p: int, q: int|
                0 <= p < i && 0 <= q < 12 ==> #[trigger] b@[p]@[q] == force_entry(
                    stance@,
                    inv_mass,
                    force_blocks@,
                    p,
                    q,
                ),
        decreases 13 - i,
    {
        let mut a_row = make_zero_row(13);
        let mut j: usize = 0;
        while j < 13
            invariant
                i < 13,
                j <= 13,
                a_row@.len() == 13,
                forall|q: int|
                    0 <= q < j ==> a_row@[q] == body_state_entry(*rz_t, 12, i as int, q),
            decreases 13 - j,
        {
            a_row[j] = body_state_value(rz_t, 12, i, j);
            j += 1;
        }
        let mut b_row = make_zero_row(12);
        let mut c: usize = 0;
        while c < 12
            invariant
                i < 13,
                c <= 12,
                b_row@.len() == 12,
                forall|q: int|
                    0 <= q < c ==> b_row@[q] == force_entry(
                        stance@,
                        inv_mass,
                        force_blocks@,
                        i as int,
                        q,
                    ),
            decreases 12 - c,
        {
            b_row[c] = force_value(stance, inv_mass, force_blocks, i, c);
            c += 1;
        }
        a.push(a_row);
        b.push(b_row);
        i += 1;
    }
    (a, b)
}

/// A swing leg's force has no effect in either model.
pub proof fn swing_forces_have_no_effect(
    stance: Seq<bool>,
    inv_mass: Scalar,
    force_blocks: Seq<Mat3>,
    leg: int,
    i: int,
    ax: int,
)
    requires
        0 <= leg < 4,
        0 <= ax < 3,
        !stance[leg],
    ensures
        force_entry(stance, inv_mass, force_blocks, i, 3 * leg + ax) == zero(),
        full_input_entry(stance, inv_mass, force_blocks, i, 3 * leg + ax) == zero(),
{
    assert((3 * leg + ax) / 3 == leg);
}

/// The gravity component never changes: its row of both matrices is zero.
pub proof fn gravity_is_constant(
    stance: Seq<bool>,
    inv_mass: Scalar,
    force_blocks: Seq<Mat3>,
    joint_blocks: Seq<Mat3>,
    euler_block: Mat3,
    rz_t: Mat3,
    j: int,
)
    ensures
        full_state_entry(stance, joint_blocks, euler_block, rz_t, 24, j) == zero(),
        full_input_entry(stance, inv_mass, force_blocks, 24, j) == zero(),
        body_state_entry(rz_t, 12, 12, j) == zero(),
        force_entry(stance, inv_mass, force_blocks, 12, j) == zero(),
{
}

} // verus!
