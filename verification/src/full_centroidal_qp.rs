//! Quadratic program of one full-centroidal iteration: constraint rows, cost
//! padding and decoding of the solution.
//!
//! The decision vector holds the inputs of the horizon, step after step, then
//! two friction slacks per stance leg and step when the cone is soft.

use vstd::prelude::*;
use crate::arith::{deterministic, difference, Arithmetic};
use crate::csc::{dense_to_csc, dense_to_csc_upper, Csc};
use crate::full_centroidal_mpc::{
    FullCentroidalContactSchedule, FullCentroidalInput, FullCentroidalMpcConfig,
    FullCentroidalMpcSolution, FullCentroidalState, GRAVITY_Z_BITS, N_FEET, N_INPUT, N_STATE,
    N_STATE_AUG, state_to_vec_aug,
};
use crate::rows::{
    coefs, collect, collected_row_has_a_visit, collected_rows_are_found, count, count_grows,
    count_is_bounded, make_zero_row, push_row, right_sides, rows_view, zero_row, Row,
};
use crate::scalar::{infinity, minus_one, nan, one, zero, Scalar};

verus! {

/// Bits of the magnitude at or below which a foot velocity coefficient counts
/// as zero (1e-14).
pub const COEF_TOLERANCE_BITS: u64 = 0x3D06_849B_86A1_2B9B;

/// Velocity of one foot at one step as a linear function of the horizon's
/// inputs: along each world axis, `coef . U + drift`.
#[derive(Debug)]
pub struct FootVelocity {
    /// Coefficients along x, y and z, one per horizon input.
    pub coef: [Vec<Scalar>; 3],
    /// Velocity along x, y and z under zero input.
    pub drift: [Scalar; 3],
}

impl FootVelocity {
    /// One coefficient per input of a horizon of `n` steps, along each axis.
    pub open spec fn spans(self, n: int) -> bool {
        forall|ax: int| 0 <= ax < 3 ==> (#[trigger] self.coef@[ax])@.len() == 24 * n
    }
}

/// The tighter of the global and the scheduled vertical force bound; infinite
/// when neither is active. The global one is active when positive, the
/// scheduled one when finite and not negative.
pub open spec fn force_bound(global: Scalar, local: Scalar) -> Scalar {
    let local_active = local.is_finite_spec() && zero().le_spec(local);
    let global_active = zero().lt_spec(global);
    if global_active && local_active {
        global.min_spec(local)
    } else if global_active {
        global
    } else if local_active {
        local
    } else {
        infinity()
    }
}

/// The tighter of the global and the scheduled vertical force bound.
pub fn effective_f_max(global: Scalar, local: Scalar) -> (r: Scalar)
    ensures
        r == force_bound(global, local),
{
    let local_active = local.is_finite() && zero().le(local);
    let global_active = zero().lt(global);
    match (global_active, local_active) {
        (true, true) => global.min(local),
        (true, false) => global,
        (false, true) => local,
        (false, false) => infinity(),
    }
}

/// Whether visit `v` (leg `v % 4` at step `v / 4`) is in stance.
pub open spec fn visit_stance(contact: FullCentroidalContactSchedule, v: int) -> bool {
    contact.stance(v % 4, v / 4)
}

/// Stance legs among the first `m` visits.
pub open spec fn stance_count(contact: FullCentroidalContactSchedule, m: int) -> int {
    count(|v: int| visit_stance(contact, v), m)
}

/// Friction slacks over a horizon of `n` steps: two per stance leg and step when
/// the cone is soft.
pub open spec fn slack_count(soft: bool, contact: FullCentroidalContactSchedule, n: int) -> int {
    if soft {
        2 * stance_count(contact, 4 * n)
    } else {
        0
    }
}

/// Number of friction slack variables.
pub fn n_friction_slack_vars(
    cfg: &FullCentroidalMpcConfig,
    contact: &FullCentroidalContactSchedule,
    n: usize,
) -> (r: usize)
    requires
        contact.spans(n as int),
        8 * n <= usize::MAX,
    ensures
        r == slack_count(cfg.friction_cone_soft, *contact, n as int),
        r <= 8 * n,
{
    if !cfg.friction_cone_soft {
        return 0;
    }
    let mut total: usize = 0;
    let mut k: usize = 0;
    while k < n
        invariant
            k <= n,
            contact.spans(n as int),
            8 * n <= usize::MAX,
            total == 2 * stance_count(*contact, 4 * k),
            total <= 8 * k,
        decreases n - k,
    {
        let mut leg: usize = 0;
        while leg < N_FEET
            invariant
                leg <= N_FEET,
                k < n,
                contact.spans(n as int),
                8 * n <= usize::MAX,
                total == 2 * stance_count(*contact, 4 * k + leg),
                total <= 8 * k + 2 * leg,
            decreases N_FEET - leg,
        {
            assert((4 * k + leg) / 4 == k && (4 * k + leg) % 4 == leg as int);
            if contact.is_stance[leg][k] {
                total += 2;
            }
            leg += 1;
        }
        k += 1;
    }
    total
}

/// First force column of visit `v`; y and z follow.
pub open spec fn force_column(v: int) -> int {
    24 * (v / 4) + (v % 4) * 3
}

/// A row with one non-zero coefficient.
pub open spec fn unit_row(width: int, col: int, value: Scalar) -> Seq<Scalar> {
    zero_row(width).update(col, value)
}

/// A swing foot carries no force: three rows `f = 0`.
pub open spec fn swing_force_rows(
    contact: FullCentroidalContactSchedule,
    width: int,
    v: int,
) -> Seq<Row> {
    if visit_stance(contact, v) {
        Seq::empty()
    } else {
        Seq::new(
            3,
            |ax: int| Row { coef: unit_row(width, force_column(v) + ax, one()), rhs: zero() },
        )
    }
}

/// Foot velocity coefficients as a row: negligible ones and the slack columns
/// are zero.
pub open spec fn velocity_row(coef: Seq<Scalar>, width: int) -> Seq<Scalar> {
    Seq::new(
        width as nat,
        |c: int|
            if c < coef.len() && (Scalar { bits: COEF_TOLERANCE_BITS }).lt_spec(coef[c].abs_spec()) {
                coef[c]
            } else {
                zero()
            },
    )
}

/// A stance foot does not slip: three rows `v_foot = 0`.
pub open spec fn no_slip_rows(
    contact: FullCentroidalContactSchedule,
    feet: Seq<FootVelocity>,
    width: int,
    v: int,
) -> Seq<Row> {
    if visit_stance(contact, v) {
        Seq::new(
            3,
            |ax: int|
                Row {
                    coef: velocity_row(feet[v].coef@[ax]@, width),
                    rhs: feet[v].drift@[ax].neg_spec(),
                },
        )
    } else {
        Seq::empty()
    }
}

/// A swing foot follows the planned vertical velocity: one row when enabled.
/// `rhs[v]` is the planned velocity less the drift.
pub open spec fn swing_velocity_rows(
    enabled: bool,
    contact: FullCentroidalContactSchedule,
    feet: Seq<FootVelocity>,
    rhs: Seq<Scalar>,
    width: int,
    v: int,
) -> Seq<Row> {
    if enabled && !visit_stance(contact, v) {
        seq![Row { coef: velocity_row(feet[v].coef@[2]@, width), rhs: rhs[v] }]
    } else {
        Seq::empty()
    }
}

/// Vertical force bound of visit `v`.
pub open spec fn visit_force_bound(
    cfg: FullCentroidalMpcConfig,
    contact: FullCentroidalContactSchedule,
    v: int,
) -> Scalar {
    force_bound(cfg.max_normal_force, contact.stance_f_max@[v % 4]@[v / 4])
}

/// A friction row `sign f_t - mu f_z - s <= 0` for the tangential column `t`.
pub open spec fn friction_row(
    cfg: FullCentroidalMpcConfig,
    width: int,
    t: int,
    z: int,
    sign: Scalar,
    slack: int,
) -> Row {
    let hard = zero_row(width).update(t, sign).update(z, cfg.friction_mu.neg_spec());
    Row {
        coef: if cfg.friction_cone_soft {
            hard.update(slack, minus_one())
        } else {
            hard
        },
        rhs: zero(),
    }
}

/// First slack column of visit `v`: two for every earlier stance visit.
pub open spec fn slack_column(contact: FullCentroidalContactSchedule, n: int, v: int) -> int {
    24 * n + 2 * stance_count(contact, v)
}

/// A stance foot pushes: `f_z >= 0`, `f_z <= bound` where there is one, and the
/// friction pyramid.
pub open spec fn cone_rows(
    cfg: FullCentroidalMpcConfig,
    contact: FullCentroidalContactSchedule,
    n: int,
    width: int,
    v: int,
) -> Seq<Row> {
    if !visit_stance(contact, v) {
        Seq::empty()
    } else {
        stance_cone_rows(
            cfg,
            width,
            force_column(v),
            slack_column(contact, n, v),
            visit_force_bound(cfg, contact, v),
        )
    }
}

/// A slack is not negative: one row `-s <= 0` each.
pub open spec fn slack_rows(n: int, width: int, n_slacks: int) -> Seq<Row> {
    Seq::new(
        n_slacks as nat,
        |i: int| Row { coef: unit_row(width, 24 * n + i, minus_one()), rhs: zero() },
    )
}

/// All equality rows: swing forces, stance velocities, swing velocities.
pub open spec fn equality_rows(
    cfg: FullCentroidalMpcConfig,
    contact: FullCentroidalContactSchedule,
    feet: Seq<FootVelocity>,
    swing_rhs: Seq<Scalar>,
    n: int,
) -> Seq<Row> {
    let width = 24 * n + slack_count(cfg.friction_cone_soft, contact, n);
    collect(|v: int| swing_force_rows(contact, width, v), 4 * n) + collect(
        |v: int| no_slip_rows(contact, feet, width, v),
        4 * n,
    ) + collect(
        |v: int|
            swing_velocity_rows(
                cfg.enable_swing_normal_velocity_constraint,
                contact,
                feet,
                swing_rhs,
                width,
                v,
            ),
        4 * n,
    )
}

/// All inequality rows: force bounds and friction, then the slacks.
pub open spec fn inequality_rows(
    cfg: FullCentroidalMpcConfig,
    contact: FullCentroidalContactSchedule,
    n: int,
) -> Seq<Row> {
    let n_slacks = slack_count(cfg.friction_cone_soft, contact, n);
    let width = 24 * n + n_slacks;
    collect(|v: int| cone_rows(cfg, contact, n, width, v), 4 * n) + slack_rows(n, width, n_slacks)
}

fn push_swing_force_rows(
    contact: &FullCentroidalContactSchedule,
    n: usize,
    width: usize,
    a: &mut Vec<Vec<Scalar>>,
    b: &mut Vec<Scalar>,
)
    requires
        contact.spans(n as int),
        24 * n <= width,
        old(a)@.len() == old(b)@.len(),
    ensures
        final(a)@.len() == final(b)@.len(),
        rows_view(final(a)@, final(b)@) == rows_view(old(a)@, old(b)@) + collect(
            |v: int| swing_force_rows(*contact, width as int, v),
            4 * n,
        ),
{
    let ghost f = |v: int| swing_force_rows(*contact, width as int, v);
    let ghost before = rows_view(a@, b@);
    assert(rows_view(a@, b@) =~= before + collect(f, 0));
    let mut k: usize = 0;
    while k < n
        invariant
            k <= n,
            contact.spans(n as int),
            24 * n <= width,
            a@.len() == b@.len(),
            f == (|v: int| swing_force_rows(*contact, width as int, v)),
            rows_view(a@, b@) == before + collect(f, 4 * k),
        decreases n - k,
    {
        let mut leg: usize = 0;
        while leg < N_FEET
            invariant
                leg <= N_FEET,
                k < n,
                contact.spans(n as int),
                24 * n <= width,
                a@.len() == b@.len(),
                f == (|v: int| swing_force_rows(*contact, width as int, v)),
                rows_view(a@, b@) == before + collect(f, 4 * k + leg),
            decreases N_FEET - leg,
        {
            let ghost v = 4 * k + leg;
            assert(v / 4 == k && v % 4 == leg as int);
            let ghost here = rows_view(a@, b@);
            if !contact.is_stance[leg][k] {
                let col: usize = 24 * k + leg * 3;
                let mut ax: usize = 0;
                while ax < 3
                    invariant
                        ax <= 3,
                        col + 3 <= width,
                        col == force_column(v),
                        a@.len() == b@.len(),
                        rows_view(a@, b@) == here + Seq::new(
                            ax as nat,
                            |ax: int|
                                Row {
                                    coef: unit_row(width as int, col + ax, one()),
                                    rhs: zero(),
                                },
                        ),
                    decreases 3 - ax,
                {
                    let mut row = make_zero_row(width);
                    row[col + ax] = one();
                    let ghost sofar = rows_view(a@, b@);
                    push_row(a, b, row, zero());
                    ax += 1;
                    assert(rows_view(a@, b@) =~= here + Seq::new(
                        ax as nat,
                        |ax: int|
                            Row { coef: unit_row(width as int, col + ax, one()), rhs: zero() },
                    ));
                }
                assert(rows_view(a@, b@) =~= here + f(v));
            } else {
                assert(rows_view(a@, b@) =~= here + f(v));
            }
            assert(rows_view(a@, b@) =~= before + collect(f, v + 1));
            leg += 1;
        }
        k += 1;
    }
}

fn make_velocity_row(coef: &Vec<Scalar>, width: usize) -> (r: Vec<Scalar>)
    requires
        coef@.len() <= width,
    ensures
        r@ == velocity_row(coef@, width as int),
{
    let tolerance = Scalar { bits: COEF_TOLERANCE_BITS };
    let mut r = make_zero_row(width);
    let mut c: usize = 0;
    while c < coef.len()
        invariant
            c <= coef@.len() <= width,
            tolerance.bits == COEF_TOLERANCE_BITS,
            r@.len() == width,
            forall|i: int| 0 <= i < c ==> r@[i] == velocity_row(coef@, width as int)[i],
            forall|i: int| c <= i < width ==> r@[i] == zero(),
        decreases coef@.len() - c,
    {
        if tolerance.lt(coef[c].abs()) {
            r[c] = coef[c];
        }
        c += 1;
    }
    assert(r@ =~= velocity_row(coef@, width as int));
    r
}

fn push_no_slip_rows(
    contact: &FullCentroidalContactSchedule,
    feet: &Vec<FootVelocity>,
    n: usize,
    width: usize,
    a: &mut Vec<Vec<Scalar>>,
    b: &mut Vec<Scalar>,
)
    requires
        contact.spans(n as int),
        feet@.len() == 4 * n,
        forall|v: int| 0 <= v < 4 * n ==> (#[trigger] feet@[v]).spans(n as int),
        24 * n <= width,
        old(a)@.len() == old(b)@.len(),
    ensures
        final(a)@.len() == final(b)@.len(),
        rows_view(final(a)@, final(b)@) == rows_view(old(a)@, old(b)@) + collect(
            |v: int| no_slip_rows(*contact, feet@, width as int, v),
            4 * n,
        ),
{
    let ghost f = |v: int| no_slip_rows(*contact, feet@, width as int, v);
    let ghost before = rows_view(a@, b@);
    assert(rows_view(a@, b@) =~= before + collect(f, 0));
    let mut k: usize = 0;
    while k < n
        invariant
            k <= n,
            contact.spans(n as int),
            feet@.len() == 4 * n,
            forall|v: int| 0 <= v < 4 * n ==> (#[trigger] feet@[v]).spans(n as int),
            24 * n <= width,
            a@.len() == b@.len(),
            f == (|v: int| no_slip_rows(*contact, feet@, width as int, v)),
            rows_view(a@, b@) == before + collect(f, 4 * k),
        decreases n - k,
    {
        let mut leg: usize = 0;
        while leg < N_FEET
            invariant
                leg <= N_FEET,
                k < n,
                contact.spans(n as int),
                feet@.len() == 4 * n,
                forall|v: int| 0 <= v < 4 * n ==> (#[trigger] feet@[v]).spans(n as int),
                24 * n <= width,
                a@.len() == b@.len(),
                f == (|v: int| no_slip_rows(*contact, feet@, width as int, v)),
                rows_view(a@, b@) == before + collect(f, 4 * k + leg),
            decreases N_FEET - leg,
        {
            let v: usize = 4 * k + leg;
            assert(v / 4 == k && v % 4 == leg);
            let ghost here = rows_view(a@, b@);
            if contact.is_stance[leg][k] {
                let foot = &feet[v];
                push_row(a, b, make_velocity_row(&foot.coef[0], width), foot.drift[0].neg());
                push_row(a, b, make_velocity_row(&foot.coef[1], width), foot.drift[1].neg());
                push_row(a, b, make_velocity_row(&foot.coef[2], width), foot.drift[2].neg());
            }
            assert(rows_view(a@, b@) =~= here + f(v as int));
            assert(rows_view(a@, b@) =~= before + collect(f, v + 1));
            leg += 1;
        }
        k += 1;
    }
}

fn push_swing_velocity_rows(
    contact: &FullCentroidalContactSchedule,
    feet: &Vec<FootVelocity>,
    rhs: &Vec<Scalar>,
    n: usize,
    width: usize,
    a: &mut Vec<Vec<Scalar>>,
    b: &mut Vec<Scalar>,
)
    requires
        contact.spans(n as int),
        feet@.len() == 4 * n,
        rhs@.len() == 4 * n,
        forall|v: int| 0 <= v < 4 * n ==> (#[trigger] feet@[v]).spans(n as int),
        24 * n <= width,
        old(a)@.len() == old(b)@.len(),
    ensures
        final(a)@.len() == final(b)@.len(),
        rows_view(final(a)@, final(b)@) == rows_view(old(a)@, old(b)@) + collect(
            |v: int| swing_velocity_rows(true, *contact, feet@, rhs@, width as int, v),
            4 * n,
        ),
{
    let ghost f = |v: int| swing_velocity_rows(true, *contact, feet@, rhs@, width as int, v);
    let ghost before = rows_view(a@, b@);
    assert(rows_view(a@, b@) =~= before + collect(f, 0));
    let mut k: usize = 0;
    while k < n
        invariant
            k <= n,
            contact.spans(n as int),
            feet@.len() == 4 * n,
            rhs@.len() == 4 * n,
            forall|v: int| 0 <= v < 4 * n ==> (#[trigger] feet@[v]).spans(n as int),
            24 * n <= width,
            a@.len() == b@.len(),
            f == (|v: int| swing_velocity_rows(true, *contact, feet@, rhs@, width as int, v)),
            rows_view(a@, b@) == before + collect(f, 4 * k),
        decreases n - k,
    {
        let mut leg: usize = 0;
        while leg < N_FEET
            invariant
                leg <= N_FEET,
                k < n,
                contact.spans(n as int),
                feet@.len() == 4 * n,
                rhs@.len() == 4 * n,
                forall|v: int| 0 <= v < 4 * n ==> (#[trigger] feet@[v]).spans(n as int),
                24 * n <= width,
                a@.len() == b@.len(),
                f == (|v: int| swing_velocity_rows(true, *contact, feet@, rhs@, width as int, v)),
                rows_view(a@, b@) == before + collect(f, 4 * k + leg),
            decreases N_FEET - leg,
        {
            let v: usize = 4 * k + leg;
            assert(v / 4 == k && v % 4 == leg);
            let ghost here = rows_view(a@, b@);
            if !contact.is_stance[leg][k] {
                push_row(a, b, make_velocity_row(&feet[v].coef[2], width), rhs[v]);
            }
            assert(rows_view(a@, b@) =~= here + f(v as int));
            assert(rows_view(a@, b@) =~= before + collect(f, v + 1));
            leg += 1;
        }
        k += 1;
    }
}

fn make_friction_row(
    cfg: &FullCentroidalMpcConfig,
    width: usize,
    t: usize,
    z: usize,
    sign: Scalar,
    slack: usize,
) -> (r: Vec<Scalar>)
    requires
        t < width,
        z < width,
        cfg.friction_cone_soft ==> slack < width,
    ensures
        r@ == friction_row(*cfg, width as int, t as int, z as int, sign, slack as int).coef,
{
    let mut r = make_zero_row(width);
    r[t] = sign;
    r[z] = cfg.friction_mu.neg();
    if cfg.friction_cone_soft {
        r[slack] = minus_one();
    }
    r
}

fn make_unit_row(width: usize, col: usize, value: Scalar) -> (r: Vec<Scalar>)
    requires
        col < width,
    ensures
        r@ == unit_row(width as int, col as int, value),
{
    let mut r = make_zero_row(width);
    r[col] = value;
    r
}

/// The cone rows of a stance foot with force columns from `x`, slack columns
/// from `slack` and vertical force bound `bound`.
pub open spec fn stance_cone_rows(
    cfg: FullCentroidalMpcConfig,
    width: int,
    x: int,
    slack: int,
    bound: Scalar,
) -> Seq<Row> {
    let push = seq![Row { coef: unit_row(width, x + 2, minus_one()), rhs: zero() }];
    let capped = if bound.is_finite_spec() {
        seq![Row { coef: unit_row(width, x + 2, one()), rhs: bound }]
    } else {
        Seq::empty()
    };
    push + capped + seq![
        friction_row(cfg, width, x, x + 2, one(), slack),
        friction_row(cfg, width, x, x + 2, minus_one(), slack),
        friction_row(cfg, width, x + 1, x + 2, one(), slack + 1),
        friction_row(cfg, width, x + 1, x + 2, minus_one(), slack + 1),
    ]
}

fn push_stance_cone_rows(
    cfg: &FullCentroidalMpcConfig,
    width: usize,
    x: usize,
    slack: usize,
    bound: Scalar,
    a: &mut Vec<Vec<Scalar>>,
    b: &mut Vec<Scalar>,
)
    requires
        x + 2 < width,
        slack < usize::MAX,
        cfg.friction_cone_soft ==> slack + 1 < width,
        old(a)@.len() == old(b)@.len(),
    ensures
        final(a)@.len() == final(b)@.len(),
        rows_view(final(a)@, final(b)@) == rows_view(old(a)@, old(b)@) + stance_cone_rows(
            *cfg,
            width as int,
            x as int,
            slack as int,
            bound,
        ),
{
    let ghost here = rows_view(a@, b@);
    push_row(a, b, make_unit_row(width, x + 2, minus_one()), zero());
    if bound.is_finite() {
        push_row(a, b, make_unit_row(width, x + 2, one()), bound);
    }
    push_row(a, b, make_friction_row(cfg, width, x, x + 2, one(), slack), zero());
    push_row(a, b, make_friction_row(cfg, width, x, x + 2, minus_one(), slack), zero());
    push_row(a, b, make_friction_row(cfg, width, x + 1, x + 2, one(), slack + 1), zero());
    push_row(a, b, make_friction_row(cfg, width, x + 1, x + 2, minus_one(), slack + 1), zero());
    assert(rows_view(a@, b@) =~= here + stance_cone_rows(
        *cfg,
        width as int,
        x as int,
        slack as int,
        bound,
    ));
}

fn push_cone_rows(
    cfg: &FullCentroidalMpcConfig,
    contact: &FullCentroidalContactSchedule,
    n: usize,
    width: usize,
    a: &mut Vec<Vec<Scalar>>,
    b: &mut Vec<Scalar>,
)
    requires
        contact.spans(n as int),
        32 * n < usize::MAX,
        width == 24 * n + slack_count(cfg.friction_cone_soft, *contact, n as int),
        old(a)@.len() == old(b)@.len(),
    ensures
        final(a)@.len() == final(b)@.len(),
        rows_view(final(a)@, final(b)@) == rows_view(old(a)@, old(b)@) + collect(
            |v: int| cone_rows(*cfg, *contact, n as int, width as int, v),
            4 * n,
        ),
{
    let ghost f = |v: int| cone_rows(*cfg, *contact, n as int, width as int, v);
    let ghost p = |v: int| visit_stance(*contact, v);
    let ghost before = rows_view(a@, b@);
    assert(rows_view(a@, b@) =~= before + collect(f, 0));
    let mut cursor: usize = 24 * n;
    let mut k: usize = 0;
    while k < n
        invariant
            k <= n,
            contact.spans(n as int),
            32 * n < usize::MAX,
            width == 24 * n + slack_count(cfg.friction_cone_soft, *contact, n as int),
            a@.len() == b@.len(),
            p == (|v: int| visit_stance(*contact, v)),
            f == (|v: int| cone_rows(*cfg, *contact, n as int, width as int, v)),
            24 * n <= cursor <= 32 * n,
            cfg.friction_cone_soft ==> cursor == slack_column(*contact, n as int, 4 * k),
            !cfg.friction_cone_soft ==> cursor == 24 * n,
            rows_view(a@, b@) == before + collect(f, 4 * k),
        decreases n - k,
    {
        let mut leg: usize = 0;
        while leg < N_FEET
            invariant
                leg <= N_FEET,
                k < n,
                contact.spans(n as int),
                32 * n < usize::MAX,
                width == 24 * n + slack_count(cfg.friction_cone_soft, *contact, n as int),
                a@.len() == b@.len(),
                p == (|v: int| visit_stance(*contact, v)),
                f == (|v: int| cone_rows(*cfg, *contact, n as int, width as int, v)),
                24 * n <= cursor <= 32 * n,
                cfg.friction_cone_soft ==> cursor == slack_column(*contact, n as int, 4 * k + leg),
                !cfg.friction_cone_soft ==> cursor == 24 * n,
                rows_view(a@, b@) == before + collect(f, 4 * k + leg),
            decreases N_FEET - leg,
        {
            let ghost v: int = 4 * k + leg;
            assert(v / 4 == k && v % 4 == leg);
            proof {
                count_grows(p, v, 4 * n);
                count_is_bounded(p, 4 * n);
                count_is_bounded(p, v);
            }
            let ghost here = rows_view(a@, b@);
            if contact.is_stance[leg][k] {
                let x: usize = 24 * k + leg * 3;
                let bound = effective_f_max(cfg.max_normal_force, contact.stance_f_max[leg][k]);
                push_stance_cone_rows(cfg, width, x, cursor, bound, a, b);
                if cfg.friction_cone_soft {
                    cursor += 2;
                }
                assert(rows_view(a@, b@) =~= here + f(v));
            } else {
                assert(rows_view(a@, b@) =~= here + f(v));
            }
            assert(rows_view(a@, b@) =~= before + collect(f, v + 1));
            leg += 1;
        }
        k += 1;
    }
}

fn push_slack_rows(
    n: usize,
    width: usize,
    n_slacks: usize,
    a: &mut Vec<Vec<Scalar>>,
    b: &mut Vec<Scalar>,
)
    requires
        width == 24 * n + n_slacks,
        old(a)@.len() == old(b)@.len(),
    ensures
        final(a)@.len() == final(b)@.len(),
        rows_view(final(a)@, final(b)@) == rows_view(old(a)@, old(b)@) + slack_rows(
            n as int,
            width as int,
            n_slacks as int,
        ),
{
    let ghost before = rows_view(a@, b@);
    let mut i: usize = 0;
    assert(rows_view(a@, b@) =~= before + slack_rows(n as int, width as int, 0));
    while i < n_slacks
        invariant
            i <= n_slacks,
            width == 24 * n + n_slacks,
            a@.len() == b@.len(),
            rows_view(a@, b@) == before + slack_rows(n as int, width as int, i as int),
        decreases n_slacks - i,
    {
        push_row(a, b, make_unit_row(width, 24 * n + i, minus_one()), zero());
        i += 1;
        assert(rows_view(a@, b@) =~= before + slack_rows(n as int, width as int, i as int));
    }
}

/// Constraint system: the first `n_eq` rows are equalities, the other `n_ineq`
/// rows are upper bounds.
#[derive(Debug)]
pub struct QpConstraints {
    /// Coefficients.
    pub a: Csc,
    /// Right-hand sides.
    pub b: Vec<Scalar>,
    /// Number of equality rows.
    pub n_eq: usize,
    /// Number of inequality rows.
    pub n_ineq: usize,
}

impl QpConstraints {
    /// The system holds exactly the given equality and inequality rows.
    pub open spec fn holds_rows(self, eq: Seq<Row>, ineq: Seq<Row>) -> bool {
        &&& self.n_eq == eq.len()
        &&& self.n_ineq == ineq.len()
        &&& self.a.wf()
        &&& self.a.nrows == eq.len() + ineq.len()
        &&& self.a.compresses(coefs(eq + ineq), false)
        &&& self.b@ == right_sides(eq + ineq)
    }
}

/// Planned vertical velocity less the drift, for every swing visit; zero for a
/// stance visit.
pub open spec fn swing_right_sides<A: Arithmetic>(
    ar: &A,
    contact: FullCentroidalContactSchedule,
    feet: Seq<FootVelocity>,
    n: int,
) -> Seq<Scalar> {
    Seq::new(
        (4 * n) as nat,
        |v: int|
            if visit_stance(contact, v) {
                zero()
            } else {
                difference(ar, contact.swing_z_velocity@[v % 4]@[v / 4], feet[v].drift@[2])
            },
    )
}

fn swing_velocity_rhs<A: Arithmetic>(
    ar: &A,
    contact: &FullCentroidalContactSchedule,
    feet: &Vec<FootVelocity>,
    n: usize,
) -> (r: Vec<Scalar>)
    requires
        contact.spans(n as int),
        feet@.len() == 4 * n,
        4 * n <= usize::MAX,
    ensures
        r@.len() == 4 * n,
        deterministic(ar) ==> r@ == swing_right_sides(ar, *contact, feet@, n as int),
{
    let mut r: Vec<Scalar> = Vec::new();
    let mut k: usize = 0;
    while k < n
        invariant
            k <= n,
            contact.spans(n as int),
            feet@.len() == 4 * n,
            4 * n <= usize::MAX,
            r@.len() == 4 * k,
            deterministic(ar) ==> r@ == swing_right_sides(ar, *contact, feet@, n as int).subrange(
                0,
                4 * k,
            ),
        decreases n - k,
    {
        let mut leg: usize = 0;
        while leg < N_FEET
            invariant
                leg <= N_FEET,
                k < n,
                contact.spans(n as int),
                feet@.len() == 4 * n,
                4 * n <= usize::MAX,
                r@.len() == 4 * k + leg,
                deterministic(ar) ==> r@ == swing_right_sides(
                    ar,
                    *contact,
                    feet@,
                    n as int,
                ).subrange(0, 4 * k + leg),
            decreases N_FEET - leg,
        {
            let v: usize = 4 * k + leg;
            assert(v / 4 == k && v % 4 == leg);
            if contact.is_stance[leg][k] {
                r.push(zero());
            } else {
                r.push(ar.minus(contact.swing_z_velocity[leg][k], feet[v].drift[2]));
            }
            assert(deterministic(ar) ==> r@ =~= swing_right_sides(
                ar,
                *contact,
                feet@,
                n as int,
            ).subrange(0, v + 1));
            leg += 1;
        }
        k += 1;
    }
    assert(deterministic(ar) ==> r@ =~= swing_right_sides(ar, *contact, feet@, n as int));
    r
}

/// Builds the constraints of one iteration.
///
/// Equalities come first: swing forces vanish, stance feet do not slip, and
/// where enabled swing feet follow their planned vertical velocity. Then the
/// inequalities: vertical force bounds, the friction pyramid, and slacks that
/// are not negative. `feet[4 k + leg]` is the linearised velocity of a foot.
pub fn build_constraints_24<A: Arithmetic>(
    ar: &A,
    cfg: &FullCentroidalMpcConfig,
    contact: &FullCentroidalContactSchedule,
    feet: &Vec<FootVelocity>,
    n: usize,
) -> (r: QpConstraints)
    requires
        contact.spans(n as int),
        feet@.len() == 4 * n,
        forall|v: int| 0 <= v < 4 * n ==> (#[trigger] feet@[v]).spans(n as int),
        32 * n < usize::MAX,
    ensures
        r.a.ncols == 24 * n + slack_count(cfg.friction_cone_soft, *contact, n as int),
        exists|swing_rhs: Seq<Scalar>|
            {
                &&& r.holds_rows(
                    #[trigger] equality_rows(*cfg, *contact, feet@, swing_rhs, n as int),
                    inequality_rows(*cfg, *contact, n as int),
                )
                &&& deterministic(ar) ==> swing_rhs == swing_right_sides(
                    ar,
                    *contact,
                    feet@,
                    n as int,
                )
            },
{
    let n_slacks: usize = n_friction_slack_vars(cfg, contact, n);
    let width: usize = 24 * n + n_slacks;
    let swing_rhs = swing_velocity_rhs(ar, contact, feet, n);
    let mut a: Vec<Vec<Scalar>> = Vec::new();
    let mut b: Vec<Scalar> = Vec::new();
    push_swing_force_rows(contact, n, width, &mut a, &mut b);
    push_no_slip_rows(contact, feet, n, width, &mut a, &mut b);
    if cfg.enable_swing_normal_velocity_constraint {
        push_swing_velocity_rows(contact, feet, &swing_rhs, n, width, &mut a, &mut b);
    }
    let ghost eq = equality_rows(*cfg, *contact, feet@, swing_rhs@, n as int);
    proof {
        let f = |v: int|
            swing_velocity_rows(
                cfg.enable_swing_normal_velocity_constraint,
                *contact,
                feet@,
                swing_rhs@,
                width as int,
                v,
            );
        if !cfg.enable_swing_normal_velocity_constraint {
            empty_collection(f, 4 * n);
        }
        assert(rows_view(a@, b@) =~= eq);
    }
    let n_eq: usize = a.len();
    push_cone_rows(cfg, contact, n, width, &mut a, &mut b);
    push_slack_rows(n, width, n_slacks, &mut a, &mut b);
    let ghost ineq = inequality_rows(*cfg, *contact, n as int);
    assert(rows_view(a@, b@) =~= eq + ineq);
    proof {
        rows_have_width(*cfg, *contact, feet@, swing_rhs@, n as int);
        assert forall|i: int| 0 <= i < a@.len() implies (#[trigger] a@[i])@.len() == width by {
            assert(rows_view(a@, b@)[i].coef == a@[i]@);
        }
    }
    let n_ineq: usize = a.len() - n_eq;
    let csc = dense_to_csc(&a, width);
    assert(crate::csc::rows_of(a@) =~= coefs(eq + ineq));
    assert(b@ =~= right_sides(eq + ineq));
    QpConstraints { a: csc, b, n_eq, n_ineq }
}

proof fn empty_collection(f: spec_fn(int) -> Seq<Row>, m: int)
    requires
        forall|v: int| (#[trigger] f(v)).len() == 0,
    ensures
        collect(f, m) == Seq::<Row>::empty(),
    decreases m,
{
    if m > 0 {
        empty_collection(f, m - 1);
        assert(collect(f, m) =~= Seq::<Row>::empty());
    }
}

proof fn collection_has_width(f: spec_fn(int) -> Seq<Row>, m: int, width: int)
    requires
        forall|v: int, i: int| 0 <= v < m && 0 <= i < f(v).len() ==> (#[trigger] f(v)[i]).coef.len() == width,
    ensures
        forall|r: int| 0 <= r < collect(f, m).len() ==> (#[trigger] collect(f, m)[r]).coef.len() == width,
{
    assert forall|r: int| 0 <= r < collect(f, m).len() implies (#[trigger] collect(f, m)[r]).coef.len() == width by {
        let vi = collected_row_has_a_visit(f, m, r);
        assert(f(vi.0)[vi.1].coef.len() == width);
    }
}

/// Every row has one coefficient per decision variable.
pub proof fn rows_have_width(
    cfg: FullCentroidalMpcConfig,
    contact: FullCentroidalContactSchedule,
    feet: Seq<FootVelocity>,
    swing_rhs: Seq<Scalar>,
    n: int,
)
    requires
        0 <= n,
    ensures
        ({
            let rows = equality_rows(cfg, contact, feet, swing_rhs, n) + inequality_rows(
                cfg,
                contact,
                n,
            );
            let width = 24 * n + slack_count(cfg.friction_cone_soft, contact, n);
            forall|r: int| 0 <= r < rows.len() ==> (#[trigger] rows[r]).coef.len() == width
        }),
{
    let soft = cfg.friction_cone_soft;
    let width = 24 * n + slack_count(soft, contact, n);
    count_is_bounded(|v: int| visit_stance(contact, v), 4 * n);
    let f1 = |v: int| swing_force_rows(contact, width, v);
    let f2 = |v: int| no_slip_rows(contact, feet, width, v);
    let f3 = |v: int|
        swing_velocity_rows(
            cfg.enable_swing_normal_velocity_constraint,
            contact,
            feet,
            swing_rhs,
            width,
            v,
        );
    let f4 = |v: int| cone_rows(cfg, contact, n, width, v);
    collection_has_width(f1, 4 * n, width);
    collection_has_width(f2, 4 * n, width);
    collection_has_width(f3, 4 * n, width);
    assert forall|v: int, i: int| 0 <= v < 4 * n && 0 <= i < f4(v).len() implies (
    #[trigger] f4(v)[i]).coef.len() == width by {
        let p = |v: int| visit_stance(contact, v);
        count_grows(p, v, 4 * n);
        count_is_bounded(p, v);
        let x = force_column(v);
        let s = slack_column(contact, n, v);
        let tail = seq![
            friction_row(cfg, width, x, x + 2, one(), s),
            friction_row(cfg, width, x, x + 2, minus_one(), s),
            friction_row(cfg, width, x + 1, x + 2, one(), s + 1),
            friction_row(cfg, width, x + 1, x + 2, minus_one(), s + 1),
        ];
        let head = f4(v).len() - 4;
        if i >= head {
            assert(f4(v)[i] == tail[i - head]);
            let j = i - head;
            assert(j == 0 || j == 1 || j == 2 || j == 3);
        } else if i == 0 {
            assert(f4(v)[0].coef == unit_row(width, x + 2, minus_one()));
        } else {
            assert(f4(v)[1].coef == unit_row(width, x + 2, one()));
        }
    }
    collection_has_width(f4, 4 * n, width);
}

/// How many rows there are: three equalities per leg and step, one more per
/// swing leg and step when swing velocities are constrained; five inequalities
/// per stance leg and step, one more where the vertical force is bounded, and
/// one per slack.
pub proof fn constraint_row_counts(
    cfg: FullCentroidalMpcConfig,
    contact: FullCentroidalContactSchedule,
    feet: Seq<FootVelocity>,
    swing_rhs: Seq<Scalar>,
    n: int,
)
    requires
        0 <= n,
    ensures
        equality_rows(cfg, contact, feet, swing_rhs, n).len() == 12 * n + (
        if cfg.enable_swing_normal_velocity_constraint {
            4 * n - stance_count(contact, 4 * n)
        } else {
            0
        }),
        inequality_rows(cfg, contact, n).len() == 5 * stance_count(contact, 4 * n) + count(
            |v: int|
                visit_stance(contact, v) && visit_force_bound(cfg, contact, v).is_finite_spec(),
            4 * n,
        ) + slack_count(cfg.friction_cone_soft, contact, n),
{
    let width = 24 * n + slack_count(cfg.friction_cone_soft, contact, n);
    count_is_bounded(|v: int| visit_stance(contact, v), 4 * n);
    equality_lengths(cfg, contact, feet, swing_rhs, width, 4 * n);
    cone_length(cfg, contact, n, width, 4 * n);
}

proof fn equality_lengths(
    cfg: FullCentroidalMpcConfig,
    contact: FullCentroidalContactSchedule,
    feet: Seq<FootVelocity>,
    swing_rhs: Seq<Scalar>,
    width: int,
    m: int,
)
    requires
        0 <= m,
    ensures
        collect(|v: int| swing_force_rows(contact, width, v), m).len() == 3 * (m - stance_count(
            contact,
            m,
        )),
        collect(|v: int| no_slip_rows(contact, feet, width, v), m).len() == 3 * stance_count(
            contact,
            m,
        ),
        collect(
            |v: int|
                swing_velocity_rows(
                    cfg.enable_swing_normal_velocity_constraint,
                    contact,
                    feet,
                    swing_rhs,
                    width,
                    v,
                ),
            m,
        ).len() == (if cfg.enable_swing_normal_velocity_constraint {
            m - stance_count(contact, m)
        } else {
            0
        }),
    decreases m,
{
    if m > 0 {
        equality_lengths(cfg, contact, feet, swing_rhs, width, m - 1);
    }
}

proof fn cone_length(
    cfg: FullCentroidalMpcConfig,
    contact: FullCentroidalContactSchedule,
    n: int,
    width: int,
    m: int,
)
    requires
        0 <= m,
    ensures
        collect(|v: int| cone_rows(cfg, contact, n, width, v), m).len() == 5 * stance_count(
            contact,
            m,
        ) + count(
            |v: int|
                visit_stance(contact, v) && visit_force_bound(cfg, contact, v).is_finite_spec(),
            m,
        ),
    decreases m,
{
    if m > 0 {
        cone_length(cfg, contact, n, width, m - 1);
    }
}

/// The force of a swing foot is pinned to zero: for each axis there is an
/// equality row that holds a one at its column, zeros elsewhere and zero on the
/// right.
pub proof fn swing_foot_force_is_pinned(
    cfg: FullCentroidalMpcConfig,
    contact: FullCentroidalContactSchedule,
    feet: Seq<FootVelocity>,
    swing_rhs: Seq<Scalar>,
    n: int,
    k: int,
    leg: int,
    ax: int,
)
    requires
        0 <= k < n,
        0 <= leg < 4,
        0 <= ax < 3,
        !contact.stance(leg, k),
    ensures
        ({
            let eq = equality_rows(cfg, contact, feet, swing_rhs, n);
            let width = 24 * n + slack_count(cfg.friction_cone_soft, contact, n);
            exists|r: int|
                0 <= r < eq.len() && #[trigger] eq[r] == (Row {
                    coef: unit_row(width, 24 * k + 3 * leg + ax, one()),
                    rhs: zero(),
                })
        }),
{
    let width = 24 * n + slack_count(cfg.friction_cone_soft, contact, n);
    let f = |v: int| swing_force_rows(contact, width, v);
    let v = 4 * k + leg;
    assert(v / 4 == k && v % 4 == leg);
    collected_rows_are_found(f, 4 * n, v);
    let eq = equality_rows(cfg, contact, feet, swing_rhs, n);
    let r = collect(f, v).len() + ax;
    assert(f(v)[ax].coef == unit_row(width, 24 * k + 3 * leg + ax, one()));
    assert(eq[r] == f(v)[ax]);
}

/// A stance foot is held in place and may only push: its no-slip rows stand
/// among the equalities, and its force bounds and friction rows among the
/// inequalities.
pub proof fn stance_foot_is_constrained(
    cfg: FullCentroidalMpcConfig,
    contact: FullCentroidalContactSchedule,
    feet: Seq<FootVelocity>,
    swing_rhs: Seq<Scalar>,
    n: int,
    k: int,
    leg: int,
)
    requires
        0 <= k < n,
        0 <= leg < 4,
        contact.stance(leg, k),
    ensures
        ({
            let width = 24 * n + slack_count(cfg.friction_cone_soft, contact, n);
            let v = 4 * k + leg;
            let eq = equality_rows(cfg, contact, feet, swing_rhs, n);
            let ineq = inequality_rows(cfg, contact, n);
            &&& forall|ax: int|
                0 <= ax < 3 ==> eq.contains(#[trigger] no_slip_rows(contact, feet, width, v)[ax])
            &&& forall|i: int|
                0 <= i < cone_rows(cfg, contact, n, width, v).len() ==> ineq.contains(
                    #[trigger] cone_rows(cfg, contact, n, width, v)[i],
                )
            &&& cone_rows(cfg, contact, n, width, v).len() >= 5
        }),
{
    let width = 24 * n + slack_count(cfg.friction_cone_soft, contact, n);
    let v = 4 * k + leg;
    assert(v / 4 == k && v % 4 == leg);
    let f1 = |v: int| swing_force_rows(contact, width, v);
    let f2 = |v: int| no_slip_rows(contact, feet, width, v);
    let f4 = |v: int| cone_rows(cfg, contact, n, width, v);
    collected_rows_are_found(f2, 4 * n, v);
    collected_rows_are_found(f4, 4 * n, v);
    let eq = equality_rows(cfg, contact, feet, swing_rhs, n);
    let ineq = inequality_rows(cfg, contact, n);
    assert forall|ax: int| 0 <= ax < 3 implies eq.contains(
        #[trigger] no_slip_rows(contact, feet, width, v)[ax],
    ) by {
        let r = collect(f1, 4 * n).len() + collect(f2, v).len() + ax;
        assert(f2(v)[ax] == collect(f2, 4 * n)[collect(f2, v).len() + ax]);
        assert(eq[r] == f2(v)[ax]);
    }
    assert forall|i: int| 0 <= i < cone_rows(cfg, contact, n, width, v).len() implies ineq.contains(
        #[trigger] cone_rows(cfg, contact, n, width, v)[i],
    ) by {
        assert(f4(v)[i] == collect(f4, 4 * n)[collect(f4, v).len() + i]);
        assert(ineq[collect(f4, v).len() + i] == f4(v)[i]);
    }
}

/// Equalities do not involve the slacks: their coefficients on slack columns
/// are zero.
pub proof fn equalities_leave_slacks_free(
    cfg: FullCentroidalMpcConfig,
    contact: FullCentroidalContactSchedule,
    feet: Seq<FootVelocity>,
    swing_rhs: Seq<Scalar>,
    n: int,
    r: int,
    c: int,
)
    requires
        0 <= n,
        feet.len() == 4 * n,
        forall|v: int| 0 <= v < 4 * n ==> (#[trigger] feet[v]).spans(n),
        0 <= r < equality_rows(cfg, contact, feet, swing_rhs, n).len(),
        24 * n <= c < 24 * n + slack_count(cfg.friction_cone_soft, contact, n),
    ensures
        equality_rows(cfg, contact, feet, swing_rhs, n)[r].coef[c] == zero(),
{
    let width = 24 * n + slack_count(cfg.friction_cone_soft, contact, n);
    let f1 = |v: int| swing_force_rows(contact, width, v);
    let f2 = |v: int| no_slip_rows(contact, feet, width, v);
    let f3 = |v: int|
        swing_velocity_rows(
            cfg.enable_swing_normal_velocity_constraint,
            contact,
            feet,
            swing_rhs,
            width,
            v,
        );
    let l1 = collect(f1, 4 * n).len();
    let l2 = collect(f2, 4 * n).len();
    if r < l1 {
        let vi = collected_row_has_a_visit(f1, 4 * n, r);
        assert(force_column(vi.0) + vi.1 < 24 * n);
    } else if r < l1 + l2 {
        let vi = collected_row_has_a_visit(f2, 4 * n, r - l1);
        assert(feet[vi.0].coef@[vi.1]@.len() == 24 * n);
    } else {
        let vi = collected_row_has_a_visit(f3, 4 * n, r - l1 - l2);
        assert(feet[vi.0].coef@[2]@.len() == 24 * n);
    }
}

/// What the solver reported.
#[derive(Clone, Copy, Debug, PartialEq, Eq, Structural)]
pub enum QpStatus {
    Unsolved,
    Solved,
    PrimalInfeasible,
    DualInfeasible,
    AlmostSolved,
    AlmostPrimalInfeasible,
    AlmostDualInfeasible,
    MaxIterations,
    MaxTime,
    NumericalError,
    InsufficientProgress,
    CallbackTerminated,
}

impl QpStatus {
    /// Whether the report counts as a solution.
    pub fn is_solved(self) -> (r: bool)
        ensures
            r == (self == QpStatus::Solved || self == QpStatus::AlmostSolved),
    {
        matches!(self, QpStatus::Solved | QpStatus::AlmostSolved)
    }
}

/// Cost matrix with the slack block appended: `weight` on its diagonal, zero
/// elsewhere.
pub open spec fn padded_cost(p: Seq<Seq<Scalar>>, n_slacks: int, weight: Scalar) -> Seq<
    Seq<Scalar>,
> {
    let m = p.len() as int;
    Seq::new(
        (m + n_slacks) as nat,
        |i: int|
            Seq::new(
                (m + n_slacks) as nat,
                |j: int|
                    if i < m && j < m {
                        p[i][j]
                    } else if i == j {
                        weight
                    } else {
                        zero()
                    },
            ),
    )
}

/// The cost with the slack block appended.
pub fn pad_cost(
    p: &Vec<Vec<Scalar>>,
    q: &Vec<Scalar>,
    n_slacks: usize,
    weight: Scalar,
) -> (r: (Vec<Vec<Scalar>>, Vec<Scalar>))
    requires
        crate::csc::has_shape(p@, p@.len(), p@.len()),
        q@.len() == p@.len(),
        p@.len() + n_slacks <= usize::MAX,
    ensures
        crate::csc::rows_of(r.0@) == padded_cost(crate::csc::rows_of(p@), n_slacks as int, weight),
        crate::csc::has_shape(r.0@, (p@.len() + n_slacks) as nat, (p@.len() + n_slacks) as nat),
        r.1@ == q@ + zero_row(n_slacks as int),
{
    let m: usize = p.len();
    let total: usize = m + n_slacks;
    let ghost goal = padded_cost(crate::csc::rows_of(p@), n_slacks as int, weight);
    let mut rows: Vec<Vec<Scalar>> = Vec::new();
    let mut i: usize = 0;
    while i < total
        invariant
            i <= total,
            total == m + n_slacks,
            m == p@.len(),
            crate::csc::has_shape(p@, m as nat, m as nat),
            goal == padded_cost(crate::csc::rows_of(p@), n_slacks as int, weight),
            rows@.len() == i,
            forall|a: int| 0 <= a < i ==> (#[trigger] rows@[a])@ == goal[a],
        decreases total - i,
    {
        let mut row = make_zero_row(total);
        if i < m {
            let mut j: usize = 0;
            while j < m
                invariant
                    i < m <= total,
                    j <= m,
                    m == p@.len(),
                    crate::csc::has_shape(p@, m as nat, m as nat),
                    row@.len() == total,
                    forall|c: int| 0 <= c < j ==> row@[c] == p@[i as int]@[c],
                    forall|c: int| j <= c < total ==> row@[c] == zero(),
                decreases m - j,
            {
                row[j] = p[i][j];
                j += 1;
            }
        } else {
            row[i] = weight;
        }
        assert(row@ =~= goal[i as int]);
        rows.push(row);
        i += 1;
    }
    let mut tail: Vec<Scalar> = Vec::new();
    let mut c: usize = 0;
    while c < m
        invariant
            c <= m,
            m == q@.len(),
            tail@ == q@.subrange(0, c as int),
        decreases m - c,
    {
        tail.push(q[c]);
        c += 1;
        assert(tail@ =~= q@.subrange(0, c as int));
    }
    let mut extra: usize = 0;
    assert(tail@ =~= q@ + zero_row(0));
    while extra < n_slacks
        invariant
            extra <= n_slacks,
            tail@ == q@ + zero_row(extra as int),
        decreases n_slacks - extra,
    {
        tail.push(zero());
        extra += 1;
        assert(tail@ =~= q@ + zero_row(extra as int));
    }
    assert(crate::csc::rows_of(rows@) =~= goal);
    assert forall|a: int| 0 <= a < rows@.len() implies (#[trigger] rows@[a])@.len() == total by {
        assert(rows@[a]@ == goal[a]);
    }
    (rows, tail)
}

/// Quadratic program: minimise `x P x / 2 + q x` under the constraints.
#[derive(Debug)]
pub struct QpProblem {
    /// Upper triangle of the cost matrix.
    pub p: Csc,
    /// Linear cost.
    pub q: Vec<Scalar>,
    /// Constraints.
    pub constraints: QpConstraints,
}

/// Assembles the program of one iteration from the cost over the inputs and the
/// linearised foot velocities. `slack_weight` is the diagonal cost of a slack.
pub fn assemble_qp<A: Arithmetic>(
    ar: &A,
    cfg: &FullCentroidalMpcConfig,
    contact: &FullCentroidalContactSchedule,
    feet: &Vec<FootVelocity>,
    p_u: &Vec<Vec<Scalar>>,
    q_u: &Vec<Scalar>,
    slack_weight: Scalar,
    n: usize,
) -> (r: QpProblem)
    requires
        contact.spans(n as int),
        feet@.len() == 4 * n,
        forall|v: int| 0 <= v < 4 * n ==> (#[trigger] feet@[v]).spans(n as int),
        crate::csc::has_shape(p_u@, (24 * n) as nat, (24 * n) as nat),
        q_u@.len() == 24 * n,
        32 * n < usize::MAX,
    ensures
        ({
            let s = slack_count(cfg.friction_cone_soft, *contact, n as int);
            &&& r.p.wf()
            &&& r.p.nrows == 24 * n + s
            &&& r.p.ncols == 24 * n + s
            &&& r.p.compresses(padded_cost(crate::csc::rows_of(p_u@), s, slack_weight), true)
            &&& r.q@ == q_u@ + zero_row(s)
            &&& r.constraints.a.ncols == 24 * n + s
        }),
        exists|swing_rhs: Seq<Scalar>|
            {
                &&& r.constraints.holds_rows(
                    #[trigger] equality_rows(*cfg, *contact, feet@, swing_rhs, n as int),
                    inequality_rows(*cfg, *contact, n as int),
                )
                &&& deterministic(ar) ==> swing_rhs == swing_right_sides(
                    ar,
                    *contact,
                    feet@,
                    n as int,
                )
            },
{
    let n_slacks: usize = n_friction_slack_vars(cfg, contact, n);
    let padded = pad_cost(p_u, q_u, n_slacks, slack_weight);
    let p = dense_to_csc_upper(&padded.0);
    let constraints = build_constraints_24(ar, cfg, contact, feet, n);
    QpProblem { p, q: padded.1, constraints }
}

/// The inputs of the horizon, one per step, from the start of a solution vector.
pub fn decode_inputs(z: &Vec<Scalar>, n: usize) -> (r: Vec<FullCentroidalInput>)
    requires
        24 * n <= z@.len(),
    ensures
        r@.len() == n,
        forall|k: int| 0 <= k < n ==> (#[trigger] r@[k])@ == z@.subrange(24 * k, 24 * k + 24),
{
    let mut r: Vec<FullCentroidalInput> = Vec::new();
    let mut k: usize = 0;
    let len: usize = z.len();
    while k < n
        invariant
            k <= n,
            24 * n <= z@.len(),
            z@.len() == len,
            r@.len() == k,
            forall|i: int| 0 <= i < k ==> (#[trigger] r@[i])@ == z@.subrange(24 * i, 24 * i + 24),
        decreases n - k,
    {
        let base: usize = 24 * k;
        let mut slice = [zero(); N_INPUT];
        let mut i: usize = 0;
        while i < N_INPUT
            invariant
                i <= N_INPUT,
                base + 24 <= z@.len() == len,
                forall|c: int| 0 <= c < i ==> slice@[c] == z@[base + c],
            decreases N_INPUT - i,
        {
            slice[i] = z[base + i];
            i += 1;
        }
        assert(slice@ =~= z@.subrange(24 * k, 24 * k + 24));
        r.push(FullCentroidalInput::from_vec(&slice));
        k += 1;
    }
    r
}

/// The states of the horizon, one per step, from the stacked augmented states.
pub fn decode_states(x: &Vec<Scalar>, n: usize) -> (r: Vec<FullCentroidalState>)
    requires
        25 * n <= x@.len(),
    ensures
        r@.len() == n,
        forall|k: int| 0 <= k < n ==> (#[trigger] r@[k])@ == x@.subrange(25 * k, 25 * k + 24),
{
    let mut r: Vec<FullCentroidalState> = Vec::new();
    let mut k: usize = 0;
    let len: usize = x.len();
    while k < n
        invariant
            k <= n,
            25 * n <= x@.len(),
            x@.len() == len,
            r@.len() == k,
            forall|i: int| 0 <= i < k ==> (#[trigger] r@[i])@ == x@.subrange(25 * i, 25 * i + 24),
        decreases n - k,
    {
        let base: usize = 25 * k;
        let mut slice = [zero(); N_STATE];
        let mut i: usize = 0;
        while i < N_STATE
            invariant
                i <= N_STATE,
                base + 25 <= x@.len() == len,
                forall|c: int| 0 <= c < i ==> slice@[c] == x@[base + c],
            decreases N_STATE - i,
        {
            slice[i] = x[base + i];
            i += 1;
        }
        assert(slice@ =~= x@.subrange(25 * k, 25 * k + 24));
        r.push(FullCentroidalState::from_vec(&slice));
        k += 1;
    }
    r
}

/// The solution of an iteration from the solver's vector `z`, whose slack part
/// is left out, and the states `x` it predicts.
pub fn decode_solution(
    status: QpStatus,
    z: &Vec<Scalar>,
    x: &Vec<Scalar>,
    objective: Scalar,
    n: usize,
) -> (r: FullCentroidalMpcSolution)
    requires
        0 < n,
        24 * n <= z@.len(),
        25 * n <= x@.len(),
    ensures
        r.spans(n as int),
        r.solved == (status == QpStatus::Solved || status == QpStatus::AlmostSolved),
        r.objective == objective,
        r.first_input == r.inputs_all_steps@[0],
        forall|k: int|
            0 <= k < n ==> (#[trigger] r.inputs_all_steps@[k])@ == z@.subrange(
                24 * k,
                24 * k + 24,
            ),
        forall|k: int|
            0 <= k < n ==> (#[trigger] r.predicted_states@[k])@ == x@.subrange(
                25 * k,
                25 * k + 24,
            ),
{
    let inputs_all_steps = decode_inputs(z, n);
    let predicted_states = decode_states(x, n);
    FullCentroidalMpcSolution {
        first_input: inputs_all_steps[0],
        inputs_all_steps,
        predicted_states,
        objective,
        solved: status.is_solved(),
    }
}

/// The solution reported when the solver refuses the program: no input now, the
/// reference inputs after, and the present state throughout.
pub fn failed_solution(
    state_now: &FullCentroidalState,
    ref_inputs: &Vec<FullCentroidalInput>,
    n: usize,
) -> (r: FullCentroidalMpcSolution)
    ensures
        r.first_input@ == zero_row(N_INPUT as int),
        r.inputs_all_steps@ == ref_inputs@,
        r.predicted_states@ == Seq::new(n as nat, |k: int| *state_now),
        r.objective == nan(),
        !r.solved,
{
    let mut inputs: Vec<FullCentroidalInput> = Vec::new();
    let mut i: usize = 0;
    while i < ref_inputs.len()
        invariant
            i <= ref_inputs@.len(),
            inputs@ == ref_inputs@.subrange(0, i as int),
        decreases ref_inputs@.len() - i,
    {
        inputs.push(ref_inputs[i]);
        i += 1;
        assert(inputs@ =~= ref_inputs@.subrange(0, i as int));
    }
    assert(inputs@ =~= ref_inputs@);
    let mut states: Vec<FullCentroidalState> = Vec::new();
    let mut k: usize = 0;
    while k < n
        invariant
            k <= n,
            states@ == Seq::new(k as nat, |k: int| *state_now),
        decreases n - k,
    {
        states.push(*state_now);
        k += 1;
        assert(states@ =~= Seq::new(k as nat, |k: int| *state_now));
    }
    let first_input = FullCentroidalInput::default();
    assert(first_input@ =~= zero_row(N_INPUT as int));
    FullCentroidalMpcSolution {
        first_input,
        inputs_all_steps: inputs,
        predicted_states: states,
        objective: nan(),
        solved: false,
    }
}

/// The augmented states of a trajectory one after the other.
pub fn stack_states(states: &Vec<FullCentroidalState>) -> (r: Vec<Scalar>)
    ensures
        r@.len() == 25 * states@.len(),
        forall|k: int|
            0 <= k < states@.len() ==> r@.subrange(25 * k, 25 * k + 25) == (
            #[trigger] states@[k])@.push(Scalar { bits: GRAVITY_Z_BITS }),
{
    let mut r: Vec<Scalar> = Vec::new();
    let mut k: usize = 0;
    while k < states.len()
        invariant
            k <= states@.len(),
            r@.len() == 25 * k,
            forall|i: int|
                0 <= i < k ==> r@.subrange(25 * i, 25 * i + 25) == (#[trigger] states@[i])@.push(
                    Scalar { bits: GRAVITY_Z_BITS },
                ),
        decreases states@.len() - k,
    {
        let ghost before = r@;
        let v = state_to_vec_aug(&states[k]);
        let mut i: usize = 0;
        while i < N_STATE_AUG
            invariant
                i <= N_STATE_AUG,
                r@ == before + v@.subrange(0, i as int),
            decreases N_STATE_AUG - i,
        {
            r.push(v[i]);
            i += 1;
            assert(r@ =~= before + v@.subrange(0, i as int));
        }
        assert(r@ =~= before + v@);
        assert forall|i: int| 0 <= i < k + 1 implies r@.subrange(25 * i, 25 * i + 25) == (
        #[trigger] states@[i])@.push(Scalar { bits: GRAVITY_Z_BITS }) by {
            if i < k {
                assert(r@.subrange(25 * i, 25 * i + 25) =~= before.subrange(25 * i, 25 * i + 25));
            } else {
                assert(r@.subrange(25 * i, 25 * i + 25) =~= v@);
            }
        }
        k += 1;
    }
    r
}

/// The inputs of a trajectory one after the other.
pub fn stack_inputs(inputs: &Vec<FullCentroidalInput>) -> (r: Vec<Scalar>)
    ensures
        r@.len() == 24 * inputs@.len(),
        forall|k: int|
            0 <= k < inputs@.len() ==> r@.subrange(24 * k, 24 * k + 24) == (
            #[trigger] inputs@[k])@,
{
    let mut r: Vec<Scalar> = Vec::new();
    let mut k: usize = 0;
    while k < inputs.len()
        invariant
            k <= inputs@.len(),
            r@.len() == 24 * k,
            forall|i: int|
                0 <= i < k ==> r@.subrange(24 * i, 24 * i + 24) == (#[trigger] inputs@[i])@,
        decreases inputs@.len() - k,
    {
        let ghost before = r@;
        let v = inputs[k].to_vec();
        let mut i: usize = 0;
        while i < N_INPUT
            invariant
                i <= N_INPUT,
                r@ == before + v@.subrange(0, i as int),
            decreases N_INPUT - i,
        {
            r.push(v[i]);
            i += 1;
            assert(r@ =~= before + v@.subrange(0, i as int));
        }
        assert(r@ =~= before + v@);
        assert forall|i: int| 0 <= i < k + 1 implies r@.subrange(24 * i, 24 * i + 24) == (
        #[trigger] inputs@[i])@ by {
            if i < k {
                assert(r@.subrange(24 * i, 24 * i + 24) =~= before.subrange(24 * i, 24 * i + 24));
            } else {
                assert(r@.subrange(24 * i, 24 * i + 24) =~= v@);
            }
        }
        k += 1;
    }
    r
}

/// Diagonal of the state cost over the horizon: the state weights at every
/// step, and no weight on the gravity component.
pub fn state_cost_diagonal(q_diag: &[Scalar; N_STATE], n: usize) -> (r: Vec<Scalar>)
    requires
        25 * n <= usize::MAX,
    ensures
        r@.len() == 25 * n,
        forall|i: int|
            0 <= i < 25 * n ==> #[trigger] r@[i] == (if i % 25 < 24 {
                q_diag@[i % 25]
            } else {
                zero()
            }),
{
    let mut r: Vec<Scalar> = Vec::new();
    let total: usize = 25 * n;
    let mut c: usize = 0;
    while c < total
        invariant
            c <= total,
            r@.len() == c,
            forall|i: int|
                0 <= i < c ==> #[trigger] r@[i] == (if i % 25 < 24 {
                    q_diag@[i % 25]
                } else {
                    zero()
                }),
        decreases total - c,
    {
        let slot: usize = c % 25;
        r.push(if slot < 24 { q_diag[slot] } else { zero() });
        c += 1;
    }
    r
}

/// Diagonal of the input cost over the horizon: the input weights at every step.
pub fn input_cost_diagonal(r_diag: &[Scalar; N_INPUT], n: usize) -> (r: Vec<Scalar>)
    requires
        24 * n <= usize::MAX,
    ensures
        r@.len() == 24 * n,
        forall|i: int| 0 <= i < 24 * n ==> #[trigger] r@[i] == r_diag@[i % 24],
{
    let mut r: Vec<Scalar> = Vec::new();
    let total: usize = 24 * n;
    let mut c: usize = 0;
    while c < total
        invariant
            c <= total,
            r@.len() == c,
            forall|i: int| 0 <= i < c ==> #[trigger] r@[i] == r_diag@[i % 24],
        decreases total - c,
    {
        r.push(r_diag[c % 24]);
        c += 1;
    }
    r
}

/// What packing and unpacking keeps: stacking the inputs of a trajectory and
/// decoding the stack gives the inputs back.
pub proof fn inputs_survive_stacking(
    inputs: Seq<FullCentroidalInput>,
    stacked: Seq<Scalar>,
    decoded: Seq<FullCentroidalInput>,
    k: int,
)
    requires
        0 <= k < inputs.len(),
        stacked.len() == 24 * inputs.len(),
        decoded.len() == inputs.len(),
        forall|k: int|
            0 <= k < inputs.len() ==> stacked.subrange(24 * k, 24 * k + 24) == (
            #[trigger] inputs[k])@,
        forall|k: int|
            0 <= k < inputs.len() ==> (#[trigger] decoded[k])@ == stacked.subrange(
                24 * k,
                24 * k + 24,
            ),
    ensures
        decoded[k].grfs_world@ == inputs[k].grfs_world@,
        decoded[k].joint_v@ == inputs[k].joint_v@,
{
    assert(decoded[k]@ == inputs[k]@);
    crate::full_centroidal_mpc::input_is_its_vector(decoded[k], inputs[k]);
}

} // verus!
