//! Periodic orbit of a bound that moves forward, by single shooting.
//!
//! The body is planar: height, pitch and their rates. The force of a pair on the
//! ground is a quadratic in the fraction of its stance. Initial state, force
//! coefficients and foot places are sought by least squares so that a cycle ends
//! where it began, one stride further on, within soft bounds.

use vstd::prelude::*;
use crate::arith::{counted, deterministic, difference, product, quotient, sum, Arithmetic};
use crate::bound_reference::GRAVITY_BITS;
use crate::config::HALF_BITS;
use crate::ik::TWO_BITS;
use crate::scalar::{one, zero, Scalar};

verus! {

/// Bits of six.
pub const SIX_BITS: u64 = 0x4018_0000_0000_0000;

/// Parameters of the search.
#[derive(Clone, Copy, Debug, PartialEq, Eq, Structural)]
pub struct PeriodicBoundParams {
    /// Mass (kg).
    pub mass_kg: Scalar,
    /// Pitch inertia (kg m^2).
    pub inertia_yy: Scalar,
    /// Fore-aft offset of the feet (m).
    pub r_x: Scalar,
    /// Body height (m).
    pub h0: Scalar,
    /// Cycle period (s).
    pub cycle_period_s: Scalar,
    /// Stance fraction of each pair.
    pub duty_factor: Scalar,
    /// Forward speed (m/s).
    pub vx_target: Scalar,
    /// Friction coefficient.
    pub friction_mu: Scalar,
    /// Farthest a foot may be from the body along x (m).
    pub reach: Scalar,
    /// Largest pitch (rad).
    pub pitch_max: Scalar,
}

impl PeriodicBoundParams {
    /// Parameters of a 15 kg quadruped.
    pub fn go2(vx_target: Scalar, cycle_period_s: Scalar, duty_factor: Scalar) -> (r:
        PeriodicBoundParams)
        ensures
            r == (PeriodicBoundParams {
                mass_kg: Scalar { bits: 0x402F_3645_A1CA_C083 },
                inertia_yy: Scalar { bits: 0x3FB9_1D14_E3BC_D35B },
                r_x: Scalar { bits: 0x3FC8_9A02_7525_460B },
                h0: Scalar { bits: 0x3FD1_0CB2_95E9_E1B1 },
                cycle_period_s,
                duty_factor,
                vx_target,
                friction_mu: Scalar { bits: 0x3FE6_6666_6666_6666 },
                reach: Scalar { bits: 0x3FC4_7AE1_47AE_147B },
                pitch_max: Scalar { bits: 0x3FE3_3333_3333_3333 },
            }),
    {
        PeriodicBoundParams {
            mass_kg: Scalar { bits: 0x402F_3645_A1CA_C083 },
            inertia_yy: Scalar { bits: 0x3FB9_1D14_E3BC_D35B },
            r_x: Scalar { bits: 0x3FC8_9A02_7525_460B },
            h0: Scalar { bits: 0x3FD1_0CB2_95E9_E1B1 },
            cycle_period_s,
            duty_factor,
            vx_target,
            friction_mu: Scalar { bits: 0x3FE6_6666_6666_6666 },
            reach: Scalar { bits: 0x3FC4_7AE1_47AE_147B },
            pitch_max: Scalar { bits: 0x3FE3_3333_3333_3333 },
        }
    }
}

/// Which pair is on the ground.
#[derive(Clone, Copy, Debug, PartialEq, Eq, Structural)]
pub enum Stance {
    /// The front pair.
    Front,
    /// The rear pair.
    Rear,
    /// None.
    Flight,
}

/// State of the planar body.
#[derive(Clone, Copy, Debug, PartialEq, Eq, Structural)]
pub struct Planar {
    /// Position (m).
    pub x: Scalar,
    /// Height (m).
    pub z: Scalar,
    /// Pitch (rad).
    pub th: Scalar,
    /// Forward velocity (m/s).
    pub vx: Scalar,
    /// Vertical velocity (m/s).
    pub vz: Scalar,
    /// Pitch rate (rad/s).
    pub w: Scalar,
}

/// Forces of the two pairs (N).
#[derive(Clone, Copy, Debug, PartialEq, Eq, Structural)]
pub struct PairForces {
    /// Front, along x.
    pub fx: Scalar,
    /// Front, along z.
    pub fz: Scalar,
    /// Rear, along x.
    pub rx: Scalar,
    /// Rear, along z.
    pub rz: Scalar,
}

/// The pair on the ground in each quarter of the cycle.
pub open spec fn stance_of(phase: int) -> Stance {
    if phase == 0 {
        Stance::Front
    } else if phase == 2 {
        Stance::Rear
    } else {
        Stance::Flight
    }
}

pub(crate) fn stance_in(phase: usize) -> (r: Stance)
    ensures
        r == stance_of(phase as int),
{
    if phase == 0 {
        Stance::Front
    } else if phase == 2 {
        Stance::Rear
    } else {
        Stance::Flight
    }
}

/// Duration of a stance.
pub open spec fn stance_time<A: Arithmetic>(ar: &A, p: PeriodicBoundParams) -> Scalar {
    product(ar, p.duty_factor, p.cycle_period_s)
}

/// Duration of a flight.
pub open spec fn flight_time<A: Arithmetic>(ar: &A, p: PeriodicBoundParams) -> Scalar {
    difference(
        ar,
        product(ar, Scalar { bits: HALF_BITS }, p.cycle_period_s),
        stance_time(ar, p),
    )
}

/// `c[i] + c[i + 1] t + c[i + 2] t t`.
pub open spec fn quadratic<A: Arithmetic>(ar: &A, c: Seq<Scalar>, i: int, t: Scalar) -> Scalar {
    sum(
        ar,
        sum(ar, c[i], product(ar, c[i + 1], t)),
        product(ar, product(ar, c[i + 2], t), t),
    )
}

/// Forces at a fraction of a quarter: the pair on the ground pushes by its
/// quadratics. The unknowns hold the state first, then the coefficients of front
/// x, front z, rear x and rear z, then the foot places.
pub open spec fn forces<A: Arithmetic>(ar: &A, active: Stance, t: Scalar, c: Seq<Scalar>) -> PairForces {
    let o = zero();
    match active {
        Stance::Front => PairForces {
            fx: quadratic(ar, c, 5, t),
            fz: quadratic(ar, c, 8, t),
            rx: o,
            rz: o,
        },
        Stance::Rear => PairForces {
            fx: o,
            fz: o,
            rx: quadratic(ar, c, 11, t),
            rz: quadratic(ar, c, 14, t),
        },
        Stance::Flight => PairForces { fx: o, fz: o, rx: o, rz: o },
    }
}

/// Rate of the state under the forces of feet at `xf` and `xr`.
pub open spec fn rate<A: Arithmetic>(
    ar: &A,
    p: PeriodicBoundParams,
    s: Planar,
    f: PairForces,
    xf: Scalar,
    xr: Scalar,
) -> Planar {
    let torque = sum(
        ar,
        sum(
            ar,
            sum(ar, product(ar, difference(ar, xf, s.x), f.fz), product(ar, s.z, f.fx)),
            product(ar, difference(ar, xr, s.x), f.rz),
        ),
        product(ar, s.z, f.rx),
    );
    Planar {
        x: s.vx,
        z: s.vz,
        th: s.w,
        vx: quotient(ar, sum(ar, f.fx, f.rx), p.mass_kg),
        vz: difference(
            ar,
            quotient(ar, sum(ar, f.fz, f.rz), p.mass_kg),
            Scalar { bits: GRAVITY_BITS },
        ),
        w: quotient(ar, torque, p.inertia_yy),
    }
}

/// `s + h k`, part by part.
pub open spec fn moved<A: Arithmetic>(ar: &A, s: Planar, k: Planar, h: Scalar) -> Planar {
    Planar {
        x: sum(ar, s.x, product(ar, h, k.x)),
        z: sum(ar, s.z, product(ar, h, k.z)),
        th: sum(ar, s.th, product(ar, h, k.th)),
        vx: sum(ar, s.vx, product(ar, h, k.vx)),
        vz: sum(ar, s.vz, product(ar, h, k.vz)),
        w: sum(ar, s.w, product(ar, h, k.w)),
    }
}

/// `s + h (a + 2 b + 2 c + d)`.
pub open spec fn blend<A: Arithmetic>(
    ar: &A,
    s: Scalar,
    h: Scalar,
    a: Scalar,
    b: Scalar,
    c: Scalar,
    d: Scalar,
) -> Scalar {
    let two = Scalar { bits: TWO_BITS };
    sum(
        ar,
        s,
        product(
            ar,
            h,
            sum(ar, sum(ar, sum(ar, a, product(ar, two, b)), product(ar, two, c)), d),
        ),
    )
}

/// Duration of a part of a quarter cut into `n`.
pub open spec fn part_time<A: Arithmetic>(
    ar: &A,
    p: PeriodicBoundParams,
    phase: int,
    n: usize,
) -> Scalar {
    quotient(
        ar,
        if stance_of(phase) == Stance::Flight {
            flight_time(ar, p)
        } else {
            stance_time(ar, p)
        },
        counted(ar, n),
    )
}

/// One Runge-Kutta step of order four over part `i` of `n` of a quarter.
#[verifier::opaque]
pub open spec fn rk4<A: Arithmetic>(
    ar: &A,
    p: PeriodicBoundParams,
    c: Seq<Scalar>,
    phase: int,
    i: usize,
    n: usize,
    s: Planar,
) -> Planar {
    let active = stance_of(phase);
    let h = part_time(ar, p, phase, n);
    let half_h = product(ar, Scalar { bits: HALF_BITS }, h);
    let at = counted(ar, i);
    let all = counted(ar, n);
    let t0 = quotient(ar, at, all);
    let th = quotient(ar, sum(ar, at, Scalar { bits: HALF_BITS }), all);
    let t1 = quotient(ar, sum(ar, at, one()), all);
    let k1 = rate(ar, p, s, forces(ar, active, t0, c), c[17], c[18]);
    let k2 = rate(ar, p, moved(ar, s, k1, half_h), forces(ar, active, th, c), c[17], c[18]);
    let k3 = rate(ar, p, moved(ar, s, k2, half_h), forces(ar, active, th, c), c[17], c[18]);
    let k4 = rate(ar, p, moved(ar, s, k3, h), forces(ar, active, t1, c), c[17], c[18]);
    let h6 = quotient(ar, h, Scalar { bits: SIX_BITS });
    Planar {
        x: blend(ar, s.x, h6, k1.x, k2.x, k3.x, k4.x),
        z: blend(ar, s.z, h6, k1.z, k2.z, k3.z, k4.z),
        th: blend(ar, s.th, h6, k1.th, k2.th, k3.th, k4.th),
        vx: blend(ar, s.vx, h6, k1.vx, k2.vx, k3.vx, k4.vx),
        vz: blend(ar, s.vz, h6, k1.vz, k2.vz, k3.vz, k4.vz),
        w: blend(ar, s.w, h6, k1.w, k2.w, k3.w, k4.w),
    }
}

/// The state a cycle begins with.
pub open spec fn start_of(c: Seq<Scalar>) -> Planar {
    Planar { x: zero(), z: c[0], th: c[1], vx: c[2], vz: c[3], w: c[4] }
}

/// State after `k` parts of a cycle.
pub open spec fn state_after<A: Arithmetic>(
    ar: &A,
    p: PeriodicBoundParams,
    c: Seq<Scalar>,
    n: usize,
    k: int,
) -> Planar
    decreases k,
{
    if k <= 0 {
        start_of(c)
    } else {
        rk4(
            ar,
            p,
            c,
            (k - 1) / (n as int),
            ((k - 1) % (n as int)) as usize,
            n,
            state_after(ar, p, c, n, k - 1),
        )
    }
}

/// `traj` is the trajectory of a cycle, each quarter cut into `n` parts.
pub open spec fn is_trajectory<A: Arithmetic>(
    ar: &A,
    p: PeriodicBoundParams,
    c: Seq<Scalar>,
    n: usize,
    traj: Seq<Planar>,
) -> bool {
    &&& traj.len() == 4 * n + 1
    &&& traj[0] == start_of(c)
    &&& deterministic(ar) ==> forall|k: int|
        0 <= k <= 4 * n ==> #[trigger] traj[k] == state_after(ar, p, c, n, k)
}

fn quadratic_of<A: Arithmetic>(ar: &A, c: &Vec<Scalar>, i: usize, t: Scalar) -> (r: Scalar)
    requires
        c@.len() == 19,
        i < 17,
    ensures
        deterministic(ar) ==> r == quadratic(ar, c@, i as int, t),
{
    ar.plus(ar.plus(c[i], ar.times(c[i + 1], t)), ar.times(ar.times(c[i + 2], t), t))
}

pub(crate) fn forces_of<A: Arithmetic>(ar: &A, active: Stance, t: Scalar, c: &Vec<Scalar>) -> (r: PairForces)
    requires
        c@.len() == 19,
    ensures
        active == Stance::Flight ==> r == (PairForces {
            fx: zero(),
            fz: zero(),
            rx: zero(),
            rz: zero(),
        }),
        deterministic(ar) ==> r == forces(ar, active, t, c@),
{
    let o = zero();
    match active {
        Stance::Front => PairForces {
            fx: quadratic_of(ar, c, 5, t),
            fz: quadratic_of(ar, c, 8, t),
            rx: o,
            rz: o,
        },
        Stance::Rear => PairForces {
            fx: o,
            fz: o,
            rx: quadratic_of(ar, c, 11, t),
            rz: quadratic_of(ar, c, 14, t),
        },
        Stance::Flight => PairForces { fx: o, fz: o, rx: o, rz: o },
    }
}

fn rate_of<A: Arithmetic>(
    ar: &A,
    p: &PeriodicBoundParams,
    s: Planar,
    f: PairForces,
    xf: Scalar,
    xr: Scalar,
) -> (r: Planar)
    ensures
        deterministic(ar) ==> r == rate(ar, *p, s, f, xf, xr),
{
    let front = ar.plus(ar.times(ar.minus(xf, s.x), f.fz), ar.times(s.z, f.fx));
    let torque = ar.plus(
        ar.plus(front, ar.times(ar.minus(xr, s.x), f.rz)),
        ar.times(s.z, f.rx),
    );
    Planar {
        x: s.vx,
        z: s.vz,
        th: s.w,
        vx: ar.over(ar.plus(f.fx, f.rx), p.mass_kg),
        vz: ar.minus(ar.over(ar.plus(f.fz, f.rz), p.mass_kg), Scalar { bits: GRAVITY_BITS }),
        w: ar.over(torque, p.inertia_yy),
    }
}

fn move_by<A: Arithmetic>(ar: &A, s: Planar, k: Planar, h: Scalar) -> (r: Planar)
    ensures
        deterministic(ar) ==> r == moved(ar, s, k, h),
{
    Planar {
        x: ar.plus(s.x, ar.times(h, k.x)),
        z: ar.plus(s.z, ar.times(h, k.z)),
        th: ar.plus(s.th, ar.times(h, k.th)),
        vx: ar.plus(s.vx, ar.times(h, k.vx)),
        vz: ar.plus(s.vz, ar.times(h, k.vz)),
        w: ar.plus(s.w, ar.times(h, k.w)),
    }
}

fn blend_of<A: Arithmetic>(
    ar: &A,
    s: Scalar,
    h: Scalar,
    a: Scalar,
    b: Scalar,
    c: Scalar,
    d: Scalar,
) -> (r: Scalar)
    ensures
        deterministic(ar) ==> r == blend(ar, s, h, a, b, c, d),
{
    let two = Scalar { bits: TWO_BITS };
    let ab = ar.plus(a, ar.times(two, b));
    ar.plus(s, ar.times(h, ar.plus(ar.plus(ab, ar.times(two, c)), d)))
}

fn part_time_of<A: Arithmetic>(ar: &A, p: &PeriodicBoundParams, phase: usize, n: usize) -> (r: Scalar)
    ensures
        deterministic(ar) ==> r == part_time(ar, *p, phase as int, n),
{
    let t_st = ar.times(p.duty_factor, p.cycle_period_s);
    let dur = match stance_in(phase) {
        Stance::Flight => ar.minus(
            ar.times(Scalar { bits: HALF_BITS }, p.cycle_period_s),
            t_st,
        ),
        _ => t_st,
    };
    ar.over(dur, ar.from_count(n))
}

fn step_of<A: Arithmetic>(
    ar: &A,
    p: &PeriodicBoundParams,
    c: &Vec<Scalar>,
    phase: usize,
    i: usize,
    n: usize,
    s: Planar,
) -> (r: Planar)
    requires
        c@.len() == 19,
    ensures
        deterministic(ar) ==> r == rk4(ar, *p, c@, phase as int, i, n, s),
{
    reveal(rk4);
    let active = stance_in(phase);
    let h = part_time_of(ar, p, phase, n);
    let half_h = ar.times(Scalar { bits: HALF_BITS }, h);
    let at = ar.from_count(i);
    let all = ar.from_count(n);
    let t0 = ar.over(at, all);
    let th = ar.over(ar.plus(at, Scalar { bits: HALF_BITS }), all);
    let t1 = ar.over(ar.plus(at, one()), all);
    let k1 = rate_of(ar, p, s, forces_of(ar, active, t0, c), c[17], c[18]);
    let s2 = move_by(ar, s, k1, half_h);
    let k2 = rate_of(ar, p, s2, forces_of(ar, active, th, c), c[17], c[18]);
    let s3 = move_by(ar, s, k2, half_h);
    let k3 = rate_of(ar, p, s3, forces_of(ar, active, th, c), c[17], c[18]);
    let s4 = move_by(ar, s, k3, h);
    let k4 = rate_of(ar, p, s4, forces_of(ar, active, t1, c), c[17], c[18]);
    let h6 = ar.over(h, Scalar { bits: SIX_BITS });
    Planar {
        x: blend_of(ar, s.x, h6, k1.x, k2.x, k3.x, k4.x),
        z: blend_of(ar, s.z, h6, k1.z, k2.z, k3.z, k4.z),
        th: blend_of(ar, s.th, h6, k1.th, k2.th, k3.th, k4.th),
        vx: blend_of(ar, s.vx, h6, k1.vx, k2.vx, k3.vx, k4.vx),
        vz: blend_of(ar, s.vz, h6, k1.vz, k2.vz, k3.vz, k4.vz),
        w: blend_of(ar, s.w, h6, k1.w, k2.w, k3.w, k4.w),
    }
}

/// The trajectory of a cycle, each quarter cut into `n` parts.
pub fn integrate<A: Arithmetic>(ar: &A, p: &PeriodicBoundParams, c: &Vec<Scalar>, n: usize) -> (r: Vec<
    Planar,
>)
    requires
        c@.len() == 19,
        0 < n,
        4 * n < usize::MAX,
    ensures
        is_trajectory(ar, *p, c@, n, r@),
{
    let mut s = Planar { x: zero(), z: c[0], th: c[1], vx: c[2], vz: c[3], w: c[4] };
    let mut traj: Vec<Planar> = Vec::new();
    traj.push(s);
    let mut phase: usize = 0;
    while phase < 4
        invariant
            phase <= 4,
            c@.len() == 19,
            0 < n,
            4 * n < usize::MAX,
            traj@.len() == phase * n + 1,
            traj@[0] == start_of(c@),
            s == traj@.last(),
            deterministic(ar) ==> forall|k: int|
                0 <= k <= phase * n ==> #[trigger] traj@[k] == state_after(ar, *p, c@, n, k),
        decreases 4 - phase,
    {
        let mut i: usize = 0;
        while i < n
            invariant
                phase < 4,
                i <= n,
                c@.len() == 19,
                0 < n,
                4 * n < usize::MAX,
                traj@.len() == phase * n + i + 1,
                traj@[0] == start_of(c@),
                s == traj@.last(),
                deterministic(ar) ==> forall|k: int|
                    0 <= k <= phase * n + i ==> #[trigger] traj@[k] == state_after(
                        ar,
                        *p,
                        c@,
                        n,
                        k,
                    ),
            decreases n - i,
        {
            let ghost k = phase * n + i;
            proof {
                assert(k / (n as int) == phase && k % (n as int) == i) by (nonlinear_arith)
                    requires
                        k == phase * n + i,
                        0 <= i < n,
                ;
            }
            s = step_of(ar, p, c, phase, i, n, s);
            traj.push(s);
            i += 1;
        }
        proof {
            assert((phase + 1) * n == phase * n + n) by (nonlinear_arith);
        }
        phase += 1;
    }
    traj
}

/// Bits of the weight of a cycle that does not close.
pub const CLOSE_WEIGHT_BITS: u64 = 0x4034_0000_0000_0000;

/// Bits of the weight of a bound that is overstepped.
pub const BOUND_WEIGHT_BITS: u64 = 0x4020_0000_0000_0000;

/// Bits of the weight of a friction cone that is left.
pub const CONE_WEIGHT_BITS: u64 = 0x4038_0000_0000_0000;

/// Bits of the weight of the pitch.
pub const PITCH_WEIGHT_BITS: u64 = 0x3FD9_9999_9999_999A;

/// Bits of the least height (m).
pub const LEAST_HEIGHT_BITS: u64 = 0x3FBE_B851_EB85_1EB8;

/// Bits of the weight of the initial pitch.
pub const START_PITCH_WEIGHT_BITS: u64 = 0x3FC9_9999_9999_999A;

/// Bits of the weight of a tangential force.
pub const TANGENT_WEIGHT_BITS: u64 = 0x3F50_624D_D2F1_A9FC;

/// Number of parts of a quarter in the search.
pub const SEARCH_PARTS: usize = 40;

/// Number of residuals.
pub const N_RESIDUAL: usize = 730;

/// The value if positive, else zero.
pub open spec fn positive_part(a: Scalar) -> Scalar {
    if zero().lt_spec(a) {
        a
    } else {
        zero()
    }
}

fn positive_part_of(a: Scalar) -> (r: Scalar)
    ensures
        r == positive_part(a),
{
    if zero().lt(a) {
        a
    } else {
        zero()
    }
}

/// By how much a cycle does not close, part by part: height, pitch, velocities,
/// and the way made less the stride.
#[verifier::opaque]
pub open spec fn openings<A: Arithmetic>(
    ar: &A,
    p: PeriodicBoundParams,
    c: Seq<Scalar>,
    last: Planar,
) -> Seq<Scalar> {
    seq![
        difference(ar, last.z, c[0]),
        difference(ar, last.th, c[1]),
        difference(ar, last.vx, c[2]),
        difference(ar, last.vz, c[3]),
        difference(ar, last.w, c[4]),
        difference(
            ar,
            difference(ar, last.x, zero()),
            product(ar, p.vx_target, p.cycle_period_s),
        ),
    ]
}

/// Penalties of a pair on the ground: pulling, slipping, and a foot out of reach.
pub open spec fn pair_penalties<A: Arithmetic>(
    ar: &A,
    p: PeriodicBoundParams,
    fx: Scalar,
    fz: Scalar,
    foot: Scalar,
    x: Scalar,
) -> Seq<Scalar> {
    let mg = product(ar, p.mass_kg, Scalar { bits: GRAVITY_BITS });
    let bound = Scalar { bits: BOUND_WEIGHT_BITS };
    let cone = Scalar { bits: CONE_WEIGHT_BITS };
    seq![
        quotient(ar, product(ar, bound, positive_part(fz.neg_spec())), mg),
        quotient(
            ar,
            product(
                ar,
                cone,
                positive_part(difference(ar, fx.abs_spec(), product(ar, p.friction_mu, fz))),
            ),
            mg,
        ),
        product(
            ar,
            bound,
            positive_part(
                difference(ar, difference(ar, foot, x).abs_spec(), p.reach),
            ),
        ),
    ]
}

/// Penalties of a state: too much pitch, too low, and any pitch.
pub open spec fn body_penalties<A: Arithmetic>(ar: &A, p: PeriodicBoundParams, s: Planar) -> Seq<Scalar> {
    let bound = Scalar { bits: BOUND_WEIGHT_BITS };
    seq![
        product(
            ar,
            bound,
            positive_part(difference(ar, s.th.abs_spec(), p.pitch_max)),
        ),
        product(
            ar,
            bound,
            positive_part(difference(ar, Scalar { bits: LEAST_HEIGHT_BITS }, s.z)),
        ),
        product(ar, Scalar { bits: PITCH_WEIGHT_BITS }, s.th),
    ]
}

/// Penalties at part `i` of a quarter.
#[verifier::opaque]
pub open spec fn part_penalties<A: Arithmetic>(
    ar: &A,
    p: PeriodicBoundParams,
    c: Seq<Scalar>,
    phase: int,
    i: usize,
    s: Planar,
) -> Seq<Scalar> {
    let t = quotient(ar, counted(ar, i), counted(ar, SEARCH_PARTS));
    let f = forces(ar, stance_of(phase), t, c);
    let ground = match stance_of(phase) {
        Stance::Front => pair_penalties(ar, p, f.fx, f.fz, c[17], s.x),
        Stance::Rear => pair_penalties(ar, p, f.rx, f.rz, c[18], s.x),
        Stance::Flight => Seq::empty(),
    };
    ground + body_penalties(ar, p, s)
}

/// Penalties of the first `m` parts.
pub open spec fn penalties<A: Arithmetic>(
    ar: &A,
    p: PeriodicBoundParams,
    c: Seq<Scalar>,
    m: int,
) -> Seq<Scalar>
    decreases m,
{
    if m <= 0 {
        Seq::empty()
    } else {
        penalties(ar, p, c, m - 1) + part_penalties(
            ar,
            p,
            c,
            (m - 1) / 40,
            ((m - 1) % 40) as usize,
            state_after(ar, p, c, SEARCH_PARTS, m - 1),
        )
    }
}

/// Sum of the heights of the first `m` parts.
pub open spec fn height_sum<A: Arithmetic>(
    ar: &A,
    p: PeriodicBoundParams,
    c: Seq<Scalar>,
    m: int,
) -> Scalar
    decreases m,
{
    if m <= 0 {
        zero()
    } else {
        sum(
            ar,
            height_sum(ar, p, c, m - 1),
            state_after(ar, p, c, SEARCH_PARTS, m - 1).z,
        )
    }
}

/// All residuals: openings, penalties, and light weights that keep the initial
/// pitch and the tangential forces small and the mean height as asked.
pub open spec fn residual_values<A: Arithmetic>(ar: &A, p: PeriodicBoundParams, c: Seq<Scalar>) -> Seq<
    Scalar,
> {
    let w = Scalar { bits: CLOSE_WEIGHT_BITS };
    let o = openings(ar, p, c, state_after(ar, p, c, SEARCH_PARTS, 160));
    let mean = quotient(ar, height_sum(ar, p, c, 160), counted(ar, 160));
    seq![
        product(ar, w, o[0]),
        product(ar, w, o[1]),
        product(ar, w, o[2]),
        product(ar, w, o[3]),
        product(ar, w, o[4]),
        product(ar, w, o[5]),
    ] + penalties(ar, p, c, 160) + seq![
        product(ar, Scalar { bits: START_PITCH_WEIGHT_BITS }, c[1]),
        product(ar, Scalar { bits: TANGENT_WEIGHT_BITS }, c[5]),
        product(ar, Scalar { bits: TANGENT_WEIGHT_BITS }, c[11]),
        product(ar, one(), difference(ar, mean, p.h0)),
    ]
}

pub(crate) fn openings_of<A: Arithmetic>(
    ar: &A,
    p: &PeriodicBoundParams,
    c: &Vec<Scalar>,
    last: Planar,
) -> (r: [Scalar; 6])
    requires
        c@.len() == 19,
    ensures
        deterministic(ar) ==> r@ == openings(ar, *p, c@, last),
{
    reveal(openings);
    let r = [
        ar.minus(last.z, c[0]),
        ar.minus(last.th, c[1]),
        ar.minus(last.vx, c[2]),
        ar.minus(last.vz, c[3]),
        ar.minus(last.w, c[4]),
        ar.minus(ar.minus(last.x, zero()), ar.times(p.vx_target, p.cycle_period_s)),
    ];
    assert(deterministic(ar) ==> r@ =~= openings(ar, *p, c@, last));
    r
}

fn push_pair_penalties<A: Arithmetic>(
    ar: &A,
    p: &PeriodicBoundParams,
    fx: Scalar,
    fz: Scalar,
    foot: Scalar,
    x: Scalar,
    r: &mut Vec<Scalar>,
)
    ensures
        final(r)@.len() == old(r)@.len() + 3,
        deterministic(ar) ==> final(r)@ == old(r)@ + pair_penalties(ar, *p, fx, fz, foot, x),
{
    let mg = ar.times(p.mass_kg, Scalar { bits: GRAVITY_BITS });
    let bound = Scalar { bits: BOUND_WEIGHT_BITS };
    let cone = Scalar { bits: CONE_WEIGHT_BITS };
    let pull = positive_part_of(fz.neg());
    let slip = positive_part_of(ar.minus(fx.abs(), ar.times(p.friction_mu, fz)));
    let far = positive_part_of(ar.minus(ar.minus(foot, x).abs(), p.reach));
    r.push(ar.over(ar.times(bound, pull), mg));
    r.push(ar.over(ar.times(cone, slip), mg));
    r.push(ar.times(bound, far));
    assert(deterministic(ar) ==> r@ =~= old(r)@ + pair_penalties(ar, *p, fx, fz, foot, x));
}

fn push_body_penalties<A: Arithmetic>(ar: &A, p: &PeriodicBoundParams, s: Planar, r: &mut Vec<Scalar>)
    ensures
        final(r)@.len() == old(r)@.len() + 3,
        deterministic(ar) ==> final(r)@ == old(r)@ + body_penalties(ar, *p, s),
{
    let bound = Scalar { bits: BOUND_WEIGHT_BITS };
    let steep = positive_part_of(ar.minus(s.th.abs(), p.pitch_max));
    let low = positive_part_of(ar.minus(Scalar { bits: LEAST_HEIGHT_BITS }, s.z));
    r.push(ar.times(bound, steep));
    r.push(ar.times(bound, low));
    r.push(ar.times(Scalar { bits: PITCH_WEIGHT_BITS }, s.th));
    assert(deterministic(ar) ==> r@ =~= old(r)@ + body_penalties(ar, *p, s));
}

/// Number of penalties at a part of a quarter.
pub open spec fn penalty_count(phase: int) -> int {
    if stance_of(phase) == Stance::Flight {
        3
    } else {
        6
    }
}

fn push_part_penalties<A: Arithmetic>(
    ar: &A,
    p: &PeriodicBoundParams,
    c: &Vec<Scalar>,
    phase: usize,
    i: usize,
    s: Planar,
    r: &mut Vec<Scalar>,
)
    requires
        c@.len() == 19,
    ensures
        final(r)@.len() == old(r)@.len() + penalty_count(phase as int),
        deterministic(ar) ==> final(r)@ == old(r)@ + part_penalties(
            ar,
            *p,
            c@,
            phase as int,
            i,
            s,
        ),
{
    reveal(part_penalties);
    let t = ar.over(ar.from_count(i), ar.from_count(SEARCH_PARTS));
    let active = stance_in(phase);
    let f = forces_of(ar, active, t, c);
    match active {
        Stance::Front => {
            push_pair_penalties(ar, p, f.fx, f.fz, c[17], s.x, r);
        },
        Stance::Rear => {
            push_pair_penalties(ar, p, f.rx, f.rz, c[18], s.x, r);
        },
        Stance::Flight => {},
    }
    push_body_penalties(ar, p, s, r);
    assert(deterministic(ar) ==> r@ =~= old(r)@ + part_penalties(ar, *p, c@, phase as int, i, s));
}

/// Number of penalties of the first `k` parts.
pub open spec fn penalties_before(k: int) -> int {
    if k <= 40 {
        6 * k
    } else if k <= 80 {
        120 + 3 * k
    } else if k <= 120 {
        6 * k - 120
    } else {
        240 + 3 * k
    }
}

fn push_penalties<A: Arithmetic>(
    ar: &A,
    p: &PeriodicBoundParams,
    c: &Vec<Scalar>,
    traj: &Vec<Planar>,
    r: &mut Vec<Scalar>,
) -> (z: Scalar)
    requires
        c@.len() == 19,
        is_trajectory(ar, *p, c@, SEARCH_PARTS, traj@),
        old(r)@.len() == 6,
    ensures
        final(r)@.len() == 726,
        deterministic(ar) ==> final(r)@ == old(r)@ + penalties(ar, *p, c@, 160),
        deterministic(ar) ==> z == height_sum(ar, *p, c@, 160),
{
    let ghost head = r@;
    let mut z = zero();
    let mut k: usize = 0;
    assert(deterministic(ar) ==> r@ =~= head + penalties(ar, *p, c@, 0));
    while k < 160
        invariant
            k <= 160,
            c@.len() == 19,
            traj@.len() == 161,
            is_trajectory(ar, *p, c@, SEARCH_PARTS, traj@),
            head.len() == 6,
            r@.len() == 6 + penalties_before(k as int),
            deterministic(ar) ==> r@ == head + penalties(ar, *p, c@, k as int),
            deterministic(ar) ==> z == height_sum(ar, *p, c@, k as int),
        decreases 160 - k,
    {
        let s = traj[k];
        push_part_penalties(ar, p, c, k / 40, k % 40, s, r);
        z = ar.plus(z, s.z);
        proof {
            if deterministic(ar) {
                assert(s == state_after(ar, *p, c@, SEARCH_PARTS, k as int));
                assert(r@ =~= head + penalties(ar, *p, c@, k + 1));
            }
        }
        k += 1;
    }
    z
}

/// The residuals of the search.
pub fn residuals<A: Arithmetic>(ar: &A, p: &PeriodicBoundParams, c: &Vec<Scalar>) -> (r: Vec<Scalar>)
    requires
        c@.len() == 19,
    ensures
        r@.len() == N_RESIDUAL,
        deterministic(ar) ==> r@ == residual_values(ar, *p, c@),
{
    let traj = integrate(ar, p, c, SEARCH_PARTS);
    let w = Scalar { bits: CLOSE_WEIGHT_BITS };
    let o = openings_of(ar, p, c, traj[160]);
    let mut r: Vec<Scalar> = Vec::new();
    r.push(ar.times(w, o[0]));
    r.push(ar.times(w, o[1]));
    r.push(ar.times(w, o[2]));
    r.push(ar.times(w, o[3]));
    r.push(ar.times(w, o[4]));
    r.push(ar.times(w, o[5]));
    let z = push_penalties(ar, p, c, &traj, &mut r);
    let mean = ar.over(z, ar.from_count(160));
    r.push(ar.times(Scalar { bits: START_PITCH_WEIGHT_BITS }, c[1]));
    r.push(ar.times(Scalar { bits: TANGENT_WEIGHT_BITS }, c[5]));
    r.push(ar.times(Scalar { bits: TANGENT_WEIGHT_BITS }, c[11]));
    r.push(ar.times(one(), ar.minus(mean, p.h0)));
    proof {
        if deterministic(ar) {
            assert(r@ =~= residual_values(ar, *p, c@));
        }
    }
    r
}

} // verus!
