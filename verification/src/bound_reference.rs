//! Closed-form periodic reference for a bound.
//!
//! The front pair stands in the first half of the cycle and the rear pair in
//! the second. Both feet of a pair share the same fore-aft arm, so pitch is
//! steered by the pair's fore-aft force alone. Each half cycle is a stance
//! followed by a flight; the rear half is the mirror image of the front half.

use vstd::prelude::*;
use crate::arith::{
    deterministic, difference, mirrors, product, quotient, remainder, sum, Arithmetic,
};
use crate::config::HALF_BITS;
use crate::ik::TWO_BITS;
use crate::scalar::{one, zero, Scalar};

verus! {

/// Bits of the gravity used here (9.81 m/s2).
pub const GRAVITY_BITS: u64 = 0x4023_9EB8_51EB_851F;

/// Bits of four.
pub const FOUR_BITS: u64 = 0x4010_0000_0000_0000;

/// Physical and timing parameters of the reference.
#[derive(Clone, Copy, Debug, PartialEq, Eq, Structural)]
pub struct BoundTrimConfig {
    /// Robot mass (kg).
    pub mass_kg: Scalar,
    /// Pitch inertia (kg m2).
    pub inertia_yy: Scalar,
    /// Fore-aft arm from the centre of mass to a stance foot (m).
    pub r_x: Scalar,
    /// Standing height (m).
    pub h0: Scalar,
    /// Cycle period (s).
    pub cycle_period_s: Scalar,
    /// Fraction of the cycle a foot stands.
    pub duty_factor: Scalar,
    /// Friction coefficient the fore-aft force is held to.
    pub friction_mu: Scalar,
    /// Sign applied to pitch, pitch rate and fore-aft force.
    pub sign: Scalar,
    /// Fraction of the trim force that is used.
    pub thrust_scale: Scalar,
    /// Commanded forward speed, read only with a ripple fraction (m/s).
    pub cmd_vx_mps: Scalar,
    /// When present, the force is sized from this fraction of the commanded
    /// speed as velocity ripple.
    pub velocity_ripple_fraction: Option<Scalar>,
}

/// The reference at one instant.
#[derive(Clone, Copy, Debug, PartialEq, Eq, Structural)]
pub struct BoundTrimSample {
    /// Pitch (rad).
    pub pitch: Scalar,
    /// Pitch rate (rad/s).
    pub pitch_rate: Scalar,
    /// Fore-aft force of one foot of the stance pair (N).
    pub f_x_per_leg: Scalar,
    /// Vertical force of one foot of the stance pair (N).
    pub f_z_per_leg: Scalar,
    /// Vertical velocity of the centre of mass (m/s).
    pub com_z_velocity: Scalar,
}

/// Pitch, pitch rate and the forces of the stance pair in the front half.
pub struct HalfCycle {
    /// Pitch (rad).
    pub theta: Scalar,
    /// Pitch rate (rad/s).
    pub theta_dot: Scalar,
    /// Fore-aft force of the pair (N).
    pub f_x: Scalar,
    /// Vertical force of the pair (N).
    pub f_z: Scalar,
}

impl BoundTrimConfig {
    /// The duty of the closed form, at most one half.
    pub open spec fn duty(self) -> Scalar {
        self.duty_factor.min_spec(Scalar { bits: HALF_BITS })
    }

    /// Vertical force of the stance pair: `m g / (2 d)`.
    pub open spec fn vertical_force<A: Arithmetic>(self, ar: &A) -> Scalar {
        quotient(
            ar,
            product(ar, self.mass_kg, Scalar { bits: GRAVITY_BITS }),
            product(ar, Scalar { bits: TWO_BITS }, self.duty()),
        )
    }

    /// Fore-aft force that leaves no pitch torque: `-r_x F_z / h0`.
    pub open spec fn trim_force<A: Arithmetic>(self, ar: &A) -> Scalar {
        quotient(ar, product(ar, self.r_x.neg_spec(), self.vertical_force(ar)), self.h0)
    }

    /// Largest fore-aft force the friction allows.
    pub open spec fn friction_bound<A: Arithmetic>(self, ar: &A) -> Scalar {
        product(ar, self.friction_mu, self.vertical_force(ar))
    }

    /// The trim force within the friction bound.
    pub open spec fn clipped_force<A: Arithmetic>(self, ar: &A) -> Scalar {
        let bound = self.friction_bound(ar);
        self.trim_force(ar).clamp_spec(bound.neg_spec(), bound)
    }

    /// Stance duration: `T d`.
    pub open spec fn stance_time<A: Arithmetic>(self, ar: &A) -> Scalar {
        product(ar, self.cycle_period_s, self.duty())
    }

    /// Flight duration in a half cycle: `(1/2 - d) T`, not negative.
    pub open spec fn flight_time<A: Arithmetic>(self, ar: &A) -> Scalar {
        product(
            ar,
            difference(ar, Scalar { bits: HALF_BITS }, self.duty_factor).max_spec(zero()),
            self.cycle_period_s,
        )
    }

    /// The fore-aft force that is used: from the velocity ripple when one is
    /// given, else the scaled trim force.
    pub open spec fn used_force<A: Arithmetic>(self, ar: &A) -> Scalar {
        match self.velocity_ripple_fraction {
            Some(fraction) => {
                let ripple = product(ar, fraction, self.cmd_vx_mps.abs_spec());
                let size = quotient(ar, product(ar, self.mass_kg, ripple), self.stance_time(ar));
                product(
                    ar,
                    size.min_spec(self.friction_bound(ar)),
                    self.trim_force(ar).signum_spec(),
                )
            },
            None => product(ar, self.thrust_scale, self.clipped_force(ar)),
        }
    }

    /// Pitch acceleration in stance: `(-h0 f_x - r_x F_z) / I`.
    pub open spec fn pitch_acceleration<A: Arithmetic>(self, ar: &A, f_x: Scalar) -> Scalar {
        quotient(
            ar,
            difference(
                ar,
                product(ar, self.h0.neg_spec(), f_x),
                product(ar, self.r_x, self.vertical_force(ar)),
            ),
            self.inertia_yy,
        )
    }

    /// Pitch rate at front touch-down: `-a T_st / 2`.
    pub open spec fn touchdown_rate<A: Arithmetic>(self, ar: &A, f_x: Scalar) -> Scalar {
        quotient(
            ar,
            product(ar, self.pitch_acceleration(ar, f_x).neg_spec(), self.stance_time(ar)),
            Scalar { bits: TWO_BITS },
        )
    }

    /// Pitch at front touch-down: `-a T_st T_flight / 4`.
    pub open spec fn touchdown_pitch<A: Arithmetic>(self, ar: &A, f_x: Scalar) -> Scalar {
        quotient(
            ar,
            product(
                ar,
                product(ar, self.pitch_acceleration(ar, f_x).neg_spec(), self.stance_time(ar)),
                self.flight_time(ar),
            ),
            Scalar { bits: FOUR_BITS },
        )
    }

    /// Pitch at time `s` of the front stance.
    pub open spec fn stance_pitch<A: Arithmetic>(self, ar: &A, f_x: Scalar, s: Scalar) -> Scalar {
        parabola(
            ar,
            self.touchdown_pitch(ar, f_x),
            self.touchdown_rate(ar, f_x),
            self.pitch_acceleration(ar, f_x),
            s,
        )
    }

    /// Largest pitch over the half cycle: at touch-down, at lift-off, or where
    /// the rate vanishes in between.
    pub open spec fn peak_pitch<A: Arithmetic>(self, ar: &A, f_x: Scalar) -> Scalar {
        let t = self.stance_time(ar);
        let a = self.pitch_acceleration(ar, f_x);
        let ends = self.touchdown_pitch(ar, f_x).abs_spec().max_spec(
            self.stance_pitch(ar, f_x, t).abs_spec(),
        );
        let turn = quotient(ar, self.touchdown_rate(ar, f_x).neg_spec(), a);
        if !a.eq_spec_value(zero()) && zero().lt_spec(turn) && turn.lt_spec(t) {
            ends.max_spec(self.stance_pitch(ar, f_x, turn).abs_spec())
        } else {
            ends
        }
    }

    /// The front half at local time `s`: stance before `T_st`, flight after it
    /// at the rate reached at lift-off and with no force.
    pub open spec fn front_half<A: Arithmetic>(self, ar: &A, s: Scalar) -> HalfCycle {
        let f_x = self.used_force(ar);
        let a = self.pitch_acceleration(ar, f_x);
        let t = self.stance_time(ar);
        let rate = self.touchdown_rate(ar, f_x);
        if s.lt_spec(t) {
            HalfCycle {
                theta: self.stance_pitch(ar, f_x, s),
                theta_dot: sum(ar, rate, product(ar, a, s)),
                f_x,
                f_z: self.vertical_force(ar),
            }
        } else {
            let leaving = sum(ar, rate, product(ar, a, t));
            HalfCycle {
                theta: sum(
                    ar,
                    self.stance_pitch(ar, f_x, t),
                    product(ar, leaving, difference(ar, s, t)),
                ),
                theta_dot: leaving,
                f_x: zero(),
                f_z: zero(),
            }
        }
    }

    /// Vertical velocity at local time `s`: none without flight, else up from
    /// the landing speed in stance and ballistic in flight.
    pub open spec fn bounce<A: Arithmetic>(self, ar: &A, s: Scalar) -> Scalar {
        let g = Scalar { bits: GRAVITY_BITS };
        let flight = self.flight_time(ar);
        let t = self.stance_time(ar);
        if zero().lt_spec(flight) && zero().lt_spec(t) {
            let leaving = product(ar, product(ar, Scalar { bits: HALF_BITS }, g), flight);
            if s.lt_spec(t) {
                sum(
                    ar,
                    leaving.neg_spec(),
                    product(ar, quotient(ar, product(ar, g, flight), t), s),
                )
            } else {
                difference(ar, leaving, product(ar, g, difference(ar, s, t)))
            }
        } else {
            zero()
        }
    }

    /// The reference in a half cycle: the rear half negates pitch, pitch rate
    /// and fore-aft force of the front half.
    pub open spec fn half_sample<A: Arithmetic>(self, ar: &A, front: bool, s: Scalar) -> BoundTrimSample {
        let h = self.front_half(ar, s);
        let two = Scalar { bits: TWO_BITS };
        let pitch = if front { h.theta } else { h.theta.neg_spec() };
        let rate = if front { h.theta_dot } else { h.theta_dot.neg_spec() };
        let f_x = if front { h.f_x } else { h.f_x.neg_spec() };
        BoundTrimSample {
            pitch: product(ar, self.sign, pitch),
            pitch_rate: product(ar, self.sign, rate),
            f_x_per_leg: quotient(ar, product(ar, self.sign, f_x), two),
            f_z_per_leg: quotient(ar, h.f_z, two),
            com_z_velocity: self.bounce(ar, s),
        }
    }

    /// The reference at a phase of the cycle.
    pub open spec fn sampled<A: Arithmetic>(self, ar: &A, cycle_phase: Scalar) -> BoundTrimSample {
        let half = Scalar { bits: HALF_BITS };
        let phase = remainder(ar, cycle_phase, one());
        let front = phase.lt_spec(half);
        let local = if front { phase } else { difference(ar, phase, half) };
        self.half_sample(ar, front, product(ar, local, self.cycle_period_s))
    }

    fn duty_trim(&self) -> (r: Scalar)
        ensures
            r == self.duty(),
    {
        self.duty_factor.min(Scalar { bits: HALF_BITS })
    }

    /// Vertical force of the stance pair (N).
    pub fn f_z_total<A: Arithmetic>(&self, ar: &A) -> (r: Scalar)
        ensures
            deterministic(ar) ==> r == self.vertical_force(ar),
    {
        ar.over(
            ar.times(self.mass_kg, Scalar { bits: GRAVITY_BITS }),
            ar.times(Scalar { bits: TWO_BITS }, self.duty_trim()),
        )
    }

    /// Fore-aft force that leaves no pitch torque (N).
    pub fn f_x_trim<A: Arithmetic>(&self, ar: &A) -> (r: Scalar)
        ensures
            deterministic(ar) ==> r == self.trim_force(ar),
    {
        ar.over(ar.times(self.r_x.neg(), self.f_z_total(ar)), self.h0)
    }

    /// Friction coefficient that the exact trim needs.
    pub fn mu_needed<A: Arithmetic>(&self, ar: &A) -> (r: Scalar)
        ensures
            deterministic(ar) ==> r == quotient(
                ar,
                self.trim_force(ar).abs_spec(),
                self.vertical_force(ar),
            ),
    {
        ar.over(self.f_x_trim(ar).abs(), self.f_z_total(ar))
    }

    /// The trim force within the friction bound (N).
    pub fn f_x_clipped<A: Arithmetic>(&self, ar: &A) -> (r: Scalar)
        requires
            deterministic(ar) ==> zero().le_spec(self.friction_bound(ar)),
        ensures
            deterministic(ar) ==> r == self.clipped_force(ar),
    {
        let bound = ar.times(self.friction_mu, self.f_z_total(ar));
        self.f_x_trim(ar).bounded(bound.neg(), bound)
    }

    /// The fore-aft force that is used (N).
    pub fn f_x_used<A: Arithmetic>(&self, ar: &A) -> (r: Scalar)
        requires
            self.velocity_ripple_fraction is None && deterministic(ar) ==> zero().le_spec(
                self.friction_bound(ar),
            ),
        ensures
            deterministic(ar) ==> r == self.used_force(ar),
    {
        match self.velocity_ripple_fraction {
            Some(fraction) => {
                let ripple = ar.times(fraction, self.cmd_vx_mps.abs());
                let bound = ar.times(self.friction_mu, self.f_z_total(ar));
                let size = ar.over(ar.times(self.mass_kg, ripple), self.t_st(ar)).min(bound);
                ar.times(size, self.f_x_trim(ar).signum())
            },
            None => ar.times(self.thrust_scale, self.f_x_clipped(ar)),
        }
    }

    fn t_st<A: Arithmetic>(&self, ar: &A) -> (r: Scalar)
        ensures
            deterministic(ar) ==> r == self.stance_time(ar),
    {
        ar.times(self.cycle_period_s, self.duty_trim())
    }

    fn t_flight<A: Arithmetic>(&self, ar: &A) -> (r: Scalar)
        ensures
            deterministic(ar) ==> r == self.flight_time(ar),
    {
        ar.times(
            ar.minus(Scalar { bits: HALF_BITS }, self.duty_factor).max(zero()),
            self.cycle_period_s,
        )
    }

    fn alpha_p<A: Arithmetic>(&self, ar: &A, f_x: Scalar) -> (r: Scalar)
        ensures
            deterministic(ar) ==> r == self.pitch_acceleration(ar, f_x),
    {
        ar.over(
            ar.minus(ar.times(self.h0.neg(), f_x), ar.times(self.r_x, self.f_z_total(ar))),
            self.inertia_yy,
        )
    }

    /// Pitch and pitch rate at touch-down under a fore-aft force.
    pub fn theta_boundary<A: Arithmetic>(&self, ar: &A, f_x: Scalar) -> (r: (Scalar, Scalar))
        ensures
            deterministic(ar) ==> r.0 == self.touchdown_pitch(ar, f_x) && r.1
                == self.touchdown_rate(ar, f_x),
    {
        let t_st = self.t_st(ar);
        let a = self.alpha_p(ar, f_x);
        let swept = ar.times(a.neg(), t_st);
        let rate = ar.over(swept, Scalar { bits: TWO_BITS });
        let pitch = ar.over(ar.times(swept, self.t_flight(ar)), Scalar { bits: FOUR_BITS });
        (pitch, rate)
    }

    /// Largest pitch over the half cycle for a fore-aft force (rad).
    pub fn theta_peak<A: Arithmetic>(&self, ar: &A, f_x: Scalar) -> (r: Scalar)
        ensures
            deterministic(ar) ==> r == self.peak_pitch(ar, f_x),
    {
        let t_st = self.t_st(ar);
        let a = self.alpha_p(ar, f_x);
        let start = self.theta_boundary(ar, f_x);
        let end = parabola_at(ar, start.0, start.1, a, t_st);
        let mut peak = start.0.abs().max(end.abs());
        if !a.eq_value(zero()) {
            let turn = ar.over(start.1.neg(), a);
            if zero().lt(turn) && turn.lt(t_st) {
                peak = peak.max(parabola_at(ar, start.0, start.1, a, turn).abs());
            }
        }
        peak
    }

    fn bounce_at<A: Arithmetic>(&self, ar: &A, s: Scalar) -> (r: Scalar)
        ensures
            deterministic(ar) ==> r == self.bounce(ar, s),
    {
        let g = Scalar { bits: GRAVITY_BITS };
        let t_flight = self.t_flight(ar);
        let t_st = self.t_st(ar);
        if zero().lt(t_flight) && zero().lt(t_st) {
            let leaving = ar.times(ar.times(Scalar { bits: HALF_BITS }, g), t_flight);
            if s.lt(t_st) {
                let up = ar.over(ar.times(g, t_flight), t_st);
                ar.plus(leaving.neg(), ar.times(up, s))
            } else {
                ar.minus(leaving, ar.times(g, ar.minus(s, t_st)))
            }
        } else {
            zero()
        }
    }

    fn front_half_at<A: Arithmetic>(&self, ar: &A, s: Scalar) -> (r: HalfCycle)
        requires
            self.velocity_ripple_fraction is None && deterministic(ar) ==> zero().le_spec(
                self.friction_bound(ar),
            ),
        ensures
            deterministic(ar) ==> r == self.front_half(ar, s),
    {
        let f_x = self.f_x_used(ar);
        let a = self.alpha_p(ar, f_x);
        let t_st = self.t_st(ar);
        let start = self.theta_boundary(ar, f_x);
        if s.lt(t_st) {
            HalfCycle {
                theta: parabola_at(ar, start.0, start.1, a, s),
                theta_dot: ar.plus(start.1, ar.times(a, s)),
                f_x,
                f_z: self.f_z_total(ar),
            }
        } else {
            let leaving = ar.plus(start.1, ar.times(a, t_st));
            let pitch = parabola_at(ar, start.0, start.1, a, t_st);
            HalfCycle {
                theta: ar.plus(pitch, ar.times(leaving, ar.minus(s, t_st))),
                theta_dot: leaving,
                f_x: zero(),
                f_z: zero(),
            }
        }
    }

    /// The reference at a phase of the cycle.
    pub fn sample<A: Arithmetic>(&self, ar: &A, cycle_phase: Scalar) -> (r: BoundTrimSample)
        requires
            self.velocity_ripple_fraction is None && deterministic(ar) ==> zero().le_spec(
                self.friction_bound(ar),
            ),
        ensures
            deterministic(ar) ==> r == self.sampled(ar, cycle_phase),
    {
        let half = Scalar { bits: HALF_BITS };
        let two = Scalar { bits: TWO_BITS };
        let phase = ar.wrap(cycle_phase, one());
        let front = phase.lt(half);
        let local = if front { phase } else { ar.minus(phase, half) };
        let s = ar.times(local, self.cycle_period_s);
        let h = self.front_half_at(ar, s);
        let pitch = if front { h.theta } else { h.theta.neg() };
        let rate = if front { h.theta_dot } else { h.theta_dot.neg() };
        let f_x = if front { h.f_x } else { h.f_x.neg() };
        BoundTrimSample {
            pitch: ar.times(self.sign, pitch),
            pitch_rate: ar.times(self.sign, rate),
            f_x_per_leg: ar.over(ar.times(self.sign, f_x), two),
            f_z_per_leg: ar.over(h.f_z, two),
            com_z_velocity: self.bounce_at(ar, s),
        }
    }
}

/// `p + v s + a s^2 / 2`.
pub open spec fn parabola<A: Arithmetic>(
    ar: &A,
    p: Scalar,
    v: Scalar,
    a: Scalar,
    s: Scalar,
) -> Scalar {
    let half = Scalar { bits: HALF_BITS };
    sum(
        ar,
        sum(ar, p, product(ar, v, s)),
        product(ar, product(ar, product(ar, half, a), s), s),
    )
}

fn parabola_at<A: Arithmetic>(ar: &A, p: Scalar, v: Scalar, a: Scalar, s: Scalar) -> (r: Scalar)
    ensures
        deterministic(ar) ==> r == parabola(ar, p, v, a, s),
{
    let half = Scalar { bits: HALF_BITS };
    ar.plus(ar.plus(p, ar.times(v, s)), ar.times(ar.times(ar.times(half, a), s), s))
}

/// The rear half mirrors the front half at the same local time: the same
/// vertical force and bounce, and pitch, pitch rate and fore-aft force negated
/// before the sign is applied.
pub proof fn rear_half_mirrors_front<A: Arithmetic>(ar: &A, cfg: BoundTrimConfig, s: Scalar)
    ensures
        ({
            let front = cfg.half_sample(ar, true, s);
            let rear = cfg.half_sample(ar, false, s);
            let h = cfg.front_half(ar, s);
            &&& rear.f_z_per_leg == front.f_z_per_leg
            &&& rear.com_z_velocity == front.com_z_velocity
            &&& front.pitch == product(ar, cfg.sign, h.theta)
            &&& rear.pitch == product(ar, cfg.sign, h.theta.neg_spec())
            &&& front.pitch_rate == product(ar, cfg.sign, h.theta_dot)
            &&& rear.pitch_rate == product(ar, cfg.sign, h.theta_dot.neg_spec())
        }),
{
}

/// In flight the stance pair carries no force, front or rear.
pub proof fn flight_is_force_free<A: Arithmetic>(ar: &A, cfg: BoundTrimConfig, s: Scalar)
    requires
        !s.lt_spec(cfg.stance_time(ar)),
    ensures
        cfg.front_half(ar, s).f_x == zero(),
        cfg.front_half(ar, s).f_z == zero(),
{
}

/// The duty of the closed form never exceeds one half, and a duty up to one
/// half is used as it is.
pub proof fn duty_is_at_most_half(cfg: BoundTrimConfig)
    ensures
        cfg.duty().le_spec(Scalar { bits: HALF_BITS }),
        cfg.duty_factor.le_spec(Scalar { bits: HALF_BITS }) ==> cfg.duty() == cfg.duty_factor,
{
}

/// The rear half is the negation of the front half at the same local time: pitch,
/// pitch rate and fore-aft force change their sign, the vertical force and the
/// bounce do not.
pub proof fn rear_half_negates_the_front<A: Arithmetic>(ar: &A, cfg: BoundTrimConfig, s: Scalar)
    requires
        mirrors(ar),
        ({
            let front = cfg.half_sample(ar, true, s);
            &&& !front.pitch.is_nan_spec()
            &&& !front.pitch_rate.is_nan_spec()
            &&& !product(ar, cfg.sign, cfg.front_half(ar, s).f_x).is_nan_spec()
            &&& !front.f_x_per_leg.is_nan_spec()
        }),
    ensures
        ({
            let front = cfg.half_sample(ar, true, s);
            cfg.half_sample(ar, false, s) == (BoundTrimSample {
                pitch: front.pitch.neg_spec(),
                pitch_rate: front.pitch_rate.neg_spec(),
                f_x_per_leg: front.f_x_per_leg.neg_spec(),
                ..front
            })
        }),
{
}

/// Half a cycle later the reference is the negated one: phases that lie as far
/// into the rear half as into the front half have opposite pitch, pitch rate and
/// fore-aft force and the same vertical force.
pub proof fn the_reference_flips_after_half_a_cycle<A: Arithmetic>(
    ar: &A,
    cfg: BoundTrimConfig,
    phase: Scalar,
    later: Scalar,
)
    requires
        mirrors(ar),
        remainder(ar, phase, one()).lt_spec(Scalar { bits: HALF_BITS }),
        !remainder(ar, later, one()).lt_spec(Scalar { bits: HALF_BITS }),
        difference(ar, remainder(ar, later, one()), Scalar { bits: HALF_BITS }) == remainder(
            ar,
            phase,
            one(),
        ),
        ({
            let s = product(ar, remainder(ar, phase, one()), cfg.cycle_period_s);
            let now = cfg.sampled(ar, phase);
            &&& !now.pitch.is_nan_spec()
            &&& !now.pitch_rate.is_nan_spec()
            &&& !product(ar, cfg.sign, cfg.front_half(ar, s).f_x).is_nan_spec()
            &&& !now.f_x_per_leg.is_nan_spec()
        }),
    ensures
        ({
            let now = cfg.sampled(ar, phase);
            cfg.sampled(ar, later) == (BoundTrimSample {
                pitch: now.pitch.neg_spec(),
                pitch_rate: now.pitch_rate.neg_spec(),
                f_x_per_leg: now.f_x_per_leg.neg_spec(),
                ..now
            })
        }),
{
    let s = product(ar, remainder(ar, phase, one()), cfg.cycle_period_s);
    rear_half_negates_the_front(ar, cfg, s);
}

/// The peak is not below the pitch at touch-down, at lift-off, and where the pitch
/// turns during the stance.
pub proof fn the_peak_covers_ends_and_turn<A: Arithmetic>(ar: &A, cfg: BoundTrimConfig, f_x: Scalar)
    requires
        !cfg.touchdown_pitch(ar, f_x).is_nan_spec(),
        !cfg.stance_pitch(ar, f_x, cfg.stance_time(ar)).is_nan_spec(),
    ensures
        ({
            let t = cfg.stance_time(ar);
            let a = cfg.pitch_acceleration(ar, f_x);
            let turn = quotient(ar, cfg.touchdown_rate(ar, f_x).neg_spec(), a);
            let peak = cfg.peak_pitch(ar, f_x);
            &&& cfg.touchdown_pitch(ar, f_x).abs_spec().le_spec(peak)
            &&& cfg.stance_pitch(ar, f_x, t).abs_spec().le_spec(peak)
            &&& !a.eq_spec_value(zero()) && zero().lt_spec(turn) && turn.lt_spec(t)
                && !cfg.stance_pitch(ar, f_x, turn).is_nan_spec() ==> cfg.stance_pitch(
                ar,
                f_x,
                turn,
            ).abs_spec().le_spec(peak)
        }),
{
}

} // verus!
