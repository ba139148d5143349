//! The pitch of the bound reference never exceeds its peak.
//!
//! The law is one of real numbers. It is stated for a reading of scalars as real
//! numbers under which the steps of the reference are exact.

use vstd::prelude::*;
use crate::arith::{product, quotient, Arithmetic};
use crate::bound_reference::BoundTrimConfig;
use crate::reals::{
    associates, commutes, distributes, distributes_left, is_reading, negates, not_negative, size,
    size_is_read, square_is_not_negative, square_of_difference, subtracts, subtracts_left, swaps,
    times, vanishes,
};
use crate::scalar::{zero, Scalar};

verus! {

/// Value at `x` of the parabola `p + v x + h x^2`.
pub open spec fn curve(p: real, v: real, h: real, x: real) -> real {
    p + times(v, x) + times(h, times(x, x))
}

/// The parabola at `x` less its start, and less its value at `t`.
proof fn rises(p: real, v: real, h: real, x: real, t: real)
    ensures
        curve(p, v, h, x) - p == times(x, v + times(h, x)),
        curve(p, v, h, x) - curve(p, v, h, t) == times(x - t, v + times(h, x + t)),
{
    distributes(x, v, times(h, x));
    commutes(x, v);
    swaps(x, h, x);
    distributes(x - t, v, times(h, x + t));
    subtracts_left(v, x, t);
    commutes(t, v);
    swaps(x - t, h, x + t);
    subtracts_left(x + t, x, t);
    distributes(x, x, t);
    distributes(t, x, t);
    commutes(x, t);
    subtracts(h, times(x, x), times(t, t));
}

/// A parabola that turns at `turn` less its value there.
proof fn rises_from_turn(p: real, v: real, h: real, turn: real, x: real)
    requires
        v == -(2real * times(h, turn)),
    ensures
        curve(p, v, h, x) - curve(p, v, h, turn) == times(h, times(x - turn, x - turn)),
{
    let k = times(h, turn);
    assert(v == -(k + k));
    negates(k + k, x);
    distributes_left(x, k, k);
    negates(k + k, turn);
    distributes_left(turn, k, k);
    associates(h, turn, x);
    associates(h, turn, turn);
    commutes(turn, x);
    square_of_difference(x, turn);
    let xx = times(x, x);
    let xt = times(x, turn);
    let tt = times(turn, turn);
    distributes(h, xx - (xt + xt), tt);
    subtracts(h, xx, xt + xt);
    distributes(h, xt, xt);
    assert(times(x - turn, x - turn) == xx - (xt + xt) + tt);
}

/// A parabola that opens upward lies on `[0, t]` below its larger end, and above its
/// smaller end or, if it turns in between, above its turning point.
proof fn upward_is_bounded(p: real, v: real, h: real, t: real, x: real, turn: real)
    requires
        0real <= h,
        0real <= x <= t,
        h != 0real ==> v == -(2real * times(h, turn)),
    ensures
        curve(p, v, h, x) <= p || curve(p, v, h, x) <= curve(p, v, h, t),
        curve(p, v, h, x) >= p || curve(p, v, h, x) >= curve(p, v, h, t) || (h != 0real && 0real
            < turn < t && curve(p, v, h, x) >= curve(p, v, h, turn)),
{
    let e = v + times(h, x);
    let d = v + times(h, x + t);
    rises(p, v, h, x, t);
    distributes(h, x, t);
    not_negative(h, t);
    negates(t - x, d);
    assert(-(t - x) == x - t);
    if e <= 0real {
        not_negative(x, -e);
        negates(x, e);
    } else {
        not_negative(x, e);
        not_negative(t - x, d);
    }
    if d <= 0real {
        not_negative(t - x, -d);
    }
    if e < 0real && d > 0real {
        if h == 0real {
            vanishes(x);
            commutes(h, x);
            vanishes(x + t);
            commutes(h, x + t);
        }
        distributes(h, turn, turn);
        assert(turn + turn == 2real * turn);
        subtracts(h, x, 2real * turn);
        subtracts(h, x + t, 2real * turn);
        if turn <= 0real {
            not_negative(h, x - 2real * turn);
        }
        if turn >= t {
            not_negative(h, 2real * turn - (x + t));
            subtracts(h, 2real * turn, x + t);
        }
        rises_from_turn(p, v, h, turn, x);
        square_is_not_negative(x - turn);
        not_negative(h, times(x - turn, x - turn));
    }
}

proof fn curve_negates(p: real, v: real, h: real, x: real)
    ensures
        curve(-p, -v, -h, x) == -curve(p, v, h, x),
{
    negates(v, x);
    negates(h, times(x, x));
}

/// A parabola is on `[0, t]` nowhere larger in size than at an end or, if it turns in
/// between, at its turning point.
proof fn curve_is_bounded(p: real, v: real, h: real, t: real, x: real, turn: real)
    requires
        0real <= x <= t,
        h != 0real ==> v == -(2real * times(h, turn)),
    ensures
        size(curve(p, v, h, x)) <= size(p) || size(curve(p, v, h, x)) <= size(curve(p, v, h, t))
            || (h != 0real && 0real < turn < t && size(curve(p, v, h, x)) <= size(
            curve(p, v, h, turn),
        )),
{
    if h >= 0real {
        upward_is_bounded(p, v, h, t, x, turn);
    } else {
        negates(h, turn);
        upward_is_bounded(-p, -v, -h, t, x, turn);
        curve_negates(p, v, h, x);
        curve_negates(p, v, h, t);
        curve_negates(p, v, h, turn);
    }
}

/// A line that starts at `p`, minus half of `k w`, with slope `k` stays on `[0, w]`
/// within the size of its start.
proof fn line_is_bounded(k: real, w: real, u: real, p: real)
    requires
        0real <= u <= w,
        2real * p == -times(k, w),
    ensures
        size(p + times(k, u)) <= size(p),
{
    subtracts(k, w, u);
    if k >= 0real {
        not_negative(k, u);
        not_negative(k, w);
        not_negative(k, w - u);
    } else {
        not_negative(-k, u);
        not_negative(-k, w);
        not_negative(-k, w - u);
        negates(k, u);
        negates(k, w);
        negates(k, w - u);
    }
}

impl BoundTrimConfig {
    /// The pitch curve of the stance is evaluated exactly at time `x` under the
    /// reading `val`, and gives a number.
    pub open spec fn curve_is_exact<A: Arithmetic>(
        self,
        ar: &A,
        val: spec_fn(Scalar) -> real,
        f_x: Scalar,
        x: Scalar,
    ) -> bool {
        &&& !x.is_nan_spec()
        &&& !self.stance_pitch(ar, f_x, x).is_nan_spec()
        &&& val(self.stance_pitch(ar, f_x, x)) == curve(
            val(self.touchdown_pitch(ar, f_x)),
            val(self.touchdown_rate(ar, f_x)),
            val(self.pitch_acceleration(ar, f_x)) / 2real,
            val(x),
        )
    }

    /// The steps that give the pitch at local time `s`, and its peak, are exact under
    /// the reading `val`: the touch-down values, the turning time, the curve where it
    /// is needed, the flight and the sign.
    pub open spec fn pitch_is_exact<A: Arithmetic>(
        self,
        ar: &A,
        val: spec_fn(Scalar) -> real,
        s: Scalar,
    ) -> bool {
        let f_x = self.used_force(ar);
        let a = self.pitch_acceleration(ar, f_x);
        let t = self.stance_time(ar);
        let pitch = self.touchdown_pitch(ar, f_x);
        let rate = self.touchdown_rate(ar, f_x);
        let turn = quotient(ar, rate.neg_spec(), a);
        let theta = self.front_half(ar, s).theta;
        let lift = times(val(a) / 2real, val(t));
        &&& !a.is_nan_spec()
        &&& !pitch.is_nan_spec()
        &&& val(rate) == -lift
        &&& 2real * val(pitch) == -times(lift, val(self.flight_time(ar)))
        &&& self.curve_is_exact(ar, val, f_x, t)
        &&& !a.eq_spec_value(zero()) ==> 2real * times(val(a) / 2real, val(turn)) == -val(rate)
            && self.curve_is_exact(ar, val, f_x, turn)
        &&& s.lt_spec(t) ==> self.curve_is_exact(ar, val, f_x, s)
        &&& !s.lt_spec(t) ==> val(theta) == val(self.stance_pitch(ar, f_x, t)) + times(
            lift,
            val(s) - val(t),
        )
        &&& size(val(product(ar, self.sign, theta))) == size(val(theta))
        &&& size(val(product(ar, self.sign, theta.neg_spec()))) == size(val(theta))
    }
}

/// The pitch of the reference never exceeds the peak, in stance and in flight, on
/// either half of the cycle.
pub proof fn pitch_stays_below_the_peak<A: Arithmetic>(
    ar: &A,
    val: spec_fn(Scalar) -> real,
    cfg: BoundTrimConfig,
    front: bool,
    s: Scalar,
)
    requires
        is_reading(val),
        cfg.pitch_is_exact(ar, val, s),
        !s.is_nan_spec(),
        0real <= val(s) <= val(cfg.stance_time(ar)) + val(cfg.flight_time(ar)),
        0real <= val(cfg.stance_time(ar)),
    ensures
        size(val(cfg.half_sample(ar, front, s).pitch)) <= val(
            cfg.peak_pitch(ar, cfg.used_force(ar)),
        ),
{
    let f_x = cfg.used_force(ar);
    let a = cfg.pitch_acceleration(ar, f_x);
    let t = cfg.stance_time(ar);
    let pitch = cfg.touchdown_pitch(ar, f_x);
    let rate = cfg.touchdown_rate(ar, f_x);
    let turn = quotient(ar, rate.neg_spec(), a);
    let theta = cfg.front_half(ar, s).theta;
    let end = cfg.stance_pitch(ar, f_x, t);
    let top = cfg.stance_pitch(ar, f_x, turn);
    let peak = cfg.peak_pitch(ar, f_x);
    let h = val(a) / 2real;
    let lift = times(h, val(t));
    size_is_read(val, pitch);
    size_is_read(val, end);
    let ends = pitch.abs_spec().max_spec(end.abs_spec());
    assert(!ends.is_nan_spec());
    assert(pitch.abs_spec().lt_spec(end.abs_spec()) <==> val(pitch.abs_spec()) < val(
        end.abs_spec(),
    ));
    assert(val(ends) >= size(val(pitch)) && val(ends) >= size(val(end)));
    assert(a.lt_spec(zero()) <==> val(a) < val(zero()));
    assert(zero().lt_spec(a) <==> val(zero()) < val(a));
    assert(a.eq_spec_value(zero()) <==> val(a) == 0real);
    let turns = !a.eq_spec_value(zero()) && zero().lt_spec(turn) && turn.lt_spec(t);
    if turns {
        size_is_read(val, top);
        assert(ends.lt_spec(top.abs_spec()) <==> val(ends) < val(top.abs_spec()));
        assert(val(peak) >= size(val(top)) && val(peak) >= val(ends));
    }
    assert(val(peak) >= val(ends));
    if s.lt_spec(t) {
        assert(val(s) < val(t));
        curve_is_bounded(val(pitch), val(rate), h, val(t), val(s), val(turn));
        if h != 0real && 0real < val(turn) < val(t) {
            assert(zero().lt_spec(turn) <==> val(zero()) < val(turn));
            assert(turn.lt_spec(t) <==> val(turn) < val(t));
            assert(turns);
        }
    } else {
        assert(val(s) >= val(t));
        rises(val(pitch), val(rate), h, val(t), val(t));
        assert(val(rate) + lift == 0real);
        vanishes(val(t));
        assert(val(end) == val(pitch));
        line_is_bounded(lift, val(cfg.flight_time(ar)), val(s) - val(t), val(pitch));
    }
    assert(size(val(theta)) <= val(peak));
}

} // verus!
