//! Offline check of a policy: latency of its inference, and the response to
//! plausible random observations.

use vstd::prelude::*;
use crate::arith::{
    counted, deterministic, difference, product, quotient, root, sum, Arithmetic,
};
use crate::policy::{CMD_VX_RANGE_BITS, CMD_VY_RANGE_BITS, CMD_WZ_RANGE_BITS};
use crate::policy_log::{
    limit_count, next_seed, next_seed_spec, percentile_index, size_max, uses_half_slot, ProbeStats,
};
use crate::scalar::{one, zero, Scalar};
use crate::single::{narrowed, single_deterministic, Single, SingleArithmetic};

verus! {

/// Seed of the first draw.
pub const FIRST_SEED: u64 = 0x9e37_79b9_7f4a_7c15;

/// Number of probes.
pub const PROBES: usize = 100;

/// Bits of two to the 32nd.
pub const TWO_32_BITS: u64 = 0x41F0_0000_0000_0000;

/// Bits of two to the 52nd.
pub const TWO_52_BITS: u64 = 0x4330_0000_0000_0000;

/// Bits of 2, the largest angular rate of a probe (rad/s).
pub const PROBE_RATE_BITS: u64 = 0x4000_0000_0000_0000;

/// Bits of 0.5, the largest joint offset of a probe (rad).
pub const PROBE_OFFSET_BITS: u64 = 0x3FE0_0000_0000_0000;

/// Bits of 3, the largest joint velocity of a probe (rad/s).
pub const PROBE_JOINT_RATE_BITS: u64 = 0x4008_0000_0000_0000;

/// Bits of 1e-9, the least length a direction is divided by.
pub const LEAST_LENGTH_BITS: u64 = 0x3E11_2E0B_E826_D695;

/// Bits of 6, the size above which actions are suspicious.
pub const WILD_ACTION_BITS: u64 = 0x4018_0000_0000_0000;

/// The seed after `n` draws.
pub open spec fn seed_after(seed: u64, n: int) -> u64
    decreases n,
{
    if n <= 0 {
        seed
    } else {
        next_seed_spec(seed_after(seed, n - 1))
    }
}

/// A seed as a number in [-1, 1): its upper 53 bits over two to the 52nd, less
/// one.
pub open spec fn uniform<A: Arithmetic>(ar: &A, seed: u64) -> Scalar {
    let high = counted(ar, (seed >> 43u64) as usize);
    let low = counted(ar, ((seed >> 11u64) & 0xffff_ffffu64) as usize);
    difference(
        ar,
        quotient(
            ar,
            sum(ar, product(ar, high, Scalar { bits: TWO_32_BITS }), low),
            Scalar { bits: TWO_52_BITS },
        ),
        one(),
    )
}

/// Draw `i` of a probe that starts from `seed`.
pub open spec fn draw<A: Arithmetic>(ar: &A, seed: u64, i: int) -> Scalar {
    uniform(ar, seed_after(seed, i + 1))
}

/// Length of the gravity direction drawn for a probe.
pub open spec fn gravity_length<A: Arithmetic>(ar: &A, x: Scalar, y: Scalar, z: Scalar) -> Scalar {
    root(
        ar,
        sum(ar, sum(ar, product(ar, x, x), product(ar, y, y)), product(ar, z, z)),
    ).max_spec(Scalar { bits: LEAST_LENGTH_BITS })
}

/// Largest size of entry `i` of a probe.
pub open spec fn probe_scale(i: int) -> Scalar {
    Scalar {
        bits: if i < 3 {
            PROBE_RATE_BITS
        } else if i == 6 {
            CMD_VX_RANGE_BITS.1
        } else if i == 7 {
            CMD_VY_RANGE_BITS.1
        } else if i == 8 {
            CMD_WZ_RANGE_BITS.1
        } else if i < 21 {
            PROBE_OFFSET_BITS
        } else {
            PROBE_JOINT_RATE_BITS
        },
    }
}

/// Entry `i` of the observation of a probe: a draw up to its scale; a unit
/// direction biased downward for gravity; the draw itself for the previous
/// action.
pub open spec fn probe_entry<A: Arithmetic>(ar: &A, seed: u64, i: int) -> Scalar {
    if 3 <= i < 6 {
        let x = draw(ar, seed, 3);
        let y = draw(ar, seed, 4);
        let z = difference(ar, draw(ar, seed, 5), one());
        quotient(
            ar,
            if i == 3 { x } else if i == 4 { y } else { z },
            gravity_length(ar, x, y, z),
        )
    } else if i < 33 {
        product(ar, draw(ar, seed, i), probe_scale(i))
    } else {
        draw(ar, seed, i)
    }
}

/// `obs` is the observation of the probe that starts from `seed`.
pub open spec fn is_probe<A: Arithmetic, B: SingleArithmetic>(
    ar: &A,
    sa: &B,
    seed: u64,
    obs: Seq<Single>,
) -> bool {
    &&& obs.len() == 45
    &&& deterministic(ar) && single_deterministic(sa) ==> forall|i: int|
        0 <= i < 45 ==> #[trigger] obs[i] == narrowed(sa, probe_entry(ar, seed, i))
}

fn uniform_of<A: Arithmetic>(ar: &A, seed: u64) -> (r: Scalar)
    ensures
        deterministic(ar) ==> r == uniform(ar, seed),
{
    let high = ar.from_count((seed >> 43u64) as usize);
    let low = ar.from_count(((seed >> 11u64) & 0xffff_ffffu64) as usize);
    let whole = ar.plus(ar.times(high, Scalar { bits: TWO_32_BITS }), low);
    ar.minus(ar.over(whole, Scalar { bits: TWO_52_BITS }), one())
}

fn probe_scale_of(i: usize) -> (r: Scalar)
    ensures
        r == probe_scale(i as int),
{
    let bits: u64 = if i < 3 {
        PROBE_RATE_BITS
    } else if i == 6 {
        CMD_VX_RANGE_BITS.1
    } else if i == 7 {
        CMD_VY_RANGE_BITS.1
    } else if i == 8 {
        CMD_WZ_RANGE_BITS.1
    } else if i < 21 {
        PROBE_OFFSET_BITS
    } else {
        PROBE_JOINT_RATE_BITS
    };
    Scalar { bits }
}

fn draws_of<A: Arithmetic>(ar: &A, seed: u64) -> (r: (Vec<Scalar>, u64))
    ensures
        r.0@.len() == 45,
        r.1 == seed_after(seed, 45),
        deterministic(ar) ==> forall|i: int|
            0 <= i < 45 ==> #[trigger] r.0@[i] == draw(ar, seed, i),
{
    let mut drawn: Vec<Scalar> = Vec::new();
    let mut at: u64 = seed;
    let mut i: usize = 0;
    while i < 45
        invariant
            i <= 45,
            drawn@.len() == i,
            at == seed_after(seed, i as int),
            deterministic(ar) ==> forall|k: int|
                0 <= k < i ==> #[trigger] drawn@[k] == draw(ar, seed, k),
        decreases 45 - i,
    {
        at = next_seed(at);
        drawn.push(uniform_of(ar, at));
        i += 1;
    }
    (drawn, at)
}

/// A plausible random observation, and the seed after it.
pub fn probe_observation<A: Arithmetic, B: SingleArithmetic>(ar: &A, sa: &B, seed: u64) -> (r: (
    Vec<Single>,
    u64,
))
    ensures
        is_probe(ar, sa, seed, r.0@),
        r.1 == seed_after(seed, 45),
{
    let drawn = draws_of(ar, seed);
    let d = drawn.0;
    let x = d[3];
    let y = d[4];
    let z = ar.minus(d[5], one());
    let square = ar.plus(ar.plus(ar.times(x, x), ar.times(y, y)), ar.times(z, z));
    let length = ar.sqrt(square).max(Scalar { bits: LEAST_LENGTH_BITS });
    let mut obs: Vec<Single> = Vec::new();
    let mut i: usize = 0;
    while i < 45
        invariant
            i <= 45,
            obs@.len() == i,
            d@.len() == 45,
            deterministic(ar) ==> forall|k: int|
                0 <= k < 45 ==> #[trigger] d@[k] == draw(ar, seed, k),
            deterministic(ar) ==> x == draw(ar, seed, 3) && y == draw(ar, seed, 4) && z
                == difference(ar, draw(ar, seed, 5), one()),
            deterministic(ar) ==> length == gravity_length(ar, x, y, z),
            deterministic(ar) && single_deterministic(sa) ==> forall|k: int|
                0 <= k < i ==> #[trigger] obs@[k] == narrowed(sa, probe_entry(ar, seed, k)),
        decreases 45 - i,
    {
        let entry = if i == 3 {
            ar.over(x, length)
        } else if i == 4 {
            ar.over(y, length)
        } else if i == 5 {
            ar.over(z, length)
        } else if i < 33 {
            ar.times(d[i], probe_scale_of(i))
        } else {
            d[i]
        };
        assert(deterministic(ar) ==> entry == probe_entry(ar, seed, i as int));
        obs.push(sa.narrow(entry));
        i += 1;
    }
    (obs, drawn.1)
}

/// A loaded policy.
pub trait PolicyModel {
    /// One inference: an action for an observation, or what went wrong.
    fn infer(&self, obs: &Vec<Single>) -> Result<[Scalar; 12], String>;
}

/// Why a probe failed.
#[derive(Debug)]
pub enum ProbeError {
    /// The policy gave no action.
    Inference(String),
    /// Part of an action is infinite or NaN.
    NonFinite {
        /// Place of the first such part.
        index: usize,
    },
}

/// Largest size of any part of the actions.
pub open spec fn overall_max(actions: Seq<[Scalar; 12]>) -> Scalar
    decreases actions.len(),
{
    if actions.len() == 0 {
        zero()
    } else {
        size_max(overall_max(actions.drop_last()), actions.last()@, 12)
    }
}

/// Number of joint targets beyond their limits over the actions.
pub open spec fn overall_count<A: Arithmetic>(ar: &A, actions: Seq<[Scalar; 12]>) -> int
    decreases actions.len(),
{
    if actions.len() == 0 {
        0
    } else {
        overall_count(ar, actions.drop_last()) + limit_count(ar, actions.last()@, 12)
    }
}

/// No part of an action is infinite or NaN.
pub open spec fn is_bounded(action: [Scalar; 12]) -> bool {
    forall|k: int| 0 <= k < 12 ==> (#[trigger] action@[k]).is_finite_spec()
}

/// The policy gave `actions`, all bounded, for the observations of the first
/// probes.
pub open spec fn responds<A: Arithmetic, B: SingleArithmetic, P: PolicyModel>(
    ar: &A,
    sa: &B,
    policy: &P,
    obs: Seq<Vec<Single>>,
    actions: Seq<[Scalar; 12]>,
) -> bool {
    &&& obs.len() == actions.len()
    &&& forall|k: int|
        0 <= k < actions.len() ==> {
            &&& #[trigger] is_probe(ar, sa, seed_after(FIRST_SEED, 45 * k), obs[k]@)
            &&& call_ensures(P::infer, (policy, &obs[k]), Ok(actions[k]))
            &&& is_bounded(actions[k])
        }
}

/// The outcome of probing: statistics over all probes, or the first failure.
pub open spec fn is_probed<A: Arithmetic, B: SingleArithmetic, P: PolicyModel>(
    ar: &A,
    sa: &B,
    policy: &P,
    r: Result<ProbeStats, ProbeError>,
) -> bool {
    exists|obs: Seq<Vec<Single>>, actions: Seq<[Scalar; 12]>|
        {
            &&& #[trigger] responds(ar, sa, policy, obs, actions)
            &&& match r {
                Ok(stats) => {
                    &&& actions.len() == PROBES
                    &&& stats.abs_max == overall_max(actions)
                    &&& deterministic(ar) ==> stats.clamped == overall_count(ar, actions)
                },
                Err(e) => {
                    &&& actions.len() < PROBES
                    &&& exists|next: Vec<Single>|
                        {
                            &&& #[trigger] is_probe(
                                ar,
                                sa,
                                seed_after(FIRST_SEED, 45 * actions.len() as int),
                                next@,
                            )
                            &&& match e {
                                ProbeError::Inference(message) => call_ensures(
                                    P::infer,
                                    (policy, &next),
                                    Err(message),
                                ),
                                ProbeError::NonFinite { index } => exists|action: [Scalar; 12]|
                                    {
                                        &&& #[trigger] call_ensures(
                                            P::infer,
                                            (policy, &next),
                                            Ok(action),
                                        )
                                        &&& index < 12
                                        &&& !action@[index as int].is_finite_spec()
                                        &&& forall|k: int|
                                            0 <= k < index ==> (
                                            #[trigger] action@[k]).is_finite_spec()
                                    },
                            }
                        }
                },
            }
        }
}

/// Draws can be made in two goes.
pub proof fn seeds_add_up(seed: u64, m: int, n: int)
    requires
        0 <= m,
        0 <= n,
    ensures
        seed_after(seed_after(seed, m), n) == seed_after(seed, m + n),
    decreases n,
{
    if n > 0 {
        seeds_add_up(seed, m, n - 1);
    }
}

/// Runs the policy on plausible random observations.
pub fn probe<A: Arithmetic, B: SingleArithmetic, P: PolicyModel>(ar: &A, sa: &B, policy: &P) -> (r:
    Result<ProbeStats, ProbeError>)
    ensures
        is_probed(ar, sa, policy, r),
{
    let mut stats = ProbeStats::new();
    let mut seed: u64 = FIRST_SEED;
    let ghost mut seen = Seq::<Vec<Single>>::empty();
    let ghost mut actions = Seq::<[Scalar; 12]>::empty();
    let mut k: usize = 0;
    while k < PROBES
        invariant
            k <= PROBES,
            actions.len() == k,
            responds(ar, sa, policy, seen, actions),
            seed == seed_after(FIRST_SEED, 45 * k),
            stats.abs_max == overall_max(actions),
            stats.clamped <= 12 * k,
            deterministic(ar) ==> stats.clamped == overall_count(ar, actions),
        decreases PROBES - k,
    {
        let drawn = probe_observation(ar, sa, seed);
        let obs = drawn.0;
        proof {
            seeds_add_up(FIRST_SEED, 45 * k, 45);
        }
        seed = drawn.1;
        match policy.infer(&obs) {
            Err(message) => {
                let r = Err(ProbeError::Inference(message));
                assert(is_probe(ar, sa, seed_after(FIRST_SEED, 45 * actions.len() as int), obs@));
                assert(is_probed(ar, sa, policy, r));
                return r;
            },
            Ok(action) => {
                match stats.note(ar, &action) {
                    Err(index) => {
                        let r = Err(ProbeError::NonFinite { index });
                        assert(is_probe(ar, sa, seed_after(FIRST_SEED, 45 * actions.len() as int), obs@));
                        assert(call_ensures(P::infer, (policy, &obs), Ok(action)));
                        assert(is_probed(ar, sa, policy, r));
                        return r;
                    },
                    Ok(_) => {
                        proof {
                            let before = actions;
                            actions = actions.push(action);
                            seen = seen.push(obs);
                            assert(actions.drop_last() =~= before);
                            assert forall|i: int| 0 <= i < actions.len() implies {
                                &&& #[trigger] is_probe(
                                    ar,
                                    sa,
                                    seed_after(FIRST_SEED, 45 * i),
                                    seen[i]@,
                                )
                                &&& call_ensures(P::infer, (policy, &seen[i]), Ok(actions[i]))
                                &&& is_bounded(actions[i])
                            } by {
                                if i < before.len() {
                                    assert(seen[i] == seen.drop_last()[i]);
                                    assert(actions[i] == before[i]);
                                }
                            }
                        }
                    },
                }
            },
        }
        k += 1;
    }
    Ok(stats)
}

/// Whether the actions of the probes are suspiciously large.
pub fn is_wild(stats: &ProbeStats) -> (r: bool)
    ensures
        r == (Scalar { bits: WILD_ACTION_BITS }).lt_spec(stats.abs_max),
{
    (Scalar { bits: WILD_ACTION_BITS }).lt(stats.abs_max)
}

/// Inference times in order.
#[derive(Debug)]
pub struct Latency {
    /// Sum of the times (us).
    pub total: u128,
    /// The time that 99 in a hundred do not exceed (us).
    pub p99: u64,
    /// The longest time (us).
    pub max: u64,
    /// Whether the 99th percentile uses more than half a slot.
    pub tight: bool,
}

/// Sum of the first `n` times.
pub open spec fn total_of(v: Seq<u64>, n: int) -> int
    decreases n,
{
    if n <= 0 {
        0
    } else {
        total_of(v, n - 1) + v[n - 1]
    }
}

/// Every time is at least the ones before it.
pub open spec fn is_sorted(v: Seq<u64>) -> bool {
    forall|i: int, j: int| 0 <= i <= j < v.len() ==> v[i] <= v[j]
}

fn place(v: &mut Vec<u64>, x: u64)
    requires
        is_sorted(old(v)@),
        old(v)@.len() < usize::MAX,
    ensures
        is_sorted(final(v)@),
        final(v)@.len() == old(v)@.len() + 1,
        final(v)@.to_multiset() == old(v)@.to_multiset().insert(x),
{
    let mut i: usize = v.len();
    while i > 0 && v[i - 1] > x
        invariant
            i <= v@.len(),
            v@ == old(v)@,
            is_sorted(v@),
            forall|k: int| i <= k < v@.len() ==> v@[k] > x,
        decreases i,
    {
        i -= 1;
    }
    v.insert(i, x);
    proof {
        broadcast use vstd::seq_lib::group_to_multiset_ensures;

    }
}

/// Sorts the times of repeated inferences and summarises them against the slot
/// that an inference has.
pub fn summarise_latency(times: &Vec<u64>, budget_us: u64) -> (r: Latency)
    requires
        2 <= times@.len(),
    ensures
        r.total == total_of(times@, times@.len() as int),
        r.tight == (r.p99 > budget_us / 2),
        exists|sorted: Seq<u64>|
            {
                &&& #[trigger] is_sorted(sorted)
                &&& sorted.to_multiset() == times@.to_multiset()
                &&& sorted.len() == times@.len()
                &&& r.p99 == sorted[times@.len() * 99 / 100 - 1]
                &&& r.max == sorted.last()
            },
{
    let mut sorted: Vec<u64> = Vec::new();
    let mut total: u128 = 0;
    let mut i: usize = 0;
    proof {
        broadcast use vstd::seq_lib::group_to_multiset_ensures;

        assert(times@.take(0) =~= Seq::<u64>::empty());
        assert(sorted@.to_multiset() =~= times@.take(0).to_multiset());
    }
    while i < times.len()
        invariant
            i <= times@.len(),
            sorted@.len() == i,
            is_sorted(sorted@),
            sorted@.to_multiset() == times@.take(i as int).to_multiset(),
            total == total_of(times@, i as int),
            total <= i * 0xffff_ffff_ffff_ffff,
        decreases times@.len() - i,
    {
        total = total + times[i] as u128;
        place(&mut sorted, times[i]);
        proof {
            broadcast use vstd::seq_lib::group_to_multiset_ensures;

            assert(times@.take(i + 1) =~= times@.take(i as int).push(times@[i as int]));
        }
        i += 1;
    }
    assert(times@.take(i as int) =~= times@);
    let p99: u64 = sorted[percentile_index(times.len())];
    let max: u64 = sorted[times.len() - 1];
    assert(sorted@.last() == max);
    Latency { total, p99, max, tight: uses_half_slot(p99 as u128, budget_us as u128) }
}

} // verus!
