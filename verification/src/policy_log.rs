//! Log lines of a policy run, and the decisions of its offline check.

use vstd::prelude::*;
use vstd::string::StringExecFns;
use crate::arith::{deterministic, Arithmetic};
use crate::policy::{
    joint_orders_are_inverse, lower_limit, offset_target, upper_limit, ACTION_SCALE_BITS,
    DEFAULT_ISAAC_BITS, ISAAC_TO_GO2, JOINT_LIMITS_BITS,
};
use crate::scalar::{zero, Scalar};
use crate::text::join;

verus! {

/// Strings one after the other with a separator between them.
pub open spec fn joined(parts: Seq<Seq<char>>, sep: Seq<char>) -> Seq<char>
    decreases parts.len(),
{
    if parts.len() == 0 {
        seq![]
    } else if parts.len() == 1 {
        parts[0]
    } else {
        joined(parts.drop_last(), sep) + sep + parts.last()
    }
}

/// The texts of strings.
pub open spec fn texts(v: Seq<String>) -> Seq<Seq<char>> {
    v.map_values(|s: String| s@)
}

/// Joins strings with a separator.
pub fn join_with(parts: &Vec<String>, sep: &str) -> (r: String)
    ensures
        r@ == joined(texts(parts@), sep@),
{
    if parts.len() == 0 {
        let r = String::new();
        assert(r@ =~= joined(texts(parts@), sep@));
        return r;
    }
    let mut r = parts[0].clone();
    let mut i: usize = 1;
    assert(texts(parts@).subrange(0, 1).len() == 1);
    while i < parts.len()
        invariant
            1 <= i <= parts@.len(),
            r@ == joined(texts(parts@).subrange(0, i as int), sep@),
        decreases parts@.len() - i,
    {
        let ghost before = texts(parts@).subrange(0, i as int);
        let ghost after = texts(parts@).subrange(0, i + 1);
        assert(after.drop_last() =~= before);
        r = r.concat(sep).concat(parts[i].as_str());
        i += 1;
    }
    assert(texts(parts@).subrange(0, i as int) =~= texts(parts@));
    r
}

/// The decimal text of a joint index.
pub open spec fn index_text(i: int) -> &'static str {
    if i == 0 {
        "0"
    } else if i == 1 {
        "1"
    } else if i == 2 {
        "2"
    } else if i == 3 {
        "3"
    } else if i == 4 {
        "4"
    } else if i == 5 {
        "5"
    } else if i == 6 {
        "6"
    } else if i == 7 {
        "7"
    } else if i == 8 {
        "8"
    } else if i == 9 {
        "9"
    } else if i == 10 {
        "10"
    } else {
        "11"
    }
}

fn text_of_index(i: usize) -> (r: &'static str)
    ensures
        r == index_text(i as int),
{
    if i == 0 {
        "0"
    } else if i == 1 {
        "1"
    } else if i == 2 {
        "2"
    } else if i == 3 {
        "3"
    } else if i == 4 {
        "4"
    } else if i == 5 {
        "5"
    } else if i == 6 {
        "6"
    } else if i == 7 {
        "7"
    } else if i == 8 {
        "8"
    } else if i == 9 {
        "9"
    } else if i == 10 {
        "10"
    } else {
        "11"
    }
}

/// Names of the columns before the joints.
pub open spec fn lead_columns() -> Seq<Seq<char>> {
    seq![
        "t_s"@, "mode"@, "infer_us"@, "ang_vel_x"@, "ang_vel_y"@, "ang_vel_z"@, "grav_x"@,
        "grav_y"@, "grav_z"@, "cmd_vx"@, "cmd_vy"@, "cmd_wz"@,
    ]
}

/// Names of the columns of one quantity, one per joint.
pub open spec fn joint_columns(name: &str) -> Seq<Seq<char>> {
    Seq::new(12, |i: int| name@ + "_"@ + index_text(i)@)
}

/// Names of all columns.
pub open spec fn header_columns() -> Seq<Seq<char>> {
    lead_columns() + joint_columns("jp_isaac") + joint_columns("jv_isaac") + joint_columns(
        "prev_act",
    ) + joint_columns("act") + joint_columns("qdes_go2") + seq!["anomalies"@]
}

fn push_joint_columns(cols: &mut Vec<String>, name: &str)
    ensures
        texts(final(cols)@) == texts(old(cols)@) + joint_columns(name),
{
    let ghost before = texts(cols@);
    let mut i: usize = 0;
    assert(texts(cols@) =~= before + joint_columns(name).subrange(0, 0));
    while i < 12
        invariant
            i <= 12,
            texts(cols@) == before + joint_columns(name).subrange(0, i as int),
        decreases 12 - i,
    {
        let ghost held = cols@;
        cols.push(join(name, "_", text_of_index(i)));
        assert(texts(cols@) =~= texts(held).push(name@ + "_"@ + index_text(i as int)@));
        assert(texts(cols@) =~= before + joint_columns(name).subrange(0, i + 1));
        i += 1;
    }
    assert(joint_columns(name).subrange(0, 12) =~= joint_columns(name));
}

/// The header line: time, mode, inference time, the observation, the action and
/// the joint targets, and the anomalies.
pub fn csv_header() -> (r: String)
    ensures
        r@ == joined(header_columns(), ","@),
{
    let mut cols: Vec<String> = Vec::new();
    cols.push("t_s".to_owned());
    cols.push("mode".to_owned());
    cols.push("infer_us".to_owned());
    cols.push("ang_vel_x".to_owned());
    cols.push("ang_vel_y".to_owned());
    cols.push("ang_vel_z".to_owned());
    cols.push("grav_x".to_owned());
    cols.push("grav_y".to_owned());
    cols.push("grav_z".to_owned());
    cols.push("cmd_vx".to_owned());
    cols.push("cmd_vy".to_owned());
    cols.push("cmd_wz".to_owned());
    assert(texts(cols@) =~= lead_columns());
    push_joint_columns(&mut cols, "jp_isaac");
    push_joint_columns(&mut cols, "jv_isaac");
    push_joint_columns(&mut cols, "prev_act");
    push_joint_columns(&mut cols, "act");
    push_joint_columns(&mut cols, "qdes_go2");
    let ghost held = cols@;
    cols.push("anomalies".to_owned());
    assert(texts(cols@) =~= texts(held) + seq!["anomalies"@]);
    join_with(&cols, ",")
}

/// The columns of a row.
pub open spec fn row_columns(
    t_s: Seq<char>,
    mode: Seq<char>,
    infer_us: Seq<char>,
    obs: Seq<Seq<char>>,
    action: Seq<Seq<char>>,
    q_des_go2: Seq<Seq<char>>,
    anomalies: Seq<Seq<char>>,
) -> Seq<Seq<char>> {
    seq![t_s, mode, infer_us] + obs + action + q_des_go2 + seq![joined(anomalies, "|"@)]
}

fn push_all(cols: &mut Vec<String>, more: &Vec<String>)
    ensures
        texts(final(cols)@) == texts(old(cols)@) + texts(more@),
{
    let ghost before = texts(cols@);
    let mut i: usize = 0;
    assert(texts(cols@) =~= before + texts(more@).subrange(0, 0));
    while i < more.len()
        invariant
            i <= more@.len(),
            texts(cols@) == before + texts(more@).subrange(0, i as int),
        decreases more@.len() - i,
    {
        let ghost held = cols@;
        cols.push(more[i].clone());
        assert(texts(cols@) =~= texts(held).push(more@[i as int]@));
        assert(texts(cols@) =~= before + texts(more@).subrange(0, i + 1));
        i += 1;
    }
    assert(texts(more@).subrange(0, i as int) =~= texts(more@));
}

/// One line of the log, from numbers that have been written out already.
pub fn csv_row(
    t_s: &str,
    mode: &str,
    infer_us: &str,
    obs: &Vec<String>,
    action: &Vec<String>,
    q_des_go2: &Vec<String>,
    anomalies: &Vec<String>,
) -> (r: String)
    ensures
        r@ == joined(
            row_columns(
                t_s@,
                mode@,
                infer_us@,
                texts(obs@),
                texts(action@),
                texts(q_des_go2@),
                texts(anomalies@),
            ),
            ","@,
        ),
{
    let mut cols: Vec<String> = Vec::new();
    cols.push(t_s.to_owned());
    cols.push(mode.to_owned());
    cols.push(infer_us.to_owned());
    assert(texts(cols@) =~= seq![t_s@, mode@, infer_us@]);
    push_all(&mut cols, obs);
    push_all(&mut cols, action);
    push_all(&mut cols, q_des_go2);
    let ghost held = cols@;
    cols.push(join_with(anomalies, "|"));
    assert(texts(cols@) =~= texts(held) + seq![joined(texts(anomalies@), "|"@)]);
    join_with(&cols, ",")
}

/// A row with a full observation, action and joint targets has as many columns
/// as the header.
pub proof fn rows_match_the_header(
    t_s: Seq<char>,
    mode: Seq<char>,
    infer_us: Seq<char>,
    obs: Seq<Seq<char>>,
    action: Seq<Seq<char>>,
    q_des_go2: Seq<Seq<char>>,
    anomalies: Seq<Seq<char>>,
)
    requires
        obs.len() == 45,
        action.len() == 12,
        q_des_go2.len() == 12,
    ensures
        row_columns(t_s, mode, infer_us, obs, action, q_des_go2, anomalies).len()
            == header_columns().len(),
        header_columns().len() == 73,
{
}

/// The next state of the generator of probe observations.
pub open spec fn next_seed_spec(seed: u64) -> u64 {
    let a = seed ^ (seed << 13u64);
    let b = a ^ (a >> 7u64);
    b ^ (b << 17u64)
}

/// The next state of the generator of probe observations.
pub fn next_seed(seed: u64) -> (r: u64)
    ensures
        r == next_seed_spec(seed),
{
    let a: u64 = seed ^ (seed << 13u64);
    let b: u64 = a ^ (a >> 7u64);
    b ^ (b << 17u64)
}

/// Place of the 99th percentile in a sorted list.
pub fn percentile_index(n: usize) -> (r: usize)
    requires
        2 <= n,
    ensures
        r == n * 99 / 100 - 1,
        r < n,
{
    let place: u128 = n as u128 * 99 / 100 - 1;
    place as usize
}

/// Whether the 99th percentile of the inference time uses more than half a slot.
pub fn uses_half_slot(p99_us: u128, budget_us: u128) -> (r: bool)
    ensures
        r == (p99_us > budget_us / 2),
{
    p99_us > budget_us / 2
}

/// What the probe has seen of the actions.
#[derive(Clone, Copy, Debug, PartialEq, Eq, Structural)]
pub struct ProbeStats {
    /// Largest size of an action.
    pub abs_max: Scalar,
    /// Number of joint targets beyond their limits.
    pub clamped: usize,
}

/// An action would be clamped.
pub open spec fn hits_limit<A: Arithmetic>(ar: &A, i: int, a: Scalar) -> bool {
    let g = ISAAC_TO_GO2@[i] as int;
    offset_target(ar, i, a).lt_spec(lower_limit(g)) || upper_limit(g).lt_spec(
        offset_target(ar, i, a),
    )
}

/// Largest size among `start` and the first `n` actions.
pub open spec fn size_max(start: Scalar, action: Seq<Scalar>, n: int) -> Scalar
    decreases n,
{
    if n <= 0 {
        start
    } else {
        size_max(start, action, n - 1).max_spec(action[n - 1].abs_spec())
    }
}

/// Number of the first `n` actions that would be clamped.
pub open spec fn limit_count<A: Arithmetic>(ar: &A, action: Seq<Scalar>, n: int) -> int
    decreases n,
{
    if n <= 0 {
        0
    } else {
        limit_count(ar, action, n - 1) + if hits_limit(ar, n - 1, action[n - 1]) {
            1int
        } else {
            0
        }
    }
}

impl ProbeStats {
    /// Nothing seen.
    pub fn new() -> (r: ProbeStats)
        ensures
            r == (ProbeStats { abs_max: zero(), clamped: 0 }),
    {
        ProbeStats { abs_max: zero(), clamped: 0 }
    }

    /// Takes in an action. Gives the place of the first part that is infinite or
    /// NaN, if there is one.
    pub fn note<A: Arithmetic>(&mut self, ar: &A, action: &[Scalar; 12]) -> (r: Result<(), usize>)
        requires
            old(self).clamped <= usize::MAX - 12,
        ensures
            match r {
                Ok(_) => {
                    &&& forall|k: int| 0 <= k < 12 ==> (#[trigger] action@[k]).is_finite_spec()
                    &&& final(self).abs_max == size_max(old(self).abs_max, action@, 12)
                    &&& old(self).clamped <= final(self).clamped <= old(self).clamped + 12
                    &&& deterministic(ar) ==> final(self).clamped == old(self).clamped
                        + limit_count(ar, action@, 12)
                },
                Err(i) => {
                    &&& i < 12
                    &&& !action@[i as int].is_finite_spec()
                    &&& forall|k: int| 0 <= k < i ==> (#[trigger] action@[k]).is_finite_spec()
                },
            },
    {
        let mut i: usize = 0;
        while i < 12
            invariant
                i <= 12,
                old(self).clamped <= usize::MAX - 12,
                forall|k: int| 0 <= k < i ==> (#[trigger] action@[k]).is_finite_spec(),
                self.abs_max == size_max(old(self).abs_max, action@, i as int),
                old(self).clamped <= self.clamped <= old(self).clamped + i,
                deterministic(ar) ==> self.clamped == old(self).clamped + limit_count(
                    ar,
                    action@,
                    i as int,
                ),
            decreases 12 - i,
        {
            let a = action[i];
            if !a.is_finite() {
                return Err(i);
            }
            proof {
                joint_orders_are_inverse(i as int);
            }
            self.abs_max = self.abs_max.max(a.abs());
            let q = ar.plus(
                Scalar { bits: DEFAULT_ISAAC_BITS[i] },
                ar.times(Scalar { bits: ACTION_SCALE_BITS }, a),
            );
            let limits = JOINT_LIMITS_BITS[ISAAC_TO_GO2[i] % 3];
            if q.lt(Scalar { bits: limits.0 }) || (Scalar { bits: limits.1 }).lt(q) {
                self.clamped = self.clamped + 1;
            }
            i += 1;
        }
        Ok(())
    }
}

} // verus!
