//! Detection of the leg geometry in a kinematic model.
//!
//! A leg is a chain of three revolute joints, hip rolling about x, thigh and calf
//! pitching about y, with the foot at its end. The model comes as plain data: a
//! tree of joints, and where its forward kinematics puts them.

use vstd::prelude::*;
use crate::arith::{
    deterministic, difference, keeps_order, mirrors, norm, product, vec_difference, vec_minus,
    vec_norm, Arithmetic,
};
use crate::config::{KinematicsConfig, LegId, LegKinematics};
use crate::ik::{about_x, roll_about_x};
use crate::scalar::{minus_one, one, zero, Scalar, Vec3};
use crate::text::same;

verus! {

/// Bits of 1e-6, the least length of a leg segment (m).
pub const LEAST_LENGTH_BITS: u64 = 0x3EB0_C6F7_A0B5_ED8D;

/// A joint of the model.
#[derive(Debug)]
pub struct JointInfo {
    /// Name.
    pub name: String,
    /// Index of the parent joint.
    pub parent: usize,
    /// Axis in the joint's own frame, for a revolute joint.
    pub axis: Option<Vec3>,
}

/// A kinematic model: joints from index one on, the root at index zero, and the
/// name of the link that each joint carries.
#[derive(Debug)]
pub struct KinematicTree {
    /// Name of the child link of each joint.
    pub link_names: Vec<String>,
    /// Joints.
    pub joints: Vec<JointInfo>,
}

/// Where the forward kinematics puts the joints, in the root frame.
#[derive(Debug)]
pub struct JointPlacement {
    /// Axis of each revolute joint at the neutral pose.
    pub axes: Vec<Vec3>,
    /// Origin of each joint at the standing pose (m).
    pub origins: Vec<Vec3>,
}

/// Part of a leg.
#[derive(Clone, Copy, Debug, PartialEq, Eq, Structural)]
pub enum LegPart {
    /// Roll joint at the body.
    Hip,
    /// Pitch joint at the hip.
    Thigh,
    /// Pitch joint at the knee.
    Calf,
}

/// Why a leg was not detected.
#[derive(Debug)]
pub enum DetectError {
    /// No joint carries the foot link.
    FootNotFound {
        /// Name of the foot link.
        foot_link: String,
    },
    /// Too few revolute joints between foot and root.
    TooFewJoints {
        /// Name of the foot link.
        foot_link: String,
        /// Number found.
        found: usize,
        /// Number needed.
        needed: usize,
    },
    /// The axis of a joint does not look like the roll or pitch axis it should be.
    WrongAxis {
        /// Part of the leg.
        part: LegPart,
        /// Name of the joint.
        joint: String,
        /// Its axis in the root frame.
        axis: Vec3,
    },
    /// A leg segment has no length.
    Degenerate {
        /// Length of the upper leg (m).
        upper: Scalar,
        /// Length of the lower leg (m).
        lower: Scalar,
    },
}

/// `d` grows from the root along every branch, so every joint leads to the root.
pub open spec fn is_depth(joints: Seq<JointInfo>, d: Seq<nat>) -> bool {
    &&& d.len() == joints.len()
    &&& forall|i: int|
        0 < i < joints.len() ==> (#[trigger] joints[i]).parent < joints.len()
            && d[joints[i].parent as int] < d[i]
}

/// Revolute joints above joint `i`, nearest first, at most `n`.
pub open spec fn climb(joints: Seq<JointInfo>, d: Seq<nat>, i: int, n: nat) -> Seq<usize>
    decreases d[i],
{
    let p = joints[i].parent;
    if i == 0 || n == 0 || d[p as int] >= d[i] {
        seq![]
    } else if p != 0 && joints[p as int].axis is Some {
        seq![p] + climb(joints, d, p as int, (n - 1) as nat)
    } else {
        climb(joints, d, p as int, n)
    }
}

/// The joints above a joint do not depend on how depth is counted.
pub proof fn climb_is_unique(joints: Seq<JointInfo>, d: Seq<nat>, e: Seq<nat>, i: int, n: nat)
    requires
        is_depth(joints, d),
        is_depth(joints, e),
        0 <= i < joints.len(),
    ensures
        climb(joints, d, i, n) == climb(joints, e, i, n),
    decreases d[i],
{
    let p = joints[i].parent;
    if i != 0 && n != 0 {
        assert(joints[i].parent < joints.len());
        if p != 0 && joints[p as int].axis is Some {
            climb_is_unique(joints, d, e, p as int, (n - 1) as nat);
        } else {
            climb_is_unique(joints, d, e, p as int, n);
        }
    }
}

impl KinematicTree {
    /// Every joint leads to the root, and no more links than joints are named.
    pub open spec fn wf(self) -> bool {
        &&& self.joints@.len() > 0
        &&& self.link_names@.len() <= self.joints@.len()
        &&& exists|d: Seq<nat>| is_depth(self.joints@, d)
    }

    /// Revolute joints above joint `i`, nearest first, at most `n`.
    pub open spec fn above(self, i: int, n: nat) -> Seq<usize> {
        climb(self.joints@, choose|d: Seq<nat>| is_depth(self.joints@, d), i, n)
    }

    /// Joint `i` is the first that carries a link of the given name.
    pub open spec fn carries(self, link: Seq<char>, i: int) -> bool {
        &&& 0 <= i < self.link_names@.len()
        &&& self.link_names@[i]@ == link
        &&& forall|j: int| 0 <= j < i ==> (#[trigger] self.link_names@[j])@ != link
    }

    /// The joint that carries a link.
    pub fn joint_of_child_link(&self, link: &str) -> (r: Option<usize>)
        ensures
            match r {
                Some(i) => self.carries(link@, i as int),
                None => forall|j: int|
                    0 <= j < self.link_names@.len() ==> (#[trigger] self.link_names@[j])@ != link@,
            },
    {
        let mut i: usize = 0;
        while i < self.link_names.len()
            invariant
                i <= self.link_names@.len(),
                forall|j: int| 0 <= j < i ==> (#[trigger] self.link_names@[j])@ != link@,
            decreases self.link_names@.len() - i,
        {
            if same(self.link_names[i].as_str(), link) {
                return Some(i);
            }
            i += 1;
        }
        None
    }

    /// The nearest `n` revolute joints above the foot, from foot to hip.
    pub fn climb_to_active_joints(&self, foot_link: &str, n: usize) -> (r: Result<
        Vec<usize>,
        DetectError,
    >)
        requires
            self.wf(),
        ensures
            match r {
                Ok(chain) => exists|foot: int| #[trigger]
                    self.carries(foot_link@, foot) && chain@ == self.above(foot, n as nat)
                        && chain@.len() == n,
                Err(DetectError::FootNotFound { foot_link: name }) => name@ == foot_link@
                    && forall|j: int| !#[trigger] self.carries(foot_link@, j),
                Err(DetectError::TooFewJoints { foot_link: name, found, needed }) => name@
                    == foot_link@ && needed == n && found < n && exists|foot: int| #[trigger]
                    self.carries(foot_link@, foot) && found == self.above(foot, n as nat).len(),
                Err(_) => false,
            },
            r is Ok ==> forall|k: int|
                0 <= k < n ==> 0 < #[trigger] r->Ok_0@[k] < self.joints@.len()
                    && self.joints@[r->Ok_0@[k] as int].axis is Some,
    {
        let foot: usize = match self.joint_of_child_link(foot_link) {
            Some(i) => i,
            None => {
                return Err(DetectError::FootNotFound { foot_link: foot_link.to_owned() });
            },
        };
        let ghost d = choose|d: Seq<nat>| is_depth(self.joints@, d);
        let mut chain: Vec<usize> = Vec::new();
        let mut i: usize = foot;
        while chain.len() < n && i != 0
            invariant
                is_depth(self.joints@, d),
                i < self.joints@.len(),
                chain@.len() <= n,
                climb(self.joints@, d, foot as int, n as nat) == chain@ + climb(
                    self.joints@,
                    d,
                    i as int,
                    (n - chain@.len()) as nat,
                ),
                forall|k: int|
                    0 <= k < chain@.len() ==> 0 < #[trigger] chain@[k] < self.joints@.len()
                        && self.joints@[chain@[k] as int].axis is Some,
            decreases d[i as int],
        {
            let ghost before = chain@;
            let p: usize = self.joints[i].parent;
            assert(self.joints@[i as int].parent < self.joints@.len());
            if p != 0 && self.joints[p].axis.is_some() {
                chain.push(p);
                assert(before + (seq![p] + climb(
                    self.joints@,
                    d,
                    p as int,
                    (n - before.len() - 1) as nat,
                )) =~= chain@ + climb(self.joints@, d, p as int, (n - chain@.len()) as nat));
            }
            i = p;
        }
        assert(climb(self.joints@, d, i as int, (n - chain@.len()) as nat) =~= seq![]);
        assert(chain@ =~= self.above(foot as int, n as nat));
        if chain.len() < n {
            return Err(
                DetectError::TooFewJoints {
                    foot_link: foot_link.to_owned(),
                    found: chain.len(),
                    needed: n,
                },
            );
        }
        Ok(chain)
    }
}

/// The x component of an axis is the largest.
pub open spec fn is_roll(a: Vec3) -> bool {
    !a.x.abs_spec().lt_spec(a.y.abs_spec()) && !a.x.abs_spec().lt_spec(a.z.abs_spec())
}

/// The y component of an axis is the largest.
pub open spec fn is_pitch(a: Vec3) -> bool {
    !a.y.abs_spec().lt_spec(a.x.abs_spec()) && !a.y.abs_spec().lt_spec(a.z.abs_spec())
}

fn rolls(a: Vec3) -> (r: bool)
    ensures
        r == is_roll(a),
{
    !a.x.abs().lt(a.y.abs()) && !a.x.abs().lt(a.z.abs())
}

fn pitches(a: Vec3) -> (r: bool)
    ensures
        r == is_pitch(a),
{
    !a.y.abs().lt(a.x.abs()) && !a.y.abs().lt(a.z.abs())
}

impl JointPlacement {
    /// Every joint of the model has an axis and an origin.
    pub open spec fn covers(self, m: KinematicTree) -> bool {
        self.axes@.len() == m.joints@.len() && self.origins@.len() == m.joints@.len()
    }

    /// Length of the upper leg: from thigh to calf.
    pub open spec fn upper<A: Arithmetic>(self, ar: &A, chain: Seq<usize>) -> Scalar {
        norm(
            ar,
            vec_difference(
                ar,
                self.origins@[chain[1] as int],
                self.origins@[chain[0] as int],
            ),
        )
    }

    /// Length of the lower leg: from calf to foot.
    pub open spec fn lower<A: Arithmetic>(self, ar: &A, chain: Seq<usize>, foot: int) -> Scalar {
        norm(ar, vec_difference(ar, self.origins@[chain[0] as int], self.origins@[foot]))
    }
}

/// A segment length that is too short for a leg.
pub open spec fn is_short(l: Scalar) -> bool {
    l.lt_spec(Scalar { bits: LEAST_LENGTH_BITS })
}

/// The part of the leg whose axis is wrong, if any; the hip is looked at first,
/// the calf last.
pub open spec fn wrong_part(pl: JointPlacement, chain: Seq<usize>) -> Option<LegPart> {
    if !is_roll(pl.axes@[chain[2] as int]) {
        Some(LegPart::Hip)
    } else if !is_pitch(pl.axes@[chain[1] as int]) {
        Some(LegPart::Thigh)
    } else if !is_pitch(pl.axes@[chain[0] as int]) {
        Some(LegPart::Calf)
    } else {
        None
    }
}

/// Place of a part in a chain from foot to hip.
pub open spec fn place_of(part: LegPart) -> int {
    match part {
        LegPart::Hip => 2,
        LegPart::Thigh => 1,
        LegPart::Calf => 0,
    }
}

/// `kin` is the geometry of the leg with the given chain and foot: names from
/// the model, lengths from the origins, and the nominal foot where it stands.
pub open spec fn is_leg<A: Arithmetic>(
    ar: &A,
    m: KinematicTree,
    pl: JointPlacement,
    chain: Seq<usize>,
    foot: int,
    kin: LegKinematics,
) -> bool {
    let hip = pl.origins@[chain[2] as int];
    let thigh = pl.origins@[chain[1] as int];
    let body = pl.origins@[m.joints@[chain[2] as int].parent as int];
    &&& kin.hip_joint == m.joints@[chain[2] as int].name
    &&& kin.thigh_joint == m.joints@[chain[1] as int].name
    &&& kin.calf_joint == m.joints@[chain[0] as int].name
    &&& deterministic(ar) ==> {
        &&& kin.hip_offset == vec_difference(ar, hip, body)
        &&& kin.hip_to_thigh_y == difference(ar, thigh.y, hip.y).abs_spec()
        &&& kin.upper_leg_m == pl.upper(ar, chain)
        &&& kin.lower_leg_m == pl.lower(ar, chain, foot)
        &&& kin.nominal_foot_body == vec_difference(ar, pl.origins@[foot], body)
    }
}

/// `r` is the outcome of detecting the leg that ends at joint `foot`.
pub open spec fn detects<A: Arithmetic>(
    ar: &A,
    m: KinematicTree,
    pl: JointPlacement,
    foot_link: Seq<char>,
    leg: LegId,
    foot: int,
    r: Result<LegKinematics, DetectError>,
) -> bool {
    let chain = m.above(foot, 3);
    match r {
        Ok(kin) => {
            &&& chain.len() == 3
            &&& wrong_part(pl, chain) is None
            &&& kin.leg == leg
            &&& kin.foot_link@ == foot_link
            &&& !is_short(kin.upper_leg_m) && !is_short(kin.lower_leg_m)
            &&& is_leg(ar, m, pl, chain, foot, kin)
        },
        Err(DetectError::FootNotFound { .. }) => false,
        Err(DetectError::TooFewJoints { foot_link: name, found, needed }) => {
            &&& chain.len() < 3
            &&& name@ == foot_link
            &&& found == chain.len()
            &&& needed == 3
        },
        Err(DetectError::WrongAxis { part, joint, axis }) => {
            let j = chain[place_of(part)] as int;
            &&& chain.len() == 3
            &&& wrong_part(pl, chain) == Some(part)
            &&& joint == m.joints@[j].name
            &&& axis == pl.axes@[j]
        },
        Err(DetectError::Degenerate { upper, lower }) => {
            &&& chain.len() == 3
            &&& wrong_part(pl, chain) is None
            &&& is_short(upper) || is_short(lower)
            &&& deterministic(ar) ==> upper == pl.upper(ar, chain) && lower == pl.lower(
                ar,
                chain,
                foot,
            )
        },
    }
}

fn wrong_axis(m: &KinematicTree, pl: &JointPlacement, part: LegPart, j: usize) -> (r: DetectError)
    requires
        j < m.joints@.len(),
        pl.covers(*m),
    ensures
        r matches DetectError::WrongAxis { part: p, joint, axis } && p == part && joint
            == m.joints@[j as int].name && axis == pl.axes@[j as int],
{
    DetectError::WrongAxis { part, joint: m.joints[j].name.clone(), axis: pl.axes[j] }
}

/// Detects the geometry of one leg.
pub fn auto_detect_leg_kinematics<A: Arithmetic>(
    ar: &A,
    model: &KinematicTree,
    placement: &JointPlacement,
    foot_link: &str,
    leg: LegId,
) -> (r: Result<LegKinematics, DetectError>)
    requires
        model.wf(),
        placement.covers(*model),
    ensures
        is_outcome(ar, *model, *placement, foot_link@, leg, r),
{
    let chain = match model.climb_to_active_joints(foot_link, 3) {
        Ok(c) => c,
        Err(e) => {
            return Err(e);
        },
    };
    let foot: usize = match model.joint_of_child_link(foot_link) {
        Some(i) => i,
        None => {
            return Err(DetectError::FootNotFound { foot_link: foot_link.to_owned() });
        },
    };
    let calf: usize = chain[0];
    let thigh: usize = chain[1];
    let hip: usize = chain[2];
    assert(model.carries(foot_link@, foot as int));
    assert(chain@ == model.above(foot as int, 3));
    if !rolls(placement.axes[hip]) {
        return Err(wrong_axis(model, placement, LegPart::Hip, hip));
    }
    if !pitches(placement.axes[thigh]) {
        return Err(wrong_axis(model, placement, LegPart::Thigh, thigh));
    }
    if !pitches(placement.axes[calf]) {
        return Err(wrong_axis(model, placement, LegPart::Calf, calf));
    }
    let hip_pos = placement.origins[hip];
    let thigh_pos = placement.origins[thigh];
    let calf_pos = placement.origins[calf];
    let foot_pos = placement.origins[foot];
    let body: usize = model.joints[hip].parent;
    proof {
        let d = choose|d: Seq<nat>| is_depth(model.joints@, d);
        assert(is_depth(model.joints@, d));
        assert(model.joints@[hip as int].parent < model.joints@.len());
    }
    let body_pos = placement.origins[body];
    let hip_offset = vec_minus(ar, hip_pos, body_pos);
    let hip_to_thigh_y = ar.minus(thigh_pos.y, hip_pos.y).abs();
    let upper = vec_norm(ar, vec_minus(ar, thigh_pos, calf_pos));
    let lower = vec_norm(ar, vec_minus(ar, calf_pos, foot_pos));
    let least = Scalar { bits: LEAST_LENGTH_BITS };
    if upper.lt(least) || lower.lt(least) {
        return Err(DetectError::Degenerate { upper, lower });
    }
    let mut kin = LegKinematics::new(
        ar,
        leg,
        model.joints[hip].name.clone(),
        model.joints[thigh].name.clone(),
        model.joints[calf].name.clone(),
        foot_link.to_owned(),
        hip_offset,
        hip_to_thigh_y,
        upper,
        lower,
    );
    kin.nominal_foot_body = vec_minus(ar, foot_pos, body_pos);
    Ok(kin)
}

/// `r` is the outcome of detecting a leg by its foot link.
pub open spec fn is_outcome<A: Arithmetic>(
    ar: &A,
    m: KinematicTree,
    pl: JointPlacement,
    foot_link: Seq<char>,
    leg: LegId,
    r: Result<LegKinematics, DetectError>,
) -> bool {
    match r {
        Err(DetectError::FootNotFound { foot_link: name }) => name@ == foot_link && forall|j: int|
            !#[trigger] m.carries(foot_link, j),
        _ => exists|foot: int| #[trigger]
            m.carries(foot_link, foot) && detects(ar, m, pl, foot_link, leg, foot, r),
    }
}

/// Every leg has a foot link.
pub open spec fn names_all_feet(links: Seq<(LegId, &str)>) -> bool {
    &&& links.len() == 4
    &&& forall|i: int, j: int| 0 <= i < j < 4 ==> (#[trigger] links[i]).0 != (#[trigger] links[j]).0
}

/// The failures among the first `n` outcomes, in order, each with its leg.
pub open spec fn failures(
    links: Seq<(LegId, &str)>,
    outcomes: Seq<Result<LegKinematics, DetectError>>,
    n: int,
) -> Seq<(LegId, DetectError)>
    decreases n,
{
    if n <= 0 {
        seq![]
    } else {
        match outcomes[n - 1] {
            Ok(_) => failures(links, outcomes, n - 1),
            Err(e) => failures(links, outcomes, n - 1).push((links[n - 1].0, e)),
        }
    }
}

/// `r` gathers the outcomes of the four legs.
pub open spec fn gathers(
    links: Seq<(LegId, &str)>,
    outcomes: Seq<Result<LegKinematics, DetectError>>,
    r: Result<KinematicsConfig, Vec<(LegId, DetectError)>>,
) -> bool {
    match r {
        Ok(kin) => forall|i: int|
            0 <= i < 4 ==> #[trigger] outcomes[i] == Ok::<LegKinematics, DetectError>(
                kin.of(links[i].0),
            ),
        Err(errors) => errors@ == failures(links, outcomes, 4) && errors@.len() > 0,
    }
}

fn note_failure(
    errors: &mut Vec<(LegId, DetectError)>,
    leg: LegId,
    outcome: Result<LegKinematics, DetectError>,
)
    ensures
        match outcome {
            Ok(_) => final(errors)@ == old(errors)@,
            Err(e) => final(errors)@ == old(errors)@.push((leg, e)),
        },
{
    match outcome {
        Ok(_) => {},
        Err(e) => errors.push((leg, e)),
    }
}

fn pick<'a>(
    links: &[(LegId, &str); 4],
    kins: [&'a LegKinematics; 4],
    leg: LegId,
) -> (r: &'a LegKinematics)
    requires
        names_all_feet(links@),
    ensures
        exists|i: int| 0 <= i < 4 && (#[trigger] links@[i]).0 == leg && *r == *kins@[i],
{
    proof {
        assert(links@[0].0 != links@[1].0 && links@[0].0 != links@[2].0);
        assert(links@[0].0 != links@[3].0 && links@[1].0 != links@[2].0);
        assert(links@[1].0 != links@[3].0 && links@[2].0 != links@[3].0);
    }
    if links[0].0 == leg {
        assert(links@[0].0 == leg);
        kins[0]
    } else if links[1].0 == leg {
        assert(links@[1].0 == leg);
        kins[1]
    } else if links[2].0 == leg {
        assert(links@[2].0 == leg);
        kins[2]
    } else {
        assert(links@[3].0 == leg);
        kins[3]
    }
}

/// Detects the geometry of all four legs. On failure gives the error of every
/// leg that failed.
pub fn auto_detect_kinematics_config<A: Arithmetic>(
    ar: &A,
    model: &KinematicTree,
    placement: &JointPlacement,
    foot_links: &[(LegId, &str); 4],
) -> (r: Result<KinematicsConfig, Vec<(LegId, DetectError)>>)
    requires
        model.wf(),
        placement.covers(*model),
        names_all_feet(foot_links@),
    ensures
        exists|outcomes: Seq<Result<LegKinematics, DetectError>>|
            {
                &&& outcomes.len() == 4
                &&& forall|i: int|
                    0 <= i < 4 ==> is_outcome(
                        ar,
                        *model,
                        *placement,
                        foot_links@[i].1@,
                        foot_links@[i].0,
                        #[trigger] outcomes[i],
                    )
                &&& #[trigger] gathers(foot_links@, outcomes, r)
            },
{
    let a = auto_detect_leg_kinematics(ar, model, placement, foot_links[0].1, foot_links[0].0);
    let b = auto_detect_leg_kinematics(ar, model, placement, foot_links[1].1, foot_links[1].0);
    let c = auto_detect_leg_kinematics(ar, model, placement, foot_links[2].1, foot_links[2].0);
    let d = auto_detect_leg_kinematics(ar, model, placement, foot_links[3].1, foot_links[3].0);
    let ghost outcomes = seq![a, b, c, d];
    proof {
        reveal_with_fuel(failures, 5);
    }
    match (&a, &b, &c, &d) {
        (Ok(ka), Ok(kb), Ok(kc), Ok(kd)) => {
            let kins = [ka, kb, kc, kd];
            let kin = KinematicsConfig {
                fl: pick(foot_links, kins, LegId::FL).clone(),
                fr: pick(foot_links, kins, LegId::FR).clone(),
                rl: pick(foot_links, kins, LegId::RL).clone(),
                rr: pick(foot_links, kins, LegId::RR).clone(),
            };
            let r: Result<KinematicsConfig, Vec<(LegId, DetectError)>> = Ok(kin);
            assert(gathers(foot_links@, outcomes, r));
            r
        },
        _ => {
            let mut errors: Vec<(LegId, DetectError)> = Vec::new();
            note_failure(&mut errors, foot_links[0].0, a);
            note_failure(&mut errors, foot_links[1].0, b);
            note_failure(&mut errors, foot_links[2].0, c);
            note_failure(&mut errors, foot_links[3].0, d);
            assert(errors@ =~= failures(foot_links@, outcomes, 4));
            let r: Result<KinematicsConfig, Vec<(LegId, DetectError)>> = Err(errors);
            assert(gathers(foot_links@, outcomes, r));
            r
        },
    }
}

/// Why the joint signs could not be told.
#[derive(Debug)]
pub enum SignError {
    /// The model has no joint of that name.
    NotInModel {
        /// Name of the joint.
        joint: String,
    },
    /// The joint is not revolute.
    NotRevolute {
        /// Name of the joint.
        joint: String,
    },
}

/// Name of joint `k` of a leg: hip, thigh, calf.
pub open spec fn joint_name(kin: LegKinematics, k: int) -> Seq<char> {
    if k == 0 {
        kin.hip_joint@
    } else if k == 1 {
        kin.thigh_joint@
    } else {
        kin.calf_joint@
    }
}

impl KinematicTree {
    /// Joint `i` is the last of a name.
    pub open spec fn names(self, name: Seq<char>, i: int) -> bool {
        &&& 0 <= i < self.joints@.len()
        &&& self.joints@[i].name@ == name
        &&& forall|j: int| i < j < self.joints@.len() ==> (#[trigger] self.joints@[j]).name@ != name
    }

    /// The last joint of a name.
    pub fn find_joint(&self, name: &str) -> (r: Option<usize>)
        ensures
            match r {
                Some(i) => self.names(name@, i as int),
                None => forall|j: int|
                    0 <= j < self.joints@.len() ==> (#[trigger] self.joints@[j]).name@ != name@,
            },
    {
        let mut i: usize = self.joints.len();
        while i > 0
            invariant
                i <= self.joints@.len(),
                forall|j: int|
                    i <= j < self.joints@.len() ==> (#[trigger] self.joints@[j]).name@ != name@,
            decreases i,
        {
            i -= 1;
            if same(self.joints[i].name.as_str(), name) {
                return Some(i);
            }
        }
        None
    }
}

/// The part of a joint axis that gives joint `k` of a leg its direction: forward
/// for the hip, to the left for thigh and calf.
pub open spec fn axis_part(k: int, axis: Vec3) -> Scalar {
    if k == 0 {
        axis.x
    } else {
        axis.y
    }
}

/// The factor from the angle of joint `k` in the leg kinematics to the one in the
/// model. About a forward axis the hip of a left leg keeps its angle; thigh and
/// calf, which pitch forward, reverse it about an axis to the left. The hips of
/// the right legs roll outward the other way.
pub open spec fn sign_of(leg: LegId, k: int, axis: Vec3) -> Scalar {
    let s = if zero().le_spec(axis_part(k, axis)) == (k == 0) {
        one()
    } else {
        minus_one()
    };
    if k == 0 {
        about_x(leg, s)
    } else {
        s
    }
}

/// `r` is the sign of joint `k` of a leg.
pub open spec fn is_sign(
    m: KinematicTree,
    kin: LegKinematics,
    k: int,
    r: Result<Scalar, SignError>,
) -> bool {
    match r {
        Ok(s) => exists|i: int| #[trigger]
            m.names(joint_name(kin, k), i) && m.joints@[i].axis is Some && s == sign_of(
                kin.leg,
                k,
                m.joints@[i].axis->0,
            ),
        Err(SignError::NotInModel { joint }) => joint@ == joint_name(kin, k) && forall|i: int|
            !#[trigger] m.names(joint_name(kin, k), i),
        Err(SignError::NotRevolute { joint }) => joint@ == joint_name(kin, k) && exists|i: int|
            #[trigger] m.names(joint_name(kin, k), i) && m.joints@[i].axis is None,
    }
}

fn joint_sign(m: &KinematicTree, kin: &LegKinematics, k: usize) -> (r: Result<Scalar, SignError>)
    requires
        k < 3,
    ensures
        is_sign(*m, *kin, k as int, r),
{
    let name = if k == 0 {
        &kin.hip_joint
    } else if k == 1 {
        &kin.thigh_joint
    } else {
        &kin.calf_joint
    };
    let i: usize = match m.find_joint(name.as_str()) {
        Some(i) => i,
        None => {
            return Err(SignError::NotInModel { joint: name.clone() });
        },
    };
    assert(m.names(joint_name(*kin, k as int), i as int));
    match m.joints[i].axis {
        None => Err(SignError::NotRevolute { joint: name.clone() }),
        Some(axis) => {
            let along = if k == 0 { axis.x } else { axis.y };
            let forward = zero().le(along);
            let s = if forward == (k == 0) { one() } else { minus_one() };
            Ok(if k == 0 { roll_about_x(kin.leg, s) } else { s })
        },
    }
}

fn leg_signs(m: &KinematicTree, kin: &LegKinematics) -> (r: Result<[Scalar; 3], SignError>)
    ensures
        match r {
            Ok(s) => forall|k: int|
                0 <= k < 3 ==> is_sign(*m, *kin, k, Ok(#[trigger] s@[k])),
            Err(e) => exists|k: int|
                #![trigger joint_name(*kin, k)]
                0 <= k < 3 && is_sign(*m, *kin, k, Err(e)) && forall|j: int|
                    0 <= j < k ==> #[trigger] has_sign(*m, *kin, j),
        },
        r is Ok ==> forall|k: int| 0 <= k < 3 ==> #[trigger] has_sign(*m, *kin, k),
{
    let hip = match joint_sign(m, kin, 0) {
        Ok(s) => s,
        Err(e) => {
            assert(joint_name(*kin, 0) == kin.hip_joint@);
            return Err(e);
        },
    };
    assert(has_sign(*m, *kin, 0));
    let thigh = match joint_sign(m, kin, 1) {
        Ok(s) => s,
        Err(e) => {
            assert(joint_name(*kin, 1) == kin.thigh_joint@);
            return Err(e);
        },
    };
    assert(has_sign(*m, *kin, 1));
    let calf = match joint_sign(m, kin, 2) {
        Ok(s) => s,
        Err(e) => {
            assert(joint_name(*kin, 2) == kin.calf_joint@);
            return Err(e);
        },
    };
    assert(has_sign(*m, *kin, 2));
    Ok([hip, thigh, calf])
}

/// Joint `k` of a leg has a sign.
pub open spec fn has_sign(m: KinematicTree, kin: LegKinematics, k: int) -> bool {
    exists|i: int| #[trigger] m.names(joint_name(kin, k), i) && m.joints@[i].axis is Some
}

/// The factors from the joint angles of the leg kinematics to those of the model,
/// legs in slot order, each as hip, thigh, calf: a model angle is the kinematic
/// one times its factor, and the other way round. Fails at the first joint that is
/// not in the model or not revolute.
pub fn joint_signs(model: &KinematicTree, kin: &KinematicsConfig) -> (r: Result<
    [[Scalar; 3]; 4],
    SignError,
>)
    ensures
        match r {
            Ok(signs) => forall|slot: int, k: int|
                0 <= slot < 4 && 0 <= k < 3 ==> is_sign(
                    *model,
                    kin.of(LegId::at_slot(slot)),
                    k,
                    Ok(#[trigger] signs@[slot]@[k]),
                ),
            Err(e) => exists|slot: int, k: int|
                #![trigger joint_name(kin.of(LegId::at_slot(slot)), k)]
                0 <= slot < 4 && 0 <= k < 3 && is_sign(
                    *model,
                    kin.of(LegId::at_slot(slot)),
                    k,
                    Err(e),
                ) && forall|i: int, j: int|
                    0 <= i < 4 && 0 <= j < 3 && 3 * i + j < 3 * slot + k ==> #[trigger] has_sign(
                        *model,
                        kin.of(LegId::at_slot(i)),
                        j,
                    ),
        },
{
    let fl = match leg_signs(model, &kin.fl) {
        Ok(s) => s,
        Err(e) => {
            assert(kin.of(LegId::at_slot(0)) == kin.fl);
            return Err(e);
        },
    };
    let fr = match leg_signs(model, &kin.fr) {
        Ok(s) => s,
        Err(e) => {
            assert(kin.of(LegId::at_slot(1)) == kin.fr);
            return Err(e);
        },
    };
    let rl = match leg_signs(model, &kin.rl) {
        Ok(s) => s,
        Err(e) => {
            assert(kin.of(LegId::at_slot(2)) == kin.rl);
            return Err(e);
        },
    };
    let rr = match leg_signs(model, &kin.rr) {
        Ok(s) => s,
        Err(e) => {
            assert(kin.of(LegId::at_slot(3)) == kin.rr);
            return Err(e);
        },
    };
    Ok([fl, fr, rl, rr])
}

/// Rotation about the positive direction of a joint whose axis has the given part
/// along it, at angle `q` about the axis itself.
pub open spec fn turn_along(part: Scalar, q: Scalar) -> Scalar {
    if zero().le_spec(part) {
        q
    } else {
        q.neg_spec()
    }
}

/// A joint of the model at the kinematic angle times its factor turns the leg as
/// the forward kinematics does: the hip by its roll about +x, thigh and calf by the
/// opposite of their angle about +y.
pub proof fn model_angles_turn_the_leg_alike<A: Arithmetic>(
    ar: &A,
    leg: LegId,
    k: int,
    axis: Vec3,
    q: Scalar,
)
    requires
        keeps_order(ar),
        mirrors(ar),
        0 <= k < 3,
        !q.is_nan_spec(),
    ensures
        turn_along(axis_part(k, axis), product(ar, q, sign_of(leg, k, axis))) == (if k == 0 {
            about_x(leg, q)
        } else {
            q.neg_spec()
        }),
{
    assert(product(ar, q, one()) == q);
    assert(minus_one() == one().neg_spec());
    assert(one() == minus_one().neg_spec());
    assert(product(ar, q, one().neg_spec()) == q.neg_spec());
}

/// The factor of a joint takes a model angle back to the kinematic one.
pub proof fn joint_signs_undo_themselves<A: Arithmetic>(
    ar: &A,
    leg: LegId,
    k: int,
    axis: Vec3,
    q: Scalar,
)
    requires
        keeps_order(ar),
        mirrors(ar),
        0 <= k < 3,
        !q.is_nan_spec(),
    ensures
        product(ar, product(ar, q, sign_of(leg, k, axis)), sign_of(leg, k, axis)) == q,
{
    let s = sign_of(leg, k, axis);
    assert(minus_one() == one().neg_spec());
    assert(one() == minus_one().neg_spec());
    assert(s == one() || s == one().neg_spec());
    assert(product(ar, q, one()) == q);
    assert(product(ar, q, one().neg_spec()) == q.neg_spec());
    assert(product(ar, q.neg_spec(), one()) == q.neg_spec());
    assert(product(ar, q.neg_spec(), one().neg_spec()) == q.neg_spec().neg_spec());
}

} // verus!
