//! One step of whichever controller is active.

use vstd::prelude::*;
use crate::arith::Arithmetic;
use crate::centroidal_controller::CentroidalTick;
use crate::centroidal_mpc::{CentroidalMpcSolution, CentroidalProblem};
use crate::config::VelocityCmd;
use crate::controller::{covers_legs, ControllerOutput, LegModel, PhaseState};
use crate::full_centroidal_mpc::{
    FullCentroidalContactSchedule, FullCentroidalMpcSolution, FullCentroidalReference,
    FullCentroidalState,
};
use crate::full_centroidal_problem::FullCentroidalProblem;
use crate::full_centroidal_tick::FullCentroidalTick;
use crate::generator::AnyGaitController;
use crate::mpc_controller::MpcGaitController;
use crate::scalar::Scalar;

verus! {

/// Runs the body-root mode, whose solver the caller brings.
pub trait SrbdDriver<C> {
    /// Moves the controller on by `dt` with the legs in the given phases.
    fn tick(
        &mut self,
        controller: &mut MpcGaitController<C>,
        phases: &[PhaseState; 4],
        dt: Scalar,
    ) -> ControllerOutput;
}

/// Solutions that finished in the background since the last step.
#[derive(Debug)]
pub struct Finished {
    /// Of the centroidal mode.
    pub body: Option<CentroidalMpcSolution>,
    /// Of the full-centroidal mode.
    pub full: Option<FullCentroidalMpcSolution>,
}

/// What a step hands back.
#[derive(Debug)]
pub struct AnyTick {
    /// Leg targets and pose.
    pub output: ControllerOutput,
    /// Problem of the centroidal mode to solve in the background, if one is due.
    pub body: Option<CentroidalProblem>,
    /// Problem of the full-centroidal mode to solve in the background, if one is
    /// due.
    pub full: Option<FullCentroidalProblem>,
}

/// `clock` can be asked for any command and gives every leg a phase.
pub open spec fn keeps_time<P: FnOnce(VelocityCmd, Scalar) -> ([PhaseState; 4], Scalar)>(
    clock: P,
    dt: Scalar,
) -> bool {
    &&& forall|cmd: VelocityCmd| #[trigger] call_requires(clock, (cmd, dt))
    &&& forall|cmd: VelocityCmd, out: ([PhaseState; 4], Scalar)| #[trigger]
        call_ensures(clock, (cmd, dt), out) ==> covers_legs(out.0@)
}

impl<C> AnyGaitController<C> {
    /// The active controller can be stepped.
    pub open spec fn can_tick<
        A: Arithmetic,
        F: Fn(&CentroidalProblem, &Vec<Scalar>) -> CentroidalMpcSolution,
        G: Fn(
            &FullCentroidalState,
            &FullCentroidalReference,
            &FullCentroidalContactSchedule,
        ) -> FullCentroidalMpcSolution,
    >(self, ar: &A, finished: Finished, body_iter: F, full_iter: G) -> bool {
        match self {
            AnyGaitController::CentroidalSrbd(c) => crate::centroidal_mpc::solves_horizon(
                body_iter,
                c.centroidal_mpc.cfg.horizon_steps as int,
            ),
            AnyGaitController::FullCentroidal(c) => {
                &&& c.prediction_ready()
                &&& c.commanded(c.next_command(ar)).trim_is_valid(ar)
                &&& c.bound_tabulated_reference is Some ==> c.bound_tabulated_reference->0@.len()
                    > 0
                &&& finished.full is Some && finished.full->0.solved
                    ==> finished.full->0.predicted_states@.len() > 0
                &&& crate::full_centroidal_mpc::solves_horizon(
                    full_iter,
                    c.full_centroidal_mpc.cfg.horizon_steps as int,
                )
            },
            AnyGaitController::LinearCrawl(c) => c.wf(),
            _ => true,
        }
    }

    /// `c` and `r` are the controller and what it hands back after a step of `dt`:
    /// the active controller has made its own step, with the phases that `clock` gave
    /// for its command where it has any. What the body-root mode does is its
    /// driver's.
    pub open spec fn has_ticked<
        A: Arithmetic,
        S: LegModel,
        P: FnOnce(VelocityCmd, Scalar) -> ([PhaseState; 4], Scalar),
        F: Fn(&CentroidalProblem, &Vec<Scalar>) -> CentroidalMpcSolution,
        G: Fn(
            &FullCentroidalState,
            &FullCentroidalReference,
            &FullCentroidalContactSchedule,
        ) -> FullCentroidalMpcSolution,
    >(
        self,
        ar: &A,
        model: &S,
        clock: P,
        dt: Scalar,
        finished: Finished,
        busy: bool,
        body_iter: F,
        full_iter: G,
        r: AnyTick,
        c: AnyGaitController<C>,
    ) -> bool {
        match (self, c) {
            (AnyGaitController::Champ(a), AnyGaitController::Champ(b)) => {
                &&& r.body is None
                &&& r.full is None
                &&& exists|now: ([PhaseState; 4], Scalar)|
                    {
                        &&& #[trigger] call_ensures(clock, (a.cmd, dt), now)
                        &&& a.has_ticked(ar, model, now.0@, dt, r.output, b)
                    }
            },
            (AnyGaitController::Mpc(_), AnyGaitController::Mpc(_)) => r.body is None && r.full
                is None,
            (AnyGaitController::CentroidalSrbd(a), AnyGaitController::CentroidalSrbd(b)) => {
                &&& r.full is None
                &&& exists|now: ([PhaseState; 4], Scalar)|
                    {
                        &&& #[trigger] call_ensures(clock, (a.cmd, dt), now)
                        &&& a.has_ticked(
                            ar,
                            model,
                            now.0@,
                            dt,
                            finished.body,
                            busy,
                            body_iter,
                            (CentroidalTick { output: r.output, submit: r.body }),
                            b,
                        )
                    }
            },
            (AnyGaitController::FullCentroidal(a), AnyGaitController::FullCentroidal(b)) => {
                &&& r.body is None
                &&& a.has_driven(
                    ar,
                    model,
                    clock,
                    dt,
                    finished.full,
                    busy,
                    full_iter,
                    (FullCentroidalTick { output: r.output, submit: r.full }),
                    b,
                )
            },
            (AnyGaitController::LinearCrawl(a), AnyGaitController::LinearCrawl(b)) => {
                &&& r.body is None
                &&& r.full is None
                &&& a.has_ticked(ar, dt, r.output, b)
            },
            _ => false,
        }
    }

    /// One step of the active controller. `clock` moves the cycle on by a time under a
    /// command and gives the phase of each leg and of the cycle; a crawl keeps its own
    /// time. `busy` tells whether a solve of the active mode is in flight.
    pub fn tick<
        A: Arithmetic,
        S: LegModel,
        D: SrbdDriver<C>,
        P: FnOnce(VelocityCmd, Scalar) -> ([PhaseState; 4], Scalar),
        F: Fn(&CentroidalProblem, &Vec<Scalar>) -> CentroidalMpcSolution,
        G: Fn(
            &FullCentroidalState,
            &FullCentroidalReference,
            &FullCentroidalContactSchedule,
        ) -> FullCentroidalMpcSolution,
    >(
        &mut self,
        ar: &A,
        model: &S,
        driver: &mut D,
        clock: P,
        dt: Scalar,
        finished: Finished,
        busy: bool,
        body_iter: F,
        full_iter: G,
    ) -> (r: AnyTick)
        requires
            keeps_time(clock, dt),
            old(self).can_tick(ar, finished, body_iter, full_iter),
        ensures
            final(self).kind() == old(self).kind(),
            old(self).predictions_agree() ==> final(self).predictions_agree(),
            old(self).has_ticked(
                ar,
                model,
                clock,
                dt,
                finished,
                busy,
                body_iter,
                full_iter,
                r,
                *final(self),
            ),
    {
        match self {
            AnyGaitController::Champ(c) => {
                let now = clock(c.cmd, dt);
                let output = c.tick(ar, model, &now.0, dt);
                AnyTick { output, body: None, full: None }
            },
            AnyGaitController::Mpc(c) => {
                let now = clock(c.cmd, dt);
                let output = driver.tick(c, &now.0, dt);
                AnyTick { output, body: None, full: None }
            },
            AnyGaitController::CentroidalSrbd(c) => {
                let now = clock(c.cmd, dt);
                let t = c.tick(ar, model, &now.0, dt, finished.body, busy, body_iter);
                AnyTick { output: t.output, body: t.submit, full: None }
            },
            AnyGaitController::FullCentroidal(c) => {
                let t = c.drive(ar, model, clock, dt, finished.full, busy, full_iter);
                AnyTick { output: t.output, body: None, full: t.submit }
            },
            AnyGaitController::LinearCrawl(c) => {
                let output = c.tick(ar, dt);
                AnyTick { output, body: None, full: None }
            },
        }
    }
}

/// The mode lasts: through any run of states in which each comes from the one before
/// by an operation that keeps the mode, which is every operation but
/// [`AnyGaitController::set_mode`], the mode is the one at the start.
pub proof fn the_mode_lasts<C>(run: Seq<AnyGaitController<C>>, i: int)
    requires
        0 <= i < run.len(),
        forall|k: int|
            0 <= k < run.len() - 1 ==> (#[trigger] run[k]).kind() == run[k + 1].kind(),
    ensures
        run[i].kind() == run[0].kind(),
    decreases i,
{
    if i > 0 {
        the_mode_lasts(run, i - 1);
        assert(run[i - 1].kind() == run[i].kind());
    }
}

} // verus!
