//! Bookkeeping of solves that run in the background.
//!
//! One job is in flight at a time. Each job carries the epoch it was handed out
//! in; a reset starts a new epoch, and what arrives from an earlier one is
//! dropped.

use vstd::prelude::*;

verus! {

/// State of the background solver as the control loop sees it.
#[derive(Clone, Copy, Debug, PartialEq, Eq, Structural)]
pub struct JobTracker {
    /// Whether a job is in flight.
    pub busy: bool,
    /// Present epoch.
    pub epoch: u64,
}

/// The latest of the arrived results that carries an epoch.
pub open spec fn latest<O>(arrived: Seq<(u64, O)>, epoch: u64) -> Option<O>
    decreases arrived.len(),
{
    if arrived.len() == 0 {
        None
    } else if arrived.last().0 == epoch {
        Some(arrived.last().1)
    } else {
        latest(arrived.drop_last(), epoch)
    }
}

/// Number of epochs; after the last one the count starts over.
pub open spec fn epochs() -> int {
    0x1_0000_0000_0000_0000
}

/// The epoch after `n` resets.
pub open spec fn later(epoch: u64, n: nat) -> u64 {
    ((epoch + n) % epochs()) as u64
}

impl Default for JobTracker {
    fn default() -> (r: JobTracker)
        ensures
            r == (JobTracker { busy: false, epoch: 0 }),
    {
        JobTracker { busy: false, epoch: 0 }
    }
}

impl JobTracker {
    /// Nothing in flight.
    pub fn new() -> (r: JobTracker)
        ensures
            r == (JobTracker { busy: false, epoch: 0 }),
    {
        JobTracker { busy: false, epoch: 0 }
    }

    /// Whether a job is in flight.
    pub fn is_busy(&self) -> (r: bool)
        ensures
            r == self.busy,
    {
        self.busy
    }

    /// The epoch to hand out a job with.
    pub fn stamp(&self) -> (r: u64)
        ensures
            r == self.epoch,
    {
        self.epoch
    }

    /// Records that a job was handed out; `sent` tells whether the worker took
    /// it.
    pub fn submit(&mut self, sent: bool)
        ensures
            *final(self) == (JobTracker { busy: old(self).busy || sent, ..*old(self) }),
    {
        if sent {
            self.busy = true;
        }
    }

    /// Takes in the results that arrived since the last call, oldest first, and
    /// gives the latest of the present epoch. Any arrival frees the worker.
    pub fn poll<O>(&mut self, arrived: Vec<(u64, O)>) -> (r: Option<O>)
        ensures
            *final(self) == (JobTracker {
                busy: old(self).busy && arrived@.len() == 0,
                ..*old(self)
            }),
            r == latest(arrived@, old(self).epoch),
    {
        let epoch: u64 = self.epoch;
        if arrived.len() > 0 {
            self.busy = false;
        }
        let mut queue = arrived;
        let ghost all = arrived@;
        loop
            invariant
                epoch == self.epoch,
                *self == (JobTracker { busy: old(self).busy && all.len() == 0, ..*old(self) }),
                all == arrived@,
                latest(queue@, epoch) == latest(all, epoch),
            decreases queue@.len(),
        {
            let ghost before = queue@;
            match queue.pop() {
                None => {
                    return None;
                },
                Some((tag, out)) => {
                    assert(queue@ =~= before.drop_last());
                    if tag == epoch {
                        return Some(out);
                    }
                },
            }
        }
    }

    /// Starts a new epoch: what is in flight will be dropped on arrival. The
    /// worker stays busy until then.
    pub fn reset(&mut self)
        ensures
            *final(self) == (JobTracker { epoch: later(old(self).epoch, 1), ..*old(self) }),
    {
        self.epoch = if self.epoch == u64::MAX {
            0
        } else {
            self.epoch + 1
        };
    }
}

/// No result of an earlier epoch comes out of a poll: with none of the present
/// epoch among the arrived there is nothing, else there is one of them.
pub proof fn stale_results_are_dropped<O>(arrived: Seq<(u64, O)>, epoch: u64)
    ensures
        match latest(arrived, epoch) {
            Some(out) => exists|i: int|
                0 <= i < arrived.len() && #[trigger] arrived[i] == (epoch, out) && forall|j: int|
                    i < j < arrived.len() ==> (#[trigger] arrived[j]).0 != epoch,
            None => forall|i: int| 0 <= i < arrived.len() ==> (#[trigger] arrived[i]).0 != epoch,
        },
    decreases arrived.len(),
{
    if arrived.len() > 0 {
        if arrived.last().0 == epoch {
            assert(arrived[arrived.len() - 1] == (epoch, arrived.last().1));
        } else {
            let rest = arrived.drop_last();
            stale_results_are_dropped(rest, epoch);
            match latest(rest, epoch) {
                Some(out) => {
                    let i = choose|i: int|
                        0 <= i < rest.len() && #[trigger] rest[i] == (epoch, out) && forall|j: int|
                            i < j < rest.len() ==> (#[trigger] rest[j]).0 != epoch;
                    assert(arrived[i] == (epoch, out));
                    assert forall|j: int| i < j < arrived.len() implies (
                    #[trigger] arrived[j]).0 != epoch by {
                        if j < rest.len() {
                            assert(rest[j].0 != epoch);
                        }
                    }
                },
                None => {
                    assert forall|i: int| 0 <= i < arrived.len() implies (
                    #[trigger] arrived[i]).0 != epoch by {
                        if i < rest.len() {
                            assert(rest[i].0 != epoch);
                        }
                    }
                },
            }
        }
    }
}

/// Fewer resets than there are epochs lead to another epoch, and resets add up.
pub proof fn resets_lead_on(epoch: u64, n: nat, m: nat)
    ensures
        0 < n < epochs() ==> later(epoch, n) != epoch,
        later(epoch, 0) == epoch,
        later(later(epoch, n), m) == later(epoch, n + m),
{
    let e = epoch as int;
    assert((e + n) % epochs() < epochs() && (e + n) % epochs() >= 0);
    assert(((e + n) % epochs() + m) % epochs() == (e + n + m) % epochs()) by {
        vstd::arithmetic::div_mod::lemma_add_mod_noop(e + n, m as int, epochs());
        vstd::arithmetic::div_mod::lemma_mod_twice(e + n, epochs());
        vstd::arithmetic::div_mod::lemma_add_mod_noop((e + n) % epochs(), m as int, epochs());
    }
    if 0 < n < epochs() {
        if e + n >= epochs() {
            assert((e + n) % epochs() == e + n - epochs()) by (nonlinear_arith)
                requires
                    epochs() <= e + n < 2 * epochs(),
            ;
        }
    }
}

/// After resets, fewer than there are epochs, results of jobs handed out before the
/// latest of them do not come out: each of the arrived was stamped some resets ago.
pub proof fn reset_discards_what_is_in_flight<O>(
    epoch: u64,
    arrived: Seq<(u64, O)>,
    resets: Seq<nat>,
)
    requires
        resets.len() == arrived.len(),
        forall|i: int|
            0 <= i < arrived.len() ==> 0 < #[trigger] resets[i] < epochs() && epoch == later(
                arrived[i].0,
                resets[i],
            ),
    ensures
        latest(arrived, epoch) is None,
{
    stale_results_are_dropped(arrived, epoch);
    assert forall|i: int| 0 <= i < arrived.len() implies (#[trigger] arrived[i]).0 != epoch by {
        let n = resets[i];
        resets_lead_on(arrived[i].0, n, 0);
    }
}

/// A job that was handed out and has not reported back.
pub struct Flight<O> {
    /// What it will give.
    pub value: O,
    /// The epoch it was handed out in.
    pub stamp: u64,
    /// Resets since then.
    pub resets: nat,
}

/// The tracker and the job in flight.
pub struct Loop<O> {
    /// The tracker.
    pub tracker: JobTracker,
    /// The job in flight.
    pub flight: Option<Flight<O>>,
}

/// What the control loop does.
pub enum Event<O> {
    /// Hands out a job that will give a value.
    Submit(O),
    /// Starts a new epoch.
    Reset,
    /// Polls before the job in flight has finished.
    Wait,
    /// Polls once the job in flight has finished.
    Finish,
}

impl<O> Loop<O> {
    /// Nothing has happened.
    pub open spec fn fresh() -> Loop<O> {
        Loop { tracker: JobTracker { busy: false, epoch: 0 }, flight: None }
    }

    /// A job is handed out only when none is in flight, and finishes only when one is.
    pub open spec fn allows(self, e: Event<O>) -> bool {
        match e {
            Event::Submit(_) => !self.tracker.busy,
            Event::Finish => self.flight is Some,
            _ => true,
        }
    }

    /// The results that arrive with an event.
    pub open spec fn arrived(self, e: Event<O>) -> Seq<(u64, O)> {
        match (e, self.flight) {
            (Event::Finish, Some(job)) => seq![(job.stamp, job.value)],
            _ => seq![],
        }
    }

    /// What a poll gives.
    pub open spec fn given(self, e: Event<O>) -> Option<O> {
        latest(self.arrived(e), self.tracker.epoch)
    }

    /// The loop after an event, each as the operation of the tracker states it.
    pub open spec fn after(self, e: Event<O>) -> Loop<O> {
        let t = self.tracker;
        match e {
            Event::Submit(value) => Loop {
                tracker: JobTracker { busy: true, ..t },
                flight: Some(Flight { value, stamp: t.epoch, resets: 0 }),
            },
            Event::Reset => Loop {
                tracker: JobTracker { epoch: later(t.epoch, 1), ..t },
                flight: match self.flight {
                    Some(job) => Some(Flight { resets: job.resets + 1, ..job }),
                    None => None,
                },
            },
            Event::Wait => self,
            Event::Finish => Loop {
                tracker: JobTracker { busy: t.busy && self.arrived(e).len() == 0, ..t },
                flight: None,
            },
        }
    }

    /// The loop after a history.
    pub open spec fn through(history: Seq<Event<O>>) -> Loop<O>
        decreases history.len(),
    {
        if history.len() == 0 {
            Loop::fresh()
        } else {
            Loop::through(history.drop_last()).after(history.last())
        }
    }

    /// Every event of a history was allowed.
    pub open spec fn is_history(history: Seq<Event<O>>) -> bool
        decreases history.len(),
    {
        history.len() > 0 ==> Loop::is_history(history.drop_last()) && Loop::through(
            history.drop_last(),
        ).allows(history.last())
    }
}

proof fn the_flight_is_known<O>(history: Seq<Event<O>>)
    requires
        Loop::is_history(history),
    ensures
        ({
            let l = Loop::through(history);
            &&& l.tracker.busy == (l.flight is Some)
            &&& l.flight is Some ==> l.flight->0.resets <= history.len() && l.tracker.epoch
                == later(l.flight->0.stamp, l.flight->0.resets)
        }),
    decreases history.len(),
{
    if history.len() > 0 {
        let before = Loop::through(history.drop_last());
        the_flight_is_known(history.drop_last());
        match history.last() {
            Event::Submit(_) => {
                resets_lead_on(before.tracker.epoch, 0, 0);
            },
            Event::Reset => {
                if before.flight is Some {
                    resets_lead_on(before.flight->0.stamp, before.flight->0.resets, 1);
                }
            },
            _ => {},
        }
    }
}

/// After any history of jobs, resets and polls, shorter than there are epochs: a poll
/// that finds the job in flight finished gives its value if no reset came since it was
/// handed out, and nothing otherwise; either way the worker is free and the job is gone,
/// so it comes out at most once. A poll before that gives nothing and changes nothing.
pub proof fn a_job_comes_out_once_and_only_if_fresh<O>(history: Seq<Event<O>>)
    requires
        Loop::is_history(history),
        history.len() < epochs(),
    ensures
        ({
            let l = Loop::through(history);
            &&& l.tracker.busy == (l.flight is Some)
            &&& l.given(Event::Wait) is None && l.after(Event::Wait) == l
            &&& l.flight is Some ==> {
                &&& l.given(Event::Finish) == (if l.flight->0.resets == 0 {
                    Some(l.flight->0.value)
                } else {
                    None
                })
                &&& !l.after(Event::Finish).tracker.busy
                &&& l.after(Event::Finish).flight is None
            }
        }),
{
    let l = Loop::through(history);
    the_flight_is_known(history);
    if l.flight is Some {
        let job = l.flight->0;
        let got = l.arrived(Event::Finish);
        resets_lead_on(job.stamp, job.resets, 0);
        assert(got.last() == (job.stamp, job.value));
        assert(got.drop_last() =~= Seq::<(u64, O)>::empty());
        assert(latest(got.drop_last(), l.tracker.epoch) is None);
    }
}

} // verus!
