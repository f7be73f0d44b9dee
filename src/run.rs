//! The life cycle of one run: the collection check before the pipeline starts,
//! and the race between the pipeline draining and an interrupt.

use vstd::prelude::*;

use crate::bookio::{is_listed, Collection};
use crate::metadata::Asset;

verus! {

/// Where a run stands.
#[derive(Clone, Copy, PartialEq, Eq, Structural)]
pub enum RunState {
    /// The collection id is being checked against the catalog.
    Verifying,
    /// The collection id was not found, or could not be checked; nothing runs.
    Rejected,
    /// The pipeline runs.
    Running,
    /// An interrupt came before the pipeline drained.
    Cancelled,
    /// The pipeline drained, downloads included.
    Completed,
}

/// What happens to a run.
#[derive(Clone, Copy, PartialEq, Eq, Structural)]
pub enum RunEvent {
    /// The catalog check answered: `Some(listed)`, or `None` where it failed.
    Verdict(Option<bool>),
    /// The operator interrupted the run.
    Interrupt,
    /// The pipeline drained.
    Finished,
}

/// The state after `e`. Cancelled, Completed and Rejected are final; the first
/// of Interrupt and Finished to reach a running run wins.
pub open spec fn next_state(s: RunState, e: RunEvent) -> RunState {
    match (s, e) {
        (RunState::Verifying, RunEvent::Verdict(Some(true))) => RunState::Running,
        (RunState::Verifying, RunEvent::Verdict(_)) => RunState::Rejected,
        (RunState::Running, RunEvent::Interrupt) => RunState::Cancelled,
        (RunState::Running, RunEvent::Finished) => RunState::Completed,
        _ => s,
    }
}

/// The state after the events `es`, in order.
pub open spec fn run_events(s: RunState, es: Seq<RunEvent>) -> RunState
    decreases es.len(),
{
    if es.len() == 0 {
        s
    } else {
        run_events(next_state(s, es[0]), es.drop_first())
    }
}

/// The number of assets a run in state `s` reports, out of `produced` accepted ones.
pub open spec fn reported_len(s: RunState, produced: nat) -> nat {
    if s == RunState::Completed {
        produced
    } else {
        0
    }
}

/// Tracks the state of one run.
pub struct RunCoordinator {
    pub state: RunState,
}

impl RunCoordinator {
    /// A run that is about to check its collection id.
    pub fn new() -> (r: RunCoordinator)
        ensures
            r.state == RunState::Verifying,
    {
        RunCoordinator { state: RunState::Verifying }
    }

    /// Takes one event.
    pub fn on_event(&mut self, e: RunEvent)
        ensures
            final(self).state == next_state(old(self).state, e),
    {
        let s = match (self.state, e) {
            (RunState::Verifying, RunEvent::Verdict(Some(true))) => RunState::Running,
            (RunState::Verifying, RunEvent::Verdict(_)) => RunState::Rejected,
            (RunState::Running, RunEvent::Interrupt) => RunState::Cancelled,
            (RunState::Running, RunEvent::Finished) => RunState::Completed,
            _ => self.state,
        };
        self.state = s;
    }

    /// The pipeline may run.
    pub fn is_running(&self) -> (r: bool)
        ensures
            r == (self.state == RunState::Running),
    {
        self.state == RunState::Running
    }

    /// What the run reports: the accepted assets once the run has completed, and
    /// nothing otherwise.
    pub fn report(&self, results: Vec<Asset>) -> (r: Option<Vec<Asset>>)
        ensures
            self.state == RunState::Completed ==> r == Some(results),
            self.state != RunState::Completed ==> r is None,
            match r {
                Some(v) => v@.len(),
                None => 0,
            } == reported_len(self.state, results@.len()),
    {
        if self.state == RunState::Completed {
            Some(results)
        } else {
            None
        }
    }
}

/// A final state stays as it is, whatever happens after.
pub proof fn final_states_are_kept(s: RunState, es: Seq<RunEvent>)
    requires
        s == RunState::Rejected || s == RunState::Cancelled || s == RunState::Completed,
    ensures
        run_events(s, es) == s,
    decreases es.len(),
{
    if es.len() > 0 {
        final_states_are_kept(next_state(s, es[0]), es.drop_first());
    }
}

/// A collection id that the catalog does not list never gets its pipeline
/// started: the check answers that it is not listed, and whatever happens after,
/// the run stays rejected.
pub proof fn unlisted_collection_never_runs(
    collections: Seq<Collection>,
    policy_id: Seq<char>,
    es: Seq<RunEvent>,
)
    requires
        !is_listed(collections, policy_id),
    ensures
        run_events(
            RunState::Verifying,
            seq![RunEvent::Verdict(Some(is_listed(collections, policy_id)))] + es,
        ) == RunState::Rejected,
{
    let all = seq![RunEvent::Verdict(Some(is_listed(collections, policy_id)))] + es;
    assert(all[0] == RunEvent::Verdict(Some(false)));
    assert(all.drop_first() =~= es);
    final_states_are_kept(RunState::Rejected, es);
}

/// A running run that is interrupted reports nothing, whatever happens after and
/// however many assets had been accepted.
pub proof fn interrupted_run_reports_nothing(es: Seq<RunEvent>, produced: nat)
    ensures
        reported_len(run_events(RunState::Running, seq![RunEvent::Interrupt] + es), produced) == 0,
{
    let all = seq![RunEvent::Interrupt] + es;
    assert(all[0] == RunEvent::Interrupt);
    assert(all.drop_first() =~= es);
    final_states_are_kept(RunState::Cancelled, es);
}

} // verus!
