//! Whole runs of a capture job: the operations it asks for, in order, and
//! how it ends. A run can be replayed on outcomes that are known beforehand,
//! with no browser at hand.

use vstd::prelude::*;
use crate::engine::Action;
use crate::error::CaptureError;
use crate::orchestrator::{CaptureJob, CaptureResult, Event, JobState, Step, Transition};
use crate::request::CaptureRequest;

verus! {

/// What a job asked for, in order, and how it ended, if it has ended.
pub struct Run {
    pub actions: Seq<Action>,
    pub outcome: Option<Result<CaptureResult, CaptureError>>,
}

/// The run of a job from `state` on the events given. Events that come
/// after the job's end are not looked at.
pub open spec fn run(state: JobState, events: Seq<Event>) -> Run
    decreases events.len(),
{
    if events.len() == 0 {
        Run { actions: Seq::empty(), outcome: None }
    } else {
        match state.transition(events[0]) {
            Transition::Finished(outcome) => Run { actions: Seq::empty(), outcome: Some(outcome) },
            Transition::Next(next, action) => {
                let rest = run(next, events.skip(1));
                Run { actions: seq![action] + rest.actions, outcome: rest.outcome }
            },
        }
    }
}

/// The run of a whole job: the request is checked, the page is asked for,
/// and the events are taken one by one.
pub open spec fn capture_run(
    request: CaptureRequest,
    element_timeout_ms: u64,
    events: Seq<Event>,
) -> Run {
    match request.invalid_reason() {
        Some(reason) => Run {
            actions: Seq::empty(),
            outcome: Some(Err(CaptureError::InvalidRequest(reason))),
        },
        None => {
            let rest = run(JobState::initial(request, element_timeout_ms), events);
            Run {
                actions: seq![JobState::open_action(request)] + rest.actions,
                outcome: rest.outcome,
            }
        },
    }
}

/// What a replayed job asked for, in order, and how it ended; `None` where
/// the events ran out before the job had ended.
#[derive(Debug, PartialEq, Eq)]
pub struct Replay {
    pub actions: Vec<Action>,
    pub outcome: Option<Result<CaptureResult, CaptureError>>,
}

/// Runs a whole job on outcomes that are known beforehand: `events[0]`
/// answers the opening of the page, and each later event the operation that
/// the job asked for last.
pub fn replay(request: CaptureRequest, element_timeout_ms: u64, events: Vec<Event>) -> (r: Replay)
    ensures
        r.actions@ == capture_run(request, element_timeout_ms, events@).actions,
        r.outcome == capture_run(request, element_timeout_ms, events@).outcome,
{
    let ghost whole = capture_run(request, element_timeout_ms, events@);
    let mut actions: Vec<Action> = Vec::new();
    let (first_job, open) = match CaptureJob::start(request, element_timeout_ms) {
        Err(e) => {
            return Replay { actions, outcome: Some(Err(e)) };
        },
        Ok(started) => started,
    };
    actions.push(open);
    let mut job = first_job;
    let mut pending = events;
    assert(actions@ + run(job@, pending@).actions =~= whole.actions);
    while pending.len() > 0
        invariant
            whole == capture_run(request, element_timeout_ms, events@),
            whole.actions == actions@ + run(job@, pending@).actions,
            whole.outcome == run(job@, pending@).outcome,
        decreases pending.len(),
    {
        let ghost before = pending@;
        let event = pending.remove(0);
        assert(pending@ =~= before.skip(1));
        match job.step(event) {
            Step::Finished(outcome) => {
                assert(actions@ + Seq::<Action>::empty() =~= actions@);
                return Replay { actions, outcome: Some(outcome) };
            },
            Step::Next(next, action) => {
                assert(actions@.push(action) + run(next@, pending@).actions =~= actions@ + (
                seq![action] + run(next@, pending@).actions));
                job = next;
                actions.push(action);
            },
        }
    }
    assert(actions@ + Seq::<Action>::empty() =~= actions@);
    Replay { actions, outcome: None }
}

} // verus!
