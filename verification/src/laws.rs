//! What holds of every run of a capture job.

use vstd::prelude::*;
use crate::engine::{capture_action_spec, Action};
use crate::error::CaptureError;
use crate::orchestrator::{CaptureResult, Event, JobState, Phase, Transition};
use crate::request::CaptureRequest;
use crate::trace::{capture_run, run, Run};

verus! {

/// The most events that a job in this phase takes before it ends.
pub open spec fn events_to_end(phase: Phase) -> nat {
    match phase {
        Phase::Opening => 5,
        Phase::Navigating => 4,
        Phase::ElementWaiting => 3,
        Phase::Capturing => 2,
        Phase::Releasing(_) => 1,
    }
}

/// `Release` stands nowhere in `actions` but at its end.
pub open spec fn release_only_last(actions: Seq<Action>) -> bool {
    forall|i: int| 0 <= i < actions.len() - 1 ==> !(#[trigger] actions[i] is Release)
}

/// `actions` ends with the one `Release` that it holds.
pub open spec fn released_once_at_end(actions: Seq<Action>) -> bool {
    &&& actions.len() > 0
    &&& actions.last() is Release
    &&& release_only_last(actions)
}

/// No action in `actions` asks for image or document bytes.
pub open spec fn no_capture(actions: Seq<Action>) -> bool {
    forall|i: int| 0 <= i < actions.len() ==> !(#[trigger] actions[i]).is_capture()
}

/// An outcome that was settled before any capture could be asked for.
pub open spec fn failed_before_capture(outcome: Result<CaptureResult, CaptureError>) -> bool {
    outcome matches Err(e) && !(e is Capture)
}

/// An outcome that a job keeps while it releases its page, and that was
/// settled before any capture could be asked for.
pub open spec fn settled_before_capture(settled: Result<Vec<u8>, CaptureError>) -> bool {
    settled matches Err(e) && !(e is Capture)
}

/// From any phase: a job releases its page at most once, as the last thing
/// it asks for; a job that holds a page and ends has released it; a job
/// that waits for the release asks for nothing more. A job ends within the
/// number of events that its phase allows.
pub proof fn lemma_run_releases(state: JobState, events: Seq<Event>)
    ensures
        release_only_last(run(state, events).actions),
        state.phase is Releasing ==> run(state, events).actions.len() == 0,
        state.phase.holds_page() && run(state, events).outcome is Some ==> released_once_at_end(
            run(state, events).actions,
        ),
        events.len() >= events_to_end(state.phase) ==> run(state, events).outcome is Some,
    decreases events.len(),
{
    if events.len() > 0 {
        match state.transition(events[0]) {
            Transition::Finished(_) => {},
            Transition::Next(next, action) => {
                lemma_run_releases(next, events.skip(1));
                let rest = run(next, events.skip(1)).actions;
                let all = run(state, events).actions;
                assert(all == seq![action] + rest);
                assert forall|i: int| 0 <= i < all.len() - 1 implies !(#[trigger] all[i] is Release) by {
                    if i > 0 {
                        assert(all[i] == rest[i - 1]);
                    }
                }
                if rest.len() > 0 {
                    assert(all.last() == rest.last());
                }
            },
        }
    }
}

/// From any phase before the capture: where the job ends with an error
/// other than a failed capture, it has asked for no capture.
pub proof fn lemma_run_captures(state: JobState, events: Seq<Event>)
    ensures
        state.phase is Capturing ==> no_capture(run(state, events).actions),
        state.phase is Capturing && run(state, events).outcome is Some ==> !failed_before_capture(
            run(state, events).outcome->0,
        ),
        state.phase is Releasing ==> run(state, events).actions.len() == 0,
        state.phase is Releasing && run(state, events).outcome is Some ==> (failed_before_capture(
            run(state, events).outcome->0,
        ) <==> settled_before_capture(state.phase->Releasing_0)),
        !(state.phase is Releasing) && run(state, events).outcome is Some && failed_before_capture(
            run(state, events).outcome->0,
        ) ==> no_capture(run(state, events).actions),
    decreases events.len(),
{
    if events.len() > 0 {
        match state.transition(events[0]) {
            Transition::Finished(_) => {},
            Transition::Next(next, action) => {
                lemma_run_captures(next, events.skip(1));
                let rest = run(next, events.skip(1)).actions;
                let all = run(state, events).actions;
                assert(all == seq![action] + rest);
                if !action.is_capture() && no_capture(rest) {
                    assert forall|i: int| 0 <= i < all.len() implies !(#[trigger] all[i]).is_capture() by {
                        if i > 0 {
                            assert(all[i] == rest[i - 1]);
                        }
                    }
                }
            },
        }
    }
}

/// The page that a job opened is released exactly once, whatever happens:
/// in every run that has ended, a job whose page was opened asked for its
/// release once, as the last operation; a job whose launch failed, or whose
/// request was turned down, never asked for a release, having no page.
pub proof fn lemma_page_released_exactly_once(
    request: CaptureRequest,
    element_timeout_ms: u64,
    events: Seq<Event>,
)
    requires
        capture_run(request, element_timeout_ms, events).outcome is Some,
    ensures
        ({
            let r = capture_run(request, element_timeout_ms, events);
            let opened = request.is_valid() && events.len() > 0 && events[0] is Succeeded;
            &&& opened ==> released_once_at_end(r.actions)
            &&& !opened ==> forall|i: int| 0 <= i < r.actions.len() ==> !(#[trigger] r.actions[i] is Release)
        }),
{
    if request.is_valid() {
        let initial = JobState::initial(request, element_timeout_ms);
        let open = JobState::open_action(request);
        let inner = run(initial, events);
        let all = capture_run(request, element_timeout_ms, events).actions;
        assert(all == seq![open] + inner.actions);
        assert(events.len() > 0);
        match initial.transition(events[0]) {
            Transition::Finished(_) => {
                assert(inner.actions.len() == 0);
            },
            Transition::Next(next, action) => {
                lemma_run_releases(next, events.skip(1));
                let rest = run(next, events.skip(1)).actions;
                assert(inner.actions == seq![action] + rest);
                assert(all.len() == rest.len() + 2);
                assert(all[1] == action);
                assert(rest.len() > 0 && rest.last() is Release);
                assert(all.last() == rest.last());
                assert forall|i: int| 0 <= i < all.len() - 1 implies !(#[trigger] all[i] is Release) by {
                    if i >= 2 {
                        assert(all[i] == rest[i - 2]);
                    }
                }
            },
        }
    }
}

/// A job ends after five events at the latest: nothing is tried twice.
pub proof fn lemma_job_ends(request: CaptureRequest, element_timeout_ms: u64, events: Seq<Event>)
    requires
        events.len() >= 5,
    ensures
        capture_run(request, element_timeout_ms, events).outcome is Some,
{
    lemma_run_releases(JobState::initial(request, element_timeout_ms), events);
}

/// A job that ends with an error other than a failed capture has asked for
/// no capture. So it is with a selector that matches nothing: the wait
/// fails, the job ends with `ElementNotFound`, and no capture was attempted.
pub proof fn lemma_no_capture_after_failure(
    request: CaptureRequest,
    element_timeout_ms: u64,
    events: Seq<Event>,
)
    requires
        capture_run(request, element_timeout_ms, events).outcome matches Some(outcome)
            && failed_before_capture(outcome),
    ensures
        no_capture(capture_run(request, element_timeout_ms, events).actions),
{
    if request.is_valid() {
        let initial = JobState::initial(request, element_timeout_ms);
        lemma_run_captures(initial, events);
        let inner = run(initial, events).actions;
        let all = capture_run(request, element_timeout_ms, events).actions;
        assert(all == seq![JobState::open_action(request)] + inner);
        assert forall|i: int| 0 <= i < all.len() implies !(#[trigger] all[i]).is_capture() by {
            if i > 0 {
                assert(all[i] == inner[i - 1]);
            }
        }
    }
}

/// How the browser answers each operation of one job. `wait` is its answer
/// to the wait for the request's selector, and is not looked at where the
/// request has none.
pub struct BrowserAnswers {
    pub open: Event,
    pub navigate: Event,
    pub wait: Event,
    pub capture: Event,
    pub release: Event,
}

/// Whether the wait for the request's element lets the job pass: there is
/// no selector, or the browser finds the element.
pub open spec fn wait_passes(request: CaptureRequest, answers: BrowserAnswers) -> bool {
    request.element_selector is None || answers.wait is Succeeded
}

/// The events that a job on a valid request gets to see from a browser
/// that answers so: the answers to the operations that the job asks for.
pub open spec fn events_seen(request: CaptureRequest, answers: BrowserAnswers) -> Seq<Event> {
    if answers.open is Failed {
        seq![answers.open]
    } else if answers.navigate is Failed {
        seq![answers.open, answers.navigate, answers.release]
    } else if request.element_selector is None {
        seq![answers.open, answers.navigate, answers.capture, answers.release]
    } else if answers.wait is Failed {
        seq![answers.open, answers.navigate, answers.wait, answers.release]
    } else {
        seq![answers.open, answers.navigate, answers.wait, answers.capture, answers.release]
    }
}

/// How a job ends with a browser that answers so: with the first failure
/// in the order validation, launch, navigation, element wait, capture, and
/// else with the captured bytes in the request's format.
pub open spec fn outcome_of(request: CaptureRequest, answers: BrowserAnswers) -> Result<
    CaptureResult,
    CaptureError,
> {
    if let Some(reason) = request.invalid_reason() {
        Err(CaptureError::InvalidRequest(reason))
    } else if let Event::Failed(msg) = answers.open {
        Err(CaptureError::Launch(msg))
    } else if let Event::Failed(msg) = answers.navigate {
        Err(CaptureError::Navigation(msg))
    } else if !wait_passes(request, answers) {
        Err(CaptureError::ElementNotFound(answers.wait->Failed_0))
    } else {
        match answers.capture {
            Event::Failed(msg) => Err(CaptureError::Capture(msg)),
            Event::Succeeded(bytes) => Ok(
                CaptureResult { bytes, format: request.output_format },
            ),
        }
    }
}

/// The operations that a job asks of a browser that answers so, in order:
/// none for a request that is turned down; else the page, the URL, the
/// element where the request names one, the capture that the format calls
/// for, and the release, up to the first failure, the release of an opened
/// page always being the last.
pub open spec fn actions_of(
    request: CaptureRequest,
    element_timeout_ms: u64,
    answers: BrowserAnswers,
) -> Seq<Action> {
    let open = JobState::open_action(request);
    let navigate = Action::Navigate { url: request.url };
    let capture = capture_action_spec(request);
    if !request.is_valid() {
        Seq::empty()
    } else if answers.open is Failed {
        seq![open]
    } else if answers.navigate is Failed {
        seq![open, navigate, Action::Release]
    } else if let Some(selector) = request.element_selector {
        let wait = Action::WaitForSelector { selector, timeout_ms: element_timeout_ms };
        if answers.wait is Failed {
            seq![open, navigate, wait, Action::Release]
        } else {
            seq![open, navigate, wait, capture, Action::Release]
        }
    } else {
        seq![open, navigate, capture, Action::Release]
    }
}

/// Two outcomes of the same kind: both a success, or both the same kind of
/// error.
pub open spec fn same_kind(
    a: Result<CaptureResult, CaptureError>,
    b: Result<CaptureResult, CaptureError>,
) -> bool {
    match (a, b) {
        (Ok(_), Ok(_)) => true,
        (Err(CaptureError::InvalidRequest(_)), Err(CaptureError::InvalidRequest(_))) => true,
        (Err(CaptureError::Launch(_)), Err(CaptureError::Launch(_))) => true,
        (Err(CaptureError::Navigation(_)), Err(CaptureError::Navigation(_))) => true,
        (Err(CaptureError::ElementNotFound(_)), Err(CaptureError::ElementNotFound(_))) => true,
        (Err(CaptureError::Capture(_)), Err(CaptureError::Capture(_))) => true,
        (Err(CaptureError::Io(_)), Err(CaptureError::Io(_))) => true,
        _ => false,
    }
}

/// The run of `state` on a first event and the events after it.
proof fn lemma_run_first(state: JobState, first: Event, rest: Seq<Event>)
    ensures
        run(state, seq![first] + rest) == (match state.transition(first) {
            Transition::Finished(outcome) => Run { actions: Seq::empty(), outcome: Some(outcome) },
            Transition::Next(next, action) => Run {
                actions: seq![action] + run(next, rest).actions,
                outcome: run(next, rest).outcome,
            },
        }),
{
    let events = seq![first] + rest;
    assert(events[0] == first);
    assert(events.skip(1) =~= rest);
}

/// A job returns the first error that it meets, or the captured bytes, and
/// asks for no operation after a failure but the release of its page: with
/// a browser that answers so, the job asks for `actions_of`, ends, and ends
/// as `outcome_of` says.
pub proof fn lemma_whole_run(
    request: CaptureRequest,
    element_timeout_ms: u64,
    answers: BrowserAnswers,
)
    ensures
        capture_run(request, element_timeout_ms, events_seen(request, answers)).outcome == Some(
            outcome_of(request, answers),
        ),
        capture_run(request, element_timeout_ms, events_seen(request, answers)).actions
            == actions_of(request, element_timeout_ms, answers),
{
    let whole = capture_run(request, element_timeout_ms, events_seen(request, answers));
    if request.is_valid() {
        let s0 = JobState::initial(request, element_timeout_ms);
        let events = events_seen(request, answers);
        let none = Seq::<Event>::empty();
        let r = seq![answers.release];
        let cr = seq![answers.capture, answers.release];
        assert(r =~= seq![answers.release] + none);
        assert(cr =~= seq![answers.capture] + r);
        if answers.open is Failed {
            assert(events =~= seq![answers.open] + none);
            lemma_run_first(s0, answers.open, none);
        } else {
            let s1 = s0.at(Phase::Navigating);
            if answers.navigate is Failed {
                let nr = seq![answers.navigate] + r;
                assert(events =~= seq![answers.open] + nr);
                lemma_run_first(s0, answers.open, nr);
                lemma_run_first(s1, answers.navigate, r);
                let settled = Err(CaptureError::Navigation(answers.navigate->Failed_0));
                lemma_run_first(s1.at(Phase::Releasing(settled)), answers.release, none);
            } else if request.element_selector is None {
                let ncr = seq![answers.navigate] + cr;
                assert(events =~= seq![answers.open] + ncr);
                lemma_run_first(s0, answers.open, ncr);
                lemma_run_first(s1, answers.navigate, cr);
                lemma_run_from_capture(s1.at(Phase::Capturing), answers);
            } else if answers.wait is Failed {
                let wr = seq![answers.wait] + r;
                let nwr = seq![answers.navigate] + wr;
                assert(events =~= seq![answers.open] + nwr);
                lemma_run_first(s0, answers.open, nwr);
                lemma_run_first(s1, answers.navigate, wr);
                let s2 = s1.at(Phase::ElementWaiting);
                lemma_run_first(s2, answers.wait, r);
                let settled = Err(CaptureError::ElementNotFound(answers.wait->Failed_0));
                lemma_run_first(s2.at(Phase::Releasing(settled)), answers.release, none);
            } else {
                let wcr = seq![answers.wait] + cr;
                let nwcr = seq![answers.navigate] + wcr;
                assert(events =~= seq![answers.open] + nwcr);
                lemma_run_first(s0, answers.open, nwcr);
                lemma_run_first(s1, answers.navigate, wcr);
                let s2 = s1.at(Phase::ElementWaiting);
                lemma_run_first(s2, answers.wait, cr);
                lemma_run_from_capture(s2.at(Phase::Capturing), answers);
            }
        }
    }
    assert(whole.actions =~= actions_of(request, element_timeout_ms, answers));
}

/// From the capture on: the job releases its page, and ends with the bytes
/// or the capture's error.
proof fn lemma_run_from_capture(state: JobState, answers: BrowserAnswers)
    requires
        state.phase is Capturing,
    ensures
        run(state, seq![answers.capture, answers.release]).actions == seq![Action::Release],
        run(state, seq![answers.capture, answers.release]).outcome == Some(
            match answers.capture {
                Event::Failed(msg) => Err(CaptureError::Capture(msg)),
                Event::Succeeded(bytes) => Ok(
                    CaptureResult { bytes, format: state.request.output_format },
                ),
            },
        ),
{
    let none = Seq::<Event>::empty();
    let r = seq![answers.release];
    assert(r =~= seq![answers.release] + none);
    assert(seq![answers.capture, answers.release] =~= seq![answers.capture] + r);
    lemma_run_first(state, answers.capture, r);
    let settled = match answers.capture {
        Event::Failed(msg) => Err(CaptureError::Capture(msg)),
        Event::Succeeded(bytes) => Ok(bytes),
    };
    lemma_run_first(state.at(Phase::Releasing(settled)), answers.release, none);
    assert(run(state, seq![answers.capture, answers.release]).actions =~= seq![Action::Release]);
}

/// A selector that matches nothing ends the job with `ElementNotFound`, and
/// no capture is attempted: the page is opened, the URL loaded, the element
/// waited for, and the page released.
pub proof fn lemma_missing_element_fails_without_capture(
    request: CaptureRequest,
    element_timeout_ms: u64,
    answers: BrowserAnswers,
)
    requires
        request.is_valid(),
        request.element_selector is Some,
        answers.open is Succeeded,
        answers.navigate is Succeeded,
        answers.wait is Failed,
    ensures
        ({
            let r = capture_run(request, element_timeout_ms, events_seen(request, answers));
            &&& r.outcome == Some(
                Err::<CaptureResult, CaptureError>(
                    CaptureError::ElementNotFound(answers.wait->Failed_0),
                ),
            )
            &&& no_capture(r.actions)
            &&& released_once_at_end(r.actions)
        }),
{
    lemma_whole_run(request, element_timeout_ms, answers);
}

/// A PDF is framed by nothing but the page: two PDF requests for the same
/// URL and viewport end alike, whatever their surface modes, selectors and
/// timeouts, where the browser answers both alike and lets both pass their
/// element wait or neither. (The wait itself still happens, so a selector
/// that matches nothing fails the one request and not the other.) Where both
/// pass, the two outcomes are equal, bytes and all, and so is the capture
/// that was asked for.
pub proof fn lemma_pdf_ignores_raster_options(
    a: CaptureRequest,
    b: CaptureRequest,
    timeout_a: u64,
    timeout_b: u64,
    to_a: BrowserAnswers,
    to_b: BrowserAnswers,
)
    requires
        a.output_format is PDF,
        b.output_format is PDF,
        a.url@ == b.url@,
        a.viewport_width == b.viewport_width,
        a.viewport_height == b.viewport_height,
        to_a.open == to_b.open,
        to_a.navigate == to_b.navigate,
        to_a.capture == to_b.capture,
        to_a.release == to_b.release,
        wait_passes(a, to_a) == wait_passes(b, to_b),
    ensures
        ({
            let run_a = capture_run(a, timeout_a, events_seen(a, to_a));
            let run_b = capture_run(b, timeout_b, events_seen(b, to_b));
            &&& run_a.outcome is Some
            &&& run_b.outcome is Some
            &&& same_kind(run_a.outcome->0, run_b.outcome->0)
            &&& wait_passes(a, to_a) ==> run_a.outcome == run_b.outcome
        }),
        capture_action_spec(a) == Action::CapturePdf,
        capture_action_spec(b) == Action::CapturePdf,
{
    lemma_whole_run(a, timeout_a, to_a);
    lemma_whole_run(b, timeout_b, to_b);
}

} // verus!
