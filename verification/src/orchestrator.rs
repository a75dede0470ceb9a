//! The life of one capture job: open a page, load the URL, wait for the
//! element where one is asked for, capture, release the page, report.
//!
//! The job never touches the browser. It hands out one [`Action`] at a time;
//! the caller performs it and reports the outcome as an [`Event`]. Every
//! failure ends the job: nothing is tried twice.

use vstd::prelude::*;
use crate::engine::{capture_action, capture_action_spec, Action};
use crate::error::CaptureError;
use crate::format::OutputFormat;
use crate::request::CaptureRequest;

verus! {

/// Time that the browser waits for an element where the caller has no wish
/// of their own, in milliseconds.
pub const DEFAULT_ELEMENT_TIMEOUT_MS: u64 = 3000;

/// What the caller gets from a job that succeeded.
#[derive(Clone, Debug, PartialEq, Eq)]
pub struct CaptureResult {
    pub bytes: Vec<u8>,
    pub format: OutputFormat,
}

/// The outcome of one browser operation.
#[derive(Clone, Debug, PartialEq, Eq)]
pub enum Event {
    /// The operation succeeded. A capture brings its bytes; the other
    /// operations bring none, and what they bring is not looked at.
    Succeeded(Vec<u8>),
    /// The operation failed, with the browser's message.
    Failed(String),
}

/// The operation whose outcome a job waits for.
#[derive(Debug, PartialEq, Eq)]
pub enum Phase {
    /// Waiting for the browser to start and the page to open. No page is held.
    Opening,
    /// The page is open; waiting for the URL to load.
    Navigating,
    /// The page has loaded; waiting for the selector to match.
    ElementWaiting,
    /// The page is ready for capture; waiting for the bytes.
    Capturing,
    /// Waiting for the page to be released. The job's outcome is settled.
    Releasing(Result<Vec<u8>, CaptureError>),
}

impl Phase {
    /// Whether a page is open that has not been handed back yet.
    pub open spec fn holds_page(self) -> bool {
        self is Navigating || self is ElementWaiting || self is Capturing
    }
}

/// A job between two browser operations, as contracts see it.
pub struct JobState {
    pub request: CaptureRequest,
    pub element_timeout_ms: u64,
    pub phase: Phase,
}

/// What a job does on an event, as contracts see it.
pub enum Transition {
    /// The job goes on in this state, and asks for this operation.
    Next(JobState, Action),
    /// The job is over, with this outcome.
    Finished(Result<CaptureResult, CaptureError>),
}

impl JobState {
    /// The state of a job that has asked for its page and waits for it.
    pub open spec fn initial(request: CaptureRequest, element_timeout_ms: u64) -> JobState {
        JobState { request, element_timeout_ms, phase: Phase::Opening }
    }

    /// The operation that opens the job's page, sized to the viewport.
    pub open spec fn open_action(request: CaptureRequest) -> Action {
        Action::OpenPage { width: request.viewport_width, height: request.viewport_height }
    }

    /// The same job in another phase.
    pub open spec fn at(self, phase: Phase) -> JobState {
        JobState { request: self.request, element_timeout_ms: self.element_timeout_ms, phase }
    }

    /// The job gives its page back and keeps `outcome` for the caller.
    pub open spec fn release_with(self, outcome: Result<Vec<u8>, CaptureError>) -> Transition {
        Transition::Next(self.at(Phase::Releasing(outcome)), Action::Release)
    }

    /// The job moves on to the capture that its format calls for.
    pub open spec fn begin_capture(self) -> Transition {
        Transition::Next(self.at(Phase::Capturing), capture_action_spec(self.request))
    }

    /// The page has loaded: the job waits for the element where its request
    /// names one, whatever the format, and goes on to the capture otherwise.
    pub open spec fn after_load(self) -> Transition {
        match self.request.element_selector {
            Some(selector) => Transition::Next(
                self.at(Phase::ElementWaiting),
                Action::WaitForSelector { selector, timeout_ms: self.element_timeout_ms },
            ),
            None => self.begin_capture(),
        }
    }

    /// The step that a job takes on an event.
    ///
    /// A launch that fails ends the job at once: there is no page to release.
    /// Any later failure, and the capture's success, first releases the page;
    /// the outcome of the release itself changes nothing.
    pub open spec fn transition(self, event: Event) -> Transition {
        match (self.phase, event) {
            (Phase::Opening, Event::Succeeded(_)) => Transition::Next(
                self.at(Phase::Navigating),
                Action::Navigate { url: self.request.url },
            ),
            (Phase::Opening, Event::Failed(msg)) => Transition::Finished(
                Err(CaptureError::Launch(msg)),
            ),
            (Phase::Navigating, Event::Succeeded(_)) => self.after_load(),
            (Phase::Navigating, Event::Failed(msg)) => self.release_with(
                Err(CaptureError::Navigation(msg)),
            ),
            (Phase::ElementWaiting, Event::Succeeded(_)) => self.begin_capture(),
            (Phase::ElementWaiting, Event::Failed(msg)) => self.release_with(
                Err(CaptureError::ElementNotFound(msg)),
            ),
            (Phase::Capturing, Event::Succeeded(bytes)) => self.release_with(Ok(bytes)),
            (Phase::Capturing, Event::Failed(msg)) => self.release_with(
                Err(CaptureError::Capture(msg)),
            ),
            (Phase::Releasing(Ok(bytes)), _) => Transition::Finished(
                Ok(CaptureResult { bytes, format: self.request.output_format }),
            ),
            (Phase::Releasing(Err(e)), _) => Transition::Finished(Err(e)),
        }
    }
}

/// One capture job in progress. It owns its request; the request is valid.
pub struct CaptureJob {
    request: CaptureRequest,
    element_timeout_ms: u64,
    phase: Phase,
}

/// What a job hands back after an event.
pub enum Step {
    /// The job goes on: perform the action and report its outcome.
    Next(CaptureJob, Action),
    /// The job is over. The page, if one was opened, has been released.
    Finished(Result<CaptureResult, CaptureError>),
}

impl View for CaptureJob {
    type V = JobState;

    closed spec fn view(&self) -> JobState {
        JobState {
            request: self.request,
            element_timeout_ms: self.element_timeout_ms,
            phase: self.phase,
        }
    }
}

impl View for Step {
    type V = Transition;

    open spec fn view(&self) -> Transition {
        match *self {
            Step::Next(job, action) => Transition::Next(job@, action),
            Step::Finished(outcome) => Transition::Finished(outcome),
        }
    }
}

impl CaptureJob {
    #[verifier::type_invariant]
    spec fn inv(&self) -> bool {
        self.request.is_valid()
    }

    /// Begins a job. The request is checked first: a request that breaks a
    /// rule is turned down with that rule, and no browser operation is asked
    /// for. Otherwise the job starts by asking for its page.
    pub fn start(request: CaptureRequest, element_timeout_ms: u64) -> (r: Result<
        (CaptureJob, Action),
        CaptureError,
    >)
        ensures
            r is Ok <==> request.is_valid(),
            r matches Ok((job, action)) ==> job@ == JobState::initial(request, element_timeout_ms)
                && action == JobState::open_action(request),
            r matches Err(e) ==> e matches CaptureError::InvalidRequest(reason)
                && request.invalid_reason() == Some(reason),
    {
        match request.validate() {
            Err(reason) => Err(CaptureError::InvalidRequest(reason)),
            Ok(()) => {
                let action = Action::OpenPage {
                    width: request.viewport_width,
                    height: request.viewport_height,
                };
                Ok((CaptureJob { request, element_timeout_ms, phase: Phase::Opening }, action))
            },
        }
    }

    /// The request that the job works on.
    pub fn request(&self) -> (r: &CaptureRequest)
        ensures
            *r == self@.request,
            r.is_valid(),
    {
        proof {
            use_type_invariant(self);
        }
        &self.request
    }

    /// The operation whose outcome the job waits for.
    pub fn phase(&self) -> (r: &Phase)
        ensures
            *r == self@.phase,
    {
        &self.phase
    }

    /// Takes the outcome of the operation that the job last asked for, and
    /// says what comes next.
    pub fn step(self, event: Event) -> (r: Step)
        ensures
            r@ == self@.transition(event),
    {
        proof {
            use_type_invariant(&self);
        }
        let CaptureJob { request, element_timeout_ms, phase } = self;
        match phase {
            Phase::Opening => match event {
                Event::Succeeded(_) => {
                    let action = Action::Navigate { url: request.url.clone() };
                    Step::Next(
                        CaptureJob { request, element_timeout_ms, phase: Phase::Navigating },
                        action,
                    )
                },
                Event::Failed(msg) => Step::Finished(Err(CaptureError::Launch(msg))),
            },
            Phase::Navigating => match event {
                Event::Succeeded(_) => Self::after_load(request, element_timeout_ms),
                Event::Failed(msg) => Self::release(
                    request,
                    element_timeout_ms,
                    Err(CaptureError::Navigation(msg)),
                ),
            },
            Phase::ElementWaiting => match event {
                Event::Succeeded(_) => Self::ready_for_capture(request, element_timeout_ms),
                Event::Failed(msg) => Self::release(
                    request,
                    element_timeout_ms,
                    Err(CaptureError::ElementNotFound(msg)),
                ),
            },
            Phase::Capturing => match event {
                Event::Succeeded(bytes) => Self::release(request, element_timeout_ms, Ok(bytes)),
                Event::Failed(msg) => Self::release(
                    request,
                    element_timeout_ms,
                    Err(CaptureError::Capture(msg)),
                ),
            },
            Phase::Releasing(outcome) => match outcome {
                Ok(bytes) => Step::Finished(
                    Ok(CaptureResult { bytes, format: request.output_format }),
                ),
                Err(e) => Step::Finished(Err(e)),
            },
        }
    }

    /// The page has loaded: wait for the element where the request names
    /// one, else go on to the capture.
    fn after_load(request: CaptureRequest, element_timeout_ms: u64) -> (r: Step)
        requires
            request.is_valid(),
        ensures
            r@ == JobState::initial(request, element_timeout_ms).after_load(),
    {
        let wait = match &request.element_selector {
            Some(selector) => Some(
                Action::WaitForSelector {
                    selector: selector.clone(),
                    timeout_ms: element_timeout_ms,
                },
            ),
            None => None,
        };
        match wait {
            Some(action) => Step::Next(
                CaptureJob { request, element_timeout_ms, phase: Phase::ElementWaiting },
                action,
            ),
            None => Self::ready_for_capture(request, element_timeout_ms),
        }
    }

    /// The page is ready: ask for the capture that the format calls for.
    fn ready_for_capture(request: CaptureRequest, element_timeout_ms: u64) -> (r: Step)
        requires
            request.is_valid(),
        ensures
            r@ == JobState::initial(request, element_timeout_ms).begin_capture(),
    {
        let action = capture_action(&request);
        Step::Next(CaptureJob { request, element_timeout_ms, phase: Phase::Capturing }, action)
    }

    /// The outcome is settled: ask for the page to be released.
    fn release(
        request: CaptureRequest,
        element_timeout_ms: u64,
        outcome: Result<Vec<u8>, CaptureError>,
    ) -> (r: Step)
        requires
            request.is_valid(),
        ensures
            r@ == JobState::initial(request, element_timeout_ms).release_with(outcome),
    {
        Step::Next(
            CaptureJob { request, element_timeout_ms, phase: Phase::Releasing(outcome) },
            Action::Release,
        )
    }
}

} // verus!
