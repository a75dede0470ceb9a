//! Capture orchestration for rendering a web page in a browser and taking a
//! still image or a document of it.
//!
//! The library holds the decisions of one capture job: which request is
//! acceptable, which browser operation comes next, with which options, and
//! what the caller gets back. The browser itself is driven by the caller, who
//! performs each [`Action`] and reports its outcome as an [`Event`].

pub mod format;
pub mod error;
pub mod request;
pub mod engine;
pub mod orchestrator;
pub mod trace;
pub mod laws;

pub use crate::engine::{capture_action, Action, RasterEncoding};
pub use crate::error::{CaptureError, InvalidReason};
pub use crate::format::{fmt_str_to_enum, parse_format, OutputFormat, SurfaceMode};
pub use crate::orchestrator::{CaptureJob, CaptureResult, Event, JobState, Phase, Step, Transition};
pub use crate::request::CaptureRequest;
pub use crate::trace::{replay, Replay};
