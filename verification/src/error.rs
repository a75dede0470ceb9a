//! The one error type that every failure of a capture job is reported in.

use vstd::prelude::*;

verus! {

/// Why a request was turned down before any browser interaction.
#[derive(Clone, Copy, Debug, PartialEq, Eq, Structural)]
pub enum InvalidReason {
    /// The JPEG quality is above 100.
    QualityOutOfRange,
    /// The viewport width is zero.
    ZeroWidth,
    /// The viewport height is zero.
    ZeroHeight,
    /// The URL is empty.
    EmptyUrl,
}

/// What went wrong with a capture job. The variants that come from the
/// browser carry the browser's own message.
#[derive(Clone, Debug, PartialEq, Eq)]
pub enum CaptureError {
    /// The request is malformed; no browser was touched.
    InvalidRequest(InvalidReason),
    /// The browser could not be started or the page could not be opened.
    Launch(String),
    /// The URL could not be loaded, or did not load in time.
    Navigation(String),
    /// The selector matched no element within the timeout.
    ElementNotFound(String),
    /// The browser failed to produce the image or document bytes.
    Capture(String),
    /// The output could not be written.
    Io(String),
}

impl InvalidReason {
    /// A sentence that names the rule that the request broke.
    pub fn message(&self) -> (r: &'static str)
        ensures
            r@ == (match *self {
                InvalidReason::QualityOutOfRange => "JPEG quality must be between 0 and 100"@,
                InvalidReason::ZeroWidth => "viewport width must be greater than zero"@,
                InvalidReason::ZeroHeight => "viewport height must be greater than zero"@,
                InvalidReason::EmptyUrl => "URL must not be empty"@,
            }),
    {
        match self {
            InvalidReason::QualityOutOfRange => "JPEG quality must be between 0 and 100",
            InvalidReason::ZeroWidth => "viewport width must be greater than zero",
            InvalidReason::ZeroHeight => "viewport height must be greater than zero",
            InvalidReason::EmptyUrl => "URL must not be empty",
        }
    }
}

} // verus!
