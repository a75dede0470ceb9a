//! The description of one capture job, and the rules it has to meet.

use vstd::prelude::*;
use crate::error::InvalidReason;
use crate::format::{OutputFormat, SurfaceMode, MAX_JPEG_QUALITY};

verus! {

/// One capture job: what to load, how large the browser's rendering surface
/// is, and what to produce.
#[derive(Clone, Debug, PartialEq, Eq)]
pub struct CaptureRequest {
    /// A network URL or a local-file URL; not empty.
    pub url: String,
    pub output_format: OutputFormat,
    /// Has no effect on a PDF.
    pub surface_mode: SurfaceMode,
    /// Greater than zero.
    pub viewport_width: u16,
    /// Greater than zero.
    pub viewport_height: u16,
    /// Where present, the capture waits until the selector matches an
    /// element of the page. The wait is a gate: it does not crop the capture.
    pub element_selector: Option<String>,
}

impl CaptureRequest {
    /// Builds a request from flat options: `visible_only` chooses the
    /// viewport over the whole page, and an empty `element` stands for no
    /// selector. Nothing is checked here.
    pub fn from_options(
        url: &str,
        format: OutputFormat,
        visible_only: bool,
        width: u16,
        height: u16,
        element: &str,
    ) -> (r: CaptureRequest)
        ensures
            r.url@ == url@,
            r.output_format == format,
            visible_only ==> r.surface_mode is ViewportOnly,
            !visible_only ==> r.surface_mode is FullPage,
            r.viewport_width == width,
            r.viewport_height == height,
            element@.len() == 0 ==> r.element_selector is None,
            element@.len() > 0 ==> r.element_selector is Some && r.element_selector->0@
                == element@,
    {
        let selector = if element.is_empty() {
            None
        } else {
            Some(element.to_owned())
        };
        CaptureRequest {
            url: url.to_owned(),
            output_format: format,
            surface_mode: if visible_only {
                SurfaceMode::ViewportOnly
            } else {
                SurfaceMode::FullPage
            },
            viewport_width: width,
            viewport_height: height,
            element_selector: selector,
        }
    }

    /// The first rule that the request breaks, in the order quality, width,
    /// height, URL; `None` where it breaks none.
    pub open spec fn invalid_reason(&self) -> Option<InvalidReason> {
        if !self.output_format.quality_in_range() {
            Some(InvalidReason::QualityOutOfRange)
        } else if self.viewport_width == 0 {
            Some(InvalidReason::ZeroWidth)
        } else if self.viewport_height == 0 {
            Some(InvalidReason::ZeroHeight)
        } else if self.url@.len() == 0 {
            Some(InvalidReason::EmptyUrl)
        } else {
            None
        }
    }

    /// A request is valid where its JPEG quality, if it has one, is at most
    /// 100, both viewport dimensions are positive and the URL is not empty.
    pub open spec fn is_valid(&self) -> bool {
        &&& self.output_format.quality_in_range()
        &&& self.viewport_width > 0
        &&& self.viewport_height > 0
        &&& self.url@.len() > 0
    }

    /// Checks the request against its rules. Nothing is clamped or repaired.
    pub fn validate(&self) -> (r: Result<(), InvalidReason>)
        ensures
            r is Ok <==> self.is_valid(),
            r matches Err(reason) ==> self.invalid_reason() == Some(reason),
            r is Ok ==> self.invalid_reason() is None,
    {
        if let OutputFormat::JPEG(q) = self.output_format {
            if q > MAX_JPEG_QUALITY {
                return Err(InvalidReason::QualityOutOfRange);
            }
        }
        if self.viewport_width == 0 {
            return Err(InvalidReason::ZeroWidth);
        }
        if self.viewport_height == 0 {
            return Err(InvalidReason::ZeroHeight);
        }
        if self.url.as_str().is_empty() {
            return Err(InvalidReason::EmptyUrl);
        }
        Ok(())
    }
}

} // verus!
