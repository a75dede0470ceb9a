//! Browser operations, and the choice of the capture operation for a format.

use vstd::prelude::*;
use crate::format::{OutputFormat, SurfaceMode};
use crate::request::CaptureRequest;

verus! {

/// The encoding of a raster capture, with the encoder's options.
#[derive(Clone, Copy, Debug, PartialEq, Eq, Structural)]
pub enum RasterEncoding {
    Png,
    Jpeg { quality: u8 },
}

/// One operation on the browser, with everything that is handed to it.
#[derive(Clone, Debug, PartialEq, Eq)]
pub enum Action {
    /// Start a browser and open a page with a rendering surface of this size.
    OpenPage { width: u16, height: u16 },
    /// Load the URL and block until the page has loaded.
    Navigate { url: String },
    /// Block until the selector matches an element, for at most the timeout.
    WaitForSelector { selector: String, timeout_ms: u64 },
    /// Rasterize the whole document (`full_page`) or the viewport alone.
    CaptureRaster { encoding: RasterEncoding, full_page: bool },
    /// Print the whole page to a PDF document.
    CapturePdf,
    /// Close the page and let go of the browser.
    Release,
}

impl Action {
    /// Whether the action asks the browser for image or document bytes.
    pub open spec fn is_capture(self) -> bool {
        self is CaptureRaster || self is CapturePdf
    }
}

/// The capture operation for a request. PNG and JPEG are rasterized, over
/// the whole document or the viewport as the surface mode says, JPEG with its
/// quality; a PDF is printed, whatever the surface mode and the selector.
pub open spec fn capture_action_spec(request: CaptureRequest) -> Action {
    match request.output_format {
        OutputFormat::PNG => Action::CaptureRaster {
            encoding: RasterEncoding::Png,
            full_page: request.surface_mode is FullPage,
        },
        OutputFormat::JPEG(q) => Action::CaptureRaster {
            encoding: RasterEncoding::Jpeg { quality: q },
            full_page: request.surface_mode is FullPage,
        },
        OutputFormat::PDF => Action::CapturePdf,
    }
}

/// Chooses the capture operation for a page that is ready for capture.
pub fn capture_action(request: &CaptureRequest) -> (action: Action)
    ensures
        action == capture_action_spec(*request),
        action.is_capture(),
{
    let full_page = match request.surface_mode {
        SurfaceMode::FullPage => true,
        SurfaceMode::ViewportOnly => false,
    };
    match request.output_format {
        OutputFormat::PNG => Action::CaptureRaster { encoding: RasterEncoding::Png, full_page },
        OutputFormat::JPEG(q) => Action::CaptureRaster {
            encoding: RasterEncoding::Jpeg { quality: q },
            full_page,
        },
        OutputFormat::PDF => Action::CapturePdf,
    }
}

} // verus!
