use webscreenshotlib::{
    CaptureError, CaptureJob, CaptureRequest, InvalidReason, OutputFormat, SurfaceMode,
};

fn request(format: OutputFormat, width: u16, height: u16, url: &str) -> CaptureRequest {
    CaptureRequest {
        url: url.to_string(),
        output_format: format,
        surface_mode: SurfaceMode::FullPage,
        viewport_width: width,
        viewport_height: height,
        element_selector: None,
    }
}

#[test]
fn a_plain_request_is_valid() {
    let r = request(OutputFormat::PNG, 1024, 800, "file:///tmp/test.html");
    assert_eq!(r.validate(), Ok(()));
}

#[test]
fn quality_bounds() {
    let url = "https://example.com";
    assert_eq!(request(OutputFormat::JPEG(0), 1, 1, url).validate(), Ok(()));
    assert_eq!(request(OutputFormat::JPEG(100), 1, 1, url).validate(), Ok(()));
    assert_eq!(
        request(OutputFormat::JPEG(101), 1, 1, url).validate(),
        Err(InvalidReason::QualityOutOfRange)
    );
    assert_eq!(
        request(OutputFormat::JPEG(255), 1, 1, url).validate(),
        Err(InvalidReason::QualityOutOfRange)
    );
}

#[test]
fn zero_dimensions_are_rejected() {
    let url = "https://example.com";
    assert_eq!(request(OutputFormat::PNG, 0, 800, url).validate(), Err(InvalidReason::ZeroWidth));
    assert_eq!(request(OutputFormat::PNG, 1024, 0, url).validate(), Err(InvalidReason::ZeroHeight));
    assert_eq!(request(OutputFormat::PDF, u16::MAX, u16::MAX, url).validate(), Ok(()));
}

#[test]
fn empty_url_is_rejected() {
    assert_eq!(request(OutputFormat::PDF, 1024, 800, "").validate(), Err(InvalidReason::EmptyUrl));
}

#[test]
fn the_first_broken_rule_is_reported() {
    assert_eq!(
        request(OutputFormat::JPEG(200), 0, 0, "").validate(),
        Err(InvalidReason::QualityOutOfRange)
    );
    assert_eq!(request(OutputFormat::PNG, 0, 0, "").validate(), Err(InvalidReason::ZeroWidth));
    assert_eq!(request(OutputFormat::PNG, 5, 0, "").validate(), Err(InvalidReason::ZeroHeight));
}

#[test]
fn quality_out_of_range_fails_before_any_browser_operation() {
    let r = request(OutputFormat::JPEG(150), 1024, 800, "file:///tmp/test.html");
    match CaptureJob::start(r, 2000) {
        Err(e) => assert_eq!(e, CaptureError::InvalidRequest(InvalidReason::QualityOutOfRange)),
        Ok(_) => panic!("a quality of 150 was accepted"),
    }
}

#[test]
fn each_reason_has_its_own_message() {
    let all = [
        InvalidReason::QualityOutOfRange,
        InvalidReason::ZeroWidth,
        InvalidReason::ZeroHeight,
        InvalidReason::EmptyUrl,
    ];
    assert_eq!(InvalidReason::QualityOutOfRange.message(), "JPEG quality must be between 0 and 100");
    assert_eq!(InvalidReason::EmptyUrl.message(), "URL must not be empty");
    for (i, a) in all.iter().enumerate() {
        for (j, b) in all.iter().enumerate() {
            assert_eq!(i == j, a.message() == b.message());
        }
    }
}

#[test]
fn request_from_flat_options() {
    let r = CaptureRequest::from_options("https://example.com", OutputFormat::JPEG(80), true, 1024, 800, "");
    assert_eq!(
        r,
        CaptureRequest {
            url: "https://example.com".to_string(),
            output_format: OutputFormat::JPEG(80),
            surface_mode: SurfaceMode::ViewportOnly,
            viewport_width: 1024,
            viewport_height: 800,
            element_selector: None,
        }
    );
    let r = CaptureRequest::from_options("file:///x", OutputFormat::PDF, false, 1, 2, "#main h1");
    assert_eq!(
        r,
        CaptureRequest {
            url: "file:///x".to_string(),
            output_format: OutputFormat::PDF,
            surface_mode: SurfaceMode::FullPage,
            viewport_width: 1,
            viewport_height: 2,
            element_selector: Some("#main h1".to_string()),
        }
    );
}

#[test]
fn from_options_checks_nothing() {
    let r = CaptureRequest::from_options("", OutputFormat::JPEG(200), false, 0, 0, "");
    assert_eq!(r.validate(), Err(InvalidReason::QualityOutOfRange));
    assert_eq!(r.url, "");
    assert_eq!(r.viewport_width, 0);
}
