use webscreenshotlib::{
    capture_action, Action, CaptureError, CaptureJob, CaptureRequest, CaptureResult, Event,
    OutputFormat, Phase, RasterEncoding, Step, SurfaceMode,
};

const PNG_HEADER: [u8; 8] = [0x89, 0x50, 0x4E, 0x47, 0x0D, 0x0A, 0x1A, 0x0A];

fn request(format: OutputFormat, surface: SurfaceMode, selector: Option<&str>) -> CaptureRequest {
    CaptureRequest {
        url: "file:///tmp/test.html".to_string(),
        output_format: format,
        surface_mode: surface,
        viewport_width: 1024,
        viewport_height: 800,
        element_selector: selector.map(|s| s.to_string()),
    }
}

fn ok() -> Event {
    Event::Succeeded(Vec::new())
}

fn next(job: CaptureJob, event: Event) -> (CaptureJob, Action) {
    match job.step(event) {
        Step::Next(job, action) => (job, action),
        Step::Finished(outcome) => panic!("the job ended early: {:?}", outcome),
    }
}

fn finish(job: CaptureJob, event: Event) -> Result<CaptureResult, CaptureError> {
    match job.step(event) {
        Step::Next(_, action) => panic!("the job went on with {:?}", action),
        Step::Finished(outcome) => outcome,
    }
}

#[test]
fn full_page_png_of_a_local_file() {
    let started = CaptureJob::start(request(OutputFormat::PNG, SurfaceMode::FullPage, None), 3000);
    let (job, action) = started.expect("the request is valid");
    assert_eq!(action, Action::OpenPage { width: 1024, height: 800 });
    assert_eq!(*job.phase(), Phase::Opening);
    assert_eq!(job.request().url, "file:///tmp/test.html");

    let (job, action) = next(job, ok());
    assert_eq!(action, Action::Navigate { url: "file:///tmp/test.html".to_string() });
    assert_eq!(*job.phase(), Phase::Navigating);

    let (job, action) = next(job, ok());
    assert_eq!(action, Action::CaptureRaster { encoding: RasterEncoding::Png, full_page: true });
    assert_eq!(*job.phase(), Phase::Capturing);

    let mut bytes = PNG_HEADER.to_vec();
    bytes.extend_from_slice(&[1, 2, 3]);
    let (job, action) = next(job, Event::Succeeded(bytes.clone()));
    assert_eq!(action, Action::Release);
    assert_eq!(*job.phase(), Phase::Releasing(Ok(bytes.clone())));

    let result = finish(job, ok()).expect("the capture succeeded");
    assert!(result.bytes.len() >= 1);
    assert_eq!(&result.bytes[..8], &PNG_HEADER);
    assert_eq!(result, CaptureResult { bytes, format: OutputFormat::PNG });
}

#[test]
fn viewport_jpeg_passes_quality_and_viewport_on() {
    let r = request(OutputFormat::JPEG(80), SurfaceMode::ViewportOnly, None);
    let (job, action) = CaptureJob::start(r, 3000).expect("the request is valid");
    assert_eq!(action, Action::OpenPage { width: 1024, height: 800 });
    let (job, _) = next(job, ok());
    let (job, action) = next(job, ok());
    assert_eq!(
        action,
        Action::CaptureRaster { encoding: RasterEncoding::Jpeg { quality: 80 }, full_page: false }
    );
    let jpeg = vec![0xFF, 0xD8, 0xFF, 0xE0, 0, 16];
    let (job, _) = next(job, Event::Succeeded(jpeg.clone()));
    assert_eq!(
        finish(job, ok()),
        Ok(CaptureResult { bytes: jpeg, format: OutputFormat::JPEG(80) })
    );
}

#[test]
fn missing_element_ends_the_job_without_a_capture() {
    let r = request(OutputFormat::PNG, SurfaceMode::FullPage, Some("#missing"));
    let (job, _) = CaptureJob::start(r, 2000).expect("the request is valid");
    let (job, _) = next(job, ok());
    let (job, action) = next(job, ok());
    assert_eq!(
        action,
        Action::WaitForSelector { selector: "#missing".to_string(), timeout_ms: 2000 }
    );
    assert_eq!(*job.phase(), Phase::ElementWaiting);
    let (job, action) = next(job, Event::Failed("timed out".to_string()));
    assert_eq!(action, Action::Release);
    assert_eq!(
        finish(job, ok()),
        Err(CaptureError::ElementNotFound("timed out".to_string()))
    );
}

#[test]
fn found_element_leads_to_the_capture() {
    let r = request(OutputFormat::JPEG(10), SurfaceMode::FullPage, Some("h1"));
    let (job, _) = CaptureJob::start(r, 2000).expect("the request is valid");
    let (job, _) = next(job, ok());
    let (job, _) = next(job, ok());
    let (job, action) = next(job, ok());
    assert_eq!(
        action,
        Action::CaptureRaster { encoding: RasterEncoding::Jpeg { quality: 10 }, full_page: true }
    );
    assert_eq!(*job.phase(), Phase::Capturing);
}

#[test]
fn launch_failure_ends_the_job_at_once() {
    let r = request(OutputFormat::PNG, SurfaceMode::FullPage, None);
    let (job, _) = CaptureJob::start(r, 3000).expect("the request is valid");
    assert_eq!(
        finish(job, Event::Failed("no browser".to_string())),
        Err(CaptureError::Launch("no browser".to_string()))
    );
}

#[test]
fn navigation_failure_releases_the_page() {
    let r = request(OutputFormat::PDF, SurfaceMode::FullPage, Some("h1"));
    let (job, _) = CaptureJob::start(r, 3000).expect("the request is valid");
    let (job, _) = next(job, ok());
    let (job, action) = next(job, Event::Failed("net::ERR_FAILED".to_string()));
    assert_eq!(action, Action::Release);
    assert_eq!(
        finish(job, ok()),
        Err(CaptureError::Navigation("net::ERR_FAILED".to_string()))
    );
}

#[test]
fn capture_failure_releases_the_page() {
    let r = request(OutputFormat::PNG, SurfaceMode::ViewportOnly, None);
    let (job, _) = CaptureJob::start(r, 3000).expect("the request is valid");
    let (job, _) = next(job, ok());
    let (job, _) = next(job, ok());
    let (job, action) = next(job, Event::Failed("renderer crashed".to_string()));
    assert_eq!(action, Action::Release);
    assert_eq!(
        finish(job, ok()),
        Err(CaptureError::Capture("renderer crashed".to_string()))
    );
}

#[test]
fn a_failed_release_does_not_change_the_outcome() {
    let r = request(OutputFormat::PDF, SurfaceMode::FullPage, None);
    let (job, _) = CaptureJob::start(r, 3000).expect("the request is valid");
    let (job, _) = next(job, ok());
    let (job, action) = next(job, ok());
    assert_eq!(action, Action::CapturePdf);
    let (job, _) = next(job, Event::Succeeded(b"%PDF-1.4".to_vec()));
    assert_eq!(
        finish(job, Event::Failed("already closed".to_string())),
        Ok(CaptureResult { bytes: b"%PDF-1.4".to_vec(), format: OutputFormat::PDF })
    );
}

#[test]
fn capture_action_by_format_and_surface() {
    let png = request(OutputFormat::PNG, SurfaceMode::ViewportOnly, None);
    assert_eq!(
        capture_action(&png),
        Action::CaptureRaster { encoding: RasterEncoding::Png, full_page: false }
    );
    let jpeg = request(OutputFormat::JPEG(0), SurfaceMode::FullPage, Some("p"));
    assert_eq!(
        capture_action(&jpeg),
        Action::CaptureRaster { encoding: RasterEncoding::Jpeg { quality: 0 }, full_page: true }
    );
    for surface in [SurfaceMode::FullPage, SurfaceMode::ViewportOnly] {
        for selector in [None, Some("h1")] {
            assert_eq!(
                capture_action(&request(OutputFormat::PDF, surface, selector)),
                Action::CapturePdf
            );
        }
    }
}
