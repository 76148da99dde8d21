use nvscreencopy::capture::CaptureEvent;
use nvscreencopy::errors::RESOURCE_BUSY;
use nvscreencopy::present::{LoopAction, PresentationLoop, StopReason};
use nvscreencopy::strategy::CopyAttempt;

fn begin_1080p() -> CaptureEvent {
    CaptureEvent::Begin {
        width: 1920,
        height: 1080,
        flags: 0,
        format: 875713112,
        mod_hi: 0,
        mod_lo: 1,
    }
}

fn single_plane() -> CaptureEvent {
    CaptureEvent::Plane { fd: 17, plane_index: 0, offset: 0, stride: 7680 }
}

#[test]
fn first_frame_falls_back_to_cpu_and_sticks() {
    let mut looper = PresentationLoop::new();

    // a vblank triggers the first capture
    assert_eq!(looper.on_vblank(), LoopAction::IssueCapture);
    assert_eq!(looper.on_capture_event(begin_1080p()), LoopAction::Wait);
    assert_eq!(looper.on_capture_event(single_plane()), LoopAction::Wait);

    // the completed frame first attempts the zero-copy import
    assert_eq!(looper.on_capture_event(CaptureEvent::Ready), LoopAction::AttemptCopy(CopyAttempt::Direct));
    let frame = looper.current_frame().expect("the loop holds the frame while copying");
    assert_eq!(frame.modifier, 1);
    assert_eq!(frame.width, 1920);
    assert_eq!(frame.height, 1080);
    assert_eq!(frame.planes.len(), 1);

    // the destination context rejects the import: fall back on the same frame
    assert_eq!(looper.on_copy_result(false), LoopAction::AttemptCopy(CopyAttempt::Cpu));
    assert_eq!(looper.on_copy_result(true), LoopAction::Present);
    assert_eq!(looper.on_present_result(None, None), LoopAction::Wait);
    assert!(!looper.stopped());

    // the next frame goes straight to the CPU path
    assert_eq!(looper.on_vblank(), LoopAction::IssueCapture);
    assert_eq!(looper.on_capture_event(begin_1080p()), LoopAction::Wait);
    assert_eq!(looper.on_capture_event(CaptureEvent::Ready), LoopAction::AttemptCopy(CopyAttempt::Cpu));
}

#[test]
fn direct_import_success_sticks_to_direct() {
    let mut looper = PresentationLoop::new();
    assert_eq!(looper.on_vblank(), LoopAction::IssueCapture);
    assert_eq!(looper.on_capture_event(begin_1080p()), LoopAction::Wait);
    assert_eq!(looper.on_capture_event(CaptureEvent::Ready), LoopAction::AttemptCopy(CopyAttempt::Direct));
    assert_eq!(looper.on_copy_result(true), LoopAction::Present);
    assert_eq!(looper.on_present_result(None, None), LoopAction::Wait);

    assert_eq!(looper.on_vblank(), LoopAction::IssueCapture);
    assert_eq!(looper.on_capture_event(begin_1080p()), LoopAction::Wait);
    assert_eq!(looper.on_capture_event(CaptureEvent::Ready), LoopAction::AttemptCopy(CopyAttempt::Direct));
}

#[test]
fn both_copy_paths_failing_stops_the_loop() {
    let mut looper = PresentationLoop::new();
    assert_eq!(looper.on_vblank(), LoopAction::IssueCapture);
    assert_eq!(looper.on_capture_event(begin_1080p()), LoopAction::Wait);
    assert_eq!(looper.on_capture_event(CaptureEvent::Ready), LoopAction::AttemptCopy(CopyAttempt::Direct));
    assert_eq!(looper.on_copy_result(false), LoopAction::AttemptCopy(CopyAttempt::Cpu));
    assert_eq!(looper.on_copy_result(false), LoopAction::Stop(StopReason::NoViableCopyPath));
    assert!(looper.stopped());
}

#[test]
fn permanent_cancel_mid_construction_stops_everything() {
    let mut looper = PresentationLoop::new();
    assert_eq!(looper.on_vblank(), LoopAction::IssueCapture);
    assert_eq!(looper.on_capture_event(begin_1080p()), LoopAction::Wait);
    assert_eq!(looper.on_capture_event(single_plane()), LoopAction::Wait);
    assert_eq!(
        looper.on_capture_event(CaptureEvent::Cancel { permanent: true }),
        LoopAction::Stop(StopReason::SourceGone)
    );
    assert!(looper.stopped());

    // no further capture requests are ever issued
    assert_eq!(looper.on_vblank(), LoopAction::Wait);
    assert_eq!(looper.on_tick(), LoopAction::Wait);
    assert_eq!(looper.on_capture_event(begin_1080p()), LoopAction::Wait);
    assert!(looper.stopped());
}

#[test]
fn transient_cancel_sets_retry_and_next_tick_recaptures() {
    let mut looper = PresentationLoop::new();
    assert_eq!(looper.on_vblank(), LoopAction::IssueCapture);
    assert_eq!(looper.on_capture_event(begin_1080p()), LoopAction::Wait);
    assert_eq!(
        looper.on_capture_event(CaptureEvent::Cancel { permanent: false }),
        LoopAction::Wait
    );
    assert!(!looper.stopped());
    assert!(looper.retry_pending());

    // the next tick issues a fresh begin-initiated capture request
    assert_eq!(looper.on_tick(), LoopAction::IssueCapture);
    assert!(!looper.retry_pending());
    assert_eq!(looper.on_capture_event(begin_1080p()), LoopAction::Wait);
}

#[test]
fn transient_presentation_error_survives_and_retries() {
    let mut looper = PresentationLoop::new();
    assert_eq!(looper.on_vblank(), LoopAction::IssueCapture);
    assert_eq!(looper.on_capture_event(begin_1080p()), LoopAction::Wait);
    assert_eq!(looper.on_capture_event(CaptureEvent::Ready), LoopAction::AttemptCopy(CopyAttempt::Direct));
    assert_eq!(looper.on_copy_result(true), LoopAction::Present);

    // the acquire step reports a busy resource: retry, do not stop
    assert_eq!(looper.on_present_result(None, Some(RESOURCE_BUSY)), LoopAction::Wait);
    assert!(!looper.stopped());
    assert!(looper.retry_pending());
    assert_eq!(looper.on_tick(), LoopAction::IssueCapture);
}

#[test]
fn unknown_presentation_code_stops_the_loop() {
    let mut looper = PresentationLoop::new();
    assert_eq!(looper.on_vblank(), LoopAction::IssueCapture);
    assert_eq!(looper.on_capture_event(begin_1080p()), LoopAction::Wait);
    assert_eq!(looper.on_capture_event(CaptureEvent::Ready), LoopAction::AttemptCopy(CopyAttempt::Direct));
    assert_eq!(looper.on_copy_result(true), LoopAction::Present);
    assert_eq!(
        looper.on_present_result(Some(0x9999), None),
        LoopAction::Stop(StopReason::FatalPresentation(0x9999))
    );
    assert!(looper.stopped());
}

#[test]
fn only_one_frame_is_in_flight() {
    let mut looper = PresentationLoop::new();
    assert_eq!(looper.on_vblank(), LoopAction::IssueCapture);
    // further triggers while the capture is outstanding do nothing
    assert_eq!(looper.on_vblank(), LoopAction::Wait);
    assert_eq!(looper.on_tick(), LoopAction::Wait);
    assert_eq!(looper.on_capture_event(begin_1080p()), LoopAction::Wait);
    assert_eq!(looper.on_vblank(), LoopAction::Wait);
}

#[test]
fn protocol_violation_aborts_the_frame_only() {
    let mut looper = PresentationLoop::new();
    assert_eq!(looper.on_vblank(), LoopAction::IssueCapture);
    // a plane with no begin: the frame is aborted, the loop survives
    assert_eq!(looper.on_capture_event(single_plane()), LoopAction::Wait);
    assert!(!looper.stopped());

    // the next vblank starts over and a clean exchange completes
    assert_eq!(looper.on_vblank(), LoopAction::IssueCapture);
    assert_eq!(looper.on_capture_event(begin_1080p()), LoopAction::Wait);
    assert_eq!(looper.on_capture_event(CaptureEvent::Ready), LoopAction::AttemptCopy(CopyAttempt::Direct));
}

#[test]
fn vblank_consumes_a_pending_retry() {
    let mut looper = PresentationLoop::new();
    assert_eq!(looper.on_vblank(), LoopAction::IssueCapture);
    assert_eq!(
        looper.on_capture_event(CaptureEvent::Cancel { permanent: false }),
        LoopAction::Wait
    );
    assert!(looper.retry_pending());

    // a vblank arrives before the tick: it serves the retry
    assert_eq!(looper.on_vblank(), LoopAction::IssueCapture);
    assert!(!looper.retry_pending());
    // so the tick right after does not double-capture
    assert_eq!(looper.on_tick(), LoopAction::Wait);
}
