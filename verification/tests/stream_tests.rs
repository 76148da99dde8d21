use nvscreencopy::errors::{
    classify_presentation_code, is_transient_presentation_code, PipelineError, BAD_STREAM_STATE,
    BAD_SURFACE, RESOURCE_BUSY,
};
use nvscreencopy::stream::{
    present_outcome, stream_config, CreateProbe, StreamCapabilities, StreamState, StreamSurface,
};

fn full_caps() -> StreamCapabilities {
    StreamCapabilities {
        output_base: true,
        output_drm: true,
        stream: true,
        flip_event: true,
        consumer_output: true,
        producer_surface: true,
    }
}

fn good_probe() -> CreateProbe {
    CreateProbe {
        caps: full_caps(),
        layer_count: 1,
        min_swap_interval: 1,
        stream_handle: 0x55,
        consumer_link_ok: true,
    }
}

#[test]
fn create_rejects_any_missing_extension() {
    for missing in 0..6 {
        let mut caps = full_caps();
        match missing {
            0 => caps.output_base = false,
            1 => caps.output_drm = false,
            2 => caps.stream = false,
            3 => caps.flip_event = false,
            4 => caps.consumer_output = false,
            _ => caps.producer_surface = false,
        }
        let mut surface = StreamSurface::new(1, 2, 1920, 1080);
        let probe = CreateProbe { caps, ..good_probe() };
        assert_eq!(surface.create(&probe), Err(PipelineError::UnsupportedPlatform));
        assert_eq!(surface.state(), StreamState::Uninitialized);
    }
}

#[test]
fn create_checks_in_order() {
    let mut surface = StreamSurface::new(1, 2, 1920, 1080);
    let no_layer = CreateProbe { layer_count: 0, ..good_probe() };
    assert_eq!(surface.create(&no_layer), Err(PipelineError::NoOutputLayer));

    let null_stream = CreateProbe { stream_handle: 0, ..good_probe() };
    assert_eq!(surface.create(&null_stream), Err(PipelineError::StreamCreationFailed));

    let no_link = CreateProbe { consumer_link_ok: false, ..good_probe() };
    assert_eq!(surface.create(&no_link), Err(PipelineError::ConsumerLinkFailed));

    // a probe that misses several requirements reports the earliest one
    let both = CreateProbe { layer_count: 0, stream_handle: 0, ..good_probe() };
    assert_eq!(surface.create(&both), Err(PipelineError::NoOutputLayer));

    assert_eq!(surface.create(&good_probe()), Ok(()));
    assert_eq!(surface.state(), StreamState::Created);
}

#[test]
fn zero_swap_interval_is_clamped_to_one() {
    let mut surface = StreamSurface::new(1, 2, 1920, 1080);
    let probe = CreateProbe { min_swap_interval: 0, ..good_probe() };
    assert_eq!(surface.create(&probe), Ok(()));
    assert_eq!(surface.swap_interval(), 1);

    let mut surface2 = StreamSurface::new(1, 2, 1920, 1080);
    let probe2 = CreateProbe { min_swap_interval: 2, ..good_probe() };
    assert_eq!(surface2.create(&probe2), Ok(()));
    assert_eq!(surface2.swap_interval(), 2);
}

#[test]
fn resize_to_active_mode_is_a_noop() {
    let mut surface = StreamSurface::new(1, 2, 1920, 1080);
    assert_eq!(surface.create(&good_probe()), Ok(()));
    surface.attach_producer(0x99);
    assert_eq!(surface.state(), StreamState::Bound);

    surface.resize(1920, 1080);
    assert_eq!(surface.state(), StreamState::Bound);
    assert!(!surface.needs_recreation());
}

#[test]
fn resize_to_new_mode_causes_one_recreation() {
    let mut surface = StreamSurface::new(1, 2, 1920, 1080);
    assert_eq!(surface.create(&good_probe()), Ok(()));
    surface.attach_producer(0x99);

    surface.resize(1280, 720);
    assert!(surface.needs_recreation());
    assert_eq!(surface.mode(), (1280, 720));

    // exactly one rebuild brings the stream back
    assert_eq!(surface.create(&good_probe()), Ok(()));
    assert!(!surface.needs_recreation());
    assert_eq!(surface.state(), StreamState::Created);
    surface.attach_producer(0xaa);
    assert_eq!(surface.state(), StreamState::Bound);
    assert!(!surface.needs_recreation());
}

#[test]
fn resize_before_any_stream_only_records_mode() {
    let mut surface = StreamSurface::new(1, 2, 1920, 1080);
    surface.resize(1280, 720);
    assert_eq!(surface.state(), StreamState::Uninitialized);
    assert_eq!(surface.mode(), (1280, 720));
    // there is still no native stream, so the next use must build one
    assert!(surface.needs_recreation());
}

#[test]
fn fresh_surface_needs_its_first_build() {
    let mut surface = StreamSurface::new(1, 2, 1920, 1080);
    // the native stream is created lazily: a fresh surface reports that the
    // next use must build it
    assert!(surface.needs_recreation());
    assert_eq!(surface.create(&good_probe()), Ok(()));
    assert!(!surface.needs_recreation());
    surface.attach_producer(0x99);
    assert!(!surface.needs_recreation());
}

#[test]
fn stream_is_created_with_manual_acquire() {
    let config = stream_config();
    assert_eq!(config.fifo_length, 0);
    assert!(!config.auto_acquire);
    assert_eq!(config.acquire_timeout_usec, 0);
}

#[test]
fn present_request_carries_the_crtc() {
    let mut surface = StreamSurface::new(7, 42, 1920, 1080);
    assert_eq!(surface.create(&good_probe()), Ok(()));
    surface.attach_producer(0x99);
    let request = surface.present_request();
    assert_eq!(request.surface_handle, 0x99);
    assert_eq!(request.stream_handle, 0x55);
    assert_eq!(request.flip_event_crtc, 42);
}

#[test]
fn transient_codes_classify_as_transient() {
    for code in [RESOURCE_BUSY, BAD_STREAM_STATE, BAD_SURFACE] {
        assert!(is_transient_presentation_code(code));
        assert_eq!(classify_presentation_code(code), PipelineError::TransientPresentation(code));
    }
    assert_eq!(RESOURCE_BUSY, 0x3353);
    assert_eq!(BAD_STREAM_STATE, 0x321c);
    assert_eq!(BAD_SURFACE, 0x300d);
}

#[test]
fn unknown_codes_classify_as_fatal() {
    for code in [0u32, 0x3000, 0x300c, 0x3354, 0xffff_ffff] {
        assert!(!is_transient_presentation_code(code));
        assert_eq!(classify_presentation_code(code), PipelineError::FatalPresentation(code));
    }
}

#[test]
fn present_outcome_takes_the_first_failure() {
    assert_eq!(present_outcome(None, None), Ok(()));
    assert_eq!(
        present_outcome(Some(RESOURCE_BUSY), None),
        Err(PipelineError::TransientPresentation(RESOURCE_BUSY))
    );
    assert_eq!(
        present_outcome(None, Some(BAD_SURFACE)),
        Err(PipelineError::TransientPresentation(BAD_SURFACE))
    );
    // the swap failure wins over a later acquire failure
    assert_eq!(
        present_outcome(Some(0x9999), Some(RESOURCE_BUSY)),
        Err(PipelineError::FatalPresentation(0x9999))
    );
}
