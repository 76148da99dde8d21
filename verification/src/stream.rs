//! Lifecycle of the hardware streaming output surface bound to one display
//! plane: lazy creation from what the platform reported, producer attachment,
//! deferred recreation on mode changes, and classification of the
//! swap-then-acquire presentation outcome.

use vstd::prelude::*;

use crate::errors::{classified, PipelineError};

verus! {

/// Where the streaming surface stands in its lifecycle.
#[derive(Clone, Copy, PartialEq, Eq, Structural, Debug)]
pub enum StreamState {
    /// No native stream exists.
    Uninitialized,
    /// The native stream exists and its consumer is linked; no producer yet.
    Created,
    /// The producer-side surface is attached; the stream can present.
    Bound,
    /// A mode change invalidated the stream; the next build recreates it.
    NeedsRecreation,
}

/// The capability extensions the platform must offer before a stream can be
/// created: output enumeration, output-to-display linkage, streams
/// themselves, flip-event notification, an output layer as stream consumer,
/// and a producer-side stream surface.
#[derive(Clone, Copy, PartialEq, Eq, Structural, Debug)]
pub struct StreamCapabilities {
    pub output_base: bool,
    pub output_drm: bool,
    pub stream: bool,
    pub flip_event: bool,
    pub consumer_output: bool,
    pub producer_surface: bool,
}

/// Whether every required capability extension is present.
pub open spec fn caps_complete(c: StreamCapabilities) -> bool {
    c.output_base && c.output_drm && c.stream && c.flip_event && c.consumer_output
        && c.producer_surface
}

/// What the native layer reported while the stream was being built: the
/// advertised capabilities, how many output layers match the target plane,
/// the layer's minimum swap interval, the handle the native create call
/// returned (zero for none), and whether the consumer link succeeded.
#[derive(Clone, Copy, PartialEq, Eq, Structural, Debug)]
pub struct CreateProbe {
    pub caps: StreamCapabilities,
    pub layer_count: u32,
    pub min_swap_interval: i32,
    pub stream_handle: u64,
    pub consumer_link_ok: bool,
}

/// The settings every stream is created with: a zero-length internal queue
/// (mailbox behaviour), automatic consumer acquire off — frames are acquired
/// manually, with a flip event scoped to the CRTC — and no acquire timeout.
#[derive(Clone, Copy, PartialEq, Eq, Structural, Debug)]
pub struct StreamConfig {
    pub fifo_length: u32,
    pub auto_acquire: bool,
    pub acquire_timeout_usec: u32,
}

/// The fixed creation settings for the native stream.
pub fn stream_config() -> (c: StreamConfig)
    ensures
        c.fifo_length == 0,
        !c.auto_acquire,
        c.acquire_timeout_usec == 0,
{
    StreamConfig { fifo_length: 0, auto_acquire: false, acquire_timeout_usec: 0 }
}

/// A reported minimum swap interval of zero is unusable on some drivers and
/// is clamped to one; anything else is taken as reported.
pub open spec fn effective_interval(reported: i32) -> i32 {
    if reported == 0 {
        1
    } else {
        reported
    }
}

/// What building the stream from `p` yields: the first missing requirement
/// decides, in the order the build performs its steps.
pub open spec fn create_outcome(p: CreateProbe) -> Result<(), PipelineError> {
    if !caps_complete(p.caps) {
        Err(PipelineError::UnsupportedPlatform)
    } else if p.layer_count == 0 {
        Err(PipelineError::NoOutputLayer)
    } else if p.stream_handle == 0 {
        Err(PipelineError::StreamCreationFailed)
    } else if !p.consumer_link_ok {
        Err(PipelineError::ConsumerLinkFailed)
    } else {
        Ok(())
    }
}

/// Ghost image of a streaming surface.
pub ghost struct SurfaceView {
    pub plane: u32,
    pub crtc: u32,
    pub width: u32,
    pub height: u32,
    pub state: StreamState,
    pub stream_handle: Option<u64>,
    pub surface_handle: Option<u64>,
    pub swap_interval: i32,
}

impl SurfaceView {
    /// The current target mode.
    pub open spec fn mode(self) -> (u32, u32) {
        (self.width, self.height)
    }

    /// Handles are held exactly in the states that own them: the stream
    /// handle once created, both handles once bound, none otherwise.
    pub open spec fn wf(self) -> bool {
        &&& (self.state == StreamState::Created ==> self.stream_handle is Some
            && self.surface_handle is None)
        &&& (self.state == StreamState::Bound ==> self.stream_handle is Some
            && self.surface_handle is Some)
        &&& (self.state == StreamState::Uninitialized || self.state == StreamState::NeedsRecreation
            ==> self.stream_handle is None && self.surface_handle is None)
    }
}

/// The state after a mode change: a live stream must be rebuilt; a surface
/// that has no stream yet is unaffected.
pub open spec fn state_after_mode_change(s: StreamState) -> StreamState {
    match s {
        StreamState::Created | StreamState::Bound => StreamState::NeedsRecreation,
        other => other,
    }
}

/// The resize transition: a resize to the active mode changes nothing; a
/// resize to a different mode records the mode, drops the handles, and marks
/// a live stream for recreation.
pub open spec fn resize_view(v: SurfaceView, width: u32, height: u32) -> SurfaceView {
    if (width, height) == v.mode() {
        v
    } else {
        SurfaceView {
            width,
            height,
            state: state_after_mode_change(v.state),
            stream_handle: None,
            surface_handle: None,
            ..v
        }
    }
}

/// The build transition: on success the surface holds the created stream at
/// the clamped swap interval; on failure nothing native is left behind.
pub open spec fn create_view(v: SurfaceView, p: CreateProbe) -> (SurfaceView, Result<
    (),
    PipelineError,
>) {
    match create_outcome(p) {
        Ok(()) => (
            SurfaceView {
                state: StreamState::Created,
                stream_handle: Some(p.stream_handle),
                surface_handle: None,
                swap_interval: effective_interval(p.min_swap_interval),
                ..v
            },
            Ok(()),
        ),
        Err(e) => (
            SurfaceView {
                state: StreamState::Uninitialized,
                stream_handle: None,
                surface_handle: None,
                ..v
            },
            Err(e),
        ),
    }
}

/// The producer-attachment transition: the surface handle is recorded and
/// the stream is fully bound to its plane.
pub open spec fn attach_view(v: SurfaceView, surface_handle: u64) -> SurfaceView {
    SurfaceView { state: StreamState::Bound, surface_handle: Some(surface_handle), ..v }
}

/// What the caller needs for one presentation: the producer surface to swap,
/// the stream to acquire from manually, and the CRTC the flip event is
/// scoped to. The acquire step must follow the swap — with automatic acquire
/// disabled, omitting it would let the stream advance without ever
/// presenting to the plane.
#[derive(Clone, Copy, PartialEq, Eq, Structural, Debug)]
pub struct PresentRequest {
    pub surface_handle: u64,
    pub stream_handle: u64,
    pub flip_event_crtc: u32,
}

/// The first failure of the swap-then-acquire sequence: the swap error if
/// the swap failed, else the acquire error, if any.
pub open spec fn first_failure(swap_error: Option<u32>, acquire_error: Option<u32>) -> Option<
    u32,
> {
    if swap_error is Some {
        swap_error
    } else {
        acquire_error
    }
}

/// The classified outcome of one presentation: success without any native
/// error, else the first failure code classified into transient or fatal.
pub open spec fn present_result(swap_error: Option<u32>, acquire_error: Option<u32>) -> Result<
    (),
    PipelineError,
> {
    match first_failure(swap_error, acquire_error) {
        Some(code) => Err(classified(code)),
        None => Ok(()),
    }
}

/// Owns the streaming output surface attached to one display plane and CRTC,
/// sized to a target mode. The native stream is built lazily — on the first
/// use after construction, and again after every recreation request — from
/// values the caller obtained natively and reports here.
pub struct StreamSurface {
    plane: u32,
    crtc: u32,
    width: u32,
    height: u32,
    state: StreamState,
    stream_handle: Option<u64>,
    surface_handle: Option<u64>,
    swap_interval: i32,
}

impl View for StreamSurface {
    type V = SurfaceView;

    closed spec fn view(&self) -> SurfaceView {
        SurfaceView {
            plane: self.plane,
            crtc: self.crtc,
            width: self.width,
            height: self.height,
            state: self.state,
            stream_handle: self.stream_handle,
            surface_handle: self.surface_handle,
            swap_interval: self.swap_interval,
        }
    }
}

impl StreamSurface {
    /// A surface for the given plane and CRTC at the target mode; nothing
    /// native exists yet.
    pub fn new(plane: u32, crtc: u32, width: u32, height: u32) -> (s: StreamSurface)
        ensures
            s@ == (SurfaceView {
                plane,
                crtc,
                width,
                height,
                state: StreamState::Uninitialized,
                stream_handle: None,
                surface_handle: None,
                swap_interval: 1,
            }),
            s@.wf(),
    {
        StreamSurface {
            plane,
            crtc,
            width,
            height,
            state: StreamState::Uninitialized,
            stream_handle: None,
            surface_handle: None,
            swap_interval: 1,
        }
    }

    /// Builds the native stream from what the platform reported, checking in
    /// order: all six capability extensions present, at least one output
    /// layer matching the plane, a valid handle from the native create call,
    /// and a successful consumer link. A zero minimum swap interval is
    /// clamped to one. Serves both the first build and every rebuild after a
    /// recreation request.
    pub fn create(&mut self, probe: &CreateProbe) -> (r: Result<(), PipelineError>)
        requires
            old(self)@.wf(),
            old(self)@.state == StreamState::Uninitialized || old(self)@.state
                == StreamState::NeedsRecreation,
        ensures
            final(self)@.wf(),
            (final(self)@, r) == create_view(old(self)@, *probe),
    {
        if !(probe.caps.output_base && probe.caps.output_drm && probe.caps.stream
            && probe.caps.flip_event && probe.caps.consumer_output && probe.caps.producer_surface) {
            self.state = StreamState::Uninitialized;
            return Err(PipelineError::UnsupportedPlatform);
        }
        if probe.layer_count == 0 {
            self.state = StreamState::Uninitialized;
            return Err(PipelineError::NoOutputLayer);
        }
        if probe.stream_handle == 0 {
            self.state = StreamState::Uninitialized;
            return Err(PipelineError::StreamCreationFailed);
        }
        if !probe.consumer_link_ok {
            self.state = StreamState::Uninitialized;
            return Err(PipelineError::ConsumerLinkFailed);
        }
        self.state = StreamState::Created;
        self.stream_handle = Some(probe.stream_handle);
        self.surface_handle = None;
        self.swap_interval = if probe.min_swap_interval == 0 {
            1
        } else {
            probe.min_swap_interval
        };
        Ok(())
    }

    /// Records the producer-side surface created for this stream at the
    /// current mode; the stream is then fully bound to its plane. Only
    /// callable once the stream itself exists.
    pub fn attach_producer(&mut self, surface_handle: u64)
        requires
            old(self)@.wf(),
            old(self)@.state == StreamState::Created,
        ensures
            final(self)@.wf(),
            final(self)@ == attach_view(old(self)@, surface_handle),
    {
        self.state = StreamState::Bound;
        self.surface_handle = Some(surface_handle);
    }

    /// Adopts a new target mode. The same mode is a no-op and keeps the
    /// stream; a different mode records the new size and marks a live stream
    /// for recreation, deferring the actual teardown and rebuild to the next
    /// build. Always succeeds.
    pub fn resize(&mut self, width: u32, height: u32)
        requires
            old(self)@.wf(),
        ensures
            final(self)@.wf(),
            final(self)@ == resize_view(old(self)@, width, height),
    {
        if self.width != width || self.height != height {
            self.width = width;
            self.height = height;
            self.stream_handle = None;
            self.surface_handle = None;
            self.state = match self.state {
                StreamState::Created | StreamState::Bound => StreamState::NeedsRecreation,
                other => other,
            };
        }
    }

    /// Whether the next use must build the native stream first: true whenever
    /// no native stream exists — on a freshly constructed surface, whose
    /// stream is created lazily on the first use, just as after a mode change
    /// invalidated a live one.
    pub fn needs_recreation(&self) -> (b: bool)
        ensures
            b == (self@.stream_handle is None),
    {
        self.stream_handle.is_none()
    }

    /// What the caller needs to run the swap-then-acquire sequence for one
    /// frame, with the flip event scoped to this surface's CRTC.
    pub fn present_request(&self) -> (r: PresentRequest)
        requires
            self@.wf(),
            self@.state == StreamState::Bound,
        ensures
            Some(r.surface_handle) == self@.surface_handle,
            Some(r.stream_handle) == self@.stream_handle,
            r.flip_event_crtc == self@.crtc,
    {
        let surface_handle = match self.surface_handle {
            Some(h) => h,
            None => vstd::pervasive::unreached(),
        };
        let stream_handle = match self.stream_handle {
            Some(h) => h,
            None => vstd::pervasive::unreached(),
        };
        PresentRequest { surface_handle, stream_handle, flip_event_crtc: self.crtc }
    }

    /// The swap interval the stream was created with.
    pub fn swap_interval(&self) -> (i: i32)
        ensures
            i == self@.swap_interval,
    {
        self.swap_interval
    }

    /// The current target mode.
    pub fn mode(&self) -> (m: (u32, u32))
        ensures
            m == self@.mode(),
    {
        (self.width, self.height)
    }

    /// The lifecycle state the surface is in.
    pub fn state(&self) -> (s: StreamState)
        ensures
            s == self@.state,
    {
        self.state
    }
}

/// Classifies the outcome of one swap-then-acquire presentation: the first
/// native error decides, and no error at all is success.
pub fn present_outcome(swap_error: Option<u32>, acquire_error: Option<u32>) -> (r: Result<
    (),
    PipelineError,
>)
    ensures
        r == present_result(swap_error, acquire_error),
{
    let failure = if swap_error.is_some() {
        swap_error
    } else {
        acquire_error
    };
    match failure {
        Some(code) => Err(crate::errors::classify_presentation_code(code)),
        None => Ok(()),
    }
}

/// A resize to the currently active mode is a no-op: the stream is kept and
/// no recreation cost is incurred.
pub proof fn lemma_resize_same_mode_is_noop(v: SurfaceView, width: u32, height: u32)
    requires
        (width, height) == v.mode(),
    ensures
        resize_view(v, width, height) == v,
{
}

/// A resize of a live stream to a different mode causes exactly one
/// recreation: the resize marks the stream, and the next successful build
/// consumes the mark and leaves a created stream at the new mode.
pub proof fn lemma_resize_then_one_recreation(
    v: SurfaceView,
    width: u32,
    height: u32,
    probe: CreateProbe,
)
    requires
        v.wf(),
        (width, height) != v.mode(),
        v.state == StreamState::Created || v.state == StreamState::Bound,
        create_outcome(probe) is Ok,
    ensures
        ({
            let resized = resize_view(v, width, height);
            let rebuilt = create_view(resized, probe).0;
            &&& resized.state == StreamState::NeedsRecreation
            &&& rebuilt.state == StreamState::Created
            &&& rebuilt.mode() == (width, height)
        }),
{
}

} // verus!
