//! Reassembly of the asynchronous frame-export protocol: an ordered exchange
//! `Begin, Plane*, (Ready | Cancel)` becomes one complete frame descriptor,
//! or a classified outcome. At most one frame is under construction at a
//! time; an out-of-order message is a protocol violation.

use vstd::prelude::*;

use crate::errors::PipelineError;

verus! {

/// One memory plane of a captured frame: an owned file-descriptor handle to
/// the plane's memory, plus its layout within the buffer.
#[derive(Clone, Copy, PartialEq, Eq, Structural, Debug)]
pub struct PlaneDescriptor {
    pub fd: i32,
    pub plane_index: u32,
    pub offset: u32,
    pub stride: u32,
}

/// A fully reassembled frame export: geometry, pixel format code, the flag
/// bitmask passed through unmodified to the destination import call, the
/// 64-bit layout modifier, and the planes in submission order.
pub struct FrameDescriptor {
    pub width: u32,
    pub height: u32,
    pub flags: u32,
    pub format: u32,
    pub modifier: u64,
    pub planes: Vec<PlaneDescriptor>,
}

/// Ghost image of a frame descriptor.
pub ghost struct FrameView {
    pub width: u32,
    pub height: u32,
    pub flags: u32,
    pub format: u32,
    pub modifier: u64,
    pub planes: Seq<PlaneDescriptor>,
}

impl View for FrameDescriptor {
    type V = FrameView;

    open spec fn view(&self) -> FrameView {
        FrameView {
            width: self.width,
            height: self.height,
            flags: self.flags,
            format: self.format,
            modifier: self.modifier,
            planes: self.planes@,
        }
    }
}

/// The 64-bit buffer-layout modifier as the protocol carries it: the high
/// half shifted left by 32 bits, OR'd with the low half.
pub open spec fn modifier_of(mod_hi: u32, mod_lo: u32) -> u64 {
    ((mod_hi as u64) << 32) | (mod_lo as u64)
}

/// Combines the two 32-bit modifier halves into the 64-bit modifier.
pub fn combine_modifier(mod_hi: u32, mod_lo: u32) -> (m: u64)
    ensures
        m == modifier_of(mod_hi, mod_lo),
{
    ((mod_hi as u64) << 32) | (mod_lo as u64)
}

/// One message of the capture protocol.
#[derive(Clone, Copy, PartialEq, Eq, Structural, Debug)]
pub enum CaptureEvent {
    /// Opens a new frame: geometry, pass-through flags, pixel format, and the
    /// two halves of the layout modifier.
    Begin { width: u32, height: u32, flags: u32, format: u32, mod_hi: u32, mod_lo: u32 },
    /// Adds one memory plane to the frame under construction.
    Plane { fd: i32, plane_index: u32, offset: u32, stride: u32 },
    /// Declares the frame under construction complete.
    Ready,
    /// Aborts the exchange: permanently (the source output is gone) or
    /// transiently (discard and retry).
    Cancel { permanent: bool },
}

/// What one protocol message did to a session, at the specification level.
pub ghost enum SignalView {
    Accepted,
    Completed(FrameView),
    Rejected,
    RetryRequested,
    SourceGone,
}

/// The frame a `Begin` message opens: the given fields, the modifier
/// assembled from its two halves, and no planes yet.
pub open spec fn begun_view(
    width: u32,
    height: u32,
    flags: u32,
    format: u32,
    mod_hi: u32,
    mod_lo: u32,
) -> FrameView {
    FrameView {
        width,
        height,
        flags,
        format,
        modifier: modifier_of(mod_hi, mod_lo),
        planes: Seq::empty(),
    }
}

/// A frame under construction with one more plane appended at the end.
pub open spec fn with_plane(f: FrameView, p: PlaneDescriptor) -> FrameView {
    FrameView { planes: f.planes.push(p), ..f }
}

/// The session transition: from the frame under construction (if any) and one
/// message to the next pending frame and the resulting signal. A violation
/// abandons the frame under construction; a cancel always discards it.
pub open spec fn session_step(pending: Option<FrameView>, ev: CaptureEvent) -> (Option<
    FrameView,
>, SignalView) {
    match ev {
        CaptureEvent::Begin { width, height, flags, format, mod_hi, mod_lo } => {
            if pending is Some {
                (None, SignalView::Rejected)
            } else {
                (
                    Some(begun_view(width, height, flags, format, mod_hi, mod_lo)),
                    SignalView::Accepted,
                )
            }
        },
        CaptureEvent::Plane { fd, plane_index, offset, stride } => {
            match pending {
                Some(f) => (
                    Some(with_plane(f, (PlaneDescriptor { fd, plane_index, offset, stride }))),
                    SignalView::Accepted,
                ),
                None => (None, SignalView::Rejected),
            }
        },
        CaptureEvent::Ready => {
            match pending {
                Some(f) => (None, SignalView::Completed(f)),
                None => (None, SignalView::Rejected),
            }
        },
        CaptureEvent::Cancel { permanent } => {
            (
                None,
                if permanent {
                    SignalView::SourceGone
                } else {
                    SignalView::RetryRequested
                },
            )
        },
    }
}

/// What a cancel message asks of the whole pipeline.
#[derive(Clone, Copy, PartialEq, Eq, Structural, Debug)]
pub enum CancelDisposition {
    /// The source output is gone; the pipeline must stop.
    StopPipeline,
    /// The frame was discarded; ask for a new one later.
    RetryRequested,
}

/// What one protocol message did to the session, with the completed frame's
/// ownership transferred to the caller.
pub enum SessionSignal {
    /// The message advanced the frame under construction.
    Accepted,
    /// The frame is complete.
    Completed(FrameDescriptor),
    /// The message was out of order; the frame under construction, if any,
    /// was abandoned. The session itself survives.
    Rejected,
    /// A transient cancel: the frame was discarded, retry later.
    RetryRequested,
    /// A permanent cancel: the source output is gone.
    SourceGone,
}

impl View for SessionSignal {
    type V = SignalView;

    open spec fn view(&self) -> SignalView {
        match self {
            SessionSignal::Accepted => SignalView::Accepted,
            SessionSignal::Completed(d) => SignalView::Completed(d@),
            SessionSignal::Rejected => SignalView::Rejected,
            SessionSignal::RetryRequested => SignalView::RetryRequested,
            SessionSignal::SourceGone => SignalView::SourceGone,
        }
    }
}

/// Consumes the ordered capture-protocol exchange and produces either a
/// completed frame descriptor or a classified outcome. Holds no planes after
/// handing off a completed descriptor, and makes no native calls.
pub struct FrameCaptureSession {
    pending: Option<FrameDescriptor>,
}

impl View for FrameCaptureSession {
    type V = Option<FrameView>;

    closed spec fn view(&self) -> Option<FrameView> {
        match self.pending {
            Some(f) => Some(f@),
            None => None,
        }
    }
}

impl FrameCaptureSession {
    /// A fresh session with no frame under construction.
    pub fn new() -> (s: FrameCaptureSession)
        ensures
            s@ is None,
    {
        FrameCaptureSession { pending: None }
    }

    /// Starts a new frame. A second begin while one is already under
    /// construction is a protocol violation and leaves the session unchanged.
    pub fn on_begin(
        &mut self,
        width: u32,
        height: u32,
        flags: u32,
        format: u32,
        mod_hi: u32,
        mod_lo: u32,
    ) -> (r: Result<(), PipelineError>)
        ensures
            old(self)@ is Some ==> r == Err::<(), PipelineError>(PipelineError::Protocol)
                && final(self)@ == old(self)@,
            old(self)@ is None ==> r == Ok::<(), PipelineError>(()) && final(self)@ == Some(
                begun_view(width, height, flags, format, mod_hi, mod_lo),
            ),
    {
        if self.pending.is_some() {
            Err(PipelineError::Protocol)
        } else {
            self.pending = Some(
                FrameDescriptor {
                    width,
                    height,
                    flags,
                    format,
                    modifier: combine_modifier(mod_hi, mod_lo),
                    planes: Vec::new(),
                },
            );
            Ok(())
        }
    }

    /// Appends one plane to the frame under construction, preserving
    /// submission order. A plane before any begin is a protocol violation and
    /// leaves the session unchanged.
    pub fn on_plane(&mut self, fd: i32, plane_index: u32, offset: u32, stride: u32) -> (r: Result<
        (),
        PipelineError,
    >)
        ensures
            old(self)@ is None ==> r == Err::<(), PipelineError>(PipelineError::Protocol)
                && final(self)@ is None,
            old(self)@ matches Some(f) ==> r == Ok::<(), PipelineError>(()) && final(self)@
                == Some(with_plane(f, (PlaneDescriptor { fd, plane_index, offset, stride }))),
    {
        match &mut self.pending {
            Some(frame) => {
                frame.planes.push(PlaneDescriptor { fd, plane_index, offset, stride });
                Ok(())
            },
            None => Err(PipelineError::Protocol),
        }
    }

    /// Finalizes the frame under construction and transfers it to the caller;
    /// the session is empty afterwards. A ready before any begin is a
    /// protocol violation.
    pub fn on_ready(&mut self) -> (r: Result<FrameDescriptor, PipelineError>)
        ensures
            final(self)@ is None,
            old(self)@ is None ==> r == Err::<FrameDescriptor, PipelineError>(
                PipelineError::Protocol,
            ),
            old(self)@ matches Some(f) ==> r matches Ok(d) && d@ == f,
    {
        match self.pending.take() {
            Some(frame) => Ok(frame),
            None => Err(PipelineError::Protocol),
        }
    }

    /// A cancel always discards any frame under construction. A permanent
    /// cancel means the source output is gone and the pipeline must stop; any
    /// other cancel asks for a retry and is not an error.
    pub fn on_cancel(&mut self, permanent: bool) -> (r: CancelDisposition)
        ensures
            final(self)@ is None,
            r == (if permanent {
                CancelDisposition::StopPipeline
            } else {
                CancelDisposition::RetryRequested
            }),
    {
        self.pending = None;
        if permanent {
            CancelDisposition::StopPipeline
        } else {
            CancelDisposition::RetryRequested
        }
    }

    /// Feeds one protocol message to the session. On a violation the frame
    /// under construction is abandoned: the current frame is aborted, the
    /// session itself stays usable.
    pub fn handle(&mut self, ev: CaptureEvent) -> (r: SessionSignal)
        ensures
            (final(self)@, r@) == session_step(old(self)@, ev),
    {
        match ev {
            CaptureEvent::Begin { width, height, flags, format, mod_hi, mod_lo } => {
                match self.on_begin(width, height, flags, format, mod_hi, mod_lo) {
                    Ok(()) => SessionSignal::Accepted,
                    Err(_) => {
                        self.pending = None;
                        SessionSignal::Rejected
                    },
                }
            },
            CaptureEvent::Plane { fd, plane_index, offset, stride } => {
                match self.on_plane(fd, plane_index, offset, stride) {
                    Ok(()) => SessionSignal::Accepted,
                    Err(_) => SessionSignal::Rejected,
                }
            },
            CaptureEvent::Ready => {
                match self.on_ready() {
                    Ok(frame) => SessionSignal::Completed(frame),
                    Err(_) => SessionSignal::Rejected,
                }
            },
            CaptureEvent::Cancel { permanent } => {
                match self.on_cancel(permanent) {
                    CancelDisposition::StopPipeline => SessionSignal::SourceGone,
                    CancelDisposition::RetryRequested => SessionSignal::RetryRequested,
                }
            },
        }
    }
}

/// The frame under construction after a whole message sequence, replayed in
/// order from `pending`.
pub open spec fn session_run(pending: Option<FrameView>, evs: Seq<CaptureEvent>) -> Option<
    FrameView,
>
    decreases evs.len(),
{
    if evs.len() == 0 {
        pending
    } else {
        session_run(session_step(pending, evs[0]).0, evs.drop_first())
    }
}

/// The plane messages for a given list of planes, in order.
pub open spec fn plane_events(planes: Seq<PlaneDescriptor>) -> Seq<CaptureEvent> {
    planes.map(
        |i: int, p: PlaneDescriptor|
            CaptureEvent::Plane {
                fd: p.fd,
                plane_index: p.plane_index,
                offset: p.offset,
                stride: p.stride,
            },
    )
}

/// Replaying any number of plane messages onto a frame under construction
/// appends exactly those planes, in submission order.
pub proof fn lemma_planes_preserved(f: FrameView, planes: Seq<PlaneDescriptor>)
    ensures
        session_run(Some(f), plane_events(planes)) == Some(
            (FrameView { planes: f.planes + planes, ..f }),
        ),
    decreases planes.len(),
{
    if planes.len() == 0 {
        assert(f.planes + planes =~= f.planes);
        assert(plane_events(planes).len() == 0);
    } else {
        let p = planes[0];
        let rest = planes.drop_first();
        assert(plane_events(planes)[0] == (CaptureEvent::Plane {
            fd: p.fd,
            plane_index: p.plane_index,
            offset: p.offset,
            stride: p.stride,
        }));
        assert(plane_events(planes).drop_first() =~= plane_events(rest));
        lemma_planes_preserved(with_plane(f, p), rest);
        assert(f.planes.push(p) + rest =~= f.planes + planes);
    }
}

/// A valid exchange `Begin, Plane*, Ready` is accepted throughout and
/// completes with the modifier assembled from the two halves and the plane
/// list exactly in submission order.
pub proof fn lemma_valid_sequence_completes(
    width: u32,
    height: u32,
    flags: u32,
    format: u32,
    mod_hi: u32,
    mod_lo: u32,
    planes: Seq<PlaneDescriptor>,
)
    ensures
        ({
            let opened = session_step(
                None,
                (CaptureEvent::Begin { width, height, flags, format, mod_hi, mod_lo }),
            );
            let built = session_run(opened.0, plane_events(planes));
            &&& opened.1 == SignalView::Accepted
            &&& built matches Some(f) && session_step(built, CaptureEvent::Ready) == (
                None::<FrameView>,
                SignalView::Completed(f),
            ) && f.modifier == modifier_of(mod_hi, mod_lo) && f.planes == planes
        }),
{
    let begun = begun_view(width, height, flags, format, mod_hi, mod_lo);
    lemma_planes_preserved(begun, planes);
    assert(begun.planes + planes =~= planes);
}

/// An out-of-order message is rejected: a plane or a ready with no frame
/// under construction, and a second begin while one is under construction.
pub proof fn lemma_out_of_order_rejected(ev: CaptureEvent, f: FrameView)
    ensures
        ev matches CaptureEvent::Plane { .. } ==> session_step(None, ev).1 == SignalView::Rejected,
        ev == CaptureEvent::Ready ==> session_step(None, ev).1 == SignalView::Rejected,
        ev matches CaptureEvent::Begin { .. } ==> session_step(Some(f), ev).1
            == SignalView::Rejected,
{
}

} // verus!
