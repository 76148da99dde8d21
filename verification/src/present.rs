//! The presentation loop: on each trigger it captures a frame, hands it to
//! the copy pipeline, presents it on the stream surface, and classifies the
//! outcome as retry-worthy or fatal. At most one frame is in flight at any
//! time; a sticky retry flag, consumed on the next timer tick, replaces
//! busy-looping after a transient failure.

use vstd::prelude::*;

use crate::capture::{
    session_step, CaptureEvent, FrameCaptureSession, FrameDescriptor, FrameView, SessionSignal,
    SignalView,
};
use crate::errors::transient_code;
use crate::strategy::{
    attempt_allowed, first_attempt_of, strategy_step, CopyAttempt, CopyDecision, CopyPipeline,
    CopyStrategy,
};
use crate::stream::first_failure;

verus! {

/// Why the loop stopped.
#[derive(Clone, Copy, PartialEq, Eq, Structural, Debug)]
pub enum StopReason {
    /// The capture source output was removed (permanent cancel).
    SourceGone,
    /// Neither copy path worked on the very first frame.
    NoViableCopyPath,
    /// The already-proven copy path failed on a later frame.
    CopyPathFailed,
    /// An unclassified native presentation failure, with its code.
    FatalPresentation(u32),
}

/// Where the loop stands in the cycle of one frame.
enum LoopPhase {
    /// No frame in flight; waiting for a vblank or a pending retry.
    Idle,
    /// A capture request is outstanding; protocol messages are expected.
    Capturing,
    /// The completed frame is being copied.
    Copying { frame: FrameDescriptor },
    /// The frame is in a texture; the render-and-present step is outstanding.
    Presenting,
    /// The loop has ended and issues no further work.
    Stopped { reason: StopReason },
}

/// Ghost image of the loop's phase.
pub ghost enum PhaseView {
    Idle,
    Capturing,
    Copying { frame: FrameView, attempt: CopyAttempt },
    Presenting,
    Stopped { reason: StopReason },
}

/// Ghost image of the whole loop.
pub ghost struct LoopView {
    pub session: Option<FrameView>,
    pub strategy: CopyStrategy,
    pub retry: bool,
    pub phase: PhaseView,
}

impl LoopView {
    /// While a copy is in flight, the driven attempt is one the strategy
    /// machine accepts; and a frame is under protocol construction only
    /// while a capture is outstanding.
    pub open spec fn wf(self) -> bool {
        &&& (self.phase matches PhaseView::Copying { attempt, .. } ==> attempt_allowed(
            self.strategy,
            attempt,
        ))
        &&& (!(self.phase is Capturing) ==> self.session is None)
    }
}

/// What the loop asks its caller to do next.
#[derive(Clone, Copy, PartialEq, Eq, Structural, Debug)]
pub enum LoopAction {
    /// Nothing; wait for the next event.
    Wait,
    /// Ask the capture source for a new frame of the mirrored output.
    IssueCapture,
    /// Drive the named copy path on the frame the loop holds.
    AttemptCopy(CopyAttempt),
    /// Render the copied texture full-frame with identity transform and run
    /// the swap-then-acquire present on the stream surface.
    Present,
    /// Stop the pipeline for the given reason.
    Stop(StopReason),
}

/// The vblank transition: an idle loop issues a capture (consuming any
/// pending retry, which the new frame serves); a loop with a frame in flight
/// waits, and a stopped loop stays stopped.
pub open spec fn vblank_step(v: LoopView) -> (LoopView, LoopAction) {
    if v.phase is Idle {
        (LoopView { phase: PhaseView::Capturing, retry: false, ..v }, LoopAction::IssueCapture)
    } else {
        (v, LoopAction::Wait)
    }
}

/// The timer-tick transition: an idle loop with a pending retry issues a
/// capture and clears the flag; otherwise nothing happens.
pub open spec fn tick_step(v: LoopView) -> (LoopView, LoopAction) {
    if v.phase is Idle && v.retry {
        (LoopView { phase: PhaseView::Capturing, retry: false, ..v }, LoopAction::IssueCapture)
    } else {
        (v, LoopAction::Wait)
    }
}

/// The capture-message transition: while a capture is outstanding, the
/// session consumes the message; a completed frame starts the copy with the
/// strategy's first attempt, a violation aborts the current frame only, a
/// transient cancel sets the retry flag, and a permanent cancel stops the
/// loop. Messages outside an outstanding capture are ignored.
pub open spec fn capture_step(v: LoopView, ev: CaptureEvent) -> (LoopView, LoopAction) {
    if v.phase is Capturing {
        let stepped = session_step(v.session, ev);
        match stepped.1 {
            SignalView::Accepted => (LoopView { session: stepped.0, ..v }, LoopAction::Wait),
            SignalView::Completed(f) => (
                LoopView {
                    session: None,
                    phase: PhaseView::Copying {
                        frame: f,
                        attempt: first_attempt_of(v.strategy),
                    },
                    ..v
                },
                LoopAction::AttemptCopy(first_attempt_of(v.strategy)),
            ),
            SignalView::Rejected => (
                LoopView { session: None, phase: PhaseView::Idle, ..v },
                LoopAction::Wait,
            ),
            SignalView::RetryRequested => (
                LoopView { session: None, phase: PhaseView::Idle, retry: true, ..v },
                LoopAction::Wait,
            ),
            SignalView::SourceGone => (
                LoopView {
                    session: None,
                    phase: PhaseView::Stopped { reason: StopReason::SourceGone },
                    ..v
                },
                LoopAction::Stop(StopReason::SourceGone),
            ),
        }
    } else {
        (v, LoopAction::Wait)
    }
}

/// The copy-outcome transition: the strategy machine decides whether to
/// present, fall back to the CPU path on the same frame, or stop because no
/// path (or the proven path) works. Outcomes outside a copy are ignored.
pub open spec fn copy_step(v: LoopView, ok: bool) -> (LoopView, LoopAction) {
    match v.phase {
        PhaseView::Copying { frame, attempt } => {
            let stepped = strategy_step(v.strategy, attempt, ok);
            match stepped.1 {
                CopyDecision::Proceed => (
                    LoopView { strategy: stepped.0, phase: PhaseView::Presenting, ..v },
                    LoopAction::Present,
                ),
                CopyDecision::TryCpu => (
                    LoopView {
                        strategy: stepped.0,
                        phase: PhaseView::Copying { frame, attempt: CopyAttempt::Cpu },
                        ..v
                    },
                    LoopAction::AttemptCopy(CopyAttempt::Cpu),
                ),
                CopyDecision::NoViablePath => (
                    LoopView {
                        strategy: stepped.0,
                        phase: PhaseView::Stopped { reason: StopReason::NoViableCopyPath },
                        ..v
                    },
                    LoopAction::Stop(StopReason::NoViableCopyPath),
                ),
                CopyDecision::PathFailed => (
                    LoopView {
                        strategy: stepped.0,
                        phase: PhaseView::Stopped { reason: StopReason::CopyPathFailed },
                        ..v
                    },
                    LoopAction::Stop(StopReason::CopyPathFailed),
                ),
            }
        },
        _ => (v, LoopAction::Wait),
    }
}

/// The presentation-outcome transition: no native error completes the frame;
/// a known-recoverable first failure sets the retry flag and the loop
/// survives; any other code stops the loop. Outcomes outside an outstanding
/// present are ignored.
pub open spec fn present_step(
    v: LoopView,
    swap_error: Option<u32>,
    acquire_error: Option<u32>,
) -> (LoopView, LoopAction) {
    if v.phase is Presenting {
        match first_failure(swap_error, acquire_error) {
            None => (LoopView { phase: PhaseView::Idle, ..v }, LoopAction::Wait),
            Some(code) => {
                if transient_code(code) {
                    (LoopView { phase: PhaseView::Idle, retry: true, ..v }, LoopAction::Wait)
                } else {
                    (
                        LoopView {
                            phase: PhaseView::Stopped {
                                reason: StopReason::FatalPresentation(code),
                            },
                            ..v
                        },
                        LoopAction::Stop(StopReason::FatalPresentation(code)),
                    )
                }
            },
        }
    } else {
        (v, LoopAction::Wait)
    }
}

/// Drives the capture-copy-present cycle. The caller multiplexes the event
/// sources, performs each returned action natively, and reports the outcome
/// back; every decision in between is made here.
pub struct PresentationLoop {
    session: FrameCaptureSession,
    pipeline: CopyPipeline,
    retry: bool,
    attempt: CopyAttempt,
    phase: LoopPhase,
}

impl View for PresentationLoop {
    type V = LoopView;

    closed spec fn view(&self) -> LoopView {
        LoopView {
            session: self.session@,
            strategy: self.pipeline@,
            retry: self.retry,
            phase: match self.phase {
                LoopPhase::Idle => PhaseView::Idle,
                LoopPhase::Capturing => PhaseView::Capturing,
                LoopPhase::Copying { frame } => PhaseView::Copying {
                    frame: frame@,
                    attempt: self.attempt,
                },
                LoopPhase::Presenting => PhaseView::Presenting,
                LoopPhase::Stopped { reason } => PhaseView::Stopped { reason },
            },
        }
    }
}

impl PresentationLoop {
    /// A fresh loop: idle, no retry pending, strategy undecided.
    pub fn new() -> (l: PresentationLoop)
        ensures
            l@ == (LoopView {
                session: None,
                strategy: CopyStrategy::Undecided,
                retry: false,
                phase: PhaseView::Idle,
            }),
            l@.wf(),
    {
        PresentationLoop {
            session: FrameCaptureSession::new(),
            pipeline: CopyPipeline::new(),
            retry: false,
            attempt: CopyAttempt::Direct,
            phase: LoopPhase::Idle,
        }
    }

    /// A vblank arrived from the destination display.
    pub fn on_vblank(&mut self) -> (a: LoopAction)
        requires
            old(self)@.wf(),
        ensures
            final(self)@.wf(),
            (final(self)@, a) == vblank_step(old(self)@),
    {
        match &self.phase {
            LoopPhase::Idle => {
                self.retry = false;
                self.phase = LoopPhase::Capturing;
                LoopAction::IssueCapture
            },
            _ => LoopAction::Wait,
        }
    }

    /// The fixed-interval watchdog tick arrived.
    pub fn on_tick(&mut self) -> (a: LoopAction)
        requires
            old(self)@.wf(),
        ensures
            final(self)@.wf(),
            (final(self)@, a) == tick_step(old(self)@),
    {
        match &self.phase {
            LoopPhase::Idle => {
                if self.retry {
                    self.retry = false;
                    self.phase = LoopPhase::Capturing;
                    LoopAction::IssueCapture
                } else {
                    LoopAction::Wait
                }
            },
            _ => LoopAction::Wait,
        }
    }

    /// One capture-protocol message arrived.
    pub fn on_capture_event(&mut self, ev: CaptureEvent) -> (a: LoopAction)
        requires
            old(self)@.wf(),
        ensures
            final(self)@.wf(),
            (final(self)@, a) == capture_step(old(self)@, ev),
    {
        match &self.phase {
            LoopPhase::Capturing => {},
            _ => {
                return LoopAction::Wait;
            },
        }
        match self.session.handle(ev) {
            SessionSignal::Accepted => LoopAction::Wait,
            SessionSignal::Completed(frame) => {
                let attempt = self.pipeline.first_attempt();
                self.attempt = attempt;
                self.phase = LoopPhase::Copying { frame };
                LoopAction::AttemptCopy(attempt)
            },
            SessionSignal::Rejected => {
                self.phase = LoopPhase::Idle;
                LoopAction::Wait
            },
            SessionSignal::RetryRequested => {
                self.retry = true;
                self.phase = LoopPhase::Idle;
                LoopAction::Wait
            },
            SessionSignal::SourceGone => {
                self.phase = LoopPhase::Stopped { reason: StopReason::SourceGone };
                LoopAction::Stop(StopReason::SourceGone)
            },
        }
    }

    /// The driven copy attempt reported back.
    pub fn on_copy_result(&mut self, ok: bool) -> (a: LoopAction)
        requires
            old(self)@.wf(),
        ensures
            final(self)@.wf(),
            (final(self)@, a) == copy_step(old(self)@, ok),
    {
        match &self.phase {
            LoopPhase::Copying { .. } => {},
            _ => {
                return LoopAction::Wait;
            },
        }
        match self.pipeline.on_attempt(self.attempt, ok) {
            CopyDecision::Proceed => {
                self.phase = LoopPhase::Presenting;
                LoopAction::Present
            },
            CopyDecision::TryCpu => {
                self.attempt = CopyAttempt::Cpu;
                LoopAction::AttemptCopy(CopyAttempt::Cpu)
            },
            CopyDecision::NoViablePath => {
                self.phase = LoopPhase::Stopped { reason: StopReason::NoViableCopyPath };
                LoopAction::Stop(StopReason::NoViableCopyPath)
            },
            CopyDecision::PathFailed => {
                self.phase = LoopPhase::Stopped { reason: StopReason::CopyPathFailed };
                LoopAction::Stop(StopReason::CopyPathFailed)
            },
        }
    }

    /// The swap-then-acquire presentation reported back, as the native error
    /// of each step, if any.
    pub fn on_present_result(&mut self, swap_error: Option<u32>, acquire_error: Option<u32>) -> (a:
        LoopAction)
        requires
            old(self)@.wf(),
        ensures
            final(self)@.wf(),
            (final(self)@, a) == present_step(old(self)@, swap_error, acquire_error),
    {
        match &self.phase {
            LoopPhase::Presenting => {},
            _ => {
                return LoopAction::Wait;
            },
        }
        let failure = if swap_error.is_some() {
            swap_error
        } else {
            acquire_error
        };
        match failure {
            None => {
                self.phase = LoopPhase::Idle;
                LoopAction::Wait
            },
            Some(code) => {
                if crate::errors::is_transient_presentation_code(code) {
                    self.retry = true;
                    self.phase = LoopPhase::Idle;
                    LoopAction::Wait
                } else {
                    self.phase = LoopPhase::Stopped {
                        reason: StopReason::FatalPresentation(code),
                    };
                    LoopAction::Stop(StopReason::FatalPresentation(code))
                }
            },
        }
    }

    /// Whether the loop has ended.
    pub fn stopped(&self) -> (b: bool)
        ensures
            b == (self@.phase is Stopped),
    {
        match &self.phase {
            LoopPhase::Stopped { .. } => true,
            _ => false,
        }
    }

    /// Whether a retry is pending for the next tick.
    pub fn retry_pending(&self) -> (b: bool)
        ensures
            b == self@.retry,
    {
        self.retry
    }

    /// The frame currently being copied, if any.
    pub fn current_frame(&self) -> (f: Option<&FrameDescriptor>)
        ensures
            match f {
                Some(frame) => self@.phase matches PhaseView::Copying { frame: fv, .. } && frame@
                    == fv,
                None => !(self@.phase is Copying),
            },
    {
        match &self.phase {
            LoopPhase::Copying { frame } => Some(frame),
            _ => None,
        }
    }
}

/// A presentation failure with a known-recoverable code sets the retry flag,
/// returns the loop to idle, and does not stop it.
pub proof fn lemma_transient_presentation_survives(
    v: LoopView,
    swap_error: Option<u32>,
    acquire_error: Option<u32>,
)
    requires
        v.phase is Presenting,
        first_failure(swap_error, acquire_error) matches Some(code) && transient_code(code),
    ensures
        ({
            let stepped = present_step(v, swap_error, acquire_error);
            &&& stepped.0.retry
            &&& stepped.0.phase is Idle
            &&& stepped.1 == LoopAction::Wait
        }),
{
}

/// A presentation failure with any code outside the known-recoverable set
/// stops the loop with that code.
pub proof fn lemma_unknown_presentation_code_stops(
    v: LoopView,
    swap_error: Option<u32>,
    acquire_error: Option<u32>,
)
    requires
        v.phase is Presenting,
        first_failure(swap_error, acquire_error) matches Some(code) && !transient_code(code),
    ensures
        ({
            let stepped = present_step(v, swap_error, acquire_error);
            first_failure(swap_error, acquire_error) matches Some(code) ==> stepped.0.phase == (
            PhaseView::Stopped { reason: StopReason::FatalPresentation(code) }) && stepped.1
                == LoopAction::Stop(StopReason::FatalPresentation(code))
        }),
{
}

/// A stopped loop is inert: no event changes it or makes it issue any
/// further work.
pub proof fn lemma_stopped_is_inert(
    v: LoopView,
    ev: CaptureEvent,
    ok: bool,
    swap_error: Option<u32>,
    acquire_error: Option<u32>,
)
    requires
        v.phase is Stopped,
    ensures
        vblank_step(v) == (v, LoopAction::Wait),
        tick_step(v) == (v, LoopAction::Wait),
        capture_step(v, ev) == (v, LoopAction::Wait),
        copy_step(v, ok) == (v, LoopAction::Wait),
        present_step(v, swap_error, acquire_error) == (v, LoopAction::Wait),
{
}

/// At most one frame is in flight at any time: a capture request is only
/// ever issued from an idle loop, issuing one leaves the loop non-idle, and
/// no trigger issues another until the frame reaches a terminal outcome.
pub proof fn lemma_single_frame_in_flight(v: LoopView)
    ensures
        vblank_step(v).1 == LoopAction::IssueCapture ==> v.phase is Idle && vblank_step(
            v,
        ).0.phase is Capturing,
        tick_step(v).1 == LoopAction::IssueCapture ==> v.phase is Idle && tick_step(
            v,
        ).0.phase is Capturing,
        !(v.phase is Idle) ==> vblank_step(v).1 == LoopAction::Wait && tick_step(v).1
            == LoopAction::Wait,
{
}

/// A permanent cancel mid-construction stops the loop at once.
pub proof fn lemma_permanent_cancel_stops(v: LoopView)
    requires
        v.phase is Capturing,
    ensures
        ({
            let stepped = capture_step(v, (CaptureEvent::Cancel { permanent: true }));
            &&& stepped.0.phase == (PhaseView::Stopped { reason: StopReason::SourceGone })
            &&& stepped.1 == LoopAction::Stop(StopReason::SourceGone)
        }),
{
}

/// A transient cancel sets the retry flag, and the next tick issues a fresh
/// capture request.
pub proof fn lemma_transient_cancel_retries(v: LoopView)
    requires
        v.phase is Capturing,
    ensures
        ({
            let stepped = capture_step(v, (CaptureEvent::Cancel { permanent: false }));
            &&& stepped.0.retry
            &&& stepped.0.phase is Idle
            &&& stepped.1 == LoopAction::Wait
            &&& tick_step(stepped.0).1 == LoopAction::IssueCapture
            &&& tick_step(stepped.0).0.phase is Capturing
        }),
{
}

} // verus!
