//! Selection of the way captured frames reach the destination GPU: a
//! zero-copy cross-device import, or a CPU round-trip through host memory.
//! The strategy is decided once, on the first frame that succeeds, and kept
//! for the rest of the run.

use vstd::prelude::*;

verus! {

/// How captured frames reach the destination GPU.
#[derive(Clone, Copy, PartialEq, Eq, Structural, Debug)]
pub enum CopyStrategy {
    /// No frame has succeeded yet; the decision is still open.
    Undecided,
    /// Frames are imported directly into the destination context, zero-copy.
    DirectImport,
    /// Frames are read back into host memory and re-uploaded as a texture.
    CPUCopy,
}

/// One way of moving a single frame.
#[derive(Clone, Copy, PartialEq, Eq, Structural, Debug)]
pub enum CopyAttempt {
    /// Try the zero-copy cross-device import.
    Direct,
    /// Read pixels on the source context and upload them on the destination.
    Cpu,
}

/// What to do after one copy attempt reported back.
#[derive(Clone, Copy, PartialEq, Eq, Structural, Debug)]
pub enum CopyDecision {
    /// The frame is in a presentable texture; go present it.
    Proceed,
    /// The direct import was refused on the deciding frame; fall back to the
    /// CPU path for the same frame.
    TryCpu,
    /// Both paths failed on the deciding frame: no viable copy path exists.
    NoViablePath,
    /// The already-proven path failed; surfaced as a fatal presentation
    /// error, since the same import characteristics apply to every frame of a
    /// session.
    PathFailed,
}

/// Which attempt a pipeline in strategy `s` drives first for a new frame: the
/// proven path once one is fixed, else the zero-copy import.
pub open spec fn first_attempt_of(s: CopyStrategy) -> CopyAttempt {
    match s {
        CopyStrategy::CPUCopy => CopyAttempt::Cpu,
        _ => CopyAttempt::Direct,
    }
}

/// Whether the pipeline would ever drive attempt `a` while in strategy `s`:
/// once a strategy is fixed, the other path is never attempted again.
pub open spec fn attempt_allowed(s: CopyStrategy, a: CopyAttempt) -> bool {
    match a {
        CopyAttempt::Direct => s != CopyStrategy::CPUCopy,
        CopyAttempt::Cpu => s != CopyStrategy::DirectImport,
    }
}

/// The strategy transition: the strategy and decision after attempt `a`
/// reported `ok`. A success while undecided fixes the strategy; a failure of
/// the direct import while undecided falls back to the CPU path; a failure of
/// the CPU fallback while undecided means no path works; any outcome on a
/// fixed strategy keeps it.
pub open spec fn strategy_step(s: CopyStrategy, a: CopyAttempt, ok: bool) -> (
    CopyStrategy,
    CopyDecision,
) {
    match (s, a) {
        (CopyStrategy::Undecided, CopyAttempt::Direct) => {
            if ok {
                (CopyStrategy::DirectImport, CopyDecision::Proceed)
            } else {
                (CopyStrategy::Undecided, CopyDecision::TryCpu)
            }
        },
        (CopyStrategy::Undecided, CopyAttempt::Cpu) => {
            if ok {
                (CopyStrategy::CPUCopy, CopyDecision::Proceed)
            } else {
                (CopyStrategy::Undecided, CopyDecision::NoViablePath)
            }
        },
        (fixed, _) => {
            if ok {
                (fixed, CopyDecision::Proceed)
            } else {
                (fixed, CopyDecision::PathFailed)
            }
        },
    }
}

/// Chooses, and then sticks to, the way frames are copied to the destination
/// GPU. Makes no native calls itself: the caller drives the attempt this
/// pipeline names and reports back how it went.
pub struct CopyPipeline {
    strategy: CopyStrategy,
}

impl View for CopyPipeline {
    type V = CopyStrategy;

    closed spec fn view(&self) -> CopyStrategy {
        self.strategy
    }
}

impl CopyPipeline {
    /// A fresh pipeline that has not yet decided how to copy.
    pub fn new() -> (p: CopyPipeline)
        ensures
            p@ == CopyStrategy::Undecided,
    {
        CopyPipeline { strategy: CopyStrategy::Undecided }
    }

    /// The attempt to drive first for a new frame.
    pub fn first_attempt(&self) -> (a: CopyAttempt)
        ensures
            a == first_attempt_of(self@),
    {
        match self.strategy {
            CopyStrategy::CPUCopy => CopyAttempt::Cpu,
            _ => CopyAttempt::Direct,
        }
    }

    /// Records how attempt `a` went and says what to do next. On the deciding
    /// frame a success fixes the strategy for the rest of the run.
    pub fn on_attempt(&mut self, a: CopyAttempt, ok: bool) -> (d: CopyDecision)
        requires
            attempt_allowed(old(self)@, a),
        ensures
            (final(self)@, d) == strategy_step(old(self)@, a, ok),
    {
        match (self.strategy, a) {
            (CopyStrategy::Undecided, CopyAttempt::Direct) => {
                if ok {
                    self.strategy = CopyStrategy::DirectImport;
                    CopyDecision::Proceed
                } else {
                    CopyDecision::TryCpu
                }
            },
            (CopyStrategy::Undecided, CopyAttempt::Cpu) => {
                if ok {
                    self.strategy = CopyStrategy::CPUCopy;
                    CopyDecision::Proceed
                } else {
                    CopyDecision::NoViablePath
                }
            },
            (_, _) => {
                if ok {
                    CopyDecision::Proceed
                } else {
                    CopyDecision::PathFailed
                }
            },
        }
    }

    /// The strategy the pipeline has settled on, if any.
    pub fn strategy(&self) -> (s: CopyStrategy)
        ensures
            s == self@,
    {
        self.strategy
    }
}

/// The strategy reached by replaying a run of attempt outcomes from `s`,
/// driving at each step the attempt the pipeline itself names first.
pub open spec fn strategy_run(s: CopyStrategy, outcomes: Seq<bool>) -> CopyStrategy
    decreases outcomes.len(),
{
    if outcomes.len() == 0 {
        s
    } else {
        strategy_run(strategy_step(s, first_attempt_of(s), outcomes[0]).0, outcomes.drop_first())
    }
}

/// Once the strategy has settled, it never changes again over any run of
/// later outcomes, the first attempt for every later frame is the settled
/// path itself, and no decision ever asks for the other path.
pub proof fn lemma_strategy_sticky(s: CopyStrategy, outcomes: Seq<bool>)
    requires
        s != CopyStrategy::Undecided,
    ensures
        strategy_run(s, outcomes) == s,
        first_attempt_of(s) == (if s == CopyStrategy::DirectImport {
            CopyAttempt::Direct
        } else {
            CopyAttempt::Cpu
        }),
        forall|ok: bool|
            (#[trigger] strategy_step(s, first_attempt_of(s), ok)).0 == s && strategy_step(
                s,
                first_attempt_of(s),
                ok,
            ).1 != CopyDecision::TryCpu,
    decreases outcomes.len(),
{
    if outcomes.len() > 0 {
        lemma_strategy_sticky(
            strategy_step(s, first_attempt_of(s), outcomes[0]).0,
            outcomes.drop_first(),
        );
    }
}

/// How the CPU path uploads the read-back pixels as a destination texture:
/// both wrap directions clamped to edge, to avoid sampling artifacts at the
/// borders of the full-frame quad.
#[derive(Clone, Copy, PartialEq, Eq, Structural, Debug)]
pub struct UploadConfig {
    pub clamp_wrap_s_to_edge: bool,
    pub clamp_wrap_t_to_edge: bool,
}

/// The fixed texture-upload settings for the CPU path.
pub fn upload_config() -> (c: UploadConfig)
    ensures
        c.clamp_wrap_s_to_edge,
        c.clamp_wrap_t_to_edge,
{
    UploadConfig { clamp_wrap_s_to_edge: true, clamp_wrap_t_to_edge: true }
}

/// Bytes needed to hold one frame of the given mode as tightly packed 32-bit
/// pixels. The CPU path allocates its reusable read-back buffer at this size
/// once and keeps it across frames.
pub fn cpu_buffer_len(width: u32, height: u32) -> (n: usize)
    requires
        width * height * 4 <= usize::MAX,
    ensures
        n == width * height * 4,
{
    (width as usize) * (height as usize) * 4
}

} // verus!
