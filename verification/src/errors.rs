//! The failure taxonomy of the pipeline, and the classification of native
//! presentation failure codes into retry-worthy and fatal ones.

use vstd::prelude::*;

verus! {

/// Native code for an output resource that is temporarily claimed elsewhere.
pub const RESOURCE_BUSY: u32 = 0x3353;

/// Native code for a stream that is momentarily in a state that cannot accept
/// a new frame.
pub const BAD_STREAM_STATE: u32 = 0x321c;

/// Native code for a surface that is temporarily invalid.
pub const BAD_SURFACE: u32 = 0x300d;

/// Everything that can go wrong in the pipeline, as surfaced to callers.
#[derive(Clone, Copy, PartialEq, Eq, Structural, Debug)]
pub enum PipelineError {
    /// An out-of-order capture-protocol message.
    Protocol,
    /// A required platform capability extension is missing; construction-time,
    /// fatal.
    UnsupportedPlatform,
    /// No hardware output layer matches the target plane; construction-time,
    /// fatal.
    NoOutputLayer,
    /// The native stream-create call returned an invalid handle;
    /// construction-time, fatal.
    StreamCreationFailed,
    /// The output layer refused to be linked as the stream's consumer;
    /// construction-time, fatal.
    ConsumerLinkFailed,
    /// A recoverable presentation failure, carrying the native code for
    /// diagnostics.
    TransientPresentation(u32),
    /// An unclassified presentation failure; treated as unrecoverable rather
    /// than risking silent frame corruption.
    FatalPresentation(u32),
}

/// The native presentation failure codes known to be recoverable.
pub open spec fn transient_code(code: u32) -> bool {
    code == RESOURCE_BUSY || code == BAD_STREAM_STATE || code == BAD_SURFACE
}

/// How a native presentation failure code is surfaced: the known-recoverable
/// codes become transient errors, everything else is fatal.
pub open spec fn classified(code: u32) -> PipelineError {
    if transient_code(code) {
        PipelineError::TransientPresentation(code)
    } else {
        PipelineError::FatalPresentation(code)
    }
}

/// Sorts a native presentation failure code into retry-worthy or fatal.
pub fn classify_presentation_code(code: u32) -> (e: PipelineError)
    ensures
        e == classified(code),
{
    if code == RESOURCE_BUSY || code == BAD_STREAM_STATE || code == BAD_SURFACE {
        PipelineError::TransientPresentation(code)
    } else {
        PipelineError::FatalPresentation(code)
    }
}

/// Whether a native presentation failure code is one of the known-recoverable
/// ones.
pub fn is_transient_presentation_code(code: u32) -> (b: bool)
    ensures
        b == transient_code(code),
{
    code == RESOURCE_BUSY || code == BAD_STREAM_STATE || code == BAD_SURFACE
}

} // verus!
