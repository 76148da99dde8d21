//! Verified core of a single-source, single-destination screen-mirroring
//! pipeline: reassembling a frame-export protocol exchange into one buffer
//! descriptor, managing the lifecycle of a hardware streaming output surface,
//! picking and keeping a copy strategy, and driving presentation with
//! retry-on-transient-failure semantics. The native graphics and protocol
//! calls themselves live outside this crate; the logic here decides, from
//! plain values the platform reported, what happens next.

pub mod capture;
pub mod errors;
pub mod present;
pub mod strategy;
pub mod stream;
