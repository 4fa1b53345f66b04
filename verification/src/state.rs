//! Run state of a peripheral: armed and counting, or halted.

use vstd::prelude::*;
use crate::sealed::Sealed;

verus! {

/// Run state as a run-time value. Starting arms the counting mechanism;
/// stopping halts it without resetting the live count.
#[derive(Clone, Copy, Debug, PartialEq, Eq, Structural)]
pub enum Run {
    Stopped,
    Started,
}

/// Marker type for a running peripheral.
pub struct Started;

/// Marker type for a halted peripheral.
pub struct Stopped;

/// Maps a run-state marker type to its run-time value.
pub trait RunState: Sealed {
    spec fn run() -> Run;
}

impl Sealed for Started {
}

impl RunState for Started {
    open spec fn run() -> Run {
        Run::Started
    }
}

impl Sealed for Stopped {
}

impl RunState for Stopped {
    open spec fn run() -> Run {
        Run::Stopped
    }
}

} // verus!
