//! Counting mode: clock-driven ("timer") or software-driven ("counter").
//!
//! A peripheral is constructed directly into one of the two modes and never
//! converted afterwards. Timer mode carries the divider exponent; counter
//! mode has none.

use vstd::prelude::*;
use crate::prescaler::{Prescale, Prescaler};
use crate::sealed::Sealed;

verus! {

/// The mode of a peripheral as a run-time value, with the prescale value in
/// timer mode.
#[derive(Clone, Copy, Debug, PartialEq, Eq, Structural)]
pub enum Mode {
    Timer(Prescale),
    Counter,
}

/// Marker type for a peripheral running in counter mode.
pub struct Counter;

/// Marker type for a peripheral running in timer mode with prescale `P`.
pub struct Timer<P: Prescaler> {
    prescaler: core::marker::PhantomData<P>,
}

/// Maps a mode marker type to its run-time value.
pub trait ModeTag: Sealed {
    spec fn mode() -> Mode;
}

impl Sealed for Counter {
}

impl ModeTag for Counter {
    open spec fn mode() -> Mode {
        Mode::Counter
    }
}

impl<P: Prescaler> Sealed for Timer<P> {
}

impl<P: Prescaler> ModeTag for Timer<P> {
    open spec fn mode() -> Mode {
        Mode::Timer(P::val())
    }
}

} // verus!
