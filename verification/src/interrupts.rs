//! Marker types for the per-channel interrupt-enable flags of the typed
//! layer.
//!
//! A bank type such as `IS4<Enabled, Disabled, Disabled, Disabled>` records
//! in its type parameters which channels currently raise interrupts. The
//! typed layer's enable and disable methods splice one position of the bank
//! type while the other positions pass through unconstrained.

use vstd::prelude::*;
use crate::sealed::Sealed;

verus! {

/// Marker type for a channel that raises an interrupt when its threshold is
/// reached.
pub struct Enabled;

/// Marker type for a channel that does not raise an interrupt.
pub struct Disabled;

/// Maps an interrupt-flag marker type to its run-time value.
pub trait IrqState: Sealed {
    spec fn enabled() -> bool;
}

impl Sealed for Enabled {
}

impl IrqState for Enabled {
    open spec fn enabled() -> bool {
        true
    }
}

impl Sealed for Disabled {
}

impl IrqState for Disabled {
    open spec fn enabled() -> bool {
        false
    }
}

/// Interrupt state of the four channels of a basic peripheral.
///
/// IS is short for Interrupt State.
pub struct IS4<I0, I1, I2, I3> {
    i0: core::marker::PhantomData<I0>,
    i1: core::marker::PhantomData<I1>,
    i2: core::marker::PhantomData<I2>,
    i3: core::marker::PhantomData<I3>,
}

/// Interrupt state of the six channels of an extended peripheral.
///
/// IS is short for Interrupt State.
pub struct IS6<I0, I1, I2, I3, I4, I5> {
    i0: core::marker::PhantomData<I0>,
    i1: core::marker::PhantomData<I1>,
    i2: core::marker::PhantomData<I2>,
    i3: core::marker::PhantomData<I3>,
    i4: core::marker::PhantomData<I4>,
    i5: core::marker::PhantomData<I5>,
}

/// Maps a bank marker type to the run-time values of its flags, in channel
/// order.
pub trait IrqBank: Sealed {
    spec fn flags() -> Seq<bool>;
}

impl<I0: IrqState, I1: IrqState, I2: IrqState, I3: IrqState> Sealed for IS4<I0, I1, I2, I3> {
}

impl<I0: IrqState, I1: IrqState, I2: IrqState, I3: IrqState> IrqBank for IS4<I0, I1, I2, I3> {
    open spec fn flags() -> Seq<bool> {
        seq![I0::enabled(), I1::enabled(), I2::enabled(), I3::enabled()]
    }
}

impl<
    I0: IrqState,
    I1: IrqState,
    I2: IrqState,
    I3: IrqState,
    I4: IrqState,
    I5: IrqState,
> Sealed for IS6<I0, I1, I2, I3, I4, I5> {
}

impl<
    I0: IrqState,
    I1: IrqState,
    I2: IrqState,
    I3: IrqState,
    I4: IrqState,
    I5: IrqState,
> IrqBank for IS6<I0, I1, I2, I3, I4, I5> {
    open spec fn flags() -> Seq<bool> {
        seq![
            I0::enabled(),
            I1::enabled(),
            I2::enabled(),
            I3::enabled(),
            I4::enabled(),
            I5::enabled(),
        ]
    }
}

/// Bank types in which every channel is disabled: the shapes a freshly
/// constructed peripheral starts in. Construction disables and unpends all
/// channels, so only the all-`Disabled` banks are valid result shapes; the
/// proof obligation pins that down.
pub trait ClearState: IrqBank {
    proof fn flags_all_clear()
        ensures
            forall|k: int| 0 <= k < Self::flags().len() ==> !Self::flags()[k],
    ;
}

impl ClearState for IS4<Disabled, Disabled, Disabled, Disabled> {
    proof fn flags_all_clear() {
    }
}

impl ClearState for IS6<Disabled, Disabled, Disabled, Disabled, Disabled, Disabled> {
    proof fn flags_all_clear() {
    }
}

} // verus!
