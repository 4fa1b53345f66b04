//! Typed interface to the peripheral: the driver state mirrored in type
//! parameters.
//!
//! A `Timer<S, W, I, C>` carries its run state `S`, bit width `W`, per-channel
//! interrupt flags `I` and mode `C` as marker types, so that an operation
//! that would be rejected at run time — changing the width or the divider
//! while started, ticking outside started counter mode, enabling an
//! already-enabled channel — does not compile in the first place. Each
//! method is proved against the dynamic layer: the well-formedness invariant
//! says the markers agree with the underlying `Peripheral`, and under it the
//! run-time guard of the wrapped operation is proved to pass.
//!
//! Methods that move the machine to a new state consume the value and return
//! one of the new type; the underlying register block moves along with it.

use vstd::prelude::*;
use core::marker::PhantomData;
use crate::bitmode::{BitWidth, Width, W32};
use crate::channels::Channel;
use crate::driver::{cleared, reset_writes, Peripheral, PeripheralView};
use crate::interrupts::{ClearState, Disabled, Enabled, IrqBank, IrqState, IS4};
use crate::mode::{Counter as CounterMode, Mode, ModeTag, Timer as TimerMode};
use crate::prescaler::{Prescale, Prescaler, P0};
use crate::regs::{latched, wrapped, RegWrite, Regs};
use crate::state::{Run, RunState, Started, Stopped};

verus! {

/// A peripheral whose run state, width, interrupt flags and mode are carried
/// in its type.
pub struct Timer<S, W, I, C> {
    p: Peripheral,
    s: PhantomData<S>,
    w: PhantomData<W>,
    i: PhantomData<I>,
    c: PhantomData<C>,
}

impl<S, W, I, C> View for Timer<S, W, I, C> {
    type V = PeripheralView;

    closed spec fn view(&self) -> PeripheralView {
        self.p@
    }
}

impl<S: RunState, W: Width, I: IrqBank, C: ModeTag> Timer<S, W, I, C> {
    /// The underlying peripheral is well formed and agrees with the marker
    /// types: the run state is `S`, the width is `W`, the mode is `C`, and
    /// channel `k`'s interrupt-enable flag is `I`'s flag `k`.
    pub closed spec fn wf(self) -> bool {
        &&& self.p.wf()
        &&& self@.run == S::run()
        &&& self@.width == W::width()
        &&& self@.mode == C::mode()
        &&& self@.chans.len() == I::flags().len()
        &&& forall|k: int| 0 <= k < I::flags().len() ==> self@.chans[k].enabled == I::flags()[k]
    }

    /// Read access to the underlying peripheral, for observation.
    pub fn peripheral(&self) -> (r: &Peripheral)
        ensures
            r@ == self@,
    {
        &self.p
    }

    /// Zeroes the live count. Legal both started and stopped.
    pub fn reset(&mut self)
        requires
            old(self).wf(),
        ensures
            final(self).wf(),
            final(self)@ == (PeripheralView {
                count: 0,
                log: old(self)@.log.push(RegWrite::TaskClear),
                ..old(self)@
            }),
    {
        self.p.reset();
    }
}

impl<I: ClearState> Timer<Stopped, W32, I, TimerMode<P0>> {
    /// Takes ownership of a register block in any prior state and constructs
    /// a timer-mode peripheral: stopped, 32 bits wide, divider exponent
    /// zero, every channel disabled and unpended. The block must have as
    /// many channels as the bank type `I` describes.
    pub fn timer(hw: Regs) -> (r: Self)
        requires
            hw.wf(),
            hw@.chans.len() == I::flags().len(),
        ensures
            r.wf(),
            r@ == (PeripheralView {
                variant: hw@.variant,
                run: Run::Stopped,
                mode: Mode::Timer(Prescale::P0),
                width: BitWidth::W32,
                chans: cleared(hw@.chans),
                count: hw@.count,
                log: hw@.log + reset_writes(hw@.chans.len(), false),
            }),
    {
        let p = Peripheral::timer(hw);
        proof {
            I::flags_all_clear();
        }
        Timer { p, s: PhantomData, w: PhantomData, i: PhantomData, c: PhantomData }
    }
}

impl<I: ClearState> Timer<Stopped, W32, I, CounterMode> {
    /// Takes ownership of a register block in any prior state and constructs
    /// a counter-mode peripheral: stopped, 32 bits wide, every channel
    /// disabled and unpended. The block must have as many channels as the
    /// bank type `I` describes.
    pub fn counter(hw: Regs) -> (r: Self)
        requires
            hw.wf(),
            hw@.chans.len() == I::flags().len(),
        ensures
            r.wf(),
            r@ == (PeripheralView {
                variant: hw@.variant,
                run: Run::Stopped,
                mode: Mode::Counter,
                width: BitWidth::W32,
                chans: cleared(hw@.chans),
                count: hw@.count,
                log: hw@.log + reset_writes(hw@.chans.len(), true),
            }),
    {
        let p = Peripheral::counter(hw);
        proof {
            I::flags_all_clear();
        }
        Timer { p, s: PhantomData, w: PhantomData, i: PhantomData, c: PhantomData }
    }
}

impl<W: Width, I: IrqBank, C: ModeTag> Timer<Stopped, W, I, C> {
    /// Sets the bit width, available only while stopped. Channels, count and
    /// run state are unaffected.
    pub fn set_counterwidth<W2: Width>(self) -> (r: Timer<Stopped, W2, I, C>)
        requires
            self.wf(),
        ensures
            r.wf(),
            r@ == (PeripheralView {
                width: W2::width(),
                log: self@.log.push(RegWrite::Bitmode(W2::width().encoding_spec())),
                ..self@
            }),
    {
        let Timer { mut p, .. } = self;
        let _ = p.set_width(W2::value());
        Timer { p, s: PhantomData, w: PhantomData, i: PhantomData, c: PhantomData }
    }

    /// Arms the counting mechanism, available only while stopped. Width,
    /// divider, channels and count are unaffected.
    pub fn start(self) -> (r: Timer<Started, W, I, C>)
        requires
            self.wf(),
        ensures
            r.wf(),
            r@ == (PeripheralView {
                run: Run::Started,
                log: self@.log.push(RegWrite::TaskStart),
                ..self@
            }),
    {
        let Timer { mut p, .. } = self;
        let _ = p.start();
        Timer { p, s: PhantomData, w: PhantomData, i: PhantomData, c: PhantomData }
    }
}

impl<W: Width, I: IrqBank, P: Prescaler> Timer<Stopped, W, I, TimerMode<P>> {
    /// Sets the divider exponent, available only while stopped and in timer
    /// mode.
    pub fn set_prescale<P2: Prescaler>(self) -> (r: Timer<Stopped, W, I, TimerMode<P2>>)
        requires
            self.wf(),
        ensures
            r.wf(),
            r@ == (PeripheralView {
                mode: Mode::Timer(P2::val()),
                log: self@.log.push(RegWrite::PrescalerField(P2::val().encoding_spec())),
                ..self@
            }),
    {
        let Timer { mut p, .. } = self;
        let _ = p.set_prescale(P2::value());
        Timer { p, s: PhantomData, w: PhantomData, i: PhantomData, c: PhantomData }
    }
}

impl<W: Width, I: IrqBank, C: ModeTag> Timer<Started, W, I, C> {
    /// Halts counting, available only while started. The live count is
    /// kept.
    pub fn stop(self) -> (r: Timer<Stopped, W, I, C>)
        requires
            self.wf(),
        ensures
            r.wf(),
            r@ == (PeripheralView {
                run: Run::Stopped,
                log: self@.log.push(RegWrite::TaskStop),
                ..self@
            }),
    {
        let Timer { mut p, .. } = self;
        let _ = p.stop();
        Timer { p, s: PhantomData, w: PhantomData, i: PhantomData, c: PhantomData }
    }
}

impl<W: Width, I: IrqBank> Timer<Started, W, I, CounterMode> {
    /// One software increment of the live count, available only in started
    /// counter mode. The count wraps to zero at the width's modulus, and
    /// every channel whose threshold matches the new count latches its
    /// pending flag.
    pub fn tick(&mut self)
        requires
            old(self).wf(),
        ensures
            final(self).wf(),
            final(self)@ == (PeripheralView {
                count: wrapped(old(self)@.count, old(self)@.width),
                chans: latched(
                    old(self)@.chans,
                    old(self)@.width.modulus_spec() as int,
                    wrapped(old(self)@.count, old(self)@.width),
                ),
                log: old(self)@.log.push(RegWrite::TaskCount),
                ..old(self)@
            }),
    {
        let _ = self.p.tick();
        proof {
            assert forall|k: int| 0 <= k < I::flags().len() implies self@.chans[k].enabled
                == I::flags()[k] by {
                assert(self@.chans[k] == latched(
                    old(self)@.chans,
                    old(self)@.width.modulus_spec() as int,
                    wrapped(old(self)@.count, old(self)@.width),
                )[k]);
            }
        }
    }
}

impl<
    S: RunState,
    W: Width,
    I0: IrqState,
    I1: IrqState,
    I2: IrqState,
    I3: IrqState,
    C: ModeTag,
> Timer<S, W, IS4<I0, I1, I2, I3>, C> {
    /// Clears channel 0's pending-event flag; the other channels are
    /// untouched.
    pub fn unpend_interrupt_0(&mut self)
        requires
            old(self).wf(),
        ensures
            final(self).wf(),
            final(self)@ == (PeripheralView {
                chans: old(self)@.chans.update(
                    0,
                    (Channel { pending: false, ..old(self)@.chans[0] }),
                ),
                log: old(self)@.log.push(RegWrite::ClearEvent(0)),
                ..old(self)@
            }),
    {
        let _ = self.p.unpend_interrupt(0);
    }

    /// Clears channel 1's pending-event flag; the other channels are
    /// untouched.
    pub fn unpend_interrupt_1(&mut self)
        requires
            old(self).wf(),
        ensures
            final(self).wf(),
            final(self)@ == (PeripheralView {
                chans: old(self)@.chans.update(
                    1,
                    (Channel { pending: false, ..old(self)@.chans[1] }),
                ),
                log: old(self)@.log.push(RegWrite::ClearEvent(1)),
                ..old(self)@
            }),
    {
        let _ = self.p.unpend_interrupt(1);
    }

    /// Clears channel 2's pending-event flag; the other channels are
    /// untouched.
    pub fn unpend_interrupt_2(&mut self)
        requires
            old(self).wf(),
        ensures
            final(self).wf(),
            final(self)@ == (PeripheralView {
                chans: old(self)@.chans.update(
                    2,
                    (Channel { pending: false, ..old(self)@.chans[2] }),
                ),
                log: old(self)@.log.push(RegWrite::ClearEvent(2)),
                ..old(self)@
            }),
    {
        let _ = self.p.unpend_interrupt(2);
    }

    /// Clears channel 3's pending-event flag; the other channels are
    /// untouched.
    pub fn unpend_interrupt_3(&mut self)
        requires
            old(self).wf(),
        ensures
            final(self).wf(),
            final(self)@ == (PeripheralView {
                chans: old(self)@.chans.update(
                    3,
                    (Channel { pending: false, ..old(self)@.chans[3] }),
                ),
                log: old(self)@.log.push(RegWrite::ClearEvent(3)),
                ..old(self)@
            }),
    {
        let _ = self.p.unpend_interrupt(3);
    }

    /// Writes channel 0's threshold; any value is legal at any width. The
    /// other channels are untouched.
    pub fn compare_against_0(&mut self, value: u32)
        requires
            old(self).wf(),
        ensures
            final(self).wf(),
            final(self)@ == (PeripheralView {
                chans: old(self)@.chans.update(
                    0,
                    (Channel { compare: value, ..old(self)@.chans[0] }),
                ),
                log: old(self)@.log.push(RegWrite::CompareValue(0, value)),
                ..old(self)@
            }),
    {
        let _ = self.p.compare_against(0, value);
    }

    /// Writes channel 1's threshold; any value is legal at any width. The
    /// other channels are untouched.
    pub fn compare_against_1(&mut self, value: u32)
        requires
            old(self).wf(),
        ensures
            final(self).wf(),
            final(self)@ == (PeripheralView {
                chans: old(self)@.chans.update(
                    1,
                    (Channel { compare: value, ..old(self)@.chans[1] }),
                ),
                log: old(self)@.log.push(RegWrite::CompareValue(1, value)),
                ..old(self)@
            }),
    {
        let _ = self.p.compare_against(1, value);
    }

    /// Writes channel 2's threshold; any value is legal at any width. The
    /// other channels are untouched.
    pub fn compare_against_2(&mut self, value: u32)
        requires
            old(self).wf(),
        ensures
            final(self).wf(),
            final(self)@ == (PeripheralView {
                chans: old(self)@.chans.update(
                    2,
                    (Channel { compare: value, ..old(self)@.chans[2] }),
                ),
                log: old(self)@.log.push(RegWrite::CompareValue(2, value)),
                ..old(self)@
            }),
    {
        let _ = self.p.compare_against(2, value);
    }

    /// Writes channel 3's threshold; any value is legal at any width. The
    /// other channels are untouched.
    pub fn compare_against_3(&mut self, value: u32)
        requires
            old(self).wf(),
        ensures
            final(self).wf(),
            final(self)@ == (PeripheralView {
                chans: old(self)@.chans.update(
                    3,
                    (Channel { compare: value, ..old(self)@.chans[3] }),
                ),
                log: old(self)@.log.push(RegWrite::CompareValue(3, value)),
                ..old(self)@
            }),
    {
        let _ = self.p.compare_against(3, value);
    }
}

impl<S: RunState, W: Width, I1: IrqState, I2: IrqState, I3: IrqState, C: ModeTag> Timer<
    S,
    W,
    IS4<Disabled, I1, I2, I3>,
    C,
> {
    /// Enables channel 0's interrupt, available only while it is disabled.
    /// The other channels pass through untouched.
    pub fn enable_interrupt_0(self) -> (r: Timer<S, W, IS4<Enabled, I1, I2, I3>, C>)
        requires
            self.wf(),
        ensures
            r.wf(),
            r@ == (PeripheralView {
                chans: self@.chans.update(0, (Channel { enabled: true, ..self@.chans[0] })),
                log: self@.log.push(RegWrite::IntenSet(0)),
                ..self@
            }),
    {
        let Timer { mut p, .. } = self;
        let _ = p.enable_interrupt(0);
        Timer { p, s: PhantomData, w: PhantomData, i: PhantomData, c: PhantomData }
    }
}

impl<S: RunState, W: Width, I1: IrqState, I2: IrqState, I3: IrqState, C: ModeTag> Timer<
    S,
    W,
    IS4<Enabled, I1, I2, I3>,
    C,
> {
    /// Disables channel 0's interrupt, available only while it is enabled.
    /// The other channels pass through untouched.
    pub fn disable_interrupt_0(self) -> (r: Timer<S, W, IS4<Disabled, I1, I2, I3>, C>)
        requires
            self.wf(),
        ensures
            r.wf(),
            r@ == (PeripheralView {
                chans: self@.chans.update(0, (Channel { enabled: false, ..self@.chans[0] })),
                log: self@.log.push(RegWrite::IntenClr(0)),
                ..self@
            }),
    {
        let Timer { mut p, .. } = self;
        let _ = p.disable_interrupt(0);
        Timer { p, s: PhantomData, w: PhantomData, i: PhantomData, c: PhantomData }
    }
}

impl<S: RunState, W: Width, I0: IrqState, I2: IrqState, I3: IrqState, C: ModeTag> Timer<
    S,
    W,
    IS4<I0, Disabled, I2, I3>,
    C,
> {
    /// Enables channel 1's interrupt, available only while it is disabled.
    /// The other channels pass through untouched.
    pub fn enable_interrupt_1(self) -> (r: Timer<S, W, IS4<I0, Enabled, I2, I3>, C>)
        requires
            self.wf(),
        ensures
            r.wf(),
            r@ == (PeripheralView {
                chans: self@.chans.update(1, (Channel { enabled: true, ..self@.chans[1] })),
                log: self@.log.push(RegWrite::IntenSet(1)),
                ..self@
            }),
    {
        let Timer { mut p, .. } = self;
        let _ = p.enable_interrupt(1);
        Timer { p, s: PhantomData, w: PhantomData, i: PhantomData, c: PhantomData }
    }
}

impl<S: RunState, W: Width, I0: IrqState, I2: IrqState, I3: IrqState, C: ModeTag> Timer<
    S,
    W,
    IS4<I0, Enabled, I2, I3>,
    C,
> {
    /// Disables channel 1's interrupt, available only while it is enabled.
    /// The other channels pass through untouched.
    pub fn disable_interrupt_1(self) -> (r: Timer<S, W, IS4<I0, Disabled, I2, I3>, C>)
        requires
            self.wf(),
        ensures
            r.wf(),
            r@ == (PeripheralView {
                chans: self@.chans.update(1, (Channel { enabled: false, ..self@.chans[1] })),
                log: self@.log.push(RegWrite::IntenClr(1)),
                ..self@
            }),
    {
        let Timer { mut p, .. } = self;
        let _ = p.disable_interrupt(1);
        Timer { p, s: PhantomData, w: PhantomData, i: PhantomData, c: PhantomData }
    }
}

impl<S: RunState, W: Width, I0: IrqState, I1: IrqState, I3: IrqState, C: ModeTag> Timer<
    S,
    W,
    IS4<I0, I1, Disabled, I3>,
    C,
> {
    /// Enables channel 2's interrupt, available only while it is disabled.
    /// The other channels pass through untouched.
    pub fn enable_interrupt_2(self) -> (r: Timer<S, W, IS4<I0, I1, Enabled, I3>, C>)
        requires
            self.wf(),
        ensures
            r.wf(),
            r@ == (PeripheralView {
                chans: self@.chans.update(2, (Channel { enabled: true, ..self@.chans[2] })),
                log: self@.log.push(RegWrite::IntenSet(2)),
                ..self@
            }),
    {
        let Timer { mut p, .. } = self;
        let _ = p.enable_interrupt(2);
        Timer { p, s: PhantomData, w: PhantomData, i: PhantomData, c: PhantomData }
    }
}

impl<S: RunState, W: Width, I0: IrqState, I1: IrqState, I3: IrqState, C: ModeTag> Timer<
    S,
    W,
    IS4<I0, I1, Enabled, I3>,
    C,
> {
    /// Disables channel 2's interrupt, available only while it is enabled.
    /// The other channels pass through untouched.
    pub fn disable_interrupt_2(self) -> (r: Timer<S, W, IS4<I0, I1, Disabled, I3>, C>)
        requires
            self.wf(),
        ensures
            r.wf(),
            r@ == (PeripheralView {
                chans: self@.chans.update(2, (Channel { enabled: false, ..self@.chans[2] })),
                log: self@.log.push(RegWrite::IntenClr(2)),
                ..self@
            }),
    {
        let Timer { mut p, .. } = self;
        let _ = p.disable_interrupt(2);
        Timer { p, s: PhantomData, w: PhantomData, i: PhantomData, c: PhantomData }
    }
}

impl<S: RunState, W: Width, I0: IrqState, I1: IrqState, I2: IrqState, C: ModeTag> Timer<
    S,
    W,
    IS4<I0, I1, I2, Disabled>,
    C,
> {
    /// Enables channel 3's interrupt, available only while it is disabled.
    /// The other channels pass through untouched.
    pub fn enable_interrupt_3(self) -> (r: Timer<S, W, IS4<I0, I1, I2, Enabled>, C>)
        requires
            self.wf(),
        ensures
            r.wf(),
            r@ == (PeripheralView {
                chans: self@.chans.update(3, (Channel { enabled: true, ..self@.chans[3] })),
                log: self@.log.push(RegWrite::IntenSet(3)),
                ..self@
            }),
    {
        let Timer { mut p, .. } = self;
        let _ = p.enable_interrupt(3);
        Timer { p, s: PhantomData, w: PhantomData, i: PhantomData, c: PhantomData }
    }
}

impl<S: RunState, W: Width, I0: IrqState, I1: IrqState, I2: IrqState, C: ModeTag> Timer<
    S,
    W,
    IS4<I0, I1, I2, Enabled>,
    C,
> {
    /// Disables channel 3's interrupt, available only while it is enabled.
    /// The other channels pass through untouched.
    pub fn disable_interrupt_3(self) -> (r: Timer<S, W, IS4<I0, I1, I2, Disabled>, C>)
        requires
            self.wf(),
        ensures
            r.wf(),
            r@ == (PeripheralView {
                chans: self@.chans.update(3, (Channel { enabled: false, ..self@.chans[3] })),
                log: self@.log.push(RegWrite::IntenClr(3)),
                ..self@
            }),
    {
        let Timer { mut p, .. } = self;
        let _ = p.disable_interrupt(3);
        Timer { p, s: PhantomData, w: PhantomData, i: PhantomData, c: PhantomData }
    }
}

} // verus!
