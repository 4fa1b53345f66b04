//! The peripheral state machine: run-time-checked driver operations over the
//! modeled register block.
//!
//! A `Peripheral` is constructed directly into timer or counter mode by one
//! of the two constructors, which perform the reset choreography in the
//! exact order the hardware needs: stop, set the width, disable every
//! channel's interrupt, clear every stale pending flag, and only then select
//! the mode (and, for timer mode, the divider). Every operation that has a
//! precondition checks it at entry and reports an illegal transition or an
//! out-of-range channel index without touching the block.
//!
//! The driver keeps its own record of the run state, the mode and the width;
//! the well-formedness invariant says this record agrees with the register
//! block (the hardware exposes no readable run state, which is why the
//! driver must track it).

use vstd::prelude::*;
use vstd::arithmetic::div_mod::{lemma_add_mod_noop, lemma_mod_self_0, lemma_small_mod};
use crate::bitmode::BitWidth;
use crate::channels::Channel;
use crate::mode::Mode;
use crate::prescaler::Prescale;
use crate::regs::{all_disabled, latched, wrapped, RegWrite, Regs, RegsView};
use crate::state::Run;
use crate::variant::Variant;

verus! {

/// Why an operation was rejected. Every rejection leaves the peripheral,
/// and its register block, exactly as it was.
#[derive(Clone, Copy, Debug, PartialEq, Eq, Structural)]
pub enum DriverError {
    /// A configuration change while started, a tick outside started counter
    /// mode, or a start or stop from the wrong run state.
    IllegalTransition,
    /// A channel index at or beyond the variant's channel count.
    ChannelOutOfRange,
}

/// The state of a driven peripheral, as the contracts see it.
#[verifier::ext_equal]
pub ghost struct PeripheralView {
    /// The variant of the underlying block: fixes the channel count.
    pub variant: Variant,
    /// Whether the peripheral is counting.
    pub run: Run,
    /// The counting mode, with the divider exponent in timer mode. Fixed at
    /// construction apart from the exponent.
    pub mode: Mode,
    /// The bit width, which fixes the wraparound modulus of the count.
    pub width: BitWidth,
    /// The compare channels, in channel order.
    pub chans: Seq<Channel>,
    /// The live count.
    pub count: u32,
    /// Every register write issued to the block so far, oldest first.
    pub log: Seq<RegWrite>,
}

/// A bank after construction: every pending flag and every enable flag is
/// cleared; the thresholds are left as they were.
pub open spec fn cleared(chans: Seq<Channel>) -> Seq<Channel> {
    chans.map(|i: int, c: Channel| Channel { pending: false, enabled: false, ..c })
}

/// The register writes a constructor issues, in order: stop, select the
/// 32-bit width, disable every channel's interrupt, clear every pending
/// flag, then select the mode and, in timer mode, the divider exponent
/// zero. Disabling and unpending come before the mode switch so that no
/// stale event from the block's prior use survives into the new
/// configuration.
pub open spec fn reset_writes(n: nat, counter: bool) -> Seq<RegWrite> {
    seq![
        RegWrite::TaskStop,
        RegWrite::Bitmode(BitWidth::W32.encoding_spec()),
        RegWrite::IntenClrAll,
    ] + Seq::new(n, |i: int| RegWrite::ClearEvent(i as usize)) + (if counter {
        seq![RegWrite::ModeField(1u32)]
    } else {
        seq![RegWrite::ModeField(0u32), RegWrite::PrescalerField(Prescale::P0.encoding_spec())]
    })
}

/// The count reached after `k` ticks from `c` at modulus `m`: each tick
/// adds one and wraps at `m`.
pub open spec fn ticks_from(c: int, k: nat, m: int) -> int
    decreases k,
{
    if k == 0 {
        c
    } else {
        (ticks_from(c, (k - 1) as nat, m) + 1) % m
    }
}

/// A driven timer/counter peripheral.
pub struct Peripheral {
    regs: Regs,
    run: Run,
    mode: Mode,
    width: BitWidth,
}

impl View for Peripheral {
    type V = PeripheralView;

    closed spec fn view(&self) -> PeripheralView {
        PeripheralView {
            variant: self.regs@.variant,
            run: self.run,
            mode: self.mode,
            width: self.width,
            chans: self.regs@.chans,
            count: self.regs@.count,
            log: self.regs@.log,
        }
    }
}

impl Peripheral {
    /// The block has its variant's shape, and the driver's record of the run
    /// state, the mode, the width and the divider agrees with the block.
    pub closed spec fn wf(self) -> bool {
        &&& self.regs.wf()
        &&& self.regs@.running == (self.run == Run::Started)
        &&& self.regs@.width == self.width
        &&& match self.mode {
            Mode::Timer(p) => !self.regs@.counter_mode && self.regs@.prescale == p,
            Mode::Counter => self.regs@.counter_mode,
        }
    }

    /// Takes ownership of a register block in any prior state and constructs
    /// a peripheral in timer mode, running the reset choreography: the
    /// result is stopped, 32 bits wide, at divider exponent zero, with every
    /// channel's interrupt disabled and pending flag cleared. Thresholds and
    /// the live count are left as they were.
    pub fn timer(hw: Regs) -> (r: Peripheral)
        requires
            hw.wf(),
        ensures
            r.wf(),
            r@ == (PeripheralView {
                variant: hw@.variant,
                run: Run::Stopped,
                mode: Mode::Timer(Prescale::P0),
                width: BitWidth::W32,
                chans: cleared(hw@.chans),
                count: hw@.count,
                log: hw@.log + reset_writes(hw@.chans.len(), false),
            }),
            forall|k: int|
                0 <= k < r@.chans.len() ==> !r@.chans[k].enabled && !r@.chans[k].pending,
    {
        let mut hw = hw;
        let ghost hw0 = hw@;
        reset_block(&mut hw);
        hw.write_mode(false);
        hw.write_prescaler(Prescale::P0);
        proof {
            assert(hw@.log =~= hw0.log + reset_writes(hw0.chans.len(), false));
        }
        Peripheral {
            regs: hw,
            run: Run::Stopped,
            mode: Mode::Timer(Prescale::P0),
            width: BitWidth::W32,
        }
    }

    /// Takes ownership of a register block in any prior state and constructs
    /// a peripheral in counter mode, running the same reset choreography
    /// apart from the divider, which counter mode does not use.
    pub fn counter(hw: Regs) -> (r: Peripheral)
        requires
            hw.wf(),
        ensures
            r.wf(),
            r@ == (PeripheralView {
                variant: hw@.variant,
                run: Run::Stopped,
                mode: Mode::Counter,
                width: BitWidth::W32,
                chans: cleared(hw@.chans),
                count: hw@.count,
                log: hw@.log + reset_writes(hw@.chans.len(), true),
            }),
            forall|k: int|
                0 <= k < r@.chans.len() ==> !r@.chans[k].enabled && !r@.chans[k].pending,
    {
        let mut hw = hw;
        let ghost hw0 = hw@;
        reset_block(&mut hw);
        hw.write_mode(true);
        proof {
            assert(hw@.log =~= hw0.log + reset_writes(hw0.chans.len(), true));
        }
        Peripheral { regs: hw, run: Run::Stopped, mode: Mode::Counter, width: BitWidth::W32 }
    }

    /// Sets the bit width. Legal only while stopped; rejected as an illegal
    /// transition otherwise. The run state, the mode, the channels and the
    /// live count are unaffected.
    pub fn set_width(&mut self, w: BitWidth) -> (r: Result<(), DriverError>)
        requires
            old(self).wf(),
        ensures
            final(self).wf(),
            r is Ok <==> old(self)@.run == Run::Stopped,
            old(self)@.run == Run::Stopped ==> final(self)@ == (PeripheralView {
                width: w,
                log: old(self)@.log.push(RegWrite::Bitmode(w.encoding_spec())),
                ..old(self)@
            }),
            old(self)@.run != Run::Stopped ==> final(self)@ == old(self)@ && r == Err::<
                (),
                DriverError,
            >(DriverError::IllegalTransition),
    {
        match self.run {
            Run::Stopped => {
                self.regs.write_bitmode(w);
                self.width = w;
                Ok(())
            },
            Run::Started => Err(DriverError::IllegalTransition),
        }
    }

    /// Sets the divider exponent. Legal only while stopped and in timer
    /// mode; rejected as an illegal transition otherwise.
    pub fn set_prescale(&mut self, p: Prescale) -> (r: Result<(), DriverError>)
        requires
            old(self).wf(),
        ensures
            final(self).wf(),
            r is Ok <==> old(self)@.run == Run::Stopped && old(self)@.mode is Timer,
            old(self)@.run == Run::Stopped && old(self)@.mode is Timer ==> final(self)@ == (PeripheralView {
                mode: Mode::Timer(p),
                log: old(self)@.log.push(RegWrite::PrescalerField(p.encoding_spec())),
                ..old(self)@
            }),
            !(old(self)@.run == Run::Stopped && old(self)@.mode is Timer) ==> final(self)@ == old(
                self,
            )@ && r == Err::<(), DriverError>(DriverError::IllegalTransition),
    {
        match self.run {
            Run::Stopped => match self.mode {
                Mode::Timer(_) => {
                    self.regs.write_prescaler(p);
                    self.mode = Mode::Timer(p);
                    Ok(())
                },
                Mode::Counter => Err(DriverError::IllegalTransition),
            },
            Run::Started => Err(DriverError::IllegalTransition),
        }
    }

    /// Arms the counting mechanism. Legal only while stopped; rejected as an
    /// illegal transition otherwise. The width, the divider, the channels
    /// and the live count are unaffected.
    pub fn start(&mut self) -> (r: Result<(), DriverError>)
        requires
            old(self).wf(),
        ensures
            final(self).wf(),
            r is Ok <==> old(self)@.run == Run::Stopped,
            old(self)@.run == Run::Stopped ==> final(self)@ == (PeripheralView {
                run: Run::Started,
                log: old(self)@.log.push(RegWrite::TaskStart),
                ..old(self)@
            }),
            old(self)@.run != Run::Stopped ==> final(self)@ == old(self)@ && r == Err::<
                (),
                DriverError,
            >(DriverError::IllegalTransition),
    {
        match self.run {
            Run::Stopped => {
                self.regs.task_start();
                self.run = Run::Started;
                Ok(())
            },
            Run::Started => Err(DriverError::IllegalTransition),
        }
    }

    /// Halts counting, keeping the live count. Legal only while started;
    /// rejected as an illegal transition otherwise.
    pub fn stop(&mut self) -> (r: Result<(), DriverError>)
        requires
            old(self).wf(),
        ensures
            final(self).wf(),
            r is Ok <==> old(self)@.run == Run::Started,
            old(self)@.run == Run::Started ==> final(self)@ == (PeripheralView {
                run: Run::Stopped,
                log: old(self)@.log.push(RegWrite::TaskStop),
                ..old(self)@
            }),
            old(self)@.run != Run::Started ==> final(self)@ == old(self)@ && r == Err::<
                (),
                DriverError,
            >(DriverError::IllegalTransition),
    {
        match self.run {
            Run::Started => {
                self.regs.task_stop();
                self.run = Run::Stopped;
                Ok(())
            },
            Run::Stopped => Err(DriverError::IllegalTransition),
        }
    }

    /// One software increment of the live count. Legal only in counter mode
    /// while started; rejected as an illegal transition otherwise. The count
    /// wraps to zero at the width's modulus — overflow is a normal
    /// condition, not an error — and every channel whose threshold matches
    /// the new count latches its pending flag.
    pub fn tick(&mut self) -> (r: Result<(), DriverError>)
        requires
            old(self).wf(),
        ensures
            final(self).wf(),
            r is Ok <==> old(self)@.mode == Mode::Counter && old(self)@.run == Run::Started,
            old(self)@.mode == Mode::Counter && old(self)@.run == Run::Started ==> final(self)@
                == (PeripheralView {
                count: wrapped(old(self)@.count, old(self)@.width),
                chans: latched(
                    old(self)@.chans,
                    old(self)@.width.modulus_spec() as int,
                    wrapped(old(self)@.count, old(self)@.width),
                ),
                log: old(self)@.log.push(RegWrite::TaskCount),
                ..old(self)@
            }),
            !(old(self)@.mode == Mode::Counter && old(self)@.run == Run::Started) ==> final(self)@
                == old(self)@ && r == Err::<(), DriverError>(DriverError::IllegalTransition),
    {
        match (self.mode, self.run) {
            (Mode::Counter, Run::Started) => {
                self.regs.task_count();
                Ok(())
            },
            _ => Err(DriverError::IllegalTransition),
        }
    }

    /// Zeroes the live count. Legal both started and stopped; nothing else
    /// changes.
    pub fn reset(&mut self)
        requires
            old(self).wf(),
        ensures
            final(self).wf(),
            final(self)@ == (PeripheralView {
                count: 0,
                log: old(self)@.log.push(RegWrite::TaskClear),
                ..old(self)@
            }),
    {
        self.regs.task_clear();
    }

    /// Enables channel `i`'s interrupt, leaving every other channel's flags
    /// untouched. Legal in any run state; a channel index at or beyond the
    /// channel count is rejected and nothing is written. Enabling an
    /// already-enabled channel is a harmless repeat of the same write.
    pub fn enable_interrupt(&mut self, i: usize) -> (r: Result<(), DriverError>)
        requires
            old(self).wf(),
        ensures
            final(self).wf(),
            r is Ok <==> i < old(self)@.chans.len(),
            i < old(self)@.chans.len() ==> final(self)@ == (PeripheralView {
                chans: old(self)@.chans.update(
                    i as int,
                    (Channel { enabled: true, ..old(self)@.chans[i as int] }),
                ),
                log: old(self)@.log.push(RegWrite::IntenSet(i)),
                ..old(self)@
            }),
            i >= old(self)@.chans.len() ==> final(self)@ == old(self)@ && r == Err::<
                (),
                DriverError,
            >(DriverError::ChannelOutOfRange),
    {
        if i < self.regs.channel_count() {
            self.regs.intenset(i);
            Ok(())
        } else {
            Err(DriverError::ChannelOutOfRange)
        }
    }

    /// Disables channel `i`'s interrupt, leaving every other channel's flags
    /// untouched. Legal in any run state; a channel index at or beyond the
    /// channel count is rejected and nothing is written. Disabling an
    /// already-disabled channel is a harmless repeat of the same write.
    pub fn disable_interrupt(&mut self, i: usize) -> (r: Result<(), DriverError>)
        requires
            old(self).wf(),
        ensures
            final(self).wf(),
            r is Ok <==> i < old(self)@.chans.len(),
            i < old(self)@.chans.len() ==> final(self)@ == (PeripheralView {
                chans: old(self)@.chans.update(
                    i as int,
                    (Channel { enabled: false, ..old(self)@.chans[i as int] }),
                ),
                log: old(self)@.log.push(RegWrite::IntenClr(i)),
                ..old(self)@
            }),
            i >= old(self)@.chans.len() ==> final(self)@ == old(self)@ && r == Err::<
                (),
                DriverError,
            >(DriverError::ChannelOutOfRange),
    {
        if i < self.regs.channel_count() {
            self.regs.intenclr(i);
            Ok(())
        } else {
            Err(DriverError::ChannelOutOfRange)
        }
    }

    /// Clears channel `i`'s pending-event flag, leaving every other channel
    /// untouched. Legal in any run state; a channel index at or beyond the
    /// channel count is rejected and nothing is written.
    pub fn unpend_interrupt(&mut self, i: usize) -> (r: Result<(), DriverError>)
        requires
            old(self).wf(),
        ensures
            final(self).wf(),
            r is Ok <==> i < old(self)@.chans.len(),
            i < old(self)@.chans.len() ==> final(self)@ == (PeripheralView {
                chans: old(self)@.chans.update(
                    i as int,
                    (Channel { pending: false, ..old(self)@.chans[i as int] }),
                ),
                log: old(self)@.log.push(RegWrite::ClearEvent(i)),
                ..old(self)@
            }),
            i >= old(self)@.chans.len() ==> final(self)@ == old(self)@ && r == Err::<
                (),
                DriverError,
            >(DriverError::ChannelOutOfRange),
    {
        if i < self.regs.channel_count() {
            self.regs.clear_event(i);
            Ok(())
        } else {
            Err(DriverError::ChannelOutOfRange)
        }
    }

    /// Writes channel `i`'s threshold, leaving every other channel
    /// untouched. Legal in any run state, with any value — unused high bits
    /// at the current width are ignored by the comparison, not rejected. A
    /// channel index at or beyond the channel count is rejected and nothing
    /// is written.
    pub fn compare_against(&mut self, i: usize, value: u32) -> (r: Result<(), DriverError>)
        requires
            old(self).wf(),
        ensures
            final(self).wf(),
            r is Ok <==> i < old(self)@.chans.len(),
            i < old(self)@.chans.len() ==> final(self)@ == (PeripheralView {
                chans: old(self)@.chans.update(
                    i as int,
                    (Channel { compare: value, ..old(self)@.chans[i as int] }),
                ),
                log: old(self)@.log.push(RegWrite::CompareValue(i, value)),
                ..old(self)@
            }),
            i >= old(self)@.chans.len() ==> final(self)@ == old(self)@ && r == Err::<
                (),
                DriverError,
            >(DriverError::ChannelOutOfRange),
    {
        if i < self.regs.channel_count() {
            self.regs.write_cc(i, value);
            Ok(())
        } else {
            Err(DriverError::ChannelOutOfRange)
        }
    }

    /// Which variant the underlying block is.
    pub fn variant(&self) -> (v: Variant)
        ensures
            v == self@.variant,
    {
        self.regs.variant()
    }

    /// How many compare channels the peripheral owns.
    pub fn channel_count(&self) -> (n: usize)
        requires
            self.wf(),
        ensures
            n == self@.chans.len(),
    {
        self.regs.channel_count()
    }

    /// The current run state.
    pub fn run_state(&self) -> (r: Run)
        ensures
            r == self@.run,
    {
        self.run
    }

    /// The current mode, with the divider exponent in timer mode.
    pub fn mode(&self) -> (m: Mode)
        ensures
            m == self@.mode,
    {
        self.mode
    }

    /// The current bit width.
    pub fn width(&self) -> (w: BitWidth)
        ensures
            w == self@.width,
    {
        self.width
    }

    /// Observes the live count of the model.
    pub fn count(&self) -> (c: u32)
        ensures
            c == self@.count,
    {
        self.regs.read_count()
    }

    /// The journal of register writes issued to the block, oldest first.
    pub fn writes(&self) -> (l: &Vec<RegWrite>)
        ensures
            l@ == self@.log,
    {
        self.regs.log_ref()
    }

    /// Whether channel `i`'s interrupt is enabled; rejected beyond the
    /// channel count.
    pub fn is_enabled(&self, i: usize) -> (r: Result<bool, DriverError>)
        requires
            self.wf(),
        ensures
            r is Ok <==> i < self@.chans.len(),
            i < self@.chans.len() ==> r == Ok::<bool, DriverError>(self@.chans[i as int].enabled),
            i >= self@.chans.len() ==> r == Err::<bool, DriverError>(DriverError::ChannelOutOfRange),
    {
        if i < self.regs.channel_count() {
            Ok(self.regs.read_chan(i).enabled)
        } else {
            Err(DriverError::ChannelOutOfRange)
        }
    }

    /// Whether channel `i`'s pending-event flag is set; rejected beyond the
    /// channel count.
    pub fn is_pending(&self, i: usize) -> (r: Result<bool, DriverError>)
        requires
            self.wf(),
        ensures
            r is Ok <==> i < self@.chans.len(),
            i < self@.chans.len() ==> r == Ok::<bool, DriverError>(self@.chans[i as int].pending),
            i >= self@.chans.len() ==> r == Err::<bool, DriverError>(DriverError::ChannelOutOfRange),
    {
        if i < self.regs.channel_count() {
            Ok(self.regs.read_chan(i).pending)
        } else {
            Err(DriverError::ChannelOutOfRange)
        }
    }

    /// Channel `i`'s threshold as last written; rejected beyond the channel
    /// count.
    pub fn compare_value(&self, i: usize) -> (r: Result<u32, DriverError>)
        requires
            self.wf(),
        ensures
            r is Ok <==> i < self@.chans.len(),
            i < self@.chans.len() ==> r == Ok::<u32, DriverError>(self@.chans[i as int].compare),
            i >= self@.chans.len() ==> r == Err::<u32, DriverError>(DriverError::ChannelOutOfRange),
    {
        if i < self.regs.channel_count() {
            Ok(self.regs.read_chan(i).compare)
        } else {
            Err(DriverError::ChannelOutOfRange)
        }
    }
}

/// Runs the mode-independent part of the reset choreography on a block:
/// stop, select the 32-bit width, disable every channel's interrupt in one
/// write, then clear each channel's pending flag in channel order.
fn reset_block(hw: &mut Regs)
    requires
        old(hw).wf(),
    ensures
        final(hw).wf(),
        final(hw)@ == (RegsView {
            width: BitWidth::W32,
            running: false,
            chans: cleared(old(hw)@.chans),
            log: old(hw)@.log + seq![
                RegWrite::TaskStop,
                RegWrite::Bitmode(BitWidth::W32.encoding_spec()),
                RegWrite::IntenClrAll,
            ] + Seq::new(old(hw)@.chans.len(), |i: int| RegWrite::ClearEvent(i as usize)),
            ..old(hw)@
        }),
{
    hw.task_stop();
    hw.write_bitmode(BitWidth::W32);
    hw.intenclr_all();
    let ghost base = old(hw)@.log + seq![
        RegWrite::TaskStop,
        RegWrite::Bitmode(BitWidth::W32.encoding_spec()),
        RegWrite::IntenClrAll,
    ];
    proof {
        assert(hw@.log =~= base);
        assert(hw@.log =~= base + Seq::new(0, |j: int| RegWrite::ClearEvent(j as usize)));
    }
    let n = hw.channel_count();
    let mut i: usize = 0;
    while i < n
        invariant
            i <= n,
            n == hw@.chans.len(),
            n == old(hw)@.chans.len(),
            hw.wf(),
            hw@.variant == old(hw)@.variant,
            hw@.counter_mode == old(hw)@.counter_mode,
            hw@.width == BitWidth::W32,
            hw@.prescale == old(hw)@.prescale,
            hw@.running == false,
            hw@.count == old(hw)@.count,
            forall|j: int| 0 <= j < i ==> hw@.chans[j] == cleared(old(hw)@.chans)[j],
            forall|j: int| i <= j < n ==> hw@.chans[j] == all_disabled(old(hw)@.chans)[j],
            hw@.log == base + Seq::new(i as nat, |j: int| RegWrite::ClearEvent(j as usize)),
        decreases n - i,
    {
        hw.clear_event(i);
        proof {
            assert(hw@.log =~= base + Seq::new(
                (i + 1) as nat,
                |j: int| RegWrite::ClearEvent(j as usize),
            ));
        }
        i += 1;
    }
    proof {
        assert(hw@.chans =~= cleared(old(hw)@.chans));
        assert(hw@.log =~= old(hw)@.log + seq![
            RegWrite::TaskStop,
            RegWrite::Bitmode(BitWidth::W32.encoding_spec()),
            RegWrite::IntenClrAll,
        ] + Seq::new(old(hw)@.chans.len(), |i: int| RegWrite::ClearEvent(i as usize)));
    }
}

/// Each tick steps the count by the recurrence the tick contract states:
/// `wrapped` is one step of `ticks_from`.
pub proof fn lemma_wrapped_is_one_tick(c: u32, w: BitWidth)
    ensures
        wrapped(c, w) == ticks_from(c as int, 1, w.modulus_spec() as int),
{
    let m = w.modulus_spec() as int;
    reveal_with_fuel(ticks_from, 2);
    assert(0 < m <= 0x1_0000_0000);
    assert(ticks_from(c as int, 1, m) == (c + 1) % m);
}

/// Counting from zero, `k` ticks reach `k % m`: the count runs through the
/// residues in order, whatever the width.
pub proof fn lemma_count_after_ticks(k: nat, w: BitWidth)
    ensures
        ticks_from(0, k, w.modulus_spec() as int) == (k as int) % (w.modulus_spec() as int),
    decreases k,
{
    let m = w.modulus_spec() as int;
    assert(0 < m);
    if k == 0 {
        lemma_small_mod(0, w.modulus_spec() as nat);
    } else {
        lemma_count_after_ticks((k - 1) as nat, w);
        lemma_add_mod_noop((k - 1) as int, 1, m);
        lemma_small_mod(1, w.modulus_spec() as nat);
        assert(ticks_from(0, k, m) == ((k - 1) % m + 1) % m);
        assert(((k - 1) % m + 1int % m) % m == ((k - 1) + 1) % m);
    }
}

/// Overflow wraparound: in counter mode at width `w`, after `2 ^ w` ticks
/// from a zero count the live count is zero again — wraparound is modular,
/// not an error.
pub proof fn lemma_overflow_wraparound(w: BitWidth)
    ensures
        ticks_from(0, w.modulus_spec() as nat, w.modulus_spec() as int) == 0,
{
    let m = w.modulus_spec() as int;
    assert(0 < m);
    lemma_count_after_ticks(w.modulus_spec() as nat, w);
    lemma_mod_self_0(m);
}

} // verus!
