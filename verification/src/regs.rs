//! Model of the consumed register interface: the addressable register block
//! of one timer/counter peripheral, together with the journal of writes the
//! driver has issued to it.
//!
//! The block is opaque to the driver apart from the named fields below. The
//! model keeps the hardware-visible state as plain data and records every
//! register write, in order, in a journal, so that the exact write
//! choreography of each driver operation is part of its contract. On a real
//! device the journal entries are what gets replayed onto the memory-mapped
//! block; reordering them is not harmless, since a peripheral that latches
//! events eagerly can raise a spurious interrupt when, say, the mode is
//! switched before stale pending flags are cleared.

use vstd::prelude::*;
use crate::bitmode::BitWidth;
use crate::channels;
use crate::channels::Channel;
use crate::prescaler::Prescale;
use crate::variant::Variant;

verus! {

/// One write to the register block: a task trigger or a field write.
#[derive(Clone, Copy, Debug, PartialEq, Eq, Structural)]
pub enum RegWrite {
    /// Trigger the start task: arm the counting mechanism.
    TaskStart,
    /// Trigger the stop task: halt counting, keeping the live count.
    TaskStop,
    /// Trigger the clear task: zero the live count.
    TaskClear,
    /// Trigger the count task: one software increment (counter mode only).
    TaskCount,
    /// Write the bit-width field, with the width's register encoding.
    Bitmode(u32),
    /// Write the mode field, with the mode's register encoding.
    ModeField(u32),
    /// Write the prescaler field, with the exponent's register encoding.
    PrescalerField(u32),
    /// Set one channel's interrupt-enable flag.
    IntenSet(usize),
    /// Clear one channel's interrupt-enable flag.
    IntenClr(usize),
    /// Clear every channel's interrupt-enable flag in one write.
    IntenClrAll,
    /// Clear one channel's pending-event flag.
    ClearEvent(usize),
    /// Write one channel's threshold register.
    CompareValue(usize, u32),
}

/// The state of a register block, as the contracts see it.
#[verifier::ext_equal]
pub ghost struct RegsView {
    /// Which variant the block is: fixes the channel count.
    pub variant: Variant,
    /// Whether the mode field selects software-driven counting.
    pub counter_mode: bool,
    /// The bit-width field.
    pub width: BitWidth,
    /// The prescaler field.
    pub prescale: Prescale,
    /// Whether the counting mechanism is armed. Internal to the hardware:
    /// no register exposes it, which is why the driver tracks it itself.
    pub running: bool,
    /// The live count. Internal to the hardware; reading it back would need
    /// the capture machinery, which is out of scope.
    pub count: u32,
    /// The compare channels, in channel order.
    pub chans: Seq<Channel>,
    /// Every write issued so far, oldest first.
    pub log: Seq<RegWrite>,
}

/// A channel as the power-on state has it: threshold zero, nothing pending,
/// interrupt disabled.
pub open spec fn blank_channel() -> Channel {
    Channel { compare: 0, pending: false, enabled: false }
}

/// A bank of `n` power-on channels.
pub open spec fn blank_bank(n: nat) -> Seq<Channel> {
    Seq::new(n, |i: int| blank_channel())
}

/// The count after one increment at width `w`: wraps to zero at the width's
/// modulus.
pub open spec fn wrapped(count: u32, w: BitWidth) -> u32 {
    (((count + 1) as int) % (w.modulus_spec() as int)) as u32
}

/// The bank after the count reached `hit`: every channel whose threshold
/// matches `hit` at modulus `modulus` (unused high bits of the threshold are
/// ignored) has its pending flag latched; no flag is ever cleared by this.
pub open spec fn latched(chans: Seq<Channel>, modulus: int, hit: u32) -> Seq<Channel> {
    chans.map(
        |i: int, c: Channel|
            Channel { pending: c.pending || c.compare as int % modulus == hit, ..c },
    )
}

/// The bank with every interrupt-enable flag cleared.
pub open spec fn all_disabled(chans: Seq<Channel>) -> Seq<Channel> {
    chans.map(|i: int, c: Channel| Channel { enabled: false, ..c })
}

/// The modeled register block of one peripheral instance.
pub struct Regs {
    variant: Variant,
    counter_mode: bool,
    width: BitWidth,
    prescale: Prescale,
    running: bool,
    count: u32,
    chans: Vec<Channel>,
    log: Vec<RegWrite>,
}

impl View for Regs {
    type V = RegsView;

    closed spec fn view(&self) -> RegsView {
        RegsView {
            variant: self.variant,
            counter_mode: self.counter_mode,
            width: self.width,
            prescale: self.prescale,
            running: self.running,
            count: self.count,
            chans: self.chans@,
            log: self.log@,
        }
    }
}

impl Regs {
    /// The block's shape matches its variant.
    pub open spec fn wf(self) -> bool {
        self@.chans.len() == self@.variant.channel_count_spec()
    }

    /// A block in its power-on state: timer mode, 16-bit width, divider
    /// exponent zero, stopped, count zero, all channels blank.
    pub fn power_on(variant: Variant) -> (r: Regs)
        ensures
            r.wf(),
            r@ == (RegsView {
                variant,
                counter_mode: false,
                width: BitWidth::W16,
                prescale: Prescale::P0,
                running: false,
                count: 0,
                chans: blank_bank(variant.channel_count_spec()),
                log: Seq::empty(),
            }),
    {
        let n = variant.channel_count();
        let mut chans: Vec<Channel> = Vec::new();
        let mut i: usize = 0;
        while i < n
            invariant
                i <= n,
                chans@.len() == i,
                forall|j: int| 0 <= j < i ==> chans@[j] == blank_channel(),
            decreases n - i,
        {
            chans.push(Channel { compare: 0, pending: false, enabled: false });
            i += 1;
        }
        proof {
            assert(chans@ =~= blank_bank(n as nat));
        }
        Regs {
            variant,
            counter_mode: false,
            width: BitWidth::W16,
            prescale: Prescale::P0,
            running: false,
            count: 0,
            chans,
            log: Vec::new(),
        }
    }

    /// A block in an arbitrary prior state, as a peripheral left over from
    /// earlier use would present itself. The shape is taken from the channel
    /// bank's length; a length that matches no variant yields nothing.
    pub fn with_state(
        counter_mode: bool,
        width: BitWidth,
        prescale: Prescale,
        running: bool,
        count: u32,
        chans: Vec<Channel>,
    ) -> (r: Option<Regs>)
        ensures
            r is Some <==> (chans@.len() == 4 || chans@.len() == 6),
            r matches Some(regs) ==> regs.wf() && regs@ == (RegsView {
                variant: if chans@.len() == 4 { Variant::Basic } else { Variant::Extended },
                counter_mode,
                width,
                prescale,
                running,
                count,
                chans: chans@,
                log: Seq::empty(),
            }),
    {
        let variant = if chans.len() == 4 {
            Variant::Basic
        } else if chans.len() == 6 {
            Variant::Extended
        } else {
            return None;
        };
        Some(
            Regs {
                variant,
                counter_mode,
                width,
                prescale,
                running,
                count,
                chans,
                log: Vec::new(),
            },
        )
    }

    /// Which variant this block is.
    pub fn variant(&self) -> (v: Variant)
        ensures
            v == self@.variant,
    {
        self.variant
    }

    /// How many compare channels this block owns.
    pub fn channel_count(&self) -> (n: usize)
        requires
            self.wf(),
        ensures
            n == self@.chans.len(),
            n == self@.variant.channel_count_spec(),
    {
        self.variant.channel_count()
    }

    /// Reads one channel's registers back from the model.
    pub fn read_chan(&self, i: usize) -> (c: Channel)
        requires
            i < self@.chans.len(),
        ensures
            c == self@.chans[i as int],
    {
        self.chans[i]
    }

    /// Observes the live count of the model.
    pub fn read_count(&self) -> (c: u32)
        ensures
            c == self@.count,
    {
        self.count
    }

    /// The journal of writes issued so far.
    pub fn log_ref(&self) -> (l: &Vec<RegWrite>)
        ensures
            l@ == self@.log,
    {
        &self.log
    }

    /// Trigger the stop task: the counting mechanism is disarmed; the live
    /// count is kept.
    pub fn task_stop(&mut self)
        ensures
            final(self)@ == (RegsView {
                running: false,
                log: old(self)@.log.push(RegWrite::TaskStop),
                ..old(self)@
            }),
    {
        self.running = false;
        self.log.push(RegWrite::TaskStop);
    }

    /// Trigger the start task: the counting mechanism is armed.
    pub fn task_start(&mut self)
        ensures
            final(self)@ == (RegsView {
                running: true,
                log: old(self)@.log.push(RegWrite::TaskStart),
                ..old(self)@
            }),
    {
        self.running = true;
        self.log.push(RegWrite::TaskStart);
    }

    /// Trigger the clear task: the live count is zeroed. Works armed or not.
    pub fn task_clear(&mut self)
        ensures
            final(self)@ == (RegsView {
                count: 0,
                log: old(self)@.log.push(RegWrite::TaskClear),
                ..old(self)@
            }),
    {
        self.count = 0;
        self.log.push(RegWrite::TaskClear);
    }

    /// Trigger the count task. When the block is armed and in counter mode,
    /// the live count increments and wraps at the width's modulus, and every
    /// channel whose threshold matches the new count latches its pending
    /// flag. Otherwise the trigger is ignored by the hardware.
    pub fn task_count(&mut self)
        ensures
            old(self)@.running && old(self)@.counter_mode ==> final(self)@ == (RegsView {
                count: wrapped(old(self)@.count, old(self)@.width),
                chans: latched(
                    old(self)@.chans,
                    old(self)@.width.modulus_spec() as int,
                    wrapped(old(self)@.count, old(self)@.width),
                ),
                log: old(self)@.log.push(RegWrite::TaskCount),
                ..old(self)@
            }),
            !(old(self)@.running && old(self)@.counter_mode) ==> final(self)@ == (RegsView {
                log: old(self)@.log.push(RegWrite::TaskCount),
                ..old(self)@
            }),
    {
        if self.running && self.counter_mode {
            let m = self.width.modulus();
            assert(0 < m <= 0x1_0000_0000);
            let next64 = ((self.count as u64) + 1) % m;
            assert(next64 < m);
            let next = next64 as u32;
            assert(next == wrapped(old(self)@.count, old(self)@.width));
            self.count = next;
            latch_all(&mut self.chans, m, next);
        }
        self.log.push(RegWrite::TaskCount);
    }

    /// Write the bit-width field.
    pub fn write_bitmode(&mut self, w: BitWidth)
        ensures
            final(self)@ == (RegsView {
                width: w,
                log: old(self)@.log.push(RegWrite::Bitmode(w.encoding_spec())),
                ..old(self)@
            }),
    {
        let e = w.encoding();
        self.width = w;
        self.log.push(RegWrite::Bitmode(e));
    }

    /// Write the mode field: `true` selects software-driven counting.
    pub fn write_mode(&mut self, counter: bool)
        ensures
            final(self)@ == (RegsView {
                counter_mode: counter,
                log: old(self)@.log.push(
                    RegWrite::ModeField(if counter { 1u32 } else { 0u32 }),
                ),
                ..old(self)@
            }),
    {
        self.counter_mode = counter;
        let e: u32 = if counter { 1 } else { 0 };
        self.log.push(RegWrite::ModeField(e));
    }

    /// Write the prescaler field.
    pub fn write_prescaler(&mut self, p: Prescale)
        ensures
            final(self)@ == (RegsView {
                prescale: p,
                log: old(self)@.log.push(RegWrite::PrescalerField(p.encoding_spec())),
                ..old(self)@
            }),
    {
        let e = p.encoding();
        self.prescale = p;
        self.log.push(RegWrite::PrescalerField(e));
    }

    /// Set channel `i`'s interrupt-enable flag, leaving every other channel
    /// untouched.
    pub fn intenset(&mut self, i: usize)
        requires
            i < old(self)@.chans.len(),
        ensures
            final(self)@ == (RegsView {
                chans: old(self)@.chans.update(
                    i as int,
                    (Channel { enabled: true, ..old(self)@.chans[i as int] }),
                ),
                log: old(self)@.log.push(RegWrite::IntenSet(i)),
                ..old(self)@
            }),
    {
        channels::set_enabled(&mut self.chans, i, true);
        self.log.push(RegWrite::IntenSet(i));
        proof {
            assert(self@.chans =~= old(self)@.chans.update(
                i as int,
                (Channel { enabled: true, ..old(self)@.chans[i as int] }),
            ));
        }
    }

    /// Clear channel `i`'s interrupt-enable flag, leaving every other channel
    /// untouched.
    pub fn intenclr(&mut self, i: usize)
        requires
            i < old(self)@.chans.len(),
        ensures
            final(self)@ == (RegsView {
                chans: old(self)@.chans.update(
                    i as int,
                    (Channel { enabled: false, ..old(self)@.chans[i as int] }),
                ),
                log: old(self)@.log.push(RegWrite::IntenClr(i)),
                ..old(self)@
            }),
    {
        channels::set_enabled(&mut self.chans, i, false);
        self.log.push(RegWrite::IntenClr(i));
        proof {
            assert(self@.chans =~= old(self)@.chans.update(
                i as int,
                (Channel { enabled: false, ..old(self)@.chans[i as int] }),
            ));
        }
    }

    /// Clear every channel's interrupt-enable flag in one register write.
    pub fn intenclr_all(&mut self)
        ensures
            final(self)@ == (RegsView {
                chans: all_disabled(old(self)@.chans),
                log: old(self)@.log.push(RegWrite::IntenClrAll),
                ..old(self)@
            }),
    {
        let n = self.chans.len();
        let mut i: usize = 0;
        while i < n
            invariant
                i <= n,
                n == self.chans@.len(),
                forall|j: int|
                    0 <= j < i ==> self.chans@[j] == (Channel {
                        enabled: false,
                        ..old(self)@.chans[j]
                    }),
                forall|j: int| i <= j < n ==> self.chans@[j] == old(self)@.chans[j],
                self.variant == old(self)@.variant,
                self.counter_mode == old(self)@.counter_mode,
                self.width == old(self)@.width,
                self.prescale == old(self)@.prescale,
                self.running == old(self)@.running,
                self.count == old(self)@.count,
                self.log@ == old(self)@.log,
            decreases n - i,
        {
            channels::set_enabled(&mut self.chans, i, false);
            i += 1;
        }
        self.log.push(RegWrite::IntenClrAll);
        proof {
            assert(self@.chans =~= all_disabled(old(self)@.chans));
        }
    }

    /// Clear channel `i`'s pending-event flag, leaving every other channel
    /// untouched.
    pub fn clear_event(&mut self, i: usize)
        requires
            i < old(self)@.chans.len(),
        ensures
            final(self)@ == (RegsView {
                chans: old(self)@.chans.update(
                    i as int,
                    (Channel { pending: false, ..old(self)@.chans[i as int] }),
                ),
                log: old(self)@.log.push(RegWrite::ClearEvent(i)),
                ..old(self)@
            }),
    {
        channels::set_pending(&mut self.chans, i, false);
        self.log.push(RegWrite::ClearEvent(i));
        proof {
            assert(self@.chans =~= old(self)@.chans.update(
                i as int,
                (Channel { pending: false, ..old(self)@.chans[i as int] }),
            ));
        }
    }

    /// Write channel `i`'s threshold register, leaving every other channel
    /// untouched. Any value is legal at any width.
    pub fn write_cc(&mut self, i: usize, value: u32)
        requires
            i < old(self)@.chans.len(),
        ensures
            final(self)@ == (RegsView {
                chans: old(self)@.chans.update(
                    i as int,
                    (Channel { compare: value, ..old(self)@.chans[i as int] }),
                ),
                log: old(self)@.log.push(RegWrite::CompareValue(i, value)),
                ..old(self)@
            }),
    {
        channels::set_compare(&mut self.chans, i, value);
        self.log.push(RegWrite::CompareValue(i, value));
        proof {
            assert(self@.chans =~= old(self)@.chans.update(
                i as int,
                (Channel { compare: value, ..old(self)@.chans[i as int] }),
            ));
        }
    }
}

/// Latches the pending flag of every channel whose threshold matches `hit`
/// at modulus `m`.
fn latch_all(chans: &mut Vec<Channel>, m: u64, hit: u32)
    requires
        m > 0,
    ensures
        final(chans)@ == latched(old(chans)@, m as int, hit),
{
    let n = chans.len();
    let mut i: usize = 0;
    while i < n
        invariant
            i <= n,
            n == chans@.len(),
            n == old(chans)@.len(),
            m > 0,
            forall|j: int| 0 <= j < i ==> chans@[j] == latched(old(chans)@, m as int, hit)[j],
            forall|j: int| i <= j < n ==> chans@[j] == old(chans)@[j],
        decreases n - i,
    {
        let c = chans[i];
        if (c.compare as u64) % m == hit as u64 {
            channels::set_pending(chans, i, true);
        }
        proof {
            assert(latched(old(chans)@, m as int, hit)[i as int] == (Channel {
                pending: old(chans)@[i as int].pending
                    || old(chans)@[i as int].compare as int % (m as int) == hit,
                ..old(chans)@[i as int]
            }));
        }
        i += 1;
    }
    proof {
        assert(chans@ =~= latched(old(chans)@, m as int, hit));
    }
}

} // verus!
