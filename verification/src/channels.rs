//! Channel-state algebra: a bank of per-channel records, and updates that
//! change exactly one position.
//!
//! A compare channel owns a threshold, a hardware-latched pending flag and an
//! interrupt-enable flag. The bank is an ordered, fixed-length collection of
//! such records (four or six of them, depending on the peripheral variant).
//! Each update below splices a new value into one position and provably
//! leaves every other position untouched, uniformly in the bank's length and
//! in the position.

use vstd::prelude::*;

verus! {

/// One compare channel: threshold, pending-event flag, interrupt-enable flag.
#[derive(Clone, Copy, Debug, PartialEq, Eq, Structural)]
pub struct Channel {
    /// Threshold the live count is compared against. Write-only for the
    /// driver; any value is legal at any width (unused high bits are ignored
    /// by the comparison, not rejected).
    pub compare: u32,
    /// Set by the hardware when the count reaches the threshold; cleared
    /// explicitly by the driver.
    pub pending: bool,
    /// Whether reaching the threshold raises an interrupt.
    pub enabled: bool,
}

/// Sets channel `i`'s interrupt-enable flag, leaving every other channel
/// untouched.
pub fn set_enabled(chans: &mut Vec<Channel>, i: usize, flag: bool)
    requires
        i < old(chans)@.len(),
    ensures
        final(chans)@.len() == old(chans)@.len(),
        final(chans)@[i as int] == (Channel { enabled: flag, ..old(chans)@[i as int] }),
        forall|k: int|
            0 <= k < old(chans)@.len() && k != i ==> final(chans)@[k] == old(chans)@[k],
{
    let c = chans[i];
    chans.set(i, Channel { enabled: flag, ..c });
}

/// Sets channel `i`'s pending flag, leaving every other channel untouched.
pub fn set_pending(chans: &mut Vec<Channel>, i: usize, flag: bool)
    requires
        i < old(chans)@.len(),
    ensures
        final(chans)@.len() == old(chans)@.len(),
        final(chans)@[i as int] == (Channel { pending: flag, ..old(chans)@[i as int] }),
        forall|k: int|
            0 <= k < old(chans)@.len() && k != i ==> final(chans)@[k] == old(chans)@[k],
{
    let c = chans[i];
    chans.set(i, Channel { pending: flag, ..c });
}

/// Sets channel `i`'s threshold, leaving every other channel untouched.
pub fn set_compare(chans: &mut Vec<Channel>, i: usize, value: u32)
    requires
        i < old(chans)@.len(),
    ensures
        final(chans)@.len() == old(chans)@.len(),
        final(chans)@[i as int] == (Channel { compare: value, ..old(chans)@[i as int] }),
        forall|k: int|
            0 <= k < old(chans)@.len() && k != i ==> final(chans)@[k] == old(chans)@[k],
{
    let c = chans[i];
    chans.set(i, Channel { compare: value, ..c });
}

} // verus!
