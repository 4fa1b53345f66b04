//! Catalog of peripheral variants.
//!
//! Each concrete timer/counter block is either a basic variant with four
//! compare channels or an extended variant with six. The channel count is
//! fixed when the block is made and never changes.

use vstd::prelude::*;

verus! {

/// The two shapes a peripheral instance can have.
#[derive(Clone, Copy, Debug, PartialEq, Eq, Structural)]
pub enum Variant {
    /// Four compare channels.
    Basic,
    /// Six compare channels.
    Extended,
}

impl Variant {
    /// How many compare channels a block of this variant owns.
    pub open spec fn channel_count_spec(self) -> nat {
        match self {
            Variant::Basic => 4,
            Variant::Extended => 6,
        }
    }

    /// How many compare channels a block of this variant owns.
    pub fn channel_count(self) -> (n: usize)
        ensures
            n == self.channel_count_spec(),
    {
        match self {
            Variant::Basic => 4,
            Variant::Extended => 6,
        }
    }
}

} // verus!
