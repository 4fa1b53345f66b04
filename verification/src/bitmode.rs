//! Bit width of the counter, and its register-field encoding.
//!
//! The width determines the wraparound modulus of the live count: a counter
//! of width `w` wraps after `2^w` increments. The width is mutable only while
//! the peripheral is stopped.

use vstd::prelude::*;
use crate::sealed::Sealed;

verus! {

/// The four legal bit widths, as run-time values.
#[derive(Clone, Copy, Debug, PartialEq, Eq, Structural)]
pub enum BitWidth {
    W8,
    W16,
    W24,
    W32,
}

impl BitWidth {
    /// The number of bits the comparison and wraparound logic uses.
    pub open spec fn bits_spec(self) -> u32 {
        match self {
            BitWidth::W8 => 8,
            BitWidth::W16 => 16,
            BitWidth::W24 => 24,
            BitWidth::W32 => 32,
        }
    }

    /// The value the width register field holds for this width.
    pub open spec fn encoding_spec(self) -> u32 {
        match self {
            BitWidth::W8 => 1,
            BitWidth::W16 => 0,
            BitWidth::W24 => 2,
            BitWidth::W32 => 3,
        }
    }

    /// The wraparound modulus, `2 ^ bits`.
    pub open spec fn modulus_spec(self) -> u64 {
        match self {
            BitWidth::W8 => 0x100,
            BitWidth::W16 => 0x1_0000,
            BitWidth::W24 => 0x100_0000,
            BitWidth::W32 => 0x1_0000_0000,
        }
    }

    /// The number of bits the comparison and wraparound logic uses.
    pub fn bits(self) -> (b: u32)
        ensures
            b == self.bits_spec(),
    {
        match self {
            BitWidth::W8 => 8,
            BitWidth::W16 => 16,
            BitWidth::W24 => 24,
            BitWidth::W32 => 32,
        }
    }

    /// The value the width register field holds for this width.
    pub fn encoding(self) -> (e: u32)
        ensures
            e == self.encoding_spec(),
    {
        match self {
            BitWidth::W8 => 1,
            BitWidth::W16 => 0,
            BitWidth::W24 => 2,
            BitWidth::W32 => 3,
        }
    }

    /// The wraparound modulus, `2 ^ bits`.
    pub fn modulus(self) -> (m: u64)
        ensures
            m == self.modulus_spec(),
    {
        match self {
            BitWidth::W8 => 0x100,
            BitWidth::W16 => 0x1_0000,
            BitWidth::W24 => 0x100_0000,
            BitWidth::W32 => 0x1_0000_0000,
        }
    }
}

/// Marker type for a width of 8 bits.
pub struct W08;

/// Marker type for a width of 16 bits.
pub struct W16;

/// Marker type for a width of 24 bits.
pub struct W24;

/// Marker type for a width of 32 bits.
pub struct W32;

/// Maps a width marker type to its run-time value.
pub trait Width: Sealed {
    spec fn width() -> BitWidth;

    /// The run-time width this marker stands for.
    fn value() -> (w: BitWidth)
        ensures
            w == Self::width(),
    ;
}

impl Sealed for W08 {
}

impl Width for W08 {
    open spec fn width() -> BitWidth {
        BitWidth::W8
    }

    fn value() -> BitWidth {
        BitWidth::W8
    }
}

impl Sealed for W16 {
}

impl Width for W16 {
    open spec fn width() -> BitWidth {
        BitWidth::W16
    }

    fn value() -> BitWidth {
        BitWidth::W16
    }
}

impl Sealed for W24 {
}

impl Width for W24 {
    open spec fn width() -> BitWidth {
        BitWidth::W24
    }

    fn value() -> BitWidth {
        BitWidth::W24
    }
}

impl Sealed for W32 {
}

impl Width for W32 {
    open spec fn width() -> BitWidth {
        BitWidth::W32
    }

    fn value() -> BitWidth {
        BitWidth::W32
    }
}

} // verus!
