//! Clock-divider exponents and their register-field encoding.
//!
//! In timer mode the counter increments at (base clock / 2 ^ prescale). The
//! sixteen legal exponents form a closed set; the register field simply holds
//! the exponent. The prescale value is mutable only while the peripheral is
//! stopped, and only in timer mode.

use vstd::prelude::*;
use crate::sealed::Sealed;

verus! {

/// The sixteen legal divider exponents, as run-time values.
#[derive(Clone, Copy, Debug, PartialEq, Eq, Structural)]
pub enum Prescale {
    P0,
    P1,
    P2,
    P3,
    P4,
    P5,
    P6,
    P7,
    P8,
    P9,
    P10,
    P11,
    P12,
    P13,
    P14,
    P15,
}

impl Prescale {
    /// The value the prescaler register field holds for this exponent.
    pub open spec fn encoding_spec(self) -> u32 {
        match self {
            Prescale::P0 => 0,
            Prescale::P1 => 1,
            Prescale::P2 => 2,
            Prescale::P3 => 3,
            Prescale::P4 => 4,
            Prescale::P5 => 5,
            Prescale::P6 => 6,
            Prescale::P7 => 7,
            Prescale::P8 => 8,
            Prescale::P9 => 9,
            Prescale::P10 => 10,
            Prescale::P11 => 11,
            Prescale::P12 => 12,
            Prescale::P13 => 13,
            Prescale::P14 => 14,
            Prescale::P15 => 15,
        }
    }

    /// The value the prescaler register field holds for this exponent.
    pub fn encoding(self) -> (e: u32)
        ensures
            e == self.encoding_spec(),
    {
        match self {
            Prescale::P0 => 0,
            Prescale::P1 => 1,
            Prescale::P2 => 2,
            Prescale::P3 => 3,
            Prescale::P4 => 4,
            Prescale::P5 => 5,
            Prescale::P6 => 6,
            Prescale::P7 => 7,
            Prescale::P8 => 8,
            Prescale::P9 => 9,
            Prescale::P10 => 10,
            Prescale::P11 => 11,
            Prescale::P12 => 12,
            Prescale::P13 => 13,
            Prescale::P14 => 14,
            Prescale::P15 => 15,
        }
    }
}

/// Maps a prescale marker type to its run-time value.
pub trait Prescaler: Sealed {
    spec fn val() -> Prescale;

    /// The run-time prescale value this marker stands for.
    fn value() -> (p: Prescale)
        ensures
            p == Self::val(),
    ;
}

/// Marker type for a divider exponent of 0.
pub struct P0;

/// Marker type for a divider exponent of 1.
pub struct P1;

/// Marker type for a divider exponent of 2.
pub struct P2;

/// Marker type for a divider exponent of 3.
pub struct P3;

/// Marker type for a divider exponent of 4.
pub struct P4;

/// Marker type for a divider exponent of 5.
pub struct P5;

/// Marker type for a divider exponent of 6.
pub struct P6;

/// Marker type for a divider exponent of 7.
pub struct P7;

/// Marker type for a divider exponent of 8.
pub struct P8;

/// Marker type for a divider exponent of 9.
pub struct P9;

/// Marker type for a divider exponent of 10.
pub struct P10;

/// Marker type for a divider exponent of 11.
pub struct P11;

/// Marker type for a divider exponent of 12.
pub struct P12;

/// Marker type for a divider exponent of 13.
pub struct P13;

/// Marker type for a divider exponent of 14.
pub struct P14;

/// Marker type for a divider exponent of 15.
pub struct P15;

impl Sealed for P0 {
}

impl Prescaler for P0 {
    open spec fn val() -> Prescale {
        Prescale::P0
    }

    fn value() -> Prescale {
        Prescale::P0
    }
}

impl Sealed for P1 {
}

impl Prescaler for P1 {
    open spec fn val() -> Prescale {
        Prescale::P1
    }

    fn value() -> Prescale {
        Prescale::P1
    }
}

impl Sealed for P2 {
}

impl Prescaler for P2 {
    open spec fn val() -> Prescale {
        Prescale::P2
    }

    fn value() -> Prescale {
        Prescale::P2
    }
}

impl Sealed for P3 {
}

impl Prescaler for P3 {
    open spec fn val() -> Prescale {
        Prescale::P3
    }

    fn value() -> Prescale {
        Prescale::P3
    }
}

impl Sealed for P4 {
}

impl Prescaler for P4 {
    open spec fn val() -> Prescale {
        Prescale::P4
    }

    fn value() -> Prescale {
        Prescale::P4
    }
}

impl Sealed for P5 {
}

impl Prescaler for P5 {
    open spec fn val() -> Prescale {
        Prescale::P5
    }

    fn value() -> Prescale {
        Prescale::P5
    }
}

impl Sealed for P6 {
}

impl Prescaler for P6 {
    open spec fn val() -> Prescale {
        Prescale::P6
    }

    fn value() -> Prescale {
        Prescale::P6
    }
}

impl Sealed for P7 {
}

impl Prescaler for P7 {
    open spec fn val() -> Prescale {
        Prescale::P7
    }

    fn value() -> Prescale {
        Prescale::P7
    }
}

impl Sealed for P8 {
}

impl Prescaler for P8 {
    open spec fn val() -> Prescale {
        Prescale::P8
    }

    fn value() -> Prescale {
        Prescale::P8
    }
}

impl Sealed for P9 {
}

impl Prescaler for P9 {
    open spec fn val() -> Prescale {
        Prescale::P9
    }

    fn value() -> Prescale {
        Prescale::P9
    }
}

impl Sealed for P10 {
}

impl Prescaler for P10 {
    open spec fn val() -> Prescale {
        Prescale::P10
    }

    fn value() -> Prescale {
        Prescale::P10
    }
}

impl Sealed for P11 {
}

impl Prescaler for P11 {
    open spec fn val() -> Prescale {
        Prescale::P11
    }

    fn value() -> Prescale {
        Prescale::P11
    }
}

impl Sealed for P12 {
}

impl Prescaler for P12 {
    open spec fn val() -> Prescale {
        Prescale::P12
    }

    fn value() -> Prescale {
        Prescale::P12
    }
}

impl Sealed for P13 {
}

impl Prescaler for P13 {
    open spec fn val() -> Prescale {
        Prescale::P13
    }

    fn value() -> Prescale {
        Prescale::P13
    }
}

impl Sealed for P14 {
}

impl Prescaler for P14 {
    open spec fn val() -> Prescale {
        Prescale::P14
    }

    fn value() -> Prescale {
        Prescale::P14
    }
}

impl Sealed for P15 {
}

impl Prescaler for P15 {
    open spec fn val() -> Prescale {
        Prescale::P15
    }

    fn value() -> Prescale {
        Prescale::P15
    }
}

} // verus!
