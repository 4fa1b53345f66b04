//! Seal for the marker-type vocabulary of the typed layer.

use vstd::prelude::*;

verus! {

/// Implemented by every marker type of this crate (run states, bit widths,
/// prescale tags, mode tags, interrupt flags and flag banks). The set of
/// markers is closed: downstream code is not meant to add its own tags.
pub trait Sealed {
}

} // verus!
