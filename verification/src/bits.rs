//! Single bits of a byte.

use vstd::prelude::*;

verus! {

/// Whether the given bit of the byte is set; bit 0 is the lowest.
pub open spec fn bit_is_set(byte: u8, bit: u8) -> bool {
    (byte >> bit) & 1 == 1
}

/// Tests one bit of a byte.
pub fn flag_set_at(byte: u8, bit: u8) -> (set: bool)
    requires
        bit < 8,
    ensures
        set == bit_is_set(byte, bit),
{
    (byte >> bit) & 1 == 1
}

} // verus!
