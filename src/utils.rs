//! Small helpers on bytes.
use vstd::prelude::*;

verus! {

/// The mask that selects bit `i` (0 is the least significant) of a byte.
pub open spec fn bit_mask(i: int) -> u8 {
    if i == 0 { 0x01 }
    else if i == 1 { 0x02 }
    else if i == 2 { 0x04 }
    else if i == 3 { 0x08 }
    else if i == 4 { 0x10 }
    else if i == 5 { 0x20 }
    else if i == 6 { 0x40 }
    else { 0x80 }
}

/// Whether bit `i` of `value` is set.
pub open spec fn bit(value: u8, i: int) -> bool {
    value & bit_mask(i) != 0
}

/// Split a byte into its eight bits, least significant first.
pub fn byte_to_boolean_array(value: u8) -> (r: [bool; 8])
    ensures
        forall|i: int| 0 <= i < 8 ==> r@[i] == bit(value, i),
{
    [
        value & 0b00000001 != 0,
        value & 0b00000010 != 0,
        value & 0b00000100 != 0,
        value & 0b00001000 != 0,
        value & 0b00010000 != 0,
        value & 0b00100000 != 0,
        value & 0b01000000 != 0,
        value & 0b10000000 != 0,
    ]
}

} // verus!
