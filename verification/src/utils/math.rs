use vstd::prelude::*;

verus! {

/// Whether bit 7 of a byte is set: the 6502 reads such a byte as a negative number.
pub open spec fn negative(value: u8) -> bool {
    value >= 0x80
}

/// Whether bit 7 of `value` is set.
pub fn is_negative(value: u8) -> (r: bool)
    ensures
        r == negative(value),
{
    assert((value & 0x80 != 0) == (value >= 0x80)) by (bit_vector);
    value & 0x80 != 0
}

} // verus!
