//! Bit layout of the FAT time and date words.
use vstd::prelude::*;

verus! {

/// Hours: bits 15..11 of a time word.
pub open spec fn hour_field(w: u16) -> u16 {
    (w >> 11u16) & 0x1Fu16
}

/// Minutes: bits 10..5 of a time word.
pub open spec fn minute_field(w: u16) -> u16 {
    (w >> 5u16) & 0x3Fu16
}

/// Count of two-second steps: bits 4..0 of a time word.
pub open spec fn two_second_field(w: u16) -> u16 {
    w & 0x1Fu16
}

/// Years since 1980: bits 15..9 of a date word.
pub open spec fn year_offset_field(w: u16) -> u16 {
    (w >> 9u16) & 0x7Fu16
}

/// Month number: bits 8..5 of a date word.
pub open spec fn month_field(w: u16) -> u16 {
    (w >> 5u16) & 0x0Fu16
}

/// Day of the month: bits 4..0 of a date word.
pub open spec fn day_field(w: u16) -> u16 {
    w & 0x1Fu16
}

/// Each field is no wider than its bit width allows.
pub proof fn lemma_field_bounds(w: u16)
    ensures
        hour_field(w) <= 31,
        minute_field(w) <= 63,
        two_second_field(w) <= 31,
        year_offset_field(w) <= 127,
        month_field(w) <= 15,
        day_field(w) <= 31,
{
    assert((w >> 11u16) & 0x1Fu16 <= 31) by (bit_vector);
    assert((w >> 5u16) & 0x3Fu16 <= 63) by (bit_vector);
    assert(w & 0x1Fu16 <= 31) by (bit_vector);
    assert((w >> 9u16) & 0x7Fu16 <= 127) by (bit_vector);
    assert((w >> 5u16) & 0x0Fu16 <= 15) by (bit_vector);
}

} // verus!
