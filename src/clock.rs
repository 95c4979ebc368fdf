//! The FAT time word and its decoder.
use vstd::prelude::*;

use crate::fields::{hour_field, lemma_field_bounds, minute_field, two_second_field};

verus! {

/// A wall-clock time decoded from a FAT time word.
#[derive(Clone, Copy, Debug, PartialEq, Eq, Structural)]
pub struct FatTime {
    pub hour: u8,
    pub minute: u8,
    pub second: u8,
}

impl FatTime {
    /// The time is one a FAT time word can hold: seconds are even.
    pub open spec fn wf(self) -> bool {
        &&& self.hour <= 23
        &&& self.minute <= 59
        &&& self.second <= 58
        &&& self.second % 2 == 0
    }

    /// The hour of the day.
    pub fn hour(&self) -> (r: u8)
        ensures
            r == self.hour,
    {
        self.hour
    }

    /// The minute of the hour.
    pub fn minute(&self) -> (r: u8)
        ensures
            r == self.minute,
    {
        self.minute
    }

    /// The second of the minute.
    pub fn second(&self) -> (r: u8)
        ensures
            r == self.second,
    {
        self.second
    }
}

/// The time a FAT time word stands for, or `None` where a field is out of
/// range: hours must be at most 23, minutes at most 59 and the two-second
/// count at most 29.
pub open spec fn time_of(w: u16) -> Option<FatTime> {
    if hour_field(w) <= 23 && minute_field(w) <= 59 && two_second_field(w) <= 29 {
        Some(
            FatTime {
                hour: hour_field(w) as u8,
                minute: minute_field(w) as u8,
                second: (2 * two_second_field(w)) as u8,
            },
        )
    } else {
        None
    }
}

/// Relies on time::Time::from_hms: it succeeds exactly when the hour is below
/// 24, the minute below 60 and the second below 60.
#[verifier::external_body]
fn clock_time_exists(hour: u8, minute: u8, second: u8) -> (r: bool)
    ensures
        r == (hour < 24 && minute < 60 && second < 60),
{
    time::Time::from_hms(hour, minute, second).is_ok()
}

/// Decodes a FAT time word (bits 15..11: hours, bits 10..5: minutes, bits
/// 4..0: seconds divided by two). The zero word is midnight. Returns `None`
/// when any field is out of range.
pub fn parse_fat_time(dos_time: u16) -> (r: Option<FatTime>)
    ensures
        r == time_of(dos_time),
{
    proof {
        lemma_field_bounds(dos_time);
    }
    let hours: u16 = (dos_time >> 11) & 0x1F;
    if hours > 23 {
        return None;
    }
    let minutes: u16 = (dos_time >> 5) & 0x3F;
    if minutes > 59 {
        return None;
    }
    let two_seconds: u16 = dos_time & 0x1F;
    if two_seconds > 29 {
        return None;
    }
    let seconds: u16 = two_seconds * 2;

    // The checks above leave only fields that name a time of day.
    let valid = clock_time_exists(hours as u8, minutes as u8, seconds as u8);
    proof {
        assert(valid);
    }
    Some(FatTime { hour: hours as u8, minute: minutes as u8, second: seconds as u8 })
}

/// Every time the decoder yields has hour 0..=23, minute 0..=59 and an even
/// second 0..=58.
pub proof fn lemma_decoded_time_in_range(w: u16)
    ensures
        time_of(w) is Some ==> time_of(w)->0.wf(),
{
}

/// A decoded time carries the word's fields verbatim: the hour is bits 15..11,
/// the minute bits 10..5 and the second twice bits 4..0.
pub proof fn lemma_decoded_time_fields(w: u16)
    requires
        time_of(w) is Some,
    ensures
        time_of(w)->0.hour == (w >> 11u16) & 0x1Fu16,
        time_of(w)->0.minute == (w >> 5u16) & 0x3Fu16,
        time_of(w)->0.second == (w & 0x1Fu16) * 2,
{
}

/// A word with an hour above 23, a minute above 59 or a two-second count
/// above 29 decodes to no time.
pub proof fn lemma_time_rejects_out_of_range(w: u16)
    requires
        hour_field(w) > 23 || minute_field(w) > 59 || two_second_field(w) > 29,
    ensures
        time_of(w) is None,
{
}

} // verus!
