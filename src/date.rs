//! The FAT date word and its decoder.
use vstd::prelude::*;

use crate::fields::{day_field, lemma_field_bounds, month_field, year_offset_field};
use crate::month::Month;

verus! {

/// The first year a FAT date word can hold.
pub const EPOCH_YEAR: i32 = 1980;

/// Leap years of the Gregorian calendar.
pub open spec fn is_leap_year(year: int) -> bool {
    year % 4 == 0 && (year % 100 != 0 || year % 400 == 0)
}

/// The number of days in month `month` (1..=12) of year `year`.
pub open spec fn days_in_month(year: int, month: int) -> int {
    if month == 2 {
        if is_leap_year(year) {
            29
        } else {
            28
        }
    } else if month == 4 || month == 6 || month == 9 || month == 11 {
        30
    } else {
        31
    }
}

/// A calendar date decoded from a FAT date word.
#[derive(Clone, Copy, Debug, PartialEq, Eq, Structural)]
pub struct FatDate {
    pub year: i32,
    pub month: Month,
    pub day: u8,
}

impl FatDate {
    /// The date lies in the range a FAT date word covers and names a real day.
    pub open spec fn wf(self) -> bool {
        &&& 1980 <= self.year <= 2107
        &&& 1 <= self.day <= days_in_month(self.year as int, self.month.spec_number())
    }

    /// The year.
    pub fn year(&self) -> (r: i32)
        ensures
            r == self.year,
    {
        self.year
    }

    /// The month of the year.
    pub fn month(&self) -> (r: Month)
        ensures
            r == self.month,
    {
        self.month
    }

    /// The day of the month.
    pub fn day(&self) -> (r: u8)
        ensures
            r == self.day,
    {
        self.day
    }
}

/// The date a FAT date word stands for, or `None` where it stands for none:
/// the zero word is reserved, the month must be 1..=12 and the day must lie in
/// that month of year `1980 + offset`.
pub open spec fn date_of(w: u16) -> Option<FatDate> {
    let year = 1980 + year_offset_field(w);
    let day = day_field(w);
    if w == 0 {
        None
    } else {
        match Month::spec_from_number(month_field(w) as int) {
            Some(month) => if 1 <= day <= days_in_month(year, month_field(w) as int) {
                Some(FatDate { year: year as i32, month, day: day as u8 })
            } else {
                None
            },
            None => None,
        }
    }
}

/// Relies on time::Date::from_calendar_date (with time::Month::try_from to
/// name the month): for a year in -9999..=9999 and a month in 1..=12 it
/// succeeds exactly when the day lies in that month of the proleptic
/// Gregorian calendar.
#[verifier::external_body]
fn calendar_date_exists(year: i32, month: u8, day: u8) -> (r: bool)
    requires
        -9999 <= year <= 9999,
        1 <= month <= 12,
    ensures
        r == (1 <= day <= days_in_month(year as int, month as int)),
{
    match time::Month::try_from(month) {
        Ok(m) => time::Date::from_calendar_date(year, m, day).is_ok(),
        Err(_) => false,
    }
}

/// Decodes a FAT date word (bits 15..9: years since 1980, bits 8..5: month,
/// bits 4..0: day). Returns `None` for the reserved zero word and for any word
/// that does not name a real calendar day.
pub fn parse_fat_date(dos_date: u16) -> (r: Option<FatDate>)
    ensures
        r == date_of(dos_date),
{
    // A zero date is a reserved field: some tools write no date at all.
    if dos_date == 0 {
        return None;
    }
    proof {
        lemma_field_bounds(dos_date);
    }
    let year_offset: u16 = (dos_date >> 9) & 0x7F;
    let year: i32 = EPOCH_YEAR + year_offset as i32;

    let month_number: u16 = (dos_date >> 5) & 0x0F;
    let month = match Month::from_number(month_number as u8) {
        Some(m) => m,
        None => return None,
    };

    let day: u16 = dos_date & 0x1F;
    if day < 1 || day > 31 {
        return None;
    }

    if calendar_date_exists(year, month_number as u8, day as u8) {
        Some(FatDate { year, month, day: day as u8 })
    } else {
        None
    }
}

/// Every date the decoder yields lies in 1980..=2107, has a month 1..=12 and
/// a day that exists in that month of that year.
pub proof fn lemma_decoded_date_in_range(w: u16)
    ensures
        date_of(w) is Some ==> {
            let d = date_of(w)->0;
            &&& d.wf()
            &&& 1 <= d.month.spec_number() <= 12
        },
{
    lemma_field_bounds(w);
}

/// A decoded date carries the word's fields verbatim: the year is 1980 plus
/// bits 15..9, the month number bits 8..5 and the day bits 4..0.
pub proof fn lemma_decoded_date_fields(w: u16)
    requires
        date_of(w) is Some,
    ensures
        date_of(w)->0.year - 1980 == (w >> 9u16) & 0x7Fu16,
        date_of(w)->0.month.spec_number() == (w >> 5u16) & 0x0Fu16,
        date_of(w)->0.day == w & 0x1Fu16,
{
    lemma_field_bounds(w);
}

/// A word whose month is outside 1..=12, whose day is zero, or whose day
/// exceeds the length of that month in year `1980 + offset` decodes to no
/// date.
pub proof fn lemma_date_rejects_out_of_range(w: u16)
    requires
        month_field(w) < 1 || month_field(w) > 12 || day_field(w) == 0 || day_field(w)
            > days_in_month(1980 + year_offset_field(w), month_field(w) as int),
    ensures
        date_of(w) is None,
{
}

} // verus!
