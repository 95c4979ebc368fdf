//! Decoding of the packed 16-bit date and time fields of FAT directory entries.
//!
//! A FAT time word packs an hour, a minute and a count of two-second steps; a
//! FAT date word packs a year offset from 1980, a month and a day. The two
//! decoders unpack those fields, check them against the calendar and the clock,
//! and return a validated value or `None`.
pub mod fields;
pub mod month;
pub mod date;
pub mod clock;

pub use fields::{
    day_field, hour_field, minute_field, month_field, two_second_field, year_offset_field,
};
pub use month::Month;
pub use date::{date_of, days_in_month, is_leap_year, parse_fat_date, FatDate, EPOCH_YEAR};
pub use clock::{parse_fat_time, time_of, FatTime};
