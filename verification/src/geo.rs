//! Observer location and calendar date: the value every other component
//! of the engine consumes.

use vstd::prelude::*;

verus! {

/// Latitude bound in micro-degrees: 90 degrees.
pub const LAT_LIMIT_MICRODEG: i64 = 90_000_000;

/// Longitude bound in micro-degrees: 180 degrees.
pub const LON_LIMIT_MICRODEG: i64 = 180_000_000;

/// Largest calendar year the engine accepts.
pub const MAX_YEAR: i32 = 9999;

/// Why a context could not be constructed.
#[derive(Clone, Copy, Debug, PartialEq, Eq, Structural)]
pub enum ContextError {
    /// Latitude or longitude out of range.
    InvalidCoordinate,
    /// Year, month, day do not name a calendar date the engine accepts.
    InvalidDate,
}

/// Observer latitude/longitude (micro-degrees) and a calendar date.
///
/// Immutable snapshot: the engine receives it per render and never
/// mutates it; a caller replaces the whole value on any input change.
#[derive(Clone, Copy, Debug, PartialEq, Eq, Structural)]
pub struct GeoTemporalContext {
    pub lat_microdeg: i64,
    pub lon_microdeg: i64,
    pub year: i32,
    pub month: u8,
    pub day: u8,
}

/// Gregorian leap-year rule.
pub open spec fn spec_is_leap_year(year: int) -> bool {
    (year % 4 == 0 && year % 100 != 0) || year % 400 == 0
}

/// Number of days in a month of the Gregorian calendar.
pub open spec fn spec_days_in_month(year: int, month: int) -> int {
    if month == 2 {
        if spec_is_leap_year(year) {
            29
        } else {
            28
        }
    } else if month == 4 || month == 6 || month == 9 || month == 11 {
        30
    } else {
        31
    }
}

/// The dates the engine accepts: years 1 to 9999 of the Gregorian
/// calendar, with the usual month lengths and leap years.
pub open spec fn spec_valid_date(year: int, month: int, day: int) -> bool {
    &&& 1 <= year <= MAX_YEAR
    &&& 1 <= month <= 12
    &&& 1 <= day <= spec_days_in_month(year, month)
}

/// Coordinates within the WGS84 ranges, in micro-degrees.
pub open spec fn spec_valid_coords(lat_microdeg: int, lon_microdeg: int) -> bool {
    &&& -LAT_LIMIT_MICRODEG <= lat_microdeg <= LAT_LIMIT_MICRODEG
    &&& -LON_LIMIT_MICRODEG <= lon_microdeg <= LON_LIMIT_MICRODEG
}

impl GeoTemporalContext {
    /// Well-formedness: in-range coordinates and a valid calendar date.
    pub open spec fn wf(self) -> bool {
        &&& spec_valid_coords(self.lat_microdeg as int, self.lon_microdeg as int)
        &&& spec_valid_date(self.year as int, self.month as int, self.day as int)
    }

    /// Validating constructor. Out-of-range coordinates are a hard
    /// failure; so is a year/month/day triple that names no date.
    pub fn new(lat_microdeg: i64, lon_microdeg: i64, year: i32, month: u8, day: u8) -> (r: Result<
        GeoTemporalContext,
        ContextError,
    >)
        ensures
            spec_valid_coords(lat_microdeg as int, lon_microdeg as int) && spec_valid_date(
                year as int,
                month as int,
                day as int,
            ) ==> r == Ok::<GeoTemporalContext, ContextError>(
                GeoTemporalContext { lat_microdeg, lon_microdeg, year, month, day },
            ),
            !spec_valid_coords(lat_microdeg as int, lon_microdeg as int) ==> r == Err::<
                GeoTemporalContext,
                ContextError,
            >(ContextError::InvalidCoordinate),
            spec_valid_coords(lat_microdeg as int, lon_microdeg as int) && !spec_valid_date(
                year as int,
                month as int,
                day as int,
            ) ==> r == Err::<GeoTemporalContext, ContextError>(ContextError::InvalidDate),
            r matches Ok(c) ==> c.wf(),
    {
        if lat_microdeg < -LAT_LIMIT_MICRODEG || lat_microdeg > LAT_LIMIT_MICRODEG
            || lon_microdeg < -LON_LIMIT_MICRODEG || lon_microdeg > LON_LIMIT_MICRODEG {
            return Err(ContextError::InvalidCoordinate);
        }
        if year < 1 || year > MAX_YEAR || month < 1 || month > 12 {
            return Err(ContextError::InvalidDate);
        }
        let dim: u8 = days_in_month(year, month);
        if day < 1 || day > dim {
            return Err(ContextError::InvalidDate);
        }
        Ok(GeoTemporalContext { lat_microdeg, lon_microdeg, year, month, day })
    }
}

/// Whether `year` is a Gregorian leap year.
pub fn is_leap_year(year: i32) -> (r: bool)
    requires
        year >= 1,
    ensures
        r == spec_is_leap_year(year as int),
{
    (year % 4 == 0 && year % 100 != 0) || year % 400 == 0
}

/// Number of days in the given month.
pub fn days_in_month(year: i32, month: u8) -> (r: u8)
    requires
        year >= 1,
        1 <= month <= 12,
    ensures
        r == spec_days_in_month(year as int, month as int),
{
    if month == 2 {
        if is_leap_year(year) {
            29
        } else {
            28
        }
    } else if month == 4 || month == 6 || month == 9 || month == 11 {
        30
    } else {
        31
    }
}

} // verus!
