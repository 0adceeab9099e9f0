//! Daylight window derivation.
//!
//! The astronomical backend (outside the verified engine, since its
//! interface is floating point) reports raw sunrise/sunset clock moments
//! or a polar condition for a date and location; the caller hands that
//! report in as a [`SunMoments`] value. The engine classifies it into a
//! [`DaylightWindow`]: a normal day with sunrise strictly before sunset,
//! or `NoEvent` when no usable sunrise/sunset pair exists (polar day,
//! polar night, or clock moments that do not order correctly once
//! reduced to a single day's clock).

use vstd::prelude::*;

verus! {

/// Minutes in a day.
pub const MINUTES_PER_DAY: u16 = 1440;

/// What the astronomical backend reports for one date and location:
/// raw UTC clock moments of sunrise and sunset, or a polar condition.
#[derive(Clone, Copy, Debug, PartialEq, Eq, Structural)]
pub enum SunMoments {
    /// Sun never rises that day at that location.
    PolarNight,
    /// Sun never sets that day at that location.
    PolarDay,
    /// Clock moments (hour 0..24, minute 0..60) of sunrise and sunset.
    Daylight { rise_hour: u8, rise_minute: u8, set_hour: u8, set_minute: u8 },
}

impl SunMoments {
    /// Clock moments within a day's clock.
    pub open spec fn wf(self) -> bool {
        self matches SunMoments::Daylight { rise_hour, rise_minute, set_hour, set_minute }
            ==> rise_hour < 24 && rise_minute < 60 && set_hour < 24 && set_minute < 60
    }
}

/// The daylight interval of a date at a location, in minutes of the day,
/// or the degenerate state where no such interval exists.
#[derive(Clone, Copy, Debug, PartialEq, Eq, Structural)]
pub enum DaylightWindow {
    /// Polar day, polar night, or no correctly ordered sunrise/sunset
    /// pair: downstream components render no trajectory, and a caller
    /// keeps its last good slider/axis bounds rather than resetting
    /// them.
    NoEvent,
    /// Normal day: sunrise strictly before sunset.
    Daylight { sunrise_min: u16, sunset_min: u16 },
}

impl DaylightWindow {
    /// A window the engine emits: sunrise strictly before sunset, both
    /// within a day.
    pub open spec fn wf(self) -> bool {
        self matches DaylightWindow::Daylight { sunrise_min, sunset_min } ==> sunrise_min
            < sunset_min < MINUTES_PER_DAY
    }
}

/// What the classification returns for each backend report: `Daylight`
/// exactly when the report carries clock moments whose minutes-of-day
/// order strictly (sunrise before sunset); every other report, polar
/// conditions included, is `NoEvent`.
pub open spec fn spec_classify(raw: SunMoments) -> DaylightWindow {
    match raw {
        SunMoments::Daylight { rise_hour, rise_minute, set_hour, set_minute } => {
            let rise = rise_hour * 60 + rise_minute;
            let set = set_hour * 60 + set_minute;
            if rise < set {
                DaylightWindow::Daylight { sunrise_min: rise as u16, sunset_min: set as u16 }
            } else {
                DaylightWindow::NoEvent
            }
        },
        _ => DaylightWindow::NoEvent,
    }
}

/// Derive the daylight window from the backend's report.
///
/// Polar day and polar night yield `NoEvent`; so does a report whose
/// clock moments do not put sunrise strictly before sunset (the backend
/// reports UTC instants, whose clock reduction may wrap past midnight
/// at extreme longitudes: no normal sunrise/sunset pair can then be
/// shown on one day's clock).
/// The time-selection range to show for a window: the daylight interval
/// when there is one; on `NoEvent` the previously shown range, unchanged
/// — a failure keeps the last good state rather than resetting the
/// control to an invalid range.
pub fn selection_range(w: &DaylightWindow, last_good: (u16, u16)) -> (r: (u16, u16))
    ensures
        *w matches DaylightWindow::Daylight { sunrise_min, sunset_min } ==> r == (
            sunrise_min,
            sunset_min,
        ),
        *w is NoEvent ==> r == last_good,
{
    match w {
        DaylightWindow::Daylight { sunrise_min, sunset_min } => (*sunrise_min, *sunset_min),
        DaylightWindow::NoEvent => last_good,
    }
}

pub fn daylight_window(raw: SunMoments) -> (w: DaylightWindow)
    ensures
        w == spec_classify(raw),
        w matches DaylightWindow::Daylight { sunrise_min, sunset_min } ==> sunrise_min
            < sunset_min,
        raw is PolarDay || raw is PolarNight ==> w is NoEvent,
        raw.wf() ==> w.wf(),
{
    match raw {
        SunMoments::Daylight { rise_hour, rise_minute, set_hour, set_minute } => {
            let rise: u16 = rise_hour as u16 * 60 + rise_minute as u16;
            let set: u16 = set_hour as u16 * 60 + set_minute as u16;
            if rise < set {
                DaylightWindow::Daylight { sunrise_min: rise, sunset_min: set }
            } else {
                DaylightWindow::NoEvent
            }
        },
        _ => DaylightWindow::NoEvent,
    }
}

} // verus!
