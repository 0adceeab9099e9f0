//! Scenario tests driving the engine with the real astronomical backend:
//! the tests query `spa` (through `chrono` instants) and hand the engine
//! the plain fixed-point values it works on.

use chrono::{TimeZone, Timelike, Utc};
use spa::{solar_position, sunrise_and_set, StdFloatOps, SunriseAndSet};

use solarography::daylight::{daylight_window, DaylightWindow, SunMoments};
use solarography::geo::GeoTemporalContext;
use solarography::overlay::{compose, AlignmentParameters};
use solarography::raster::{column_minutes, rasterize_samples, VerticalCalibration};
use solarography::sampler::{admit_sample, split_minute};

fn sun_moments_for(ctx: &GeoTemporalContext) -> SunMoments {
    let anchor = Utc
        .with_ymd_and_hms(ctx.year, ctx.month as u32, ctx.day as u32, 12, 0, 0)
        .single()
        .unwrap();
    let lat = ctx.lat_microdeg as f64 / 1_000_000.0;
    let lon = ctx.lon_microdeg as f64 / 1_000_000.0;
    match sunrise_and_set::<StdFloatOps>(anchor, lat, lon).unwrap() {
        SunriseAndSet::PolarNight => SunMoments::PolarNight,
        SunriseAndSet::PolarDay => SunMoments::PolarDay,
        SunriseAndSet::Daylight(sr, ss) => SunMoments::Daylight {
            rise_hour: sr.hour() as u8,
            rise_minute: sr.minute() as u8,
            set_hour: ss.hour() as u8,
            set_minute: ss.minute() as u8,
        },
    }
}

fn zenith_sample_for(ctx: &GeoTemporalContext, minute_of_day: u16) -> Option<i64> {
    let (h, m) = split_minute(minute_of_day);
    let at = Utc
        .with_ymd_and_hms(ctx.year, ctx.month as u32, ctx.day as u32, h as u32, m as u32, 0)
        .single()
        .unwrap();
    let lat = ctx.lat_microdeg as f64 / 1_000_000.0;
    let lon = ctx.lon_microdeg as f64 / 1_000_000.0;
    match solar_position::<StdFloatOps>(at, lat, lon) {
        Ok(pos) if pos.zenith_angle.is_finite() => {
            admit_sample(Some((pos.zenith_angle * 1000.0) as i64))
        }
        _ => None,
    }
}

fn reference_context() -> GeoTemporalContext {
    GeoTemporalContext::new(56_502_815, 44_804_089, 2025, 10, 13).unwrap()
}

#[test]
fn mid_latitude_autumn_day_has_a_daylight_window() {
    let ctx = reference_context();
    let w = daylight_window(sun_moments_for(&ctx));
    match w {
        DaylightWindow::Daylight { sunrise_min, sunset_min } => {
            assert!(sunrise_min < sunset_min);
            // Morning sunrise, and nine to twelve hours of daylight:
            // the seasonal bounds for that latitude in mid-October.
            assert!(sunrise_min < 720);
            let daylength = sunset_min - sunrise_min;
            assert!(daylength > 9 * 60, "daylength {daylength}");
            assert!(daylength < 12 * 60, "daylength {daylength}");
        }
        DaylightWindow::NoEvent => panic!("expected a daylight window"),
    }
}

#[test]
fn polar_day_yields_no_event() {
    let ctx = GeoTemporalContext::new(67_400_000, 10_000_000, 2005, 6, 30).unwrap();
    assert_eq!(daylight_window(sun_moments_for(&ctx)), DaylightWindow::NoEvent);
}

#[test]
fn polar_night_yields_no_event() {
    let ctx = GeoTemporalContext::new(-68_000_000, 10_000_000, 2005, 6, 30).unwrap();
    assert_eq!(daylight_window(sun_moments_for(&ctx)), DaylightWindow::NoEvent);
}

#[test]
fn eight_hundred_columns_rasterize_monotonically() {
    let ctx = reference_context();
    let w = DaylightWindow::Daylight { sunrise_min: 450, sunset_min: 1075 };
    let minutes = column_minutes(&w, 800);
    assert_eq!(minutes.len(), 800);
    let samples: Vec<Option<i64>> =
        minutes.iter().map(|&m| zenith_sample_for(&ctx, m)).collect();
    let calib = VerticalCalibration::for_surface_height(400);
    let pts = rasterize_samples(&samples, &calib);
    assert!(!pts.is_empty());
    assert!(pts.len() <= 800);
    for k in 1..pts.len() {
        assert!(pts[k - 1].x < pts[k].x);
    }
}

#[test]
fn full_pipeline_survives_a_decode_failure() {
    let ctx = reference_context();
    let w = daylight_window(sun_moments_for(&ctx));
    let minutes = column_minutes(&w, 640);
    let samples: Vec<Option<i64>> =
        minutes.iter().map(|&m| zenith_sample_for(&ctx, m)).collect();
    let calib = VerticalCalibration::for_surface_height(400);
    let pts = rasterize_samples(&samples, &calib);
    // The photograph could not be decoded; the trajectory must still be
    // planned, and is non-empty for a valid daylight window.
    let plan = compose(false, &AlignmentParameters::identity(), pts);
    assert!(plan.photo.is_none());
    assert!(!plan.trajectory.is_empty());
}
