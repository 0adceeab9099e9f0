//! Solar position sampling support.
//!
//! The backend that resolves a zenith angle for an instant lives outside
//! the verified engine (its interface is floating point). The engine
//! prepares the instants to query — whole minutes of the day, split into
//! an hour/minute pair — and admits the returned angles, in
//! milli-degrees, as samples: a reading that is missing or outside the
//! zenith domain counts as "no position" for that single instant and the
//! rasterizer skips that column rather than aborting the trajectory.

use vstd::prelude::*;

verus! {

/// Largest zenith angle a sample may carry, in milli-degrees: the angle
/// between the local vertical and any direction is at most 180 degrees
/// (a small tolerance covers the backend's parallax correction).
pub const ZENITH_LIMIT_MILLIDEG: i64 = 181_000;

/// A sample the rasterizer accepts: absent, or a zenith angle within
/// the zenith domain.
pub open spec fn valid_sample(s: Option<i64>) -> bool {
    s matches Some(z) ==> 0 <= z <= ZENITH_LIMIT_MILLIDEG
}

/// Split a minute of the day into the hour/minute clock pair at which
/// the backend is queried.
pub fn split_minute(minute_of_day: u16) -> (hm: (u8, u8))
    requires
        minute_of_day < 1440,
    ensures
        hm.0 == minute_of_day as int / 60,
        hm.1 == minute_of_day as int % 60,
        hm.0 < 24,
        hm.1 < 60,
{
    ((minute_of_day / 60) as u8, (minute_of_day % 60) as u8)
}

/// Admit a backend reading as a zenith sample.
///
/// A reading the backend could not produce, or one outside the zenith
/// domain (a numeric domain error upstream), becomes `None`: the
/// trajectory skips that instant instead of failing.
pub fn admit_sample(raw: Option<i64>) -> (s: Option<i64>)
    ensures
        valid_sample(s),
        s == (match raw {
            Some(z) => if 0 <= z <= ZENITH_LIMIT_MILLIDEG {
                Some(z)
            } else {
                None
            },
            None => None::<i64>,
        }),
{
    match raw {
        Some(z) => if 0 <= z && z <= ZENITH_LIMIT_MILLIDEG {
            Some(z)
        } else {
            None
        },
        None => None,
    }
}

} // verus!
