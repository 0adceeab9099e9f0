//! Solar trajectory overlay engine.
//!
//! Computes the daylight window (sunrise/sunset) and per-instant solar
//! position for an observer location and calendar date, rasterizes the
//! resulting curve into pixel coordinates across an output surface, and
//! plans the composition of that curve with an independently transformed
//! background photograph.
//!
//! Geographic coordinates are carried as micro-degrees, solar zenith
//! angles as milli-degrees, and vertical pixel positions as milli-pixels,
//! so that all engine logic works on exact integers.

pub mod clock;
pub mod daylight;
pub mod geo;
pub mod overlay;
pub mod raster;
pub mod sampler;
