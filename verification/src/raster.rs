//! Trajectory rasterization.
//!
//! Maps the continuous daylight interval onto a fixed number of
//! horizontal pixel columns, then maps each column's zenith-angle sample
//! to a vertical position through a linear calibration. Vertical
//! positions are carried in milli-pixels so the mapping is exact
//! integer arithmetic.

use vstd::prelude::*;
use crate::daylight::DaylightWindow;
use crate::sampler::valid_sample;
use crate::sampler::ZENITH_LIMIT_MILLIDEG;

verus! {

/// Largest gain numerator or denominator a calibration may carry.
pub const GAIN_LIMIT: i64 = 0x4000_0000;

/// Largest magnitude of a calibration's bias, in milli-pixels.
pub const BIAS_LIMIT_MILLIPX: i64 = 0x100_0000_0000;

/// One point of the trajectory polyline: a pixel column and a vertical
/// position in milli-pixels. Points are emitted in increasing-`x` order,
/// matching moment-in-time order within the daylight window.
#[derive(Clone, Copy, Debug, PartialEq, Eq, Structural)]
pub struct TrajectoryPoint {
    pub x: usize,
    pub y_millipx: i64,
}

/// Calibration tying the zenith-angle range to the camera/lens geometry
/// of the photograph: a column's vertical position is
/// `zenith * gain_num / gain_den + bias_millipx`, with the zenith in
/// milli-degrees and the result in milli-pixels.
#[derive(Clone, Copy, Debug, PartialEq, Eq, Structural)]
pub struct VerticalCalibration {
    pub gain_num: i64,
    pub gain_den: i64,
    pub bias_millipx: i64,
}

impl VerticalCalibration {
    /// Bounds under which the vertical mapping cannot overflow.
    pub open spec fn wf(self) -> bool {
        &&& 0 <= self.gain_num <= GAIN_LIMIT
        &&& 1 <= self.gain_den <= GAIN_LIMIT
        &&& -BIAS_LIMIT_MILLIPX <= self.bias_millipx <= BIAS_LIMIT_MILLIPX
    }

    /// Validating constructor.
    pub fn new(gain_num: i64, gain_den: i64, bias_millipx: i64) -> (r: Option<VerticalCalibration>)
        ensures
            r == (if (VerticalCalibration { gain_num, gain_den, bias_millipx }).wf() {
                Some(VerticalCalibration { gain_num, gain_den, bias_millipx })
            } else {
                None::<VerticalCalibration>
            }),
            r matches Some(c) ==> c.wf(),
    {
        if 0 <= gain_num && gain_num <= GAIN_LIMIT && 1 <= gain_den && gain_den <= GAIN_LIMIT
            && -BIAS_LIMIT_MILLIPX <= bias_millipx && bias_millipx <= BIAS_LIMIT_MILLIPX {
            Some(VerticalCalibration { gain_num, gain_den, bias_millipx })
        } else {
            None
        }
    }

    /// The calibration of the reference photograph: a gain of
    /// `height / 30` pixels per degree of zenith angle and a bias of
    /// `-5100` pixels, for a surface of the given height.
    pub fn for_surface_height(height_px: u32) -> (c: VerticalCalibration)
        requires
            height_px <= GAIN_LIMIT,
        ensures
            c.gain_num == height_px,
            c.gain_den == 30,
            c.bias_millipx == -5_100_000,
            c.wf(),
    {
        VerticalCalibration { gain_num: height_px as i64, gain_den: 30, bias_millipx: -5_100_000 }
    }
}

/// The vertical milli-pixel position for a zenith angle under a
/// calibration (the quotient rounds toward negative infinity; both
/// operands are non-negative for a well-formed calibration and a valid
/// sample).
pub open spec fn spec_column_y(z: int, c: VerticalCalibration) -> int {
    z * c.gain_num / (c.gain_den as int) + c.bias_millipx
}

/// Map one zenith-angle sample to its vertical position.
pub fn column_y(z: i64, c: &VerticalCalibration) -> (y: i64)
    requires
        c.wf(),
        0 <= z <= ZENITH_LIMIT_MILLIDEG,
    ensures
        y == spec_column_y(z as int, *c),
{
    proof {
        assert(z * c.gain_num <= ZENITH_LIMIT_MILLIDEG * GAIN_LIMIT && 0 <= z * c.gain_num)
            by (nonlinear_arith)
            requires
                0 <= z <= ZENITH_LIMIT_MILLIDEG,
                0 <= c.gain_num <= GAIN_LIMIT,
        ;
    }
    let prod: i64 = z * c.gain_num;
    proof {
        assert(0 <= prod / c.gain_den <= prod) by (nonlinear_arith)
            requires
                0 <= prod,
                1 <= c.gain_den,
        ;
    }
    let q: i64 = prod / c.gain_den;
    q + c.bias_millipx
}

/// The trajectory for a sequence of per-column samples: one point per
/// column whose sample is present, at that column's index, in column
/// order; columns with an absent sample are skipped.
pub open spec fn spec_rasterize(samples: Seq<Option<i64>>, c: VerticalCalibration) -> Seq<
    TrajectoryPoint,
>
    decreases samples.len(),
{
    if samples.len() == 0 {
        Seq::empty()
    } else {
        let prefix = spec_rasterize(samples.drop_last(), c);
        match samples.last() {
            Some(z) => prefix.push(
                TrajectoryPoint {
                    x: (samples.len() - 1) as usize,
                    y_millipx: spec_column_y(z as int, c) as i64,
                },
            ),
            None => prefix,
        }
    }
}

/// Law: the rasterized trajectory never has more points than columns,
/// every point's column lies within the sampled range, and the columns
/// of the points are strictly increasing — the path is monotonic in the
/// horizontal (time) axis by construction.
pub proof fn lemma_rasterize_monotonic(samples: Seq<Option<i64>>, c: VerticalCalibration)
    requires
        samples.len() <= usize::MAX,
    ensures
        spec_rasterize(samples, c).len() <= samples.len(),
        forall|k: int|
            0 <= k < spec_rasterize(samples, c).len() ==> #[trigger] spec_rasterize(samples, c)[k].x
                < samples.len(),
        forall|a: int, b: int|
            0 <= a < b < spec_rasterize(samples, c).len() ==> spec_rasterize(samples, c)[a].x
                < spec_rasterize(samples, c)[b].x,
    decreases samples.len(),
{
    if samples.len() == 0 {
    } else {
        lemma_rasterize_monotonic(samples.drop_last(), c);
        let prefix = spec_rasterize(samples.drop_last(), c);
        let whole = spec_rasterize(samples, c);
        match samples.last() {
            Some(z) => {
                assert(whole.len() == prefix.len() + 1);
                assert(forall|k: int|
                    0 <= k < prefix.len() ==> #[trigger] whole[k].x == prefix[k].x);
                assert(whole[prefix.len() as int].x == samples.len() - 1);
                assert forall|a: int, b: int| 0 <= a < b < whole.len() implies whole[a].x
                    < whole[b].x by {
                    if b < prefix.len() {
                        assert(prefix[a].x < prefix[b].x);
                    } else {
                        assert(whole[a].x == prefix[a].x);
                        assert(prefix[a].x < samples.drop_last().len());
                    }
                }
            },
            None => {},
        }
    }
}

/// Law: rasterization is a pure function of its inputs — two calls on
/// identical samples and an identical calibration yield an identical
/// point sequence.
pub proof fn lemma_rasterize_deterministic(
    samples1: Seq<Option<i64>>,
    samples2: Seq<Option<i64>>,
    c1: VerticalCalibration,
    c2: VerticalCalibration,
)
    requires
        samples1 == samples2,
        c1 == c2,
    ensures
        spec_rasterize(samples1, c1) == spec_rasterize(samples2, c2),
{
}

/// Rasterize one zenith-angle sample per column into trajectory points.
///
/// Column `i` yields the point `(i, y)` when its sample is present and
/// nothing when it is absent (a break in the polyline is expected
/// there); points come out in strictly increasing column order.
pub fn rasterize_samples(samples: &Vec<Option<i64>>, c: &VerticalCalibration) -> (pts: Vec<
    TrajectoryPoint,
>)
    requires
        c.wf(),
        forall|i: int| 0 <= i < samples@.len() ==> valid_sample(#[trigger] samples@[i]),
    ensures
        pts@ == spec_rasterize(samples@, *c),
        pts@.len() <= samples@.len(),
        forall|a: int, b: int| 0 <= a < b < pts@.len() ==> pts@[a].x < pts@[b].x,
{
    let n: usize = samples.len();
    let mut pts: Vec<TrajectoryPoint> = Vec::new();
    let mut i: usize = 0;
    while i < n
        invariant
            n == samples@.len(),
            i <= n,
            c.wf(),
            forall|k: int| 0 <= k < samples@.len() ==> valid_sample(#[trigger] samples@[k]),
            pts@ == spec_rasterize(samples@.take(i as int), *c),
        decreases n - i,
    {
        proof {
            assert(samples@.take(i + 1).drop_last() =~= samples@.take(i as int));
            assert(samples@.take(i + 1).last() == samples@[i as int]);
        }
        match samples[i] {
            Some(z) => {
                let y: i64 = column_y(z, c);
                pts.push(TrajectoryPoint { x: i, y_millipx: y });
            },
            None => {},
        }
        i = i + 1;
    }
    proof {
        assert(samples@.take(n as int) =~= samples@);
        lemma_rasterize_monotonic(samples@, *c);
    }
    pts
}

/// The minute of the day shown at column `i` of `width`: linear
/// interpolation between sunrise and sunset, rounded down to a whole
/// minute.
pub open spec fn spec_column_minute(sunrise: int, sunset: int, i: int, width: int) -> int {
    sunrise + i * (sunset - sunrise) / width
}

/// The instants, one per output column, at which the solar position is
/// sampled for a daylight window: empty when there is no daylight event,
/// when the window is degenerate, or when the surface has no width.
pub open spec fn spec_column_minutes(w: DaylightWindow, width: int) -> Seq<u16> {
    match w {
        DaylightWindow::Daylight { sunrise_min, sunset_min } => {
            if sunrise_min < sunset_min && 0 < width {
                Seq::new(
                    width as nat,
                    |i: int|
                        spec_column_minute(
                            sunrise_min as int,
                            sunset_min as int,
                            i,
                            width,
                        ) as u16,
                )
            } else {
                Seq::empty()
            }
        },
        DaylightWindow::NoEvent => Seq::empty(),
    }
}

/// Compute the per-column sampling instants for a daylight window.
///
/// `NoEvent`, a window without a strictly ordered sunrise/sunset pair,
/// and a zero-width surface all yield an empty sequence: no trajectory
/// is drawn that frame. Each emitted minute lies within the window, so
/// the minutes are within the day whenever the window is well formed.
pub fn column_minutes(w: &DaylightWindow, width: usize) -> (ms: Vec<u16>)
    requires
        w.wf(),
    ensures
        ms@ == spec_column_minutes(*w, width as int),
        *w is NoEvent ==> ms@.len() == 0,
        width == 0 ==> ms@.len() == 0,
        forall|k: int| 0 <= k < ms@.len() ==> #[trigger] ms@[k] < crate::daylight::MINUTES_PER_DAY,
{
    match w {
        DaylightWindow::Daylight { sunrise_min, sunset_min } => {
            let sunrise: u16 = *sunrise_min;
            let sunset: u16 = *sunset_min;
            if sunrise < sunset && width > 0 {
                let span: u16 = sunset - sunrise;
                let mut ms: Vec<u16> = Vec::new();
                let mut i: usize = 0;
                while i < width
                    invariant
                        i <= width,
                        0 < width,
                        sunrise < sunset < crate::daylight::MINUTES_PER_DAY,
                        span == sunset - sunrise,
                        ms@.len() == i,
                        forall|k: int|
                            0 <= k < i ==> #[trigger] ms@[k] == spec_column_minute(
                                sunrise as int,
                                sunset as int,
                                k,
                                width as int,
                            ),
                        forall|k: int| 0 <= k < i ==> #[trigger] ms@[k] < sunset,
                    decreases width - i,
                {
                    proof {
                        assert((i as int) * (span as int) / (width as int) < span && 0 <= (
                        i as int) * (span as int) / (width as int)) by (nonlinear_arith)
                            requires
                                0 <= i < width,
                                0 < span,
                        ;
                        assert((i as int) * (span as int) <= 0xffff_ffff_ffff_ffff * 0xffff)
                            by (nonlinear_arith)
                            requires
                                0 <= i <= 0xffff_ffff_ffff_ffff,
                                0 <= span <= 0xffff,
                        ;
                    }
                    let off: u128 = (i as u128) * (span as u128) / (width as u128);
                    let m: u16 = sunrise + (off as u16);
                    ms.push(m);
                    i = i + 1;
                }
                proof {
                    assert(ms@ =~= spec_column_minutes(*w, width as int));
                }
                ms
            } else {
                Vec::new()
            }
        },
        DaylightWindow::NoEvent => Vec::new(),
    }
}

/// Law: however the samples were obtained, a trajectory rasterized from
/// one sample per column of a surface `width` columns wide has at most
/// `width` points, in strictly increasing column order; and a surface
/// of width zero yields no points.
pub proof fn lemma_trajectory_within_width(
    w: DaylightWindow,
    width: int,
    samples: Seq<Option<i64>>,
    c: VerticalCalibration,
)
    requires
        0 <= width,
        samples.len() <= usize::MAX,
        samples.len() == spec_column_minutes(w, width).len(),
    ensures
        spec_rasterize(samples, c).len() <= width,
        width == 0 ==> spec_rasterize(samples, c).len() == 0,
        forall|a: int, b: int|
            0 <= a < b < spec_rasterize(samples, c).len() ==> spec_rasterize(samples, c)[a].x
                < spec_rasterize(samples, c)[b].x,
{
    lemma_rasterize_monotonic(samples, c);
}

} // verus!
