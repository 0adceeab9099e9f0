//! Affine overlay transform and composite planning.
//!
//! The background photograph is translated by an offset and scaled by a
//! per-axis factor (translate, then scale, as one composed affine
//! matrix); the trajectory polyline is stroked on top in the
//! untransformed pixel space of the output surface. The two are
//! independent layers merged onto one canvas. Scale factors are carried
//! in milli-units (1000 = identity), so a factor may be negative (a
//! flip) but the bounding-box math stays exact integer arithmetic.

use vstd::prelude::*;
use vstd::math::abs;
use crate::raster::TrajectoryPoint;

verus! {

/// Identity scale factor, in milli-units.
pub const SCALE_IDENTITY_MILLI: i64 = 1000;

/// Largest magnitude of a scale factor, in milli-units (a thousandfold
/// magnification).
pub const SCALE_LIMIT_MILLI: i64 = 1_000_000;

/// Offset (pixels) and per-axis scale (milli-units) applied to the
/// background photograph only — independent of the trajectory's own
/// pixel mapping.
#[derive(Clone, Copy, Debug, PartialEq, Eq, Structural)]
pub struct AlignmentParameters {
    pub x_offset: i32,
    pub y_offset: i32,
    pub x_scale_milli: i64,
    pub y_scale_milli: i64,
}

impl AlignmentParameters {
    /// Scale factors within the supported magnification range.
    pub open spec fn wf(self) -> bool {
        &&& -SCALE_LIMIT_MILLI <= self.x_scale_milli <= SCALE_LIMIT_MILLI
        &&& -SCALE_LIMIT_MILLI <= self.y_scale_milli <= SCALE_LIMIT_MILLI
    }

    /// The parameters that leave the photograph untouched.
    pub fn identity() -> (p: AlignmentParameters)
        ensures
            p.x_offset == 0,
            p.y_offset == 0,
            p.x_scale_milli == SCALE_IDENTITY_MILLI,
            p.y_scale_milli == SCALE_IDENTITY_MILLI,
            p.wf(),
    {
        AlignmentParameters {
            x_offset: 0,
            y_offset: 0,
            x_scale_milli: SCALE_IDENTITY_MILLI,
            y_scale_milli: SCALE_IDENTITY_MILLI,
        }
    }
}

/// Extent of one axis of the scaled photograph's bounding box, in whole
/// pixels: the magnitude of the scaled extent, rounded down.
pub open spec fn spec_scaled_extent(dim: int, scale_milli: int) -> int {
    abs(dim * scale_milli) as int / (SCALE_IDENTITY_MILLI as int)
}

/// Scale one axis of the photograph's extent.
pub fn scaled_extent(dim: u32, scale_milli: i64) -> (r: i64)
    requires
        -SCALE_LIMIT_MILLI <= scale_milli <= SCALE_LIMIT_MILLI,
    ensures
        r == spec_scaled_extent(dim as int, scale_milli as int),
        0 <= r,
{
    proof {
        assert(-0x10_0000_0000_0000 <= (dim as int) * (scale_milli as int)
            <= 0x10_0000_0000_0000) by (nonlinear_arith)
            requires
                0 <= dim <= 0x1_0000_0000,
                -SCALE_LIMIT_MILLI <= scale_milli <= SCALE_LIMIT_MILLI,
        ;
    }
    let prod: i64 = dim as i64 * scale_milli;
    let mag: i64 = if prod < 0 {
        -prod
    } else {
        prod
    };
    mag / SCALE_IDENTITY_MILLI
}

/// Bounding box (width, height) of the photograph once scaled: the
/// output surface's content size grows to this so no content is
/// clipped.
pub fn content_bounds(img_w: u32, img_h: u32, p: &AlignmentParameters) -> (b: (i64, i64))
    requires
        p.wf(),
    ensures
        b.0 == spec_scaled_extent(img_w as int, p.x_scale_milli as int),
        b.1 == spec_scaled_extent(img_h as int, p.y_scale_milli as int),
        0 <= b.0,
        0 <= b.1,
{
    (scaled_extent(img_w, p.x_scale_milli), scaled_extent(img_h, p.y_scale_milli))
}

/// Law: the identity transform reproduces the photograph's bounding box
/// exactly — an extent scaled by the identity factor is itself.
pub proof fn lemma_identity_scale_extent(dim: int)
    requires
        0 <= dim,
    ensures
        spec_scaled_extent(dim, SCALE_IDENTITY_MILLI as int) == dim,
{
    assert(abs(dim * 1000) == dim * 1000) by (nonlinear_arith)
        requires
            0 <= dim,
    ;
    assert(dim * 1000 / 1000 == dim) by (nonlinear_arith);
}

/// Placement of the photograph layer: translate by the offset, then
/// scale.
#[derive(Clone, Copy, Debug, PartialEq, Eq, Structural)]
pub struct PhotoPlacement {
    pub x_offset: i32,
    pub y_offset: i32,
    pub x_scale_milli: i64,
    pub y_scale_milli: i64,
}

/// One frame's composition: the photograph layer first (when it can be
/// drawn at all), then the trajectory polyline stroked on top in the
/// untransformed pixel space of the output surface.
pub struct RenderPlan {
    /// `None` when the photograph could not be decoded or a scale axis
    /// is zero (a degenerate configuration is skipped, never drawn).
    pub photo: Option<PhotoPlacement>,
    /// The polyline to stroke over the photograph; a break in the
    /// stroke is expected across any skipped column.
    pub trajectory: Vec<TrajectoryPoint>,
}

/// Whether the trajectory point at index `k` begins a new stroke: the
/// first point does, and so does any point whose column does not
/// directly follow its predecessor's (a skipped column breaks the
/// polyline rather than being interpolated across).
pub open spec fn spec_begins_new_stroke(pts: Seq<TrajectoryPoint>, k: int) -> bool {
    k == 0 || pts[k - 1].x + 1 != pts[k].x
}

/// Decide whether the point at index `k` begins a new stroke of the
/// polyline.
pub fn begins_new_stroke(pts: &Vec<TrajectoryPoint>, k: usize) -> (b: bool)
    requires
        k < pts@.len(),
    ensures
        b == spec_begins_new_stroke(pts@, k as int),
{
    if k == 0 {
        true
    } else {
        let prev: usize = pts[k - 1].x;
        let cur: usize = pts[k].x;
        !(prev < cur && cur - prev == 1)
    }
}

/// Plan one frame's composition.
///
/// A photograph that failed to decode, or a zero scale axis, only drops
/// the photograph layer: the trajectory is rendered regardless, exactly
/// as handed in.
pub fn compose(photo_decoded: bool, p: &AlignmentParameters, trajectory: Vec<TrajectoryPoint>) -> (
    plan: RenderPlan)
    ensures
        plan.trajectory@ == trajectory@,
        photo_decoded && p.x_scale_milli != 0 && p.y_scale_milli != 0 ==> plan.photo == Some(
            PhotoPlacement {
                x_offset: p.x_offset,
                y_offset: p.y_offset,
                x_scale_milli: p.x_scale_milli,
                y_scale_milli: p.y_scale_milli,
            },
        ),
        !(photo_decoded && p.x_scale_milli != 0 && p.y_scale_milli != 0) ==> plan.photo is None,
{
    let photo = if photo_decoded && p.x_scale_milli != 0 && p.y_scale_milli != 0 {
        Some(
            PhotoPlacement {
                x_offset: p.x_offset,
                y_offset: p.y_offset,
                x_scale_milli: p.x_scale_milli,
                y_scale_milli: p.y_scale_milli,
            },
        )
    } else {
        None
    };
    RenderPlan { photo, trajectory }
}

} // verus!
