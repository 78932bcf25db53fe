//! Capture rectangles and the even-alignment they undergo before being
//! handed to the encoder, which only accepts even offsets and dimensions.

use vstd::prelude::*;
use crate::errors::RecError;

verus! {

/// A capture rectangle: origin and dimensions, in device pixels.
#[derive(Clone, Copy, Debug, PartialEq, Eq, Structural)]
pub struct Region {
    pub x: i32,
    pub y: i32,
    pub width: i32,
    pub height: i32,
}

/// Largest even value at most `value`.
pub open spec fn spec_evenize(value: int) -> int {
    if value % 2 == 0 {
        value
    } else {
        value - 1
    }
}

/// Whether a region already has even origin and dimensions, both positive.
pub open spec fn region_even(r: Region) -> bool {
    &&& r.x % 2 == 0
    &&& r.y % 2 == 0
    &&& r.width % 2 == 0
    &&& r.height % 2 == 0
    &&& r.width > 0
    &&& r.height > 0
}

/// The even-aligned form of a region: odd origins move inward by one pixel
/// (shrinking the dimension), dimensions are floored to even; `None` when a
/// dimension starts out non-positive or degenerates to zero.
pub open spec fn spec_even_align(r: Region) -> Option<Region> {
    if r.width <= 0 || r.height <= 0 {
        None
    } else {
        let x = if r.x % 2 != 0 { r.x + 1 } else { r.x as int };
        let w0 = if r.x % 2 != 0 { r.width - 1 } else { r.width as int };
        let y = if r.y % 2 != 0 { r.y + 1 } else { r.y as int };
        let h0 = if r.y % 2 != 0 { r.height - 1 } else { r.height as int };
        let w = spec_evenize(w0);
        let h = spec_evenize(h0);
        if w <= 0 || h <= 0 {
            None
        } else {
            Some(Region { x: x as i32, y: y as i32, width: w as i32, height: h as i32 })
        }
    }
}

/// Largest even value at most `value` (for non-negative inputs; an odd
/// value loses one).
pub fn evenize(value: i32) -> (r: i32)
    ensures
        r == spec_evenize(value as int),
{
    if value % 2 == 0 {
        value
    } else {
        value - 1
    }
}

/// Even-aligns a capture region as the capture pipeline requires; rejects a
/// region whose dimensions are not positive, before or after alignment.
pub fn even_align_region(region: &Region) -> (r: Result<Region, RecError>)
    requires
        region.x < i32::MAX,
        region.y < i32::MAX,
    ensures
        r matches Ok(a) ==> spec_even_align(*region) == Some(a),
        r matches Err(e) ==> spec_even_align(*region) is None && e == RecError::InvalidRegion,
{
    if region.width <= 0 || region.height <= 0 {
        return Err(RecError::InvalidRegion);
    }
    let mut out = *region;
    if out.x % 2 != 0 {
        out.x = out.x + 1;
        out.width = out.width - 1;
    }
    if out.y % 2 != 0 {
        out.y = out.y + 1;
        out.height = out.height - 1;
    }
    out.width = evenize(out.width);
    out.height = evenize(out.height);
    if out.width <= 0 || out.height <= 0 {
        return Err(RecError::InvalidRegion);
    }
    Ok(out)
}

/// Even-alignment is idempotent: aligning an already aligned region
/// returns it unchanged.
pub proof fn lemma_even_align_idempotent(r: Region)
    requires
        region_even(r),
    ensures
        spec_even_align(r) == Some(r),
{
}

/// Whatever region alignment accepts, it accepts again, unchanged: the
/// result of a successful alignment is itself a fixed point.
pub proof fn lemma_even_align_fixed_point(r: Region, a: Region)
    requires
        r.x < i32::MAX,
        r.y < i32::MAX,
        spec_even_align(r) == Some(a),
    ensures
        region_even(a),
        spec_even_align(a) == Some(a),
{
}

} // verus!
