//! Placing pixels in the plane.
//!
//! A pixel `(x, y)` of a `width` by `height` canvas sits at
//! `centre + (dx, dy) * 2^-zoom`, where `dx = x - width / 2` and
//! `dy = y - height / 2` are signed offsets from the centre pixel. The
//! offsets and the power-of-two scale are exact integers; the caller applies
//! them to the view's centre.

use vstd::prelude::*;
use vstd::arithmetic::power2::pow2;
use vstd::bits::{lemma_u64_pow2_no_overflow, lemma_u64_shl_is_mul};

verus! {

/// The drawing surface, as the host reports it for one render pass.
#[derive(Clone, Copy, Debug, PartialEq, Eq, Structural)]
pub struct Canvas {
    pub width: u32,
    pub height: u32,
}

/// The signed distance, in pixels, from the centre of an axis of `size`
/// pixels (the pixel at `size / 2`) to the pixel at `pixel`.
pub open spec fn offset_of(pixel: int, size: int) -> int {
    pixel - size / 2
}

/// The offset of `pixel` from the centre of an axis of `size` pixels,
/// computed in a signed domain so that pixels before the centre give
/// negative offsets.
pub fn pixel_offset(pixel: u32, size: u32) -> (r: i64)
    ensures
        r as int == offset_of(pixel as int, size as int),
{
    (pixel as i64) - ((size / 2) as i64)
}

impl Canvas {
    pub fn new(width: u32, height: u32) -> (r: Canvas)
        ensures
            r.width == width,
            r.height == height,
    {
        Canvas { width, height }
    }

    /// The pixel at the centre of the canvas.
    pub fn center_pixel(&self) -> (r: (u32, u32))
        ensures
            r.0 as int == self.width as int / 2,
            r.1 as int == self.height as int / 2,
    {
        (self.width / 2, self.height / 2)
    }

    /// The signed offsets `(dx, dy)` of pixel `(x, y)` from the centre pixel.
    pub fn offsets(&self, x: u32, y: u32) -> (r: (i64, i64))
        ensures
            r.0 as int == offset_of(x as int, self.width as int),
            r.1 as int == offset_of(y as int, self.height as int),
    {
        (pixel_offset(x, self.width), pixel_offset(y, self.height))
    }
}

/// The largest zoom level whose scale fits in 64 bits.
pub const MAX_ZOOM: u32 = 63;

/// The number of pixels per plane unit at a zoom level: `2^zoom`, so that
/// one pixel spans `2^-zoom` plane units.
pub fn zoom_scale(zoom: u32) -> (r: u64)
    requires
        zoom <= MAX_ZOOM,
    ensures
        r as nat == pow2(zoom as nat),
{
    let shift = zoom as u64;
    proof {
        lemma_u64_pow2_no_overflow(shift as nat);
        lemma_u64_shl_is_mul(1u64, shift);
    }
    1u64 << shift
}

/// The centre pixel of every canvas lies at offset zero on both axes, so it
/// maps to the view's centre at every zoom level.
pub proof fn lemma_center_pixel_maps_to_center(canvas: Canvas)
    ensures
        offset_of(canvas.width as int / 2, canvas.width as int) == 0,
        offset_of(canvas.height as int / 2, canvas.height as int) == 0,
{
}

/// Two pixels `k` before and `k` after the centre of an axis lie at offsets
/// that are exact negatives of each other, for every `k` that keeps both
/// inside the axis.
pub proof fn lemma_offsets_symmetric(size: u32, k: u32)
    requires
        k <= size / 2,
        size / 2 + k < size,
    ensures
        offset_of((size / 2 - k) as int, size as int) == -offset_of((size / 2 + k) as int, size as int),
        offset_of((size / 2 - k) as int, size as int) == -(k as int),
{
}

} // verus!
