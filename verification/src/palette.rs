//! Pixel-to-intensity classification over the radar tile palette.
//!
//! A tile is a 256 x 256 RGBA raster. Every pixel must match one of the
//! nine documented palette colors exactly; the tile's precipitation value
//! is the sum of the per-pixel weights (the mean in mm/h is this sum
//! divided by the pixel count).

use vstd::prelude::*;

verus! {

/// Number of pixels in one tile.
pub const GRID_PIXELS: usize = 65536;

/// Number of RGBA bytes in one tile.
pub const GRID_BYTES: usize = 262144;

/// Largest possible weight sum: every pixel in the heaviest band.
pub const MAX_WEIGHT_SUM: u32 = 6553600;

/// The fixed palette: the intensity weight of one RGBA color, or `None`
/// for a color outside the palette.
pub open spec fn spec_pixel_weight(r: u8, g: u8, b: u8, a: u8) -> Option<u32> {
    if r == 180 && g == 0 && b == 104 && a == 255 {
        Some(100u32)  // violet
    } else if r == 255 && g == 40 && b == 0 && a == 255 {
        Some(80u32)  // red
    } else if r == 255 && g == 153 && b == 0 && a == 255 {
        Some(50u32)  // orange
    } else if r == 250 && g == 245 && b == 0 && a == 255 {
        Some(30u32)  // yellow
    } else if r == 0 && g == 65 && b == 255 && a == 255 {
        Some(20u32)  // blue
    } else if r == 33 && g == 140 && b == 255 && a == 255 {
        Some(10u32)  // water
    } else if r == 160 && g == 210 && b == 255 && a == 255 {
        Some(5u32)  // sky blue
    } else if r == 242 && g == 242 && b == 255 && a == 255 {
        Some(1u32)  // subtle blue
    } else if r == 0 && g == 0 && b == 0 && a == 0 {
        Some(0u32)  // clear
    } else if r == 255 && g == 255 && b == 255 && a == 0 {
        Some(0u32)  // clear
    } else {
        None
    }
}

/// The weight of pixel `i` of an RGBA byte grid.
pub open spec fn spec_pixel_at(px: Seq<u8>, i: int) -> Option<u32> {
    spec_pixel_weight(px[4 * i], px[4 * i + 1], px[4 * i + 2], px[4 * i + 3])
}

/// The first `n` pixels all lie inside the palette.
pub open spec fn spec_prefix_classified(px: Seq<u8>, n: int) -> bool {
    forall|i: int| 0 <= i < n ==> (#[trigger] spec_pixel_at(px, i)) is Some
}

/// Weight sum of the first `n` pixels; a pixel outside the palette counts
/// as zero (callers only use this where all pixels classify).
pub open spec fn spec_weight_sum(px: Seq<u8>, n: int) -> int
    decreases n,
{
    if n <= 0 {
        0
    } else {
        spec_weight_sum(px, n - 1) + (match spec_pixel_at(px, n - 1) {
            Some(w) => w as int,
            None => 0int,
        })
    }
}

/// Classification failure: the index of the first pixel whose color lies
/// outside the palette.
#[derive(Clone, Copy, Debug, PartialEq, Eq, Structural)]
pub struct PixelError {
    pub index: usize,
}

/// Classify one RGBA pixel against the palette.
pub fn classify_pixel(r: u8, g: u8, b: u8, a: u8) -> (w: Option<u32>)
    ensures
        w == spec_pixel_weight(r, g, b, a),
{
    if r == 180 && g == 0 && b == 104 && a == 255 {
        Some(100)
    } else if r == 255 && g == 40 && b == 0 && a == 255 {
        Some(80)
    } else if r == 255 && g == 153 && b == 0 && a == 255 {
        Some(50)
    } else if r == 250 && g == 245 && b == 0 && a == 255 {
        Some(30)
    } else if r == 0 && g == 65 && b == 255 && a == 255 {
        Some(20)
    } else if r == 33 && g == 140 && b == 255 && a == 255 {
        Some(10)
    } else if r == 160 && g == 210 && b == 255 && a == 255 {
        Some(5)
    } else if r == 242 && g == 242 && b == 255 && a == 255 {
        Some(1)
    } else if r == 0 && g == 0 && b == 0 && a == 0 {
        Some(0)
    } else if r == 255 && g == 255 && b == 255 && a == 0 {
        Some(0)
    } else {
        None
    }
}

/// Classify a whole tile. Succeeds with the weight sum exactly when every
/// pixel lies inside the palette; otherwise reports the first offending
/// pixel, regardless of how the remaining pixels classify.
pub fn classify_grid(pixels: &[u8]) -> (r: Result<u32, PixelError>)
    requires
        pixels@.len() == GRID_BYTES,
    ensures
        match r {
            Ok(sum) => spec_prefix_classified(pixels@, GRID_PIXELS as int)
                && sum == spec_weight_sum(pixels@, GRID_PIXELS as int)
                && sum <= MAX_WEIGHT_SUM,
            Err(e) => e.index < GRID_PIXELS
                && spec_pixel_at(pixels@, e.index as int) is None
                && spec_prefix_classified(pixels@, e.index as int),
        },
{
    let mut sum: u32 = 0;
    let mut i: usize = 0;
    while i < GRID_PIXELS
        invariant
            pixels@.len() == GRID_BYTES,
            i <= GRID_PIXELS,
            spec_prefix_classified(pixels@, i as int),
            sum == spec_weight_sum(pixels@, i as int),
            sum <= 100 * i,
        decreases GRID_PIXELS - i,
    {
        let r = pixels[4 * i];
        let g = pixels[4 * i + 1];
        let b = pixels[4 * i + 2];
        let a = pixels[4 * i + 3];
        match classify_pixel(r, g, b, a) {
            Some(w) => {
                sum = sum + w;
            },
            None => {
                return Err(PixelError { index: i });
            },
        }
        i = i + 1;
    }
    Ok(sum)
}

} // verus!
