use vstd::prelude::*;

verus! {

// The coordinate normalizer maps an integer raster position (column, row) on a
// width-by-height raster to normalized screen coordinates
//
//   nx = (column - width/2) / (width/2),    ny = (height/2 - row) / (width/2).
//
// Both coordinates are deliberately divided by the half-width: that ties the
// vertical field of view to the horizontal one (square pixels), so ny is not
// confined to [-1, 1] when the raster is not square. Over a common denominator
// of `width` the two quotients have the exact integer numerators computed
// here; the driver performs the one floating-point division per coordinate.

/// Exact numerator of the normalized x coordinate over denominator `width`:
/// (column - width/2) / (width/2) == (2*column - width) / width.
pub open spec fn normalized_x_numerator(column: int, width: int) -> int {
    2 * column - width
}

/// Exact numerator of the normalized y coordinate over denominator `width`:
/// (height/2 - row) / (width/2) == (height - 2*row) / width.
pub open spec fn normalized_y_numerator(row: int, height: int) -> int {
    height - 2 * row
}

/// Computes the exact integer numerators of both normalized coordinates of
/// pixel (column, row); the common denominator of both is `width`.
pub fn normalized_numerators(column: u32, row: u32, width: u32, height: u32) -> (r: (i64, i64))
    ensures
        r.0 == normalized_x_numerator(column as int, width as int),
        r.1 == normalized_y_numerator(row as int, height as int),
{
    let nx: i64 = 2 * (column as i64) - (width as i64);
    let ny: i64 = (height as i64) - 2 * (row as i64);
    (nx, ny)
}

/// The centre of the frame normalizes to the origin of screen space: for any
/// positive raster dimensions, pixel (width/2, height/2) has numerators within
/// one unit of zero — so each coordinate has magnitude at most 1/width — and
/// exactly zero whenever the respective dimension is even.
pub proof fn lemma_centre_pixel_maps_to_origin(width: int, height: int)
    requires
        width > 0,
        height > 0,
    ensures
        -1 <= normalized_x_numerator(width / 2, width) <= 0,
        0 <= normalized_y_numerator(height / 2, height) <= 1,
        width % 2 == 0 ==> normalized_x_numerator(width / 2, width) == 0,
        height % 2 == 0 ==> normalized_y_numerator(height / 2, height) == 0,
{
}

/// On-raster pixels normalize into the nominal frame: nx lies in [-1, 1) and
/// ny in (-height/width, height/width], stated over the numerators with their
/// common denominator `width`.
pub proof fn lemma_normalized_range(column: int, row: int, width: int, height: int)
    requires
        width > 0,
        height > 0,
        0 <= column < width,
        0 <= row < height,
    ensures
        -width <= normalized_x_numerator(column, width) < width,
        -height < normalized_y_numerator(row, height) <= height,
{
}

} // verus!
