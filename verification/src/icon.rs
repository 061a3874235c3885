//! The window icon: a 64 x 64 RGBA raster of the set itself, rendered with
//! the verified escape-time iteration. Every byte of the buffer is pinned
//! down by `icon_byte`.

use vstd::prelude::*;

verus! {

use crate::escape::{escape_count_s, escape_iterations};

/// Icon width and height in pixels.
pub const ICON_SIDE: u32 = 64;

/// Bytes in the icon buffer: 64 * 64 pixels, four channels each.
pub const ICON_LEN: usize = 16384;

/// Iteration budget per pixel.
pub const ICON_MAX_ITER: u32 = 64;

/// Left edge of the rendered window onto the plane (-2.25).
pub const ICON_LEFT: i64 = -2_250_000_000_000;

/// Top edge of the rendered window onto the plane (+1.5).
pub const ICON_TOP: i64 = 1_500_000_000_000;

/// Plane distance between pixel centers (3 / 64).
pub const ICON_STEP: i64 = 46_875_000_000;

/// Half a pixel step: samples sit at pixel centers.
pub const ICON_HALF_STEP: i64 = 23_437_500_000;

/// Plane x coordinate sampled by pixel column `col`.
pub open spec fn icon_cx(col: int) -> int {
    ICON_LEFT + col * ICON_STEP + ICON_HALF_STEP
}

/// Plane y coordinate sampled by pixel row `row` (top row is +y).
pub open spec fn icon_cy(row: int) -> int {
    ICON_TOP - row * ICON_STEP - ICON_HALF_STEP
}

/// Escape count of the pixel at `(col, row)`.
pub open spec fn icon_count(col: int, row: int) -> nat {
    escape_count_s(0, 0, icon_cx(col), icon_cy(row), ICON_MAX_ITER as nat)
}

/// Byte `k` of the RGBA buffer: alpha is opaque; points that stay in the
/// set are black; escaped points shade red and green by the escape count
/// over a full blue channel.
pub open spec fn icon_byte(k: int) -> u8 {
    let pixel = k / 4;
    let channel = k % 4;
    let col = pixel % 64;
    let row = pixel / 64;
    let n = icon_count(col, row);
    if channel == 3 {
        255u8
    } else if n >= ICON_MAX_ITER as nat {
        0u8
    } else if channel == 2 {
        255u8
    } else {
        (n * 4) as u8
    }
}

/// Render the icon: a 16384-byte RGBA raster whose every byte equals
/// `icon_byte`.
pub fn icon_rgba() -> (v: Vec<u8>)
    ensures
        v@.len() == ICON_LEN,
        forall|k: int| 0 <= k < ICON_LEN ==> v@[k] == icon_byte(k),
{
    let mut v: Vec<u8> = Vec::new();
    let mut row: u32 = 0;
    while row < ICON_SIDE
        invariant
            row <= ICON_SIDE,
            v@.len() == 256 * row,
            forall|k: int| 0 <= k < v@.len() ==> v@[k] == icon_byte(k),
        decreases ICON_SIDE - row,
    {
        let mut col: u32 = 0;
        while col < ICON_SIDE
            invariant
                row < ICON_SIDE,
                col <= ICON_SIDE,
                v@.len() == 256 * row + 4 * col,
                forall|k: int| 0 <= k < v@.len() ==> v@[k] == icon_byte(k),
            decreases ICON_SIDE - col,
        {
            let cx: i64 = ICON_LEFT + (col as i64) * ICON_STEP + ICON_HALF_STEP;
            let cy: i64 = ICON_TOP - (row as i64) * ICON_STEP - ICON_HALF_STEP;
            let n: u32 = escape_iterations(cx, cy, ICON_MAX_ITER);
            let shade: u8 = if n >= ICON_MAX_ITER { 0 } else { (n * 4) as u8 };
            let blue: u8 = if n >= ICON_MAX_ITER { 0 } else { 255 };
            proof {
                let base = 256 * (row as int) + 4 * (col as int);
                let pixel = 64 * (row as int) + col as int;
                assert(base / 4 == pixel && (base + 1) / 4 == pixel && (base + 2) / 4 == pixel
                    && (base + 3) / 4 == pixel);
                assert(base % 4 == 0 && (base + 1) % 4 == 1 && (base + 2) % 4 == 2 && (base + 3)
                    % 4 == 3);
                assert(pixel % 64 == col as int && pixel / 64 == row as int);
            }
            v.push(shade);
            v.push(shade);
            v.push(blue);
            v.push(255);
            col = col + 1;
        }
        row = row + 1;
    }
    v
}

} // verus!
