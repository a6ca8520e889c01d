//! RGBA images for textures, with a stand-in for images that cannot be had.
use vstd::prelude::*;

verus! {

/// An image of `w` by `h` pixels. `image_bytes` holds four bytes for each
/// pixel, red, green, blue and alpha, row after row.
pub struct Png {
    pub w: i32,
    pub h: i32,
    pub image_bytes: Vec<u8>,
}

/// Width and height of the stand-in checkerboard image.
pub const CHECKERBOARD_SIDE: i32 = 4;

/// Byte `i` of the checkerboard image: a 4 by 4 board of opaque pixels, white
/// where the column and row add up to an even number and black elsewhere.
pub open spec fn checkerboard_byte(i: int) -> u8 {
    let pixel = i / 4;
    let column = pixel % 4;
    let row = pixel / 4;
    if i % 4 == 3 || (column + row) % 2 == 0 {
        0xFF
    } else {
        0
    }
}

/// The image to show where a texture could not be decoded: a 4 by 4
/// checkerboard of opaque black and white pixels with white at the top left.
pub fn checkerboard_png() -> (r: Png)
    ensures
        r.w == CHECKERBOARD_SIDE,
        r.h == CHECKERBOARD_SIDE,
        r.image_bytes.len() == 64,
        forall|i: int| 0 <= i < 64 ==> #[trigger] r.image_bytes@[i] == checkerboard_byte(i),
{
    let mut bytes: Vec<u8> = Vec::new();
    let mut row: usize = 0;
    while row < 4
        invariant
            row <= 4,
            bytes.len() == 16 * row,
            forall|i: int| 0 <= i < bytes.len() ==> #[trigger] bytes@[i] == checkerboard_byte(i),
        decreases 4 - row,
    {
        let mut column: usize = 0;
        while column < 4
            invariant
                row < 4,
                column <= 4,
                bytes.len() == 16 * row + 4 * column,
                forall|i: int| 0 <= i < bytes.len() ==> #[trigger] bytes@[i] == checkerboard_byte(i),
            decreases 4 - column,
        {
            let shade: u8 = if (column + row) % 2 == 0 { 0xFF } else { 0 };
            let ghost start = bytes.len() as int;
            assert((start + 3) / 4 == 4 * row + column && (start + 3) % 4 == 3);
            bytes.push(shade);
            bytes.push(shade);
            bytes.push(shade);
            bytes.push(0xFF);
            column = column + 1;
        }
        row = row + 1;
    }
    Png { w: CHECKERBOARD_SIDE, h: CHECKERBOARD_SIDE, image_bytes: bytes }
}

/// The image of `width` by `height` pixels given as red, green, blue and
/// alpha quads. The sizes are converted to `i32` as `as` does, wrapping
/// those above `i32::MAX`.
pub fn png_from_rgba(width: u32, height: u32, pixels: &Vec<[u8; 4]>) -> (r: Png)
    requires
        4 * pixels.len() <= usize::MAX,
    ensures
        r.w == width as i32,
        r.h == height as i32,
        r.image_bytes.len() == 4 * pixels.len(),
        forall|p: int, c: int|
            0 <= p < pixels.len() && 0 <= c < 4 ==> r.image_bytes@[4 * p + c] == #[trigger] pixels@[p]@[c],
{
    let mut bytes: Vec<u8> = Vec::new();
    let mut p: usize = 0;
    while p < pixels.len()
        invariant
            p <= pixels.len(),
            4 * pixels.len() <= usize::MAX,
            bytes.len() == 4 * p,
            forall|q: int, c: int|
                0 <= q < p && 0 <= c < 4 ==> bytes@[4 * q + c] == #[trigger] pixels@[q]@[c],
        decreases pixels.len() - p,
    {
        let quad = pixels[p];
        bytes.push(quad[0]);
        bytes.push(quad[1]);
        bytes.push(quad[2]);
        bytes.push(quad[3]);
        p = p + 1;
    }
    Png { w: width as i32, h: height as i32, image_bytes: bytes }
}

} // verus!
