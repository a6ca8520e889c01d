//! Packed vertex colours.
use vstd::prelude::*;

verus! {

/// A colour packed into 32 bits, from the most significant byte to the least:
/// alpha, blue, green, red. So `0xFFC08040` is opaque, about 3/4 blue, half
/// green and 1/4 red.
pub type ABGR = u32;

/// A colour vector with red in `x`, green in `y` and blue in `z`, each
/// channel already scaled to a byte (`c * 256`, cut to `0 ..= 255`).
#[derive(Clone, Copy, Debug, PartialEq, Eq, Structural)]
pub struct ByteVec3 {
    pub x: u8,
    pub y: u8,
    pub z: u8,
}

/// The opaque colour with `v`'s channels: full alpha, then blue, green and
/// red.
pub fn abgr_from_vec3(v: ByteVec3) -> (r: ABGR)
    ensures
        r as int == 0xFF00_0000 + v.z as int * 0x1_0000 + v.y as int * 0x100 + v.x as int,
{
    let (x, y, z) = (v.x as u32, v.y as u32, v.z as u32);
    let r: u32 = 0xFF00_0000 | z << 16 | y << 8 | x;
    assert(r == 0xFF00_0000 + z * 0x1_0000 + y * 0x100 + x) by (bit_vector)
        requires
            x < 0x100,
            y < 0x100,
            z < 0x100,
            r == 0xFF00_0000 | z << 16 | y << 8 | x,
    ;
    r
}

} // verus!
