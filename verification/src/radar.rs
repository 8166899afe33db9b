//! The 3DS radar image: a 208x152 RGBA snapshot padded into the 256x256
//! texture the GPU samples.
use vstd::prelude::*;

verus! {

pub const WIDTH: usize = 208;

pub const HEIGHT: usize = 152;

pub const TEXTURE_WIDTH: usize = 256;

pub const TEXTURE_HEIGHT: usize = 256;

/// Byte `i` of the padded texture: the snapshot's byte at the same row and
/// column inside the snapshot, zero elsewhere.
pub open spec fn padded_byte(pixels: Seq<u8>, i: int) -> u8 {
    let row = i / 1024;
    let column = i % 1024;
    if row < 152 && column < 832 {
        pixels[row * 832 + column]
    } else {
        0
    }
}

/// Pads a radar snapshot, row by row, into a texture of 256x256 texels.
pub fn texture_pixels(pixels: &[u8]) -> (r: Vec<u8>)
    requires
        pixels@.len() >= 152 * 208 * 4,
    ensures
        r@.len() == 256 * 256 * 4,
        forall|i: int| 0 <= i < r@.len() ==> #[trigger] r@[i] == padded_byte(pixels@, i),
{
    let mut padded = vec![0u8; TEXTURE_WIDTH * TEXTURE_HEIGHT * 4];
    let mut y: usize = 0;
    while y < HEIGHT
        invariant
            y <= 152,
            pixels@.len() >= 152 * 208 * 4,
            padded@.len() == 256 * 256 * 4,
            forall|i: int|
                0 <= i < padded@.len() ==> #[trigger] padded@[i] == if i / 1024 < y {
                    padded_byte(pixels@, i)
                } else {
                    0u8
                },
        decreases 152 - y,
    {
        let mut x: usize = 0;
        while x < WIDTH * 4
            invariant
                y < 152,
                x <= 832,
                pixels@.len() >= 152 * 208 * 4,
                padded@.len() == 256 * 256 * 4,
                forall|i: int|
                    0 <= i < padded@.len() ==> #[trigger] padded@[i] == if i / 1024 < y || (i
                        / 1024 == y && i % 1024 < x) {
                        padded_byte(pixels@, i)
                    } else {
                        0u8
                    },
            decreases 832 - x,
        {
            proof {
                vstd::arithmetic::div_mod::lemma_fundamental_div_mod_converse(
                    (y * 1024 + x) as int,
                    1024,
                    y as int,
                    x as int,
                );
            }
            padded.set(y * TEXTURE_WIDTH * 4 + x, pixels[y * WIDTH * 4 + x]);
            x = x + 1;
        }
        proof {
            assert forall|i: int| 0 <= i < padded@.len() implies #[trigger] padded@[i] == if i
                / 1024 < y + 1 {
                padded_byte(pixels@, i)
            } else {
                0u8
            } by {
                if i / 1024 == y {
                    assert(i % 1024 < 1024);
                    if i % 1024 >= 832 {
                        assert(padded_byte(pixels@, i) == 0);
                    }
                }
            }
        }
        y = y + 1;
    }
    padded
}

} // verus!
