//! Procedural checkerboard texture.
//!
//! The floor of the scene carries a square RGBA texture: white and light gray
//! tiles in a checker pattern. The buffer is computed once, then handed to the
//! renderer unchanged.

use vstd::prelude::*;

verus! {

/// Side length of the square texture, in pixels.
pub const TEXTURE_SIZE: usize = 512;

/// Side length of one checker tile, in pixels.
pub const TILE_SIZE: usize = 64;

/// A pixel is white when its tile coordinates sum to an even number.
pub open spec fn is_white(x: int, y: int) -> bool {
    (x / (TILE_SIZE as int) + y / (TILE_SIZE as int)) % 2 == 0
}

/// Value of each colour channel (red, green, blue) of the pixel at (x, y):
/// full brightness on white tiles, a light gray otherwise.
pub open spec fn channel_value(x: int, y: int) -> u8 {
    if is_white(x, y) {
        255
    } else {
        150
    }
}

/// Builds the RGBA byte buffer of the checkerboard: row-major, four bytes per
/// pixel. Every pixel is fully opaque; the colour channels follow the checker
/// pattern of `channel_value`.
pub fn checkerboard_pixels() -> (pixels: Vec<u8>)
    ensures
        pixels@.len() == TEXTURE_SIZE * TEXTURE_SIZE * 4,
        forall|x: int, y: int|
            0 <= x < TEXTURE_SIZE && 0 <= y < TEXTURE_SIZE ==> {
                &&& pixels@[(y * TEXTURE_SIZE + x) * 4] == channel_value(x, y)
                &&& pixels@[(y * TEXTURE_SIZE + x) * 4 + 1] == channel_value(x, y)
                &&& pixels@[(y * TEXTURE_SIZE + x) * 4 + 2] == channel_value(x, y)
                &&& pixels@[(y * TEXTURE_SIZE + x) * 4 + 3] == 255u8
            },
{
    let mut pixels: Vec<u8> = Vec::new();
    let mut y: usize = 0;
    while y < TEXTURE_SIZE
        invariant
            y <= TEXTURE_SIZE,
            pixels@.len() == y * TEXTURE_SIZE * 4,
            forall|xx: int, yy: int|
                0 <= xx < TEXTURE_SIZE && 0 <= yy < y ==> {
                    &&& pixels@[(yy * TEXTURE_SIZE + xx) * 4] == channel_value(xx, yy)
                    &&& pixels@[(yy * TEXTURE_SIZE + xx) * 4 + 1] == channel_value(xx, yy)
                    &&& pixels@[(yy * TEXTURE_SIZE + xx) * 4 + 2] == channel_value(xx, yy)
                    &&& pixels@[(yy * TEXTURE_SIZE + xx) * 4 + 3] == 255u8
                },
        decreases TEXTURE_SIZE - y,
    {
        let mut x: usize = 0;
        while x < TEXTURE_SIZE
            invariant
                y < TEXTURE_SIZE,
                x <= TEXTURE_SIZE,
                pixels@.len() == (y * TEXTURE_SIZE + x) * 4,
                forall|xx: int, yy: int|
                    0 <= xx < TEXTURE_SIZE && 0 <= yy < y ==> {
                        &&& pixels@[(yy * TEXTURE_SIZE + xx) * 4] == channel_value(xx, yy)
                        &&& pixels@[(yy * TEXTURE_SIZE + xx) * 4 + 1] == channel_value(xx, yy)
                        &&& pixels@[(yy * TEXTURE_SIZE + xx) * 4 + 2] == channel_value(xx, yy)
                        &&& pixels@[(yy * TEXTURE_SIZE + xx) * 4 + 3] == 255u8
                    },
                forall|xx: int|
                    0 <= xx < x ==> {
                        &&& pixels@[(y * TEXTURE_SIZE + xx) * 4] == channel_value(xx, y as int)
                        &&& pixels@[(y * TEXTURE_SIZE + xx) * 4 + 1] == channel_value(xx, y as int)
                        &&& pixels@[(y * TEXTURE_SIZE + xx) * 4 + 2] == channel_value(xx, y as int)
                        &&& pixels@[(y * TEXTURE_SIZE + xx) * 4 + 3] == 255u8
                    },
            decreases TEXTURE_SIZE - x,
        {
            let color: u8 = if (x / TILE_SIZE + y / TILE_SIZE) % 2 == 0 {
                255
            } else {
                150
            };
            assert(color == channel_value(x as int, y as int));
            pixels.push(color);
            pixels.push(color);
            pixels.push(color);
            pixels.push(255);
            x = x + 1;
        }
        proof {
            assert forall|xx: int, yy: int|
                0 <= xx < TEXTURE_SIZE && 0 <= yy < y + 1 implies {
                    &&& pixels@[(yy * TEXTURE_SIZE + xx) * 4] == channel_value(xx, yy)
                    &&& pixels@[(yy * TEXTURE_SIZE + xx) * 4 + 1] == channel_value(xx, yy)
                    &&& pixels@[(yy * TEXTURE_SIZE + xx) * 4 + 2] == channel_value(xx, yy)
                    &&& pixels@[(yy * TEXTURE_SIZE + xx) * 4 + 3] == 255u8
                } by {
                if yy == y as int {
                    assert(pixels@[(y as int * TEXTURE_SIZE + xx) * 4] == channel_value(
                        xx,
                        y as int,
                    ));
                    assert(pixels@[(y as int * TEXTURE_SIZE + xx) * 4 + 1] == channel_value(
                        xx,
                        y as int,
                    ));
                    assert(pixels@[(y as int * TEXTURE_SIZE + xx) * 4 + 2] == channel_value(
                        xx,
                        y as int,
                    ));
                    assert(pixels@[(y as int * TEXTURE_SIZE + xx) * 4 + 3] == 255u8);
                }
            }
        }
        y = y + 1;
    }
    pixels
}

} // verus!
