use droplet_splash::checkerboard_pixels;

fn expected_channel(x: usize, y: usize) -> u8 {
    if (x / 64 + y / 64) % 2 == 0 {
        255
    } else {
        150
    }
}

#[test]
fn buffer_has_full_size() {
    let pixels = checkerboard_pixels();
    assert_eq!(pixels.len(), 512 * 512 * 4);
}

#[test]
fn corner_tiles_alternate() {
    let pixels = checkerboard_pixels();
    // Top-left tile is white.
    assert_eq!(pixels[0], 255);
    assert_eq!(pixels[1], 255);
    assert_eq!(pixels[2], 255);
    assert_eq!(pixels[3], 255);
    // One tile to the right is gray.
    let i = (0 * 512 + 64) * 4;
    assert_eq!(pixels[i], 150);
    assert_eq!(pixels[i + 3], 255);
    // One tile down is gray.
    let j = (64 * 512 + 0) * 4;
    assert_eq!(pixels[j], 150);
    // One tile down and right is white again.
    let k = (64 * 512 + 64) * 4;
    assert_eq!(pixels[k], 255);
    // Last pixel of the first tile is still white.
    let l = (63 * 512 + 63) * 4;
    assert_eq!(pixels[l], 255);
}

#[test]
fn every_pixel_matches_the_pattern() {
    let pixels = checkerboard_pixels();
    for y in 0..512 {
        for x in 0..512 {
            let i = (y * 512 + x) * 4;
            let c = expected_channel(x, y);
            assert_eq!(pixels[i], c);
            assert_eq!(pixels[i + 1], c);
            assert_eq!(pixels[i + 2], c);
            assert_eq!(pixels[i + 3], 255);
        }
    }
}
