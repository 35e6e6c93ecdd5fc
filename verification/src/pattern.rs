//! Packed 2-bit-per-pixel tile patterns.
//!
//! A pattern is an 8x8 grid of 2-bit indexed color values, packed row-major
//! into 16 bytes: the pixel at `(x, y)` lives in byte `y * 2 + x / 4`, at bit
//! offset `2 * (3 - x % 4)` (most significant pixel first within a byte).

use vstd::prelude::*;

verus! {

/// Bytes in one packed 8x8 pattern (2 bits per pixel).
pub const PATTERN_SIZE_IN_BYTES: usize = 16;

/// Pixels per tile row.
pub const TILE_WIDTH_IN_PIXELS: usize = 8;

/// Pixel rows per tile.
pub const TILE_HEIGHT_IN_PIXELS: usize = 8;

/// The 2-bit color value stored at position `(x, y)` of a packed pattern.
pub open spec fn spec_pattern_pixel(p: Seq<u8>, x: int, y: int) -> u8
    recommends
        p.len() == PATTERN_SIZE_IN_BYTES,
        0 <= x < 8,
        0 <= y < 8,
{
    (p[y * 2 + x / 4] >> ((2 * (3 - x % 4)) as u8)) & 3
}

/// The packed pattern after storing 2-bit value `v` at position `(x, y)`.
pub open spec fn spec_set_pixel(p: Seq<u8>, x: int, y: int, v: u8) -> Seq<u8>
    recommends
        p.len() == PATTERN_SIZE_IN_BYTES,
        0 <= x < 8,
        0 <= y < 8,
        v < 4,
{
    let i = y * 2 + x / 4;
    let sh = (2 * (3 - x % 4)) as u8;
    p.update(i, (p[i] & !(3u8 << sh)) | (v << sh))
}

/// Storing a 2-bit value at an even bit offset of a byte reads back as
/// stored, and every other 2-bit lane of that byte keeps its value.
pub(crate) proof fn lemma_packed2_update(b: u8, v: u8, sh: u8, sh2: u8)
    by (bit_vector)
    requires
        v < 4,
        sh % 2 == 0,
        sh < 8,
        sh2 % 2 == 0,
        sh2 < 8,
    ensures
        (((b & !(3u8 << sh)) | (v << sh)) >> sh) & 3 == v,
        sh2 != sh ==> (((b & !(3u8 << sh)) | (v << sh)) >> sh2) & 3 == (b >> sh2) & 3,
{
}

/// Law: writing a pixel and reading it back yields the written value, and no
/// other position of the pattern changes.
pub proof fn lemma_set_pixel_get_pixel(p: Seq<u8>, x: int, y: int, v: u8, x2: int, y2: int)
    requires
        p.len() == PATTERN_SIZE_IN_BYTES,
        0 <= x < 8,
        0 <= y < 8,
        v < 4,
        0 <= x2 < 8,
        0 <= y2 < 8,
    ensures
        spec_pattern_pixel(spec_set_pixel(p, x, y, v), x, y) == v,
        !(x2 == x && y2 == y) ==> spec_pattern_pixel(spec_set_pixel(p, x, y, v), x2, y2)
            == spec_pattern_pixel(p, x2, y2),
{
    let i = y * 2 + x / 4;
    let i2 = y2 * 2 + x2 / 4;
    let sh = (2 * (3 - x % 4)) as u8;
    let sh2 = (2 * (3 - x2 % 4)) as u8;
    lemma_packed2_update(p[i], v, sh, sh2);
    if i2 == i && !(x2 == x && y2 == y) {
        assert(y2 == y && x2 / 4 == x / 4);
        assert(x2 % 4 != x % 4);
        assert(sh2 != sh);
    }
}

/// Reads the 2-bit pixel at `(x, y)` of a packed pattern.
pub fn get_pixel_from_pattern(pattern: &Vec<u8>, x: usize, y: usize) -> (pixel: u8)
    requires
        pattern@.len() == PATTERN_SIZE_IN_BYTES,
        x < 8,
        y < 8,
    ensures
        pixel == spec_pattern_pixel(pattern@, x as int, y as int),
        pixel < 4,
{
    let sh: u8 = 2 * (3 - (x as u8) % 4);
    let b: u8 = pattern[y * 2 + x / 4];
    let pixel: u8 = (b >> sh) & 3;
    proof {
        assert((b >> sh) & 3 < 4) by (bit_vector);
    }
    pixel
}

/// Stores the 2-bit value `pixel` at `(x, y)` of a packed pattern.
pub fn set_pixel_in_pattern(pattern: &mut Vec<u8>, x: usize, y: usize, pixel: u8)
    requires
        old(pattern)@.len() == PATTERN_SIZE_IN_BYTES,
        x < 8,
        y < 8,
        pixel < 4,
    ensures
        final(pattern)@ == spec_set_pixel(old(pattern)@, x as int, y as int, pixel),
        final(pattern)@.len() == PATTERN_SIZE_IN_BYTES,
        spec_pattern_pixel(final(pattern)@, x as int, y as int) == pixel,
        forall|x2: int, y2: int|
            0 <= x2 < 8 && 0 <= y2 < 8 && !(x2 == x && y2 == y)
                ==> spec_pattern_pixel(final(pattern)@, x2, y2)
                == spec_pattern_pixel(old(pattern)@, x2, y2),
{
    let sh: u8 = 2 * (3 - (x as u8) % 4);
    let i: usize = y * 2 + x / 4;
    let b: u8 = pattern[i];
    let nb: u8 = (b & !(3u8 << sh)) | (pixel << sh);
    pattern.set(i, nb);
    proof {
        assert forall|x2: int, y2: int|
            0 <= x2 < 8 && 0 <= y2 < 8 && !(x2 == x && y2 == y)
                implies spec_pattern_pixel(pattern@, x2, y2)
                == spec_pattern_pixel(old(pattern)@, x2, y2) by {
            lemma_set_pixel_get_pixel(old(pattern)@, x as int, y as int, pixel, x2, y2);
        }
        lemma_set_pixel_get_pixel(old(pattern)@, x as int, y as int, pixel, 0, 0);
    }
}

} // verus!
