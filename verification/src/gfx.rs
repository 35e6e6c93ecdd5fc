//! The fixed graphic assets: 8x8 patterns drawn as 64-character strings
//! (row-major), and the loader that decodes them into the pattern store.
//!
//! In a character table `#` means pixel value 3, `;` means 2, `.` means 1,
//! and anything else (conventionally a space) means 0.

use vstd::prelude::*;

use crate::pattern::{
    set_pixel_in_pattern, spec_pattern_pixel, PATTERN_SIZE_IN_BYTES, TILE_HEIGHT_IN_PIXELS,
    TILE_WIDTH_IN_PIXELS,
};
use crate::ppu::{Ppu, PpuView};

verus! {

pub const BLANK_PATTERN_NAME: u8 = 0;

pub const GROUND_PATTERN_NAME: u8 = 1;

pub const GROUND_PATTERN_CHARS: &'static str = "....;...;.....;...;......;...;...;............;...;...;.;...;...";

pub const GROUND_TOP_PATTERN_NAME: u8 = 2;

pub const GROUND_TOP_PATTERN_CHARS: &'static str = "##################.##.##.;...;...;............;...;...;.;...;...";

pub const NUM0_PATTERN_NAME: u8 = 30;

pub const NUM0_PATTERN_CHARS: &'static str = " #####  ##   ## ##   ## ##   ## ##   ## ##   ##  #####          ";

pub const NUM1_PATTERN_NAME: u8 = 31;

pub const NUM1_PATTERN_CHARS: &'static str = "     ##      ##      ##      ##      ##      ##      ##         ";

pub const NUM2_PATTERN_NAME: u8 = 32;

pub const NUM2_PATTERN_CHARS: &'static str = " #####       ##      ##  #####  ##      ##       #####          ";

pub const NUM3_PATTERN_NAME: u8 = 33;

pub const NUM3_PATTERN_CHARS: &'static str = "######       ##      ## ######       ##      ## ######          ";

pub const NUM4_PATTERN_NAME: u8 = 34;

pub const NUM4_PATTERN_CHARS: &'static str = "##   ## ##   ## ##   ##  ######      ##      ##      ##         ";

pub const NUM5_PATTERN_NAME: u8 = 35;

pub const NUM5_PATTERN_CHARS: &'static str = "######  ##      ##       #####       ##      ##  #####          ";

pub const NUM6_PATTERN_NAME: u8 = 36;

pub const NUM6_PATTERN_CHARS: &'static str = " ###### ##      ##      ######  ##   ## ##   ##  #####          ";

pub const NUM7_PATTERN_NAME: u8 = 37;

pub const NUM7_PATTERN_CHARS: &'static str = " ######      ##      ##      ##      ##      ##      ##         ";

pub const NUM8_PATTERN_NAME: u8 = 38;

pub const NUM8_PATTERN_CHARS: &'static str = " #####  ##   ## ##   ##  #####  ##   ## ##   ##  #####          ";

pub const NUM9_PATTERN_NAME: u8 = 39;

pub const NUM9_PATTERN_CHARS: &'static str = " #####  ##   ## ##   ##  ######      ##      ## ######          ";

pub const RAINSPLASH_PATTERN_NAME: u8 = 249;

pub const RAINSPLASH_PATTERN_CHARS: &'static str = "                    .       .    .  .  .  . . .  . . . .   ...  ";

pub const RAIN_PATTERN_NAME: u8 = 250;

pub const RAIN_PATTERN_CHARS: &'static str = "    .       .       .       .       .       .       .       .   ";

pub const LIGHTNING_PATTERN_NAME: u8 = 251;

pub const LIGHTNING_PATTERN_CHARS: &'static str = "    .      ..     ...    ....       ....    ...     ..      .   ";

pub const CLOUD_LEFT_PATTERN_NAME: u8 = 252;

pub const CLOUD_LEFT_PATTERN_CHARS: &'static str = "      ..  .. ... ............................... .......    ....";

pub const CLOUD_RIGHT_PATTERN_NAME: u8 = 253;

pub const CLOUD_RIGHT_PATTERN_CHARS: &'static str = "..      ... ..  ....... ....................... .....   .       ";

pub const PLAYER_TOP_PATTERN_NAME: u8 = 254;

pub const PLAYER_TOP_PATTERN_CHARS: &'static str = "                  ....   .    .  .    . .      ..      ..      .";

pub const PLAYER_PATTERN_NAME: u8 = 255;

pub const PLAYER_PATTERN_CHARS: &'static str = "..................;..;............;..;.....;;...........##   ## ";

/// The pixel value one character of a pattern drawing stands for.
pub open spec fn char_pixel(c: char) -> u8 {
    if c == '#' {
        3u8
    } else if c == ';' {
        2u8
    } else if c == '.' {
        1u8
    } else {
        0u8
    }
}

/// The character a drawing supplies for position `i`; positions past its end
/// count as blank.
pub open spec fn char_at(cp: Seq<char>, i: int) -> char {
    if 0 <= i < cp.len() {
        cp[i]
    } else {
        ' '
    }
}

/// Whether packed pattern `p` shows, at every position, the pixel value the
/// drawing `cp` (64 characters, row-major) stands for.
pub open spec fn pattern_matches_chars(p: Seq<u8>, cp: Seq<char>) -> bool {
    &&& p.len() == PATTERN_SIZE_IN_BYTES
    &&& forall|x: int, y: int|
        0 <= x < 8 && 0 <= y < 8 ==> #[trigger] spec_pattern_pixel(p, x, y) == char_pixel(
            char_at(cp, y * 8 + x),
        )
}

/// Decodes a 64-character row-major pattern drawing into the packed 16-byte
/// form; missing characters count as blank.
pub fn decode_pattern_chars(cp: &str) -> (p: Vec<u8>)
    ensures
        pattern_matches_chars(p@, cp@),
{
    let n: usize = cp.unicode_len();
    let mut p: Vec<u8> = Vec::new();
    let mut k: usize = 0;
    while k < PATTERN_SIZE_IN_BYTES
        invariant
            k <= PATTERN_SIZE_IN_BYTES,
            p@.len() == k,
            forall|i: int| 0 <= i < k ==> p@[i] == 0u8,
        decreases PATTERN_SIZE_IN_BYTES - k,
    {
        p.push(0);
        k = k + 1;
    }
    let mut y: usize = 0;
    while y < TILE_HEIGHT_IN_PIXELS
        invariant
            n == cp@.len(),
            y <= TILE_HEIGHT_IN_PIXELS,
            p@.len() == PATTERN_SIZE_IN_BYTES,
            forall|x2: int, y2: int|
                0 <= x2 < 8 && 0 <= y2 < y ==> #[trigger] spec_pattern_pixel(p@, x2, y2)
                    == char_pixel(char_at(cp@, y2 * 8 + x2)),
        decreases TILE_HEIGHT_IN_PIXELS - y,
    {
        let mut x: usize = 0;
        while x < TILE_WIDTH_IN_PIXELS
            invariant
                n == cp@.len(),
                y < TILE_HEIGHT_IN_PIXELS,
                x <= TILE_WIDTH_IN_PIXELS,
                p@.len() == PATTERN_SIZE_IN_BYTES,
                forall|x2: int, y2: int|
                    0 <= x2 < 8 && 0 <= y2 < y ==> #[trigger] spec_pattern_pixel(p@, x2, y2)
                        == char_pixel(char_at(cp@, y2 * 8 + x2)),
                forall|x2: int|
                    0 <= x2 < x ==> #[trigger] spec_pattern_pixel(p@, x2, y as int) == char_pixel(
                        char_at(cp@, (y as int) * 8 + x2),
                    ),
            decreases TILE_WIDTH_IN_PIXELS - x,
        {
            let idx: usize = y * 8 + x;
            let pixel: u8 = if idx < n {
                let c: char = cp.get_char(idx);
                if c == '#' {
                    3
                } else if c == ';' {
                    2
                } else if c == '.' {
                    1
                } else {
                    0
                }
            } else {
                0
            };
            proof {
                assert(pixel == char_pixel(char_at(cp@, idx as int)));
            }
            set_pixel_in_pattern(&mut p, x, y, pixel);
            x = x + 1;
        }
        y = y + 1;
    }
    p
}

/// Loads every fixed pattern of the game's graphics into the pattern store:
/// each of the 20 names below holds the decoded form of its drawing (the
/// blank name holds the all-zero pattern), every other pattern and every
/// other part of the state is untouched.
pub fn load_all_patterns(ppu: &mut Ppu)
    requires
        old(ppu)@.wf(),
    ensures
        final(ppu)@.wf(),
        final(ppu)@ == (PpuView { patterns: final(ppu)@.patterns, ..old(ppu)@ }),
        final(ppu)@.pattern_at(BLANK_PATTERN_NAME as int) == Seq::new(
            PATTERN_SIZE_IN_BYTES as nat,
            |i: int| 0u8,
        ),
        pattern_matches_chars(
            final(ppu)@.pattern_at(GROUND_PATTERN_NAME as int),
            GROUND_PATTERN_CHARS@,
        ),
        pattern_matches_chars(
            final(ppu)@.pattern_at(GROUND_TOP_PATTERN_NAME as int),
            GROUND_TOP_PATTERN_CHARS@,
        ),
        pattern_matches_chars(final(ppu)@.pattern_at(NUM0_PATTERN_NAME as int), NUM0_PATTERN_CHARS@),
        pattern_matches_chars(final(ppu)@.pattern_at(NUM1_PATTERN_NAME as int), NUM1_PATTERN_CHARS@),
        pattern_matches_chars(final(ppu)@.pattern_at(NUM2_PATTERN_NAME as int), NUM2_PATTERN_CHARS@),
        pattern_matches_chars(final(ppu)@.pattern_at(NUM3_PATTERN_NAME as int), NUM3_PATTERN_CHARS@),
        pattern_matches_chars(final(ppu)@.pattern_at(NUM4_PATTERN_NAME as int), NUM4_PATTERN_CHARS@),
        pattern_matches_chars(final(ppu)@.pattern_at(NUM5_PATTERN_NAME as int), NUM5_PATTERN_CHARS@),
        pattern_matches_chars(final(ppu)@.pattern_at(NUM6_PATTERN_NAME as int), NUM6_PATTERN_CHARS@),
        pattern_matches_chars(final(ppu)@.pattern_at(NUM7_PATTERN_NAME as int), NUM7_PATTERN_CHARS@),
        pattern_matches_chars(final(ppu)@.pattern_at(NUM8_PATTERN_NAME as int), NUM8_PATTERN_CHARS@),
        pattern_matches_chars(final(ppu)@.pattern_at(NUM9_PATTERN_NAME as int), NUM9_PATTERN_CHARS@),
        pattern_matches_chars(
            final(ppu)@.pattern_at(RAINSPLASH_PATTERN_NAME as int),
            RAINSPLASH_PATTERN_CHARS@,
        ),
        pattern_matches_chars(final(ppu)@.pattern_at(RAIN_PATTERN_NAME as int), RAIN_PATTERN_CHARS@),
        pattern_matches_chars(
            final(ppu)@.pattern_at(LIGHTNING_PATTERN_NAME as int),
            LIGHTNING_PATTERN_CHARS@,
        ),
        pattern_matches_chars(
            final(ppu)@.pattern_at(CLOUD_LEFT_PATTERN_NAME as int),
            CLOUD_LEFT_PATTERN_CHARS@,
        ),
        pattern_matches_chars(
            final(ppu)@.pattern_at(CLOUD_RIGHT_PATTERN_NAME as int),
            CLOUD_RIGHT_PATTERN_CHARS@,
        ),
        pattern_matches_chars(
            final(ppu)@.pattern_at(PLAYER_TOP_PATTERN_NAME as int),
            PLAYER_TOP_PATTERN_CHARS@,
        ),
        pattern_matches_chars(
            final(ppu)@.pattern_at(PLAYER_PATTERN_NAME as int),
            PLAYER_PATTERN_CHARS@,
        ),
        forall|name: int|
            0 <= name < crate::ppu::NUM_PATTERNS && name != BLANK_PATTERN_NAME
                && name != GROUND_PATTERN_NAME && name != GROUND_TOP_PATTERN_NAME && !(
            NUM0_PATTERN_NAME <= name <= NUM9_PATTERN_NAME) && !(RAINSPLASH_PATTERN_NAME <= name
                <= PLAYER_PATTERN_NAME) ==> final(ppu)@.pattern_at(name) == old(ppu)@.pattern_at(
                name,
            ),
{
    let mut blank: Vec<u8> = Vec::new();
    let mut k: usize = 0;
    while k < PATTERN_SIZE_IN_BYTES
        invariant
            k <= PATTERN_SIZE_IN_BYTES,
            blank@.len() == k,
            forall|i: int| 0 <= i < k ==> blank@[i] == 0u8,
        decreases PATTERN_SIZE_IN_BYTES - k,
    {
        blank.push(0);
        k = k + 1;
    }
    proof {
        assert(blank@ =~= Seq::new(PATTERN_SIZE_IN_BYTES as nat, |i: int| 0u8));
    }
    ppu.set_pattern(BLANK_PATTERN_NAME as usize, &blank);
    ppu.set_pattern(GROUND_PATTERN_NAME as usize, &decode_pattern_chars(GROUND_PATTERN_CHARS));
    ppu.set_pattern(
        GROUND_TOP_PATTERN_NAME as usize,
        &decode_pattern_chars(GROUND_TOP_PATTERN_CHARS),
    );
    ppu.set_pattern(NUM0_PATTERN_NAME as usize, &decode_pattern_chars(NUM0_PATTERN_CHARS));
    ppu.set_pattern(NUM1_PATTERN_NAME as usize, &decode_pattern_chars(NUM1_PATTERN_CHARS));
    ppu.set_pattern(NUM2_PATTERN_NAME as usize, &decode_pattern_chars(NUM2_PATTERN_CHARS));
    ppu.set_pattern(NUM3_PATTERN_NAME as usize, &decode_pattern_chars(NUM3_PATTERN_CHARS));
    ppu.set_pattern(NUM4_PATTERN_NAME as usize, &decode_pattern_chars(NUM4_PATTERN_CHARS));
    ppu.set_pattern(NUM5_PATTERN_NAME as usize, &decode_pattern_chars(NUM5_PATTERN_CHARS));
    ppu.set_pattern(NUM6_PATTERN_NAME as usize, &decode_pattern_chars(NUM6_PATTERN_CHARS));
    ppu.set_pattern(NUM7_PATTERN_NAME as usize, &decode_pattern_chars(NUM7_PATTERN_CHARS));
    ppu.set_pattern(NUM8_PATTERN_NAME as usize, &decode_pattern_chars(NUM8_PATTERN_CHARS));
    ppu.set_pattern(NUM9_PATTERN_NAME as usize, &decode_pattern_chars(NUM9_PATTERN_CHARS));
    ppu.set_pattern(
        RAINSPLASH_PATTERN_NAME as usize,
        &decode_pattern_chars(RAINSPLASH_PATTERN_CHARS),
    );
    ppu.set_pattern(RAIN_PATTERN_NAME as usize, &decode_pattern_chars(RAIN_PATTERN_CHARS));
    ppu.set_pattern(
        LIGHTNING_PATTERN_NAME as usize,
        &decode_pattern_chars(LIGHTNING_PATTERN_CHARS),
    );
    ppu.set_pattern(
        CLOUD_LEFT_PATTERN_NAME as usize,
        &decode_pattern_chars(CLOUD_LEFT_PATTERN_CHARS),
    );
    ppu.set_pattern(
        CLOUD_RIGHT_PATTERN_NAME as usize,
        &decode_pattern_chars(CLOUD_RIGHT_PATTERN_CHARS),
    );
    ppu.set_pattern(
        PLAYER_TOP_PATTERN_NAME as usize,
        &decode_pattern_chars(PLAYER_TOP_PATTERN_CHARS),
    );
    ppu.set_pattern(PLAYER_PATTERN_NAME as usize, &decode_pattern_chars(PLAYER_PATTERN_CHARS));
}

} // verus!
