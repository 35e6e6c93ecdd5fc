use nesppu::gfx::{
    decode_pattern_chars, load_all_patterns, BLANK_PATTERN_NAME, GROUND_TOP_PATTERN_NAME,
    NUM1_PATTERN_NAME, PLAYER_PATTERN_NAME, RAIN_PATTERN_NAME,
};
use nesppu::pattern::get_pixel_from_pattern;
use nesppu::ppu::Ppu;

#[test]
fn decode_maps_each_character_to_its_pixel_value() {
    let drawing = "#;. #;. .#;..#;.        ########;;;;;;;;........    ####;;..##  ";
    let p = decode_pattern_chars(drawing);
    assert_eq!(p.len(), 16);
    let expected = |c: u8| match c {
        b'#' => 3u8,
        b';' => 2,
        b'.' => 1,
        _ => 0,
    };
    for y in 0..8 {
        for x in 0..8 {
            let c = drawing.as_bytes()[y * 8 + x];
            assert_eq!(get_pixel_from_pattern(&p, x, y), expected(c));
        }
    }
}

#[test]
fn decode_exact_packed_bytes() {
    // Row 0 "#;. #;. " packs as 3,2,1,0 then 3,2,1,0.
    let p = decode_pattern_chars("#;. #;. ");
    assert_eq!(p[0], 0b1110_0100);
    assert_eq!(p[1], 0b1110_0100);
    // The seven missing rows decode as blank.
    for b in &p[2..] {
        assert_eq!(*b, 0);
    }
}

#[test]
fn decode_of_the_empty_drawing_is_blank() {
    let p = decode_pattern_chars("");
    assert_eq!(p, vec![0u8; 16]);
}

#[test]
fn load_all_patterns_stores_the_expected_pixels() {
    let mut ppu = Ppu::default();
    load_all_patterns(&mut ppu);
    // The blank name holds the all-zero pattern.
    assert_eq!(ppu.get_pattern(BLANK_PATTERN_NAME), vec![0u8; 16]);
    // The top-of-ground drawing starts with two rows of '#'.
    let p = ppu.get_pattern(GROUND_TOP_PATTERN_NAME);
    for x in 0..8 {
        assert_eq!(get_pixel_from_pattern(&p, x, 0), 3);
        assert_eq!(get_pixel_from_pattern(&p, x, 1), 3);
    }
    // Row 2 is "##.##.##".
    assert_eq!(get_pixel_from_pattern(&p, 2, 2), 1);
    assert_eq!(get_pixel_from_pattern(&p, 3, 2), 3);
    // The rain drop is a single '.' column at x = 4.
    let p = ppu.get_pattern(RAIN_PATTERN_NAME);
    for y in 0..8 {
        for x in 0..8 {
            assert_eq!(get_pixel_from_pattern(&p, x, y), if x == 4 { 1 } else { 0 });
        }
    }
    // The digit 1 is blank in its leftmost columns.
    let p = ppu.get_pattern(NUM1_PATTERN_NAME);
    assert_eq!(get_pixel_from_pattern(&p, 0, 0), 0);
    assert_eq!(get_pixel_from_pattern(&p, 5, 0), 3);
    assert_eq!(get_pixel_from_pattern(&p, 6, 0), 3);
    // The player's row 2 is "..;..;..".
    let p = ppu.get_pattern(PLAYER_PATTERN_NAME);
    assert_eq!(get_pixel_from_pattern(&p, 0, 2), 1);
    assert_eq!(get_pixel_from_pattern(&p, 2, 2), 2);
    assert_eq!(get_pixel_from_pattern(&p, 5, 2), 2);
}

#[test]
fn load_all_patterns_leaves_other_patterns_alone() {
    let mut ppu = Ppu::default();
    let marker: Vec<u8> = (100..116u8).collect();
    ppu.set_pattern(100, &marker);
    load_all_patterns(&mut ppu);
    assert_eq!(ppu.get_pattern(100), marker);
}
