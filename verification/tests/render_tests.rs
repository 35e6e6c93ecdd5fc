use nesppu::pattern::set_pixel_in_pattern;
use nesppu::ppu::{Ppu, DISPLAY_HEIGHT, DISPLAY_WIDTH};
use nesppu::render::FRAME_SIZE_IN_BYTES;

/// A PPU whose color table maps code `c` to RGB `(3c, 3c+1, 3c+2)`.
fn ppu_with_identity_colors() -> Ppu {
    let mut ppu = Ppu::default();
    let table: Vec<u8> = (0..192).map(|i| i as u8).collect();
    ppu.set_color_table(&table);
    ppu
}

/// The RGB bytes the identity color table gives a (6-bit masked) code.
fn rgb_of(code: u8) -> (u8, u8, u8) {
    let c = (code & 0x3f) as u8;
    (3 * c, 3 * c + 1, 3 * c + 2)
}

/// A 16-byte pattern showing value `v` at every pixel.
fn solid_pattern(v: u8) -> Vec<u8> {
    let mut p = vec![0u8; 16];
    for y in 0..8 {
        for x in 0..8 {
            set_pixel_in_pattern(&mut p, x, y, v);
        }
    }
    p
}

/// A checkerboard of values 0 and 1 (1 where x+y is odd).
fn checkerboard_pattern() -> Vec<u8> {
    let mut p = vec![0u8; 16];
    for y in 0..8 {
        for x in 0..8 {
            set_pixel_in_pattern(&mut p, x, y, ((x + y) % 2) as u8);
        }
    }
    p
}

fn pixel_at(frame: &[u8], dx: usize, dy: usize) -> (u8, u8, u8, u8) {
    let base = 4 * (dy * DISPLAY_WIDTH + dx);
    (frame[base], frame[base + 1], frame[base + 2], frame[base + 3])
}

fn rgb_at(frame: &[u8], dx: usize, dy: usize) -> (u8, u8, u8) {
    let (r, g, b, _) = pixel_at(frame, dx, dy);
    (r, g, b)
}

#[test]
fn frame_is_fully_written_and_opaque() {
    let ppu = ppu_with_identity_colors();
    let mut frame = Vec::new();
    ppu.draw_image(&mut frame);
    assert_eq!(frame.len(), FRAME_SIZE_IN_BYTES);
    assert_eq!(FRAME_SIZE_IN_BYTES, 4 * 256 * 240);
    for dy in 0..DISPLAY_HEIGHT {
        for dx in 0..DISPLAY_WIDTH {
            let (r, g, b, a) = pixel_at(&frame, dx, dy);
            // Blank tilemap over blank patterns: everything is the universal
            // background color, which the zeroed palette leaves at 0.
            assert_eq!((r, g, b), rgb_of(0));
            assert_eq!(a, 255);
        }
    }
}

#[test]
fn checkerboard_tile_resolves_universal_and_group_colors() {
    // A background pixel of value 0 gives the universal color U; a value of
    // 1 in group 0 gives that group's first color A.
    let mut ppu = ppu_with_identity_colors();
    ppu.set_pattern(1, &checkerboard_pattern());
    ppu.set_tile(0, 0, 1);
    ppu.set_attribute(0, 0, 0);
    ppu.set_bg_colors(0, [0x27, 0x17, 0x19]);
    ppu.set_common_bg_color(0x1d);
    let mut frame = Vec::new();
    ppu.draw_image(&mut frame);
    assert_eq!(rgb_at(&frame, 0, 0), rgb_of(0x1d)); // value 0 -> U
    assert_eq!(rgb_at(&frame, 1, 0), rgb_of(0x27)); // value 1 -> A
    assert_eq!(rgb_at(&frame, 2, 0), rgb_of(0x1d));
    assert_eq!(rgb_at(&frame, 1, 1), rgb_of(0x1d));
    assert_eq!(rgb_at(&frame, 0, 1), rgb_of(0x27));
}

#[test]
fn background_value_zero_ignores_the_attribute_group() {
    let mut ppu = ppu_with_identity_colors();
    ppu.set_common_bg_color(0x30);
    ppu.set_pattern(1, &checkerboard_pattern());
    for g in 0..4u8 {
        ppu.set_bg_colors(g, [10 + g, 20 + g, 30 + g]);
        ppu.set_tile(g as usize, 0, 1);
        ppu.set_attribute(g as usize, 0, g);
    }
    let mut frame = Vec::new();
    ppu.draw_image(&mut frame);
    for g in 0..4usize {
        // In row 0 of the checkerboard, even in-tile columns carry value 0,
        // so the universal color must show whatever the tile's group is.
        assert_eq!(rgb_at(&frame, 8 * g, 0), rgb_of(0x30));
        assert_eq!(rgb_at(&frame, 8 * g + 2, 0), rgb_of(0x30));
    }
}

#[test]
fn negative_sprite_x_disables_the_sprite() {
    // The sprite must not appear anywhere on the lines it would have covered.
    let mut ppu = ppu_with_identity_colors();
    ppu.set_pattern(2, &solid_pattern(3));
    ppu.set_sprite_colors(0, [0x11, 0x12, 0x13]);
    ppu.set_sprite(0, -5, 10, 2, 0);
    let mut frame = Vec::new();
    ppu.draw_image(&mut frame);
    for dy in 10..18 {
        for dx in 0..DISPLAY_WIDTH {
            assert_eq!(rgb_at(&frame, dx, dy), rgb_of(0));
        }
    }
}

#[test]
fn cleared_sprites_never_appear() {
    let mut ppu = ppu_with_identity_colors();
    ppu.set_pattern(2, &solid_pattern(3));
    ppu.set_sprite_colors(0, [0x11, 0x12, 0x13]);
    ppu.set_sprite(0, 40, 40, 2, 0);
    ppu.clear_sprites();
    let mut frame = Vec::new();
    ppu.draw_image(&mut frame);
    for dy in 0..DISPLAY_HEIGHT {
        for dx in 0..DISPLAY_WIDTH {
            assert_eq!(rgb_at(&frame, dx, dy), rgb_of(0));
        }
    }
}

#[test]
fn opaque_sprite_wins_over_background() {
    let mut ppu = ppu_with_identity_colors();
    // Non-trivial background under and next to the sprite.
    ppu.set_pattern(1, &solid_pattern(2));
    ppu.set_tile(5, 5, 1);
    ppu.set_attribute(5, 5, 1);
    ppu.set_tile(6, 5, 1);
    ppu.set_attribute(6, 5, 1);
    ppu.set_tile(5, 6, 1);
    ppu.set_attribute(5, 6, 1);
    ppu.set_bg_colors(1, [0x21, 0x22, 0x23]);
    // Sprite exactly on that tile.
    ppu.set_pattern(2, &solid_pattern(3));
    ppu.set_sprite_colors(2, [0x31, 0x32, 0x33]);
    ppu.set_sprite(0, 40, 40, 2, 2);
    let mut frame = Vec::new();
    ppu.draw_image(&mut frame);
    // Sprite pixel value 3 in sprite group 2 -> its third color.
    assert_eq!(rgb_at(&frame, 40, 40), rgb_of(0x33));
    assert_eq!(rgb_at(&frame, 47, 47), rgb_of(0x33));
    // Next to the sprite the background (value 2, group 1) shows.
    assert_eq!(rgb_at(&frame, 48, 40), rgb_of(0x22));
    assert_eq!(rgb_at(&frame, 40, 48), rgb_of(0x22));
}

#[test]
fn transparent_sprite_pixels_fall_through_to_background() {
    let mut ppu = ppu_with_identity_colors();
    ppu.set_pattern(1, &solid_pattern(1));
    ppu.set_tile(5, 5, 1);
    ppu.set_attribute(5, 5, 0);
    ppu.set_bg_colors(0, [0x21, 0x22, 0x23]);
    // The checkerboard sprite is transparent wherever x+y is even.
    ppu.set_pattern(2, &checkerboard_pattern());
    ppu.set_sprite_colors(0, [0x31, 0x32, 0x33]);
    ppu.set_sprite(0, 40, 40, 2, 0);
    let mut frame = Vec::new();
    ppu.draw_image(&mut frame);
    assert_eq!(rgb_at(&frame, 40, 40), rgb_of(0x21)); // transparent -> background
    assert_eq!(rgb_at(&frame, 41, 40), rgb_of(0x31)); // opaque value 1 -> sprite
    assert_eq!(rgb_at(&frame, 40, 41), rgb_of(0x31));
    assert_eq!(rgb_at(&frame, 41, 41), rgb_of(0x21));
}

#[test]
fn lower_slot_index_wins_among_overlapping_sprites() {
    let mut ppu = ppu_with_identity_colors();
    ppu.set_pattern(2, &solid_pattern(3));
    ppu.set_sprite_colors(1, [0x11, 0x12, 0x13]);
    ppu.set_sprite_colors(2, [0x21, 0x22, 0x23]);
    // Slot 5 drawn "under" slot 2 despite being set first.
    ppu.set_sprite(5, 50, 60, 2, 2);
    ppu.set_sprite(2, 50, 60, 2, 1);
    let mut frame = Vec::new();
    ppu.draw_image(&mut frame);
    assert_eq!(rgb_at(&frame, 50, 60), rgb_of(0x13));
    // Where only slot 5 reaches (it does not here; both overlap exactly),
    // move slot 2 aside and the higher slot shows.
    ppu.set_sprite(2, 30, 60, 2, 1);
    ppu.draw_image(&mut frame);
    assert_eq!(rgb_at(&frame, 50, 60), rgb_of(0x23));
}

#[test]
fn transparent_lower_sprite_falls_through_to_higher_sprite() {
    let mut ppu = ppu_with_identity_colors();
    ppu.set_pattern(2, &checkerboard_pattern());
    ppu.set_pattern(3, &solid_pattern(3));
    ppu.set_sprite_colors(1, [0x11, 0x12, 0x13]);
    ppu.set_sprite_colors(2, [0x21, 0x22, 0x23]);
    ppu.set_sprite(0, 50, 60, 2, 1); // checkerboard on top
    ppu.set_sprite(1, 50, 60, 3, 2); // solid underneath
    let mut frame = Vec::new();
    ppu.draw_image(&mut frame);
    // (50, 60): checkerboard value 0 -> falls through to the solid sprite.
    assert_eq!(rgb_at(&frame, 50, 60), rgb_of(0x23));
    // (51, 60): checkerboard value 1 -> the top sprite's first color.
    assert_eq!(rgb_at(&frame, 51, 60), rgb_of(0x11));
}

#[test]
fn per_scanline_sprite_cap_drops_higher_slots() {
    let mut ppu = ppu_with_identity_colors();
    ppu.set_pattern(2, &solid_pattern(3));
    ppu.set_sprite_colors(1, [0x11, 0x12, 0x13]);
    // 256 invisible sprites (blank pattern 0) fill the cap on lines 50..58;
    // the opaque sprite in slot 256 is beyond the cap and must be dropped.
    for i in 0..256 {
        ppu.set_sprite(i, 0, 50, 0, 0);
    }
    ppu.set_sprite(256, 0, 50, 2, 1);
    let mut frame = Vec::new();
    ppu.draw_image(&mut frame);
    assert_eq!(rgb_at(&frame, 0, 50), rgb_of(0));
    assert_eq!(rgb_at(&frame, 7, 57), rgb_of(0));
    // The same opaque sprite inside the cap (slot 255) does show.
    ppu.set_sprite(255, 0, 50, 2, 1);
    ppu.set_sprite(256, 0, 50, 0, 0);
    ppu.draw_image(&mut frame);
    assert_eq!(rgb_at(&frame, 0, 50), rgb_of(0x13));
    // And the dropped sprite is only dropped on the crowded lines: move the
    // cap-fillers to another line and slot 256 shows again.
    for i in 0..256 {
        ppu.set_sprite(i, 0, 100, 0, 0);
    }
    ppu.set_sprite(255, 0, 100, 0, 0);
    ppu.set_sprite(256, 0, 50, 2, 1);
    ppu.draw_image(&mut frame);
    assert_eq!(rgb_at(&frame, 0, 50), rgb_of(0x13));
}

#[test]
fn sprite_clipping_at_the_right_edge() {
    let mut ppu = ppu_with_identity_colors();
    ppu.set_pattern(2, &solid_pattern(3));
    ppu.set_sprite_colors(0, [0x11, 0x12, 0x13]);
    ppu.set_sprite(0, 252, 20, 2, 0);
    let mut frame = Vec::new();
    ppu.draw_image(&mut frame);
    assert_eq!(rgb_at(&frame, 252, 20), rgb_of(0x13));
    assert_eq!(rgb_at(&frame, 255, 20), rgb_of(0x13));
    assert_eq!(rgb_at(&frame, 251, 20), rgb_of(0));
}

#[test]
fn scroll_offsets_shift_the_background() {
    let mut ppu = ppu_with_identity_colors();
    ppu.set_pattern(1, &solid_pattern(1));
    ppu.set_bg_colors(0, [0x21, 0x22, 0x23]);
    // Mark world tile (1, 1) only.
    ppu.set_tile(1, 1, 1);
    ppu.set_scroll(8, 8);
    let mut frame = Vec::new();
    ppu.draw_image(&mut frame);
    // With a scroll of one tile the marked tile lands at display (0, 0).
    assert_eq!(rgb_at(&frame, 0, 0), rgb_of(0x21));
    assert_eq!(rgb_at(&frame, 7, 7), rgb_of(0x21));
    assert_eq!(rgb_at(&frame, 8, 0), rgb_of(0));
    assert_eq!(rgb_at(&frame, 0, 8), rgb_of(0));
}

#[test]
fn sprites_do_not_scroll() {
    let mut ppu = ppu_with_identity_colors();
    ppu.set_pattern(2, &solid_pattern(3));
    ppu.set_sprite_colors(0, [0x11, 0x12, 0x13]);
    ppu.set_sprite(0, 30, 30, 2, 0);
    ppu.set_scroll(16, 16);
    let mut frame = Vec::new();
    ppu.draw_image(&mut frame);
    // Sprite coordinates are display coordinates, unaffected by scrolling.
    assert_eq!(rgb_at(&frame, 30, 30), rgb_of(0x13));
}

#[test]
fn palette_indices_wider_than_six_bits_wrap_in_the_color_table() {
    let mut ppu = ppu_with_identity_colors();
    // 0x7f masks down to 0x3f.
    ppu.set_common_bg_color(0x7f);
    let mut frame = Vec::new();
    ppu.draw_image(&mut frame);
    assert_eq!(rgb_at(&frame, 0, 0), rgb_of(0x3f));
}
