use nesppu::ppu::{
    Ppu, DISPLAY_HEIGHT, DISPLAY_WIDTH, MAX_SPRITES_ON_LINE, NUM_PATTERNS, NUM_SPRITES,
    TILEMAP_HEIGHT_IN_TILES, TILEMAP_WIDTH_IN_TILES,
};

#[test]
fn capacities_match_the_emulated_hardware() {
    assert_eq!(DISPLAY_WIDTH, 256);
    assert_eq!(DISPLAY_HEIGHT, 240);
    assert_eq!(TILEMAP_WIDTH_IN_TILES, 64);
    assert_eq!(TILEMAP_HEIGHT_IN_TILES, 60);
    assert_eq!(NUM_SPRITES, 1024);
    assert_eq!(MAX_SPRITES_ON_LINE, 256);
    assert_eq!(NUM_PATTERNS, 512);
}

#[test]
fn set_tile_then_get_tile() {
    let mut ppu = Ppu::default();
    ppu.set_tile(0, 0, 42);
    ppu.set_tile(63, 59, 7);
    ppu.set_tile(10, 20, 255);
    assert_eq!(ppu.get_tile(0, 0), 42);
    assert_eq!(ppu.get_tile(63, 59), 7);
    assert_eq!(ppu.get_tile(10, 20), 255);
    assert_eq!(ppu.get_tile(1, 0), 0);
}

#[test]
fn attribute_round_trip_every_code_and_cell() {
    // Storing any 2-bit code in any cell reads back as stored.
    let mut ppu = Ppu::default();
    for ty in 0..TILEMAP_HEIGHT_IN_TILES {
        for tx in 0..TILEMAP_WIDTH_IN_TILES {
            let g = ((tx + ty) % 4) as u8;
            ppu.set_attribute(tx, ty, g);
            assert_eq!(ppu.get_attribute(tx, ty), g);
        }
    }
    // And nothing was disturbed along the way.
    for ty in 0..TILEMAP_HEIGHT_IN_TILES {
        for tx in 0..TILEMAP_WIDTH_IN_TILES {
            assert_eq!(ppu.get_attribute(tx, ty), ((tx + ty) % 4) as u8);
        }
    }
}

#[test]
fn set_attribute_preserves_the_other_block_sub_positions() {
    // (0,0), (1,0), (0,1), (1,1) share one packed attribute byte.
    let mut ppu = Ppu::default();
    ppu.set_attribute(0, 0, 1);
    ppu.set_attribute(1, 0, 2);
    ppu.set_attribute(0, 1, 3);
    ppu.set_attribute(1, 1, 0);
    assert_eq!(ppu.get_attribute(0, 0), 1);
    assert_eq!(ppu.get_attribute(1, 0), 2);
    assert_eq!(ppu.get_attribute(0, 1), 3);
    assert_eq!(ppu.get_attribute(1, 1), 0);
    ppu.set_attribute(1, 0, 3);
    assert_eq!(ppu.get_attribute(0, 0), 1);
    assert_eq!(ppu.get_attribute(1, 0), 3);
    assert_eq!(ppu.get_attribute(0, 1), 3);
    assert_eq!(ppu.get_attribute(1, 1), 0);
}

#[test]
fn set_pattern_then_get_pattern() {
    let mut ppu = Ppu::default();
    let bytes: Vec<u8> = (0..16u8).collect();
    ppu.set_pattern(5, &bytes);
    assert_eq!(ppu.get_pattern(5), bytes);
    // Neighbors untouched.
    assert_eq!(ppu.get_pattern(4), vec![0u8; 16]);
    assert_eq!(ppu.get_pattern(6), vec![0u8; 16]);
}

#[test]
fn set_sprite_in_range_stores_truncated_coordinates() {
    let mut ppu = Ppu::default();
    ppu.set_sprite(3, 100, 200, 17, 2);
    let s = ppu.get_sprite(3);
    assert_eq!(s.x, 100);
    assert_eq!(s.y, 200);
    assert_eq!(s.tile, 17);
    assert_eq!(s.attrib, 2);
}

#[test]
fn set_sprite_out_of_range_disables_the_slot() {
    let mut ppu = Ppu::default();
    for &(x, y) in &[(-5i32, 10i32), (256, 10), (10, -1), (10, 256), (-1, -1)] {
        ppu.set_sprite(0, x, y, 17, 2);
        let s = ppu.get_sprite(0);
        assert_eq!(s.y, 255, "({}, {}) must disable the slot", x, y);
        assert_eq!(s.x, 0);
        assert_eq!(s.tile, 0);
        assert_eq!(s.attrib, 0);
    }
    // Boundary values inside the range stay enabled.
    ppu.set_sprite(0, 0, 255, 1, 1);
    assert_eq!(ppu.get_sprite(0).y, 255);
    ppu.set_sprite(0, 255, 0, 1, 1);
    assert_eq!(ppu.get_sprite(0).x, 255);
    assert_eq!(ppu.get_sprite(0).y, 0);
}

#[test]
fn clear_sprites_disables_every_slot() {
    let mut ppu = Ppu::default();
    for i in 0..NUM_SPRITES {
        ppu.set_sprite(i, 10, 10, 1, 1);
    }
    ppu.clear_sprites();
    for i in 0..NUM_SPRITES {
        let s = ppu.get_sprite(i);
        assert_eq!(s.y, 255);
        assert_eq!(s.x, 0);
        assert_eq!(s.tile, 0);
        assert_eq!(s.attrib, 0);
    }
}

#[test]
fn palette_layout_universal_background_and_sprite_groups() {
    let mut ppu = Ppu::default();
    ppu.set_common_bg_color(0x1d);
    ppu.set_bg_colors(0, [0x27, 0x17, 0x19]);
    ppu.set_bg_colors(3, [1, 2, 3]);
    ppu.set_sprite_colors(0, [0x2d, 0x1d, 0x07]);
    ppu.set_sprite_colors(3, [4, 5, 6]);
    // Background: pixel 0 is the universal color whatever the group.
    for g in 0..4u8 {
        assert_eq!(ppu.get_bg_color(0, g), 0x1d);
    }
    // Background groups: slot group*4 + pixel.
    assert_eq!(ppu.get_bg_color(1, 0), 0x27);
    assert_eq!(ppu.get_bg_color(2, 0), 0x17);
    assert_eq!(ppu.get_bg_color(3, 0), 0x19);
    assert_eq!(ppu.get_bg_color(1, 3), 1);
    assert_eq!(ppu.get_bg_color(2, 3), 2);
    assert_eq!(ppu.get_bg_color(3, 3), 3);
    // Sprite groups live 0x10 bytes up and have their own colors.
    assert_eq!(ppu.get_sprite_color(1, 0), 0x2d);
    assert_eq!(ppu.get_sprite_color(2, 0), 0x1d);
    assert_eq!(ppu.get_sprite_color(3, 0), 0x07);
    assert_eq!(ppu.get_sprite_color(1, 3), 4);
    assert_eq!(ppu.get_sprite_color(2, 3), 5);
    assert_eq!(ppu.get_sprite_color(3, 3), 6);
    // Pixel values are masked to 2 bits on lookup.
    assert_eq!(ppu.get_bg_color(5, 0), 0x27);
    assert_eq!(ppu.get_sprite_color(7, 3), 6);
}

#[test]
fn color_table_lookup_masks_to_six_bits() {
    let mut ppu = Ppu::default();
    let table: Vec<u8> = (0..192).map(|i| i as u8).collect();
    ppu.set_color_table(&table);
    assert_eq!(ppu.get_color_rgba(0), (0, 1, 2));
    assert_eq!(ppu.get_color_rgba(5), (15, 16, 17));
    assert_eq!(ppu.get_color_rgba(63), (189, 190, 191));
    // Codes wider than 6 bits wrap.
    assert_eq!(ppu.get_color_rgba(64), (0, 1, 2));
    assert_eq!(ppu.get_color_rgba(0x45), (15, 16, 17));
    assert_eq!(ppu.get_color_rgba(255), (189, 190, 191));
}
