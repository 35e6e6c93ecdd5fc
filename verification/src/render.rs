//! The scanline rasterizer and its laws.
//!
//! For every scanline the rasterizer collects, in ascending slot order and up
//! to the per-line cap, the sprites whose vertical extent contains the line.
//! For every pixel the first collected sprite with an opaque (nonzero)
//! pattern value at that column wins; otherwise the background tile pixel is
//! resolved through the attribute map. The resulting palette index is masked
//! to 6 bits and looked up in the RGB color table.

use vstd::arithmetic::div_mod::lemma_fundamental_div_mod_converse;
use vstd::prelude::*;

use crate::pattern::{
    get_pixel_from_pattern, spec_pattern_pixel, TILE_HEIGHT_IN_PIXELS, TILE_WIDTH_IN_PIXELS,
};
use crate::ppu::{
    disabled_sprite, Ppu, PpuView, Sprite, DISPLAY_HEIGHT, DISPLAY_WIDTH, MAX_SPRITES_ON_LINE,
    NUM_SPRITES, TILEMAP_HEIGHT_IN_TILES, TILEMAP_WIDTH_IN_TILES,
};

verus! {

/// Bytes in one fully rendered RGBA frame.
#[verifier::nonlinear]
pub const FRAME_SIZE_IN_BYTES: usize = 4 * DISPLAY_WIDTH * DISPLAY_HEIGHT;

/// The largest horizontal scroll offset the tilemap can back without the
/// rasterizer reading past its right edge.
#[verifier::nonlinear]
pub const MAX_SCROLL_X: usize = TILEMAP_WIDTH_IN_TILES * TILE_WIDTH_IN_PIXELS - DISPLAY_WIDTH;

/// The largest vertical scroll offset the tilemap can back.
#[verifier::nonlinear]
pub const MAX_SCROLL_Y: usize = TILEMAP_HEIGHT_IN_TILES * TILE_HEIGHT_IN_PIXELS - DISPLAY_HEIGHT;

/// Whether the 8-pixel-tall sprite `s` intersects scanline `dy`.
pub open spec fn sprite_on_line(s: Sprite, dy: int) -> bool {
    s.y <= dy < s.y + TILE_HEIGHT_IN_PIXELS
}

/// Whether the 8-pixel-wide sprite `s` covers pixel column `dx`.
pub open spec fn sprite_covers_column(s: Sprite, dx: int) -> bool {
    s.x <= dx < s.x + TILE_WIDTH_IN_PIXELS
}

impl PpuView {
    /// The sprite slots selected for scanline `dy` among slots `0..n`: the
    /// slots whose sprite intersects the line, in ascending order, cut off
    /// once the per-line cap is reached.
    pub open spec fn line_sprites_upto(self, dy: int, n: int) -> Seq<usize>
        decreases n,
    {
        if n <= 0 {
            Seq::empty()
        } else {
            let pre = self.line_sprites_upto(dy, n - 1);
            if pre.len() < MAX_SPRITES_ON_LINE && sprite_on_line(self.sprites[n - 1], dy) {
                pre.push((n - 1) as usize)
            } else {
                pre
            }
        }
    }

    /// The sprite slots taking part in scanline `dy`.
    pub open spec fn line_sprites(self, dy: int) -> Seq<usize> {
        self.line_sprites_upto(dy, NUM_SPRITES as int)
    }

    /// How many of the sprite slots `0..i` intersect scanline `dy`.
    pub open spec fn num_on_line_before(self, dy: int, i: int) -> int
        decreases i,
    {
        if i <= 0 {
            0
        } else {
            self.num_on_line_before(dy, i - 1) + if sprite_on_line(self.sprites[i - 1], dy) {
                1int
            } else {
                0int
            }
        }
    }

    /// Whether the sprite in slot `i` covers column `dx` with an opaque
    /// (nonzero) pattern value, on the scanline `dy` it intersects.
    pub open spec fn sprite_opaque_at(self, i: int, dx: int, dy: int) -> bool {
        let s = self.sprites[i];
        sprite_covers_column(s, dx) && spec_pattern_pixel(
            self.pattern_at(s.tile as int),
            dx - s.x,
            dy - s.y,
        ) != 0
    }

    /// The pattern value and palette attribute of the first sprite among
    /// `line[k..]` that shows an opaque pixel at `(dx, dy)`, if any.
    pub open spec fn sprite_pixel_from(self, line: Seq<usize>, k: int, dx: int, dy: int) -> Option<
        (u8, u8),
    >
        decreases line.len() - k,
    {
        if k < 0 || k >= line.len() {
            None
        } else {
            let s = self.sprites[line[k] as int];
            if self.sprite_opaque_at(line[k] as int, dx, dy) {
                Some(
                    (
                        spec_pattern_pixel(self.pattern_at(s.tile as int), dx - s.x, dy - s.y),
                        s.attrib,
                    ),
                )
            } else {
                self.sprite_pixel_from(line, k + 1, dx, dy)
            }
        }
    }

    /// The opaque sprite pixel shown at `(dx, dy)`, if any sprite selected
    /// for the scanline shows one.
    pub open spec fn sprite_pixel(self, dx: int, dy: int) -> Option<(u8, u8)> {
        self.sprite_pixel_from(self.line_sprites(dy), 0, dx, dy)
    }

    /// The palette index the background resolves to at `(dx, dy)`, after
    /// applying the scroll offsets.
    pub open spec fn background_pixel_color(self, dx: int, dy: int) -> u8 {
        let wx = dx + self.scroll_x;
        let wy = dy + self.scroll_y;
        let tx = wx / (TILE_WIDTH_IN_PIXELS as int);
        let ty = wy / (TILE_HEIGHT_IN_PIXELS as int);
        let pix = spec_pattern_pixel(
            self.pattern_at(self.tile_at(tx, ty) as int),
            wx % (TILE_WIDTH_IN_PIXELS as int),
            wy % (TILE_HEIGHT_IN_PIXELS as int),
        );
        self.bg_color(pix, self.attribute_at(tx, ty))
    }

    /// The palette index rendered at `(dx, dy)`: the first opaque pixel of
    /// the scanline's sprites if there is one, else the background.
    pub open spec fn pixel_color(self, dx: int, dy: int) -> u8 {
        match self.sprite_pixel(dx, dy) {
            Some(pa) => self.sprite_color(pa.0, pa.1),
            None => self.background_pixel_color(dx, dy),
        }
    }

    /// Byte `i` of the rendered RGBA frame: three RGB bytes from the color
    /// table (the palette index masked to 6 bits), then an opaque alpha.
    pub open spec fn frame_byte(self, i: int) -> u8 {
        let pi = i / 4;
        let ch = i % 4;
        let dy = pi / (DISPLAY_WIDTH as int);
        let dx = pi % (DISPLAY_WIDTH as int);
        if ch == 3 {
            255u8
        } else {
            self.colors[3 * ((self.pixel_color(dx, dy) & 0x3f) as int) + ch]
        }
    }
}

/// The selected slots are in range, intersect the line, ascend, and never
/// exceed the per-line cap.
pub proof fn lemma_line_sprites_upto_props(v: PpuView, dy: int, n: int)
    requires
        0 <= n <= NUM_SPRITES,
    ensures
        v.line_sprites_upto(dy, n).len() <= MAX_SPRITES_ON_LINE,
        forall|k: int|
            0 <= k < v.line_sprites_upto(dy, n).len() ==> (#[trigger] v.line_sprites_upto(
                dy,
                n,
            )[k]) < n && sprite_on_line(v.sprites[v.line_sprites_upto(dy, n)[k] as int], dy),
        forall|k1: int, k2: int|
            0 <= k1 < k2 < v.line_sprites_upto(dy, n).len() ==> v.line_sprites_upto(dy, n)[k1]
                < v.line_sprites_upto(dy, n)[k2],
    decreases n,
{
    if n > 0 {
        lemma_line_sprites_upto_props(v, dy, n - 1);
        let pre = v.line_sprites_upto(dy, n - 1);
        let cur = v.line_sprites_upto(dy, n);
        if pre.len() < MAX_SPRITES_ON_LINE && sprite_on_line(v.sprites[n - 1], dy) {
            assert(cur == pre.push((n - 1) as usize));
            assert forall|k: int| 0 <= k < cur.len() implies (#[trigger] cur[k]) < n
                && sprite_on_line(v.sprites[cur[k] as int], dy) by {
                if k < pre.len() {
                    assert(cur[k] == pre[k]);
                } else {
                    assert(cur[k] == (n - 1) as usize);
                }
            }
            assert forall|k1: int, k2: int| 0 <= k1 < k2 < cur.len() implies cur[k1]
                < cur[k2] by {
                assert(cur[k1] == pre[k1]);
                if k2 < pre.len() {
                    assert(cur[k2] == pre[k2]);
                } else {
                    assert(cur[k2] == (n - 1) as usize);
                    assert(pre[k1] < n - 1);
                }
            }
        } else {
            assert(cur == pre);
            assert forall|k: int| 0 <= k < cur.len() implies (#[trigger] cur[k]) < n
                && sprite_on_line(v.sprites[cur[k] as int], dy) by {
                assert(cur[k] == pre[k]);
            }
            assert forall|k1: int, k2: int| 0 <= k1 < k2 < cur.len() implies cur[k1]
                < cur[k2] by {
                assert(cur[k1] == pre[k1] && cur[k2] == pre[k2]);
            }
        }
    }
}

/// The number of selected slots is the number of intersecting slots, cut off
/// at the per-line cap.
proof fn lemma_line_sprites_upto_len(v: PpuView, dy: int, n: int)
    requires
        0 <= n,
    ensures
        v.line_sprites_upto(dy, n).len() == if v.num_on_line_before(dy, n)
            <= MAX_SPRITES_ON_LINE {
            v.num_on_line_before(dy, n)
        } else {
            MAX_SPRITES_ON_LINE as int
        },
    decreases n,
{
    if n > 0 {
        lemma_line_sprites_upto_len(v, dy, n - 1);
    }
}

proof fn lemma_line_sprites_upto_membership(v: PpuView, dy: int, n: int, i: int)
    requires
        0 <= i < n <= NUM_SPRITES,
    ensures
        v.line_sprites_upto(dy, n).contains(i as usize) <==> (sprite_on_line(v.sprites[i], dy)
            && v.num_on_line_before(dy, i) < MAX_SPRITES_ON_LINE),
    decreases n,
{
    lemma_line_sprites_upto_props(v, dy, n - 1);
    lemma_line_sprites_upto_len(v, dy, n - 1);
    let pre = v.line_sprites_upto(dy, n - 1);
    let cur = v.line_sprites_upto(dy, n);
    if i == n - 1 {
        if pre.len() < MAX_SPRITES_ON_LINE && sprite_on_line(v.sprites[i], dy) {
            assert(cur[pre.len() as int] == i as usize);
            assert(cur.contains(i as usize));
        } else {
            assert(cur == pre);
            if cur.contains(i as usize) {
                let j = choose|j: int| 0 <= j < cur.len() && cur[j] == i as usize;
                assert(pre[j] == cur[j]);
                assert(pre[j] < n - 1);
                assert(false);
            }
            if sprite_on_line(v.sprites[i], dy) {
                lemma_line_sprites_upto_len(v, dy, i);
                assert(v.num_on_line_before(dy, i) >= pre.len());
            }
        }
    } else {
        lemma_line_sprites_upto_membership(v, dy, n - 1, i);
        if pre.len() < MAX_SPRITES_ON_LINE && sprite_on_line(v.sprites[n - 1], dy) {
            assert(cur == pre.push((n - 1) as usize));
            if pre.contains(i as usize) {
                let j = choose|j: int| 0 <= j < pre.len() && pre[j] == i as usize;
                assert(cur[j] == i as usize);
                assert(cur.contains(i as usize));
            }
            if cur.contains(i as usize) {
                let j = choose|j: int| 0 <= j < cur.len() && cur[j] == i as usize;
                assert(cur[j] == i as usize);
                if j < pre.len() {
                    assert(pre[j] == i as usize);
                    assert(pre.contains(i as usize));
                } else {
                    assert(cur[j] == (n - 1) as usize);
                    assert(false);
                }
            }
        }
    }
}

/// Law (per-scanline cap): a sprite slot takes part in a scanline exactly
/// when its sprite intersects that line and fewer than the per-line cap of
/// lower slots intersect it too; slots beyond the cap are left out for that
/// line only.
pub proof fn lemma_line_sprites_membership(v: PpuView, dy: int, i: int)
    requires
        0 <= i < NUM_SPRITES,
    ensures
        v.line_sprites(dy).contains(i as usize) <==> (sprite_on_line(v.sprites[i], dy)
            && v.num_on_line_before(dy, i) < MAX_SPRITES_ON_LINE),
{
    lemma_line_sprites_upto_membership(v, dy, NUM_SPRITES as int, i);
}

/// Law (disable sentinel): a sprite parked on the sentinel line never
/// intersects a visible scanline.
pub proof fn lemma_disabled_sprite_never_on_line(dy: int)
    requires
        0 <= dy < DISPLAY_HEIGHT,
    ensures
        !sprite_on_line(disabled_sprite(), dy),
{
}

/// Law (disable sentinel): a slot left in the cleared state is never
/// selected for any visible scanline.
pub proof fn lemma_disabled_slot_never_selected(v: PpuView, dy: int, i: int)
    requires
        0 <= dy < DISPLAY_HEIGHT,
        0 <= i < NUM_SPRITES,
        v.sprites[i] == disabled_sprite(),
    ensures
        !v.line_sprites(dy).contains(i as usize),
{
    lemma_line_sprites_membership(v, dy, i);
}

/// Scanning for the first opaque sprite pixel may skip any prefix of sprites
/// that are transparent or absent at the column.
proof fn lemma_sprite_pixel_from_skip(v: PpuView, line: Seq<usize>, k: int, dx: int, dy: int)
    requires
        0 <= k <= line.len(),
        forall|j: int| 0 <= j < k ==> !v.sprite_opaque_at(#[trigger] line[j] as int, dx, dy),
    ensures
        v.sprite_pixel_from(line, 0, dx, dy) == v.sprite_pixel_from(line, k, dx, dy),
    decreases k,
{
    if k > 0 {
        lemma_sprite_pixel_from_skip(v, line, k - 1, dx, dy);
        assert(v.sprite_pixel_from(line, k - 1, dx, dy) == v.sprite_pixel_from(line, k, dx, dy));
    }
}

/// Law (sprite priority and sprite-over-background): if position `k` in the
/// scanline's selection is the first whose sprite shows an opaque pixel at
/// `(dx, dy)`, the rendered palette index is that sprite's resolved color —
/// lower-indexed slots win, and the background is hidden.
pub proof fn lemma_first_opaque_sprite_wins(v: PpuView, dx: int, dy: int, k: int)
    requires
        0 <= k < v.line_sprites(dy).len(),
        v.sprite_opaque_at(v.line_sprites(dy)[k] as int, dx, dy),
        forall|j: int|
            0 <= j < k ==> !v.sprite_opaque_at(#[trigger] v.line_sprites(dy)[j] as int, dx, dy),
    ensures
        ({
            let s = v.sprites[v.line_sprites(dy)[k] as int];
            let pix = spec_pattern_pixel(v.pattern_at(s.tile as int), dx - s.x, dy - s.y);
            v.sprite_pixel(dx, dy) == Some((pix, s.attrib)) && v.pixel_color(dx, dy)
                == v.sprite_color(pix, s.attrib)
        }),
{
    lemma_sprite_pixel_from_skip(v, v.line_sprites(dy), k, dx, dy);
}

/// Law (sprite priority, by slot index): if slot `i` takes part in scanline
/// `dy` and shows an opaque pixel at `(dx, dy)`, and no lower slot taking
/// part shows one there, the rendered palette index is slot `i`'s resolved
/// color — among overlapping sprites the lowest slot index wins.
pub proof fn lemma_sprite_priority_by_slot(v: PpuView, dx: int, dy: int, i: int)
    requires
        0 <= i < NUM_SPRITES,
        v.line_sprites(dy).contains(i as usize),
        v.sprite_opaque_at(i, dx, dy),
        forall|j: int|
            0 <= j < i ==> !v.line_sprites(dy).contains(j as usize) || !v.sprite_opaque_at(
                j,
                dx,
                dy,
            ),
    ensures
        ({
            let s = v.sprites[i];
            let pix = spec_pattern_pixel(v.pattern_at(s.tile as int), dx - s.x, dy - s.y);
            v.sprite_pixel(dx, dy) == Some((pix, s.attrib)) && v.pixel_color(dx, dy)
                == v.sprite_color(pix, s.attrib)
        }),
{
    let line = v.line_sprites(dy);
    lemma_line_sprites_upto_props(v, dy, NUM_SPRITES as int);
    let k = choose|k: int| 0 <= k < line.len() && line[k] == i as usize;
    assert forall|j: int| 0 <= j < k implies !v.sprite_opaque_at(
        #[trigger] line[j] as int,
        dx,
        dy,
    ) by {
        assert(line[j] < line[k]);
        assert(line.contains(line[j]));
    }
    lemma_first_opaque_sprite_wins(v, dx, dy, k);
}

/// Law (background fall-through): when no sprite selected for the scanline
/// shows an opaque pixel at `(dx, dy)` — in particular when every sprite
/// pixel there has the transparent value 0 — the background shows through.
pub proof fn lemma_transparent_sprites_show_background(v: PpuView, dx: int, dy: int)
    requires
        forall|j: int|
            0 <= j < v.line_sprites(dy).len() ==> !v.sprite_opaque_at(
                #[trigger] v.line_sprites(dy)[j] as int,
                dx,
                dy,
            ),
    ensures
        v.sprite_pixel(dx, dy) is None,
        v.pixel_color(dx, dy) == v.background_pixel_color(dx, dy),
{
    let line = v.line_sprites(dy);
    lemma_sprite_pixel_from_skip(v, line, line.len() as int, dx, dy);
}

/// Law (background transparency): background pixel value 0 always resolves
/// to the universal background color, whatever the attribute group.
pub proof fn lemma_background_transparency(v: PpuView, attrib: u8)
    ensures
        v.bg_color(0, attrib) == v.palette[0],
{
}

/// Index arithmetic tying a frame byte's flat index to its pixel position
/// and channel.
proof fn lemma_frame_index(dx: int, dy: int, ch: int)
    requires
        0 <= dx < 256,
        0 <= dy < 240,
        0 <= ch < 4,
    ensures
        (4 * (256 * dy + dx) + ch) / 4 == 256 * dy + dx,
        (4 * (256 * dy + dx) + ch) % 4 == ch,
        (256 * dy + dx) / 256 == dy,
        (256 * dy + dx) % 256 == dx,
{
    let p = 256 * dy + dx;
    lemma_fundamental_div_mod_converse(4 * p + ch, 4, p, ch);
    lemma_fundamental_div_mod_converse(p, 256, dy, dx);
}

/// The pixel-level reading of the frame contract: the four bytes a frame
/// holds for display position `(dx, dy)` are the RGB entry the color table
/// gives the rendered (6-bit masked) palette index, then an opaque alpha.
pub proof fn lemma_frame_pixel_bytes(v: PpuView, dx: int, dy: int)
    requires
        v.wf(),
        0 <= dx < DISPLAY_WIDTH,
        0 <= dy < DISPLAY_HEIGHT,
    ensures
        ({
            let base = 4 * (256 * dy + dx);
            let c = (v.pixel_color(dx, dy) & 0x3f) as int;
            v.frame_byte(base) == v.colors[3 * c] && v.frame_byte(base + 1) == v.colors[3 * c + 1]
                && v.frame_byte(base + 2) == v.colors[3 * c + 2] && v.frame_byte(base + 3) == 255u8
        }),
{
    lemma_frame_index(dx, dy, 0);
    lemma_frame_index(dx, dy, 1);
    lemma_frame_index(dx, dy, 2);
    lemma_frame_index(dx, dy, 3);
}

impl Ppu {
    /// Renders one full frame into `image` as tightly packed RGBA rows, top
    /// to bottom: every byte of the buffer is overwritten, every pixel is
    /// the color the composition rules assign it, and every alpha is opaque.
    pub fn draw_image(&self, image: &mut Vec<u8>)
        requires
            self@.wf(),
            self@.scroll_x as int <= MAX_SCROLL_X as int,
            self@.scroll_y as int <= MAX_SCROLL_Y as int,
        ensures
            final(image)@.len() == FRAME_SIZE_IN_BYTES,
            forall|i: int|
                0 <= i < FRAME_SIZE_IN_BYTES ==> final(image)@[i] == self@.frame_byte(i),
    {
        proof {
            assert(MAX_SCROLL_X == 256 && MAX_SCROLL_Y == 240);
            assert(FRAME_SIZE_IN_BYTES == 245760);
        }
        let (scroll_x, scroll_y) = self.get_scroll();
        let mut buf: Vec<u8> = Vec::new();
        let mut dy: usize = 0;
        while dy < DISPLAY_HEIGHT
            invariant
                self@.wf(),
                self@.scroll_x <= 256,
                self@.scroll_y <= 240,
                scroll_x == self@.scroll_x,
                scroll_y == self@.scroll_y,
                dy <= DISPLAY_HEIGHT,
                buf@.len() == 1024 * (dy as int),
                forall|i: int| 0 <= i < buf@.len() ==> buf@[i] == self@.frame_byte(i),
            decreases DISPLAY_HEIGHT - dy,
        {
            proof {
                assert(DISPLAY_WIDTH == 256 && DISPLAY_HEIGHT == 240);
                assert(TILE_WIDTH_IN_PIXELS == 8 && TILE_HEIGHT_IN_PIXELS == 8);
            }
            let world_y: usize = dy + scroll_y as usize;
            let tile_y: usize = world_y / TILE_HEIGHT_IN_PIXELS;
            let subtile_y: usize = world_y % TILE_HEIGHT_IN_PIXELS;

            // Collect, in ascending slot order and up to the per-line cap,
            // the sprites whose vertical extent contains this scanline.
            let mut line: Vec<usize> = Vec::new();
            let mut si: usize = 0;
            while si < NUM_SPRITES
                invariant
                    self@.wf(),
                    si <= NUM_SPRITES,
                    line@ == self@.line_sprites_upto(dy as int, si as int),
                    line@.len() <= MAX_SPRITES_ON_LINE,
                    forall|k: int|
                        0 <= k < line@.len() ==> (#[trigger] line@[k]) < NUM_SPRITES
                            && sprite_on_line(self@.sprites[line@[k] as int], dy as int),
                decreases NUM_SPRITES - si,
            {
                let s = self.get_sprite(si);
                if line.len() < MAX_SPRITES_ON_LINE && dy >= s.y as usize && dy < s.y as usize
                    + TILE_HEIGHT_IN_PIXELS {
                    line.push(si);
                }
                si = si + 1;
            }

            let mut dx: usize = 0;
            while dx < DISPLAY_WIDTH
                invariant
                    self@.wf(),
                    self@.scroll_x <= 256,
                    self@.scroll_y <= 240,
                    scroll_x == self@.scroll_x,
                    scroll_y == self@.scroll_y,
                    dy < DISPLAY_HEIGHT,
                    dx <= DISPLAY_WIDTH,
                    world_y == dy + self@.scroll_y,
                    tile_y == world_y / TILE_HEIGHT_IN_PIXELS,
                    subtile_y == world_y % TILE_HEIGHT_IN_PIXELS,
                    line@ == self@.line_sprites(dy as int),
                    line@.len() <= MAX_SPRITES_ON_LINE,
                    forall|k: int|
                        0 <= k < line@.len() ==> (#[trigger] line@[k]) < NUM_SPRITES
                            && sprite_on_line(self@.sprites[line@[k] as int], dy as int),
                    buf@.len() == 1024 * (dy as int) + 4 * (dx as int),
                    forall|i: int| 0 <= i < buf@.len() ==> buf@[i] == self@.frame_byte(i),
                decreases DISPLAY_WIDTH - dx,
            {
                proof {
                    assert(DISPLAY_WIDTH == 256 && DISPLAY_HEIGHT == 240);
                    assert(TILE_WIDTH_IN_PIXELS == 8 && TILE_HEIGHT_IN_PIXELS == 8);
                    assert(TILEMAP_WIDTH_IN_TILES == 64 && TILEMAP_HEIGHT_IN_TILES == 60);
                }
                let world_x: usize = dx + scroll_x as usize;
                let tile_x: usize = world_x / TILE_WIDTH_IN_PIXELS;
                let subtile_x: usize = world_x % TILE_WIDTH_IN_PIXELS;

                let mut palette_index: u8 = 0;
                let mut sprite_drawn: bool = false;
                let mut spx: u8 = 0;
                let mut sattr: u8 = 0;

                // Walk the collected sprites in ascending slot order; the
                // first opaque pixel wins. Transparent (value 0) sprite
                // pixels fall through to later sprites or the background.
                let mut k: usize = 0;
                while k < line.len() && !sprite_drawn
                    invariant
                        self@.wf(),
                        dy < DISPLAY_HEIGHT,
                        dx < DISPLAY_WIDTH,
                        line@ == self@.line_sprites(dy as int),
                        forall|k2: int|
                            0 <= k2 < line@.len() ==> (#[trigger] line@[k2]) < NUM_SPRITES
                                && sprite_on_line(self@.sprites[line@[k2] as int], dy as int),
                        k <= line@.len(),
                        !sprite_drawn ==> self@.sprite_pixel_from(line@, 0, dx as int, dy as int)
                            == self@.sprite_pixel_from(line@, k as int, dx as int, dy as int),
                        sprite_drawn ==> self@.sprite_pixel(dx as int, dy as int) == Some(
                            (spx, sattr),
                        ),
                        sprite_drawn ==> sattr < 4 && 1 <= spx,
                    decreases line@.len() - k,
                {
                    let idx: usize = line[k];
                    let s = self.get_sprite(idx);
                    if dx >= s.x as usize && dx < s.x as usize + TILE_WIDTH_IN_PIXELS {
                        let sprite_col: usize = dx - s.x as usize;
                        let sprite_row: usize = dy - s.y as usize;
                        let sprite_pattern = self.get_pattern(s.tile);
                        let pixel = get_pixel_from_pattern(&sprite_pattern, sprite_col, sprite_row);
                        if pixel != 0 {
                            spx = pixel;
                            sattr = s.attrib;
                            sprite_drawn = true;
                            proof {
                                assert(self@.sprite_opaque_at(idx as int, dx as int, dy as int));
                                assert(self@.sprite_pixel_from(line@, k as int, dx as int, dy as int)
                                    == Some((pixel, s.attrib)));
                            }
                        }
                    }
                    if !sprite_drawn {
                        proof {
                            assert(!self@.sprite_opaque_at(idx as int, dx as int, dy as int));
                            assert(self@.sprite_pixel_from(line@, k as int, dx as int, dy as int)
                                == self@.sprite_pixel_from(line@, k as int + 1, dx as int, dy as int));
                        }
                    }
                    k = k + 1;
                }

                if sprite_drawn {
                    palette_index = self.get_sprite_color(spx, sattr);
                    proof {
                        assert(palette_index == self@.pixel_color(dx as int, dy as int));
                    }
                } else {
                    proof {
                        assert(self@.sprite_pixel_from(line@, line@.len() as int, dx as int, dy as int)
                            is None);
                        assert(self@.sprite_pixel(dx as int, dy as int) is None);
                    }
                    let tile = self.get_tile(tile_x, tile_y);
                    let pattern = self.get_pattern(tile);
                    let pixel = get_pixel_from_pattern(&pattern, subtile_x, subtile_y);
                    let attrib = self.get_attribute(tile_x, tile_y);
                    palette_index = self.get_bg_color(pixel, attrib);
                    proof {
                        assert(palette_index == self@.background_pixel_color(dx as int, dy as int));
                        assert(palette_index == self@.pixel_color(dx as int, dy as int));
                    }
                }

                let rgb = self.get_color_rgba(palette_index);
                proof {
                    let p = 256 * (dy as int) + (dx as int);
                    lemma_frame_index(dx as int, dy as int, 0);
                    lemma_frame_index(dx as int, dy as int, 1);
                    lemma_frame_index(dx as int, dy as int, 2);
                    lemma_frame_index(dx as int, dy as int, 3);
                    assert(self@.frame_byte(4 * p) == rgb.0);
                    assert(self@.frame_byte(4 * p + 1) == rgb.1);
                    assert(self@.frame_byte(4 * p + 2) == rgb.2);
                    assert(self@.frame_byte(4 * p + 3) == 255u8);
                }
                buf.push(rgb.0);
                buf.push(rgb.1);
                buf.push(rgb.2);
                buf.push(255);
                dx = dx + 1;
            }
            dy = dy + 1;
        }
        *image = buf;
    }
}

} // verus!
