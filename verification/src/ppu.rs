//! The picture processing unit's byte-addressable state and mutation API.
//!
//! One `Ppu` owns a background tilemap of pattern names, a packed attribute
//! map (one 2-bit palette-group code per 2x2 tile block), a pattern table, a
//! 32-byte palette, a fixed table of sprite descriptors, a 64-entry RGB color
//! table, and two scroll offsets. The view `PpuView` is the mathematical
//! model every contract speaks of.

use vstd::prelude::*;

use crate::pattern::{PATTERN_SIZE_IN_BYTES, TILE_HEIGHT_IN_PIXELS, TILE_WIDTH_IN_PIXELS};

verus! {

/// Width of the rendered frame in pixels.
pub const DISPLAY_WIDTH: usize = 256;

/// Height of the rendered frame in pixels.
pub const DISPLAY_HEIGHT: usize = 240;

/// Number of sprite slots (far more generous than the original hardware).
pub const NUM_SPRITES: usize = 1024;

/// Most sprites that may take part in any one scanline.
pub const MAX_SPRITES_ON_LINE: usize = 256;

/// Tilemap width, in tiles: four display-screens worth of background.
pub const TILEMAP_WIDTH_IN_TILES: usize = 64;

/// Tilemap height, in tiles.
pub const TILEMAP_HEIGHT_IN_TILES: usize = 60;

/// Tiles across one rendered frame.
pub const DISPLAY_WIDTH_IN_TILES: usize = DISPLAY_WIDTH / TILE_WIDTH_IN_PIXELS;

/// Tile rows in one rendered frame.
pub const DISPLAY_HEIGHT_IN_TILES: usize = DISPLAY_HEIGHT / TILE_HEIGHT_IN_PIXELS;

/// One byte (a pattern name) per tile cell.
pub const TILEMAP_SIZE_IN_BYTES: usize = TILEMAP_WIDTH_IN_TILES * TILEMAP_HEIGHT_IN_TILES;

/// The attribute map covers 2x2 tile blocks.
pub const ATTRMAP_WIDTH_IN_METATILES: usize = TILEMAP_WIDTH_IN_TILES / 2;

/// Attribute map height in 2x2 blocks.
pub const ATTRMAP_HEIGHT_IN_METATILES: usize = TILEMAP_HEIGHT_IN_TILES / 2;

/// Four 2-bit attribute codes are packed per byte.
#[verifier::nonlinear]
pub const ATTRMAP_SIZE_IN_BYTES: usize = ATTRMAP_WIDTH_IN_METATILES * ATTRMAP_HEIGHT_IN_METATILES;

/// Byte budget of the pattern table.
pub const PATTERN_TABLE_SIZE_IN_BYTES: usize = 0x2000;

/// How many 16-byte patterns the pattern table can hold.
pub const NUM_PATTERNS: usize = PATTERN_TABLE_SIZE_IN_BYTES / PATTERN_SIZE_IN_BYTES;

/// Universal color, 4 background groups, 4 sprite groups: 32 palette bytes.
pub const PALETTE_SIZE_IN_BYTES: usize = 0x20;

/// Byte offset of the sprite palette groups within the palette.
pub const SPRITE_PALETTE_OFFSET: usize = 0x10;

/// 64 RGB color entries of 3 bytes each.
pub const COLOR_TABLE_SIZE_IN_BYTES: usize = 192;

/// A sprite whose `y` is this value can never intersect a visible scanline,
/// so it serves as the disable sentinel.
pub const DISABLED_SPRITE_Y: u8 = 255;

/// One sprite descriptor: position, pattern name and palette attribute.
/// The flip flags are reserved; the rasterizer never consults them.
#[derive(Clone, Copy, PartialEq, Eq, Structural, Debug)]
pub struct Sprite {
    pub x: u8,
    pub y: u8,
    pub tile: u8,
    pub attrib: u8,
    pub flip_horiz: bool,
    pub flip_vert: bool,
}

/// The cleared state of a sprite slot: parked on the unreachable line.
pub open spec fn disabled_sprite() -> Sprite {
    Sprite { x: 0, y: DISABLED_SPRITE_Y, tile: 0, attrib: 0, flip_horiz: false, flip_vert: false }
}

impl Default for Sprite {
    /// A freshly made sprite is disabled.
    fn default() -> (s: Sprite)
        ensures
            s == disabled_sprite(),
    {
        Sprite {
            x: 0,
            y: DISABLED_SPRITE_Y,
            tile: 0,
            attrib: 0,
            flip_horiz: false,
            flip_vert: false,
        }
    }
}

/// The sprite descriptor stored by `Ppu::set_sprite`: coordinates outside
/// `[0, 256)` silently disable the slot instead of erroring.
pub open spec fn spec_new_sprite(x: i32, y: i32, tile: u8, attrib: u8) -> Sprite {
    if 0 <= x < 256 && 0 <= y < 256 {
        Sprite {
            x: x as u8,
            y: y as u8,
            tile,
            attrib,
            flip_horiz: false,
            flip_vert: false,
        }
    } else {
        disabled_sprite()
    }
}

/// The mathematical model of a `Ppu`: each memory region as a sequence.
pub struct PpuView {
    pub tiles: Seq<u8>,
    pub attrs: Seq<u8>,
    pub patterns: Seq<u8>,
    pub palette: Seq<u8>,
    pub sprites: Seq<Sprite>,
    pub colors: Seq<u8>,
    pub scroll_x: u32,
    pub scroll_y: u32,
}

impl PpuView {
    /// Every region has its fixed capacity and every sprite attribute selects
    /// one of the four sprite palette groups.
    pub open spec fn wf(self) -> bool {
        &&& self.tiles.len() == TILEMAP_SIZE_IN_BYTES
        &&& self.attrs.len() == ATTRMAP_SIZE_IN_BYTES
        &&& self.patterns.len() == PATTERN_TABLE_SIZE_IN_BYTES
        &&& self.palette.len() == PALETTE_SIZE_IN_BYTES
        &&& self.sprites.len() == NUM_SPRITES
        &&& self.colors.len() == COLOR_TABLE_SIZE_IN_BYTES
        &&& forall|i: int|
            0 <= i < NUM_SPRITES ==> (#[trigger] self.sprites[i]).attrib < 4
    }

    /// The pattern name of the tile cell at `(tx, ty)`.
    pub open spec fn tile_at(self, tx: int, ty: int) -> u8
        recommends
            0 <= tx < TILEMAP_WIDTH_IN_TILES,
            0 <= ty < TILEMAP_HEIGHT_IN_TILES,
    {
        self.tiles[ty * TILEMAP_WIDTH_IN_TILES + tx]
    }

    /// The 2-bit palette-group code that covers the tile cell at `(tx, ty)`.
    pub open spec fn attribute_at(self, tx: int, ty: int) -> u8
        recommends
            0 <= tx < TILEMAP_WIDTH_IN_TILES,
            0 <= ty < TILEMAP_HEIGHT_IN_TILES,
    {
        let sub = (ty % 2) * 2 + tx % 2;
        (self.attrs[(ty / 2) * (ATTRMAP_WIDTH_IN_METATILES as int) + tx / 2]
            >> ((2 * (3 - sub)) as u8)) & 3
    }

    /// The attribute map after storing code `g` for the tile cell `(tx, ty)`.
    pub open spec fn with_attribute(self, tx: int, ty: int, g: u8) -> PpuView
        recommends
            0 <= tx < TILEMAP_WIDTH_IN_TILES,
            0 <= ty < TILEMAP_HEIGHT_IN_TILES,
            g < 4,
    {
        let i = (ty / 2) * (ATTRMAP_WIDTH_IN_METATILES as int) + tx / 2;
        let sh = (2 * (3 - ((ty % 2) * 2 + tx % 2))) as u8;
        PpuView { attrs: self.attrs.update(i, (self.attrs[i] & !(3u8 << sh)) | (g << sh)), ..self }
    }

    /// The 16 packed bytes of the pattern stored under `name`.
    pub open spec fn pattern_at(self, name: int) -> Seq<u8>
        recommends
            0 <= name < NUM_PATTERNS,
    {
        self.patterns.subrange(
            name * PATTERN_SIZE_IN_BYTES,
            name * PATTERN_SIZE_IN_BYTES + PATTERN_SIZE_IN_BYTES,
        )
    }

    /// Palette index a background pixel resolves to: value 0 always selects
    /// the universal background color, whatever the attribute group.
    pub open spec fn bg_color(self, pixel: u8, attrib: u8) -> u8
        recommends
            attrib < 4,
    {
        if pixel == 0 {
            self.palette[0]
        } else {
            self.palette[attrib * 4 + (pixel & 3)]
        }
    }

    /// Palette index an opaque sprite pixel resolves to. Sprite pixel value 0
    /// is transparent and must never be looked up here.
    pub open spec fn sprite_color(self, pixel: u8, attrib: u8) -> u8
        recommends
            attrib < 4,
            1 <= pixel,
    {
        self.palette[attrib * 4 + SPRITE_PALETTE_OFFSET + (pixel & 3)]
    }
}

/// Law: storing an attribute code and reading the same tile cell back yields
/// that code, and no other tile cell's code changes (in particular the other
/// three sub-positions of the same 2x2 block keep theirs).
pub proof fn lemma_attribute_round_trip(v: PpuView, tx: int, ty: int, g: u8, tx2: int, ty2: int)
    requires
        v.wf(),
        0 <= tx < TILEMAP_WIDTH_IN_TILES,
        0 <= ty < TILEMAP_HEIGHT_IN_TILES,
        g < 4,
        0 <= tx2 < TILEMAP_WIDTH_IN_TILES,
        0 <= ty2 < TILEMAP_HEIGHT_IN_TILES,
    ensures
        v.with_attribute(tx, ty, g).attribute_at(tx, ty) == g,
        !(tx2 == tx && ty2 == ty) ==> v.with_attribute(tx, ty, g).attribute_at(tx2, ty2)
            == v.attribute_at(tx2, ty2),
{
    let i = (ty / 2) * (ATTRMAP_WIDTH_IN_METATILES as int) + tx / 2;
    let i2 = (ty2 / 2) * (ATTRMAP_WIDTH_IN_METATILES as int) + tx2 / 2;
    let sub = (ty % 2) * 2 + tx % 2;
    let sub2 = (ty2 % 2) * 2 + tx2 % 2;
    crate::pattern::lemma_packed2_update(
        v.attrs[i],
        g,
        (2 * (3 - sub)) as u8,
        (2 * (3 - sub2)) as u8,
    );
    assert(ATTRMAP_WIDTH_IN_METATILES == 32);
    if i2 == i && !(tx2 == tx && ty2 == ty) {
        assert(ty2 / 2 == ty / 2 && tx2 / 2 == tx / 2);
        assert(sub2 != sub);
    }
}

/// The picture processing unit.
pub struct Ppu {
    tilemap: Vec<u8>,
    attrmap: Vec<u8>,
    pattern_table: Vec<u8>,
    palette: Vec<u8>,
    sprites: Vec<Sprite>,
    color_table: Vec<u8>,
    scroll_x: u32,
    scroll_y: u32,
}

impl View for Ppu {
    type V = PpuView;

    closed spec fn view(&self) -> PpuView {
        PpuView {
            tiles: self.tilemap@,
            attrs: self.attrmap@,
            patterns: self.pattern_table@,
            palette: self.palette@,
            sprites: self.sprites@,
            colors: self.color_table@,
            scroll_x: self.scroll_x,
            scroll_y: self.scroll_y,
        }
    }
}

/// The all-zeroed state a freshly constructed `Ppu` is in: blank patterns,
/// blank tilemap, zeroed palette and color table, all sprites disabled, zero
/// scroll.
pub open spec fn initial_view() -> PpuView {
    PpuView {
        tiles: Seq::new(TILEMAP_SIZE_IN_BYTES as nat, |i: int| 0u8),
        attrs: Seq::new(ATTRMAP_SIZE_IN_BYTES as nat, |i: int| 0u8),
        patterns: Seq::new(PATTERN_TABLE_SIZE_IN_BYTES as nat, |i: int| 0u8),
        palette: Seq::new(PALETTE_SIZE_IN_BYTES as nat, |i: int| 0u8),
        sprites: Seq::new(NUM_SPRITES as nat, |i: int| disabled_sprite()),
        colors: Seq::new(COLOR_TABLE_SIZE_IN_BYTES as nat, |i: int| 0u8),
        scroll_x: 0,
        scroll_y: 0,
    }
}

/// A vector of `n` zero bytes.
fn make_zero_bytes(n: usize) -> (v: Vec<u8>)
    ensures
        v@ == Seq::new(n as nat, |i: int| 0u8),
{
    let mut v: Vec<u8> = Vec::new();
    let mut k: usize = 0;
    while k < n
        invariant
            k <= n,
            v@.len() == k,
            forall|i: int| 0 <= i < k ==> v@[i] == 0u8,
        decreases n - k,
    {
        v.push(0);
        k = k + 1;
    }
    proof {
        assert(v@ =~= Seq::new(n as nat, |i: int| 0u8));
    }
    v
}

/// A vector of `n` disabled sprites.
fn make_disabled_sprites(n: usize) -> (v: Vec<Sprite>)
    ensures
        v@ == Seq::new(n as nat, |i: int| disabled_sprite()),
{
    let mut v: Vec<Sprite> = Vec::new();
    let mut k: usize = 0;
    while k < n
        invariant
            k <= n,
            v@.len() == k,
            forall|i: int| 0 <= i < k ==> v@[i] == disabled_sprite(),
        decreases n - k,
    {
        v.push(Sprite::default());
        k = k + 1;
    }
    proof {
        assert(v@ =~= Seq::new(n as nat, |i: int| disabled_sprite()));
    }
    v
}

impl Default for Ppu {
    /// Construction produces the all-zeroed state.
    fn default() -> (p: Ppu)
        ensures
            p@ == initial_view(),
            p@.wf(),
    {
        Ppu {
            tilemap: make_zero_bytes(TILEMAP_SIZE_IN_BYTES),
            attrmap: make_zero_bytes(ATTRMAP_SIZE_IN_BYTES),
            pattern_table: make_zero_bytes(PATTERN_TABLE_SIZE_IN_BYTES),
            palette: make_zero_bytes(PALETTE_SIZE_IN_BYTES),
            sprites: make_disabled_sprites(NUM_SPRITES),
            color_table: make_zero_bytes(COLOR_TABLE_SIZE_IN_BYTES),
            scroll_x: 0,
            scroll_y: 0,
        }
    }
}

impl Ppu {
    /// Supplies the fixed 64-entry RGB color table (3 bytes per entry).
    pub fn set_color_table(&mut self, colors: &Vec<u8>)
        requires
            colors@.len() == COLOR_TABLE_SIZE_IN_BYTES,
        ensures
            final(self)@ == (PpuView { colors: colors@, ..old(self)@ }),
    {
        self.color_table = colors.clone();
    }

    /// Sets the background scroll offsets applied to every rendered frame.
    pub fn set_scroll(&mut self, x: u32, y: u32)
        ensures
            final(self)@ == (PpuView { scroll_x: x, scroll_y: y, ..old(self)@ }),
    {
        self.scroll_x = x;
        self.scroll_y = y;
    }

    /// The current scroll offsets `(x, y)`.
    pub fn get_scroll(&self) -> (s: (u32, u32))
        ensures
            s.0 == self@.scroll_x,
            s.1 == self@.scroll_y,
    {
        (self.scroll_x, self.scroll_y)
    }

    /// The descriptor currently held by sprite slot `num`.
    pub fn get_sprite(&self, num: usize) -> (s: Sprite)
        requires
            self@.wf(),
            num < NUM_SPRITES,
        ensures
            s == self@.sprites[num as int],
    {
        self.sprites[num]
    }

    /// The RGB bytes of the color-table entry a 6-bit color code selects;
    /// codes wider than 6 bits are masked down.
    pub fn get_color_rgba(&self, color: u8) -> (rgb: (u8, u8, u8))
        requires
            self@.wf(),
        ensures
            rgb.0 == self@.colors[3 * ((color & 0x3f) as int)],
            rgb.1 == self@.colors[3 * ((color & 0x3f) as int) + 1],
            rgb.2 == self@.colors[3 * ((color & 0x3f) as int) + 2],
    {
        proof {
            assert(color & 0x3f < 64) by (bit_vector);
        }
        let c: usize = (color & 0x3f) as usize;
        (self.color_table[3 * c], self.color_table[3 * c + 1], self.color_table[3 * c + 2])
    }

    /// The pattern name of the tile cell at `(tile_x, tile_y)`.
    pub fn get_tile(&self, tile_x: usize, tile_y: usize) -> (name: u8)
        requires
            self@.wf(),
            tile_x < TILEMAP_WIDTH_IN_TILES,
            tile_y < TILEMAP_HEIGHT_IN_TILES,
        ensures
            name == self@.tile_at(tile_x as int, tile_y as int),
    {
        self.tilemap[tile_y * TILEMAP_WIDTH_IN_TILES + tile_x]
    }

    /// Writes pattern name `name` into the tile cell at `(tile_x, tile_y)`.
    pub fn set_tile(&mut self, tile_x: usize, tile_y: usize, name: u8)
        requires
            old(self)@.wf(),
            tile_x < TILEMAP_WIDTH_IN_TILES,
            tile_y < TILEMAP_HEIGHT_IN_TILES,
        ensures
            final(self)@ == (PpuView {
                tiles: old(self)@.tiles.update(
                    tile_y * TILEMAP_WIDTH_IN_TILES + tile_x,
                    name,
                ),
                ..old(self)@
            }),
            final(self)@.wf(),
            final(self)@.tile_at(tile_x as int, tile_y as int) == name,
            forall|tx: int, ty: int|
                0 <= tx < TILEMAP_WIDTH_IN_TILES && 0 <= ty < TILEMAP_HEIGHT_IN_TILES
                    && !(tx == tile_x && ty == tile_y)
                    ==> final(self)@.tile_at(tx, ty) == old(self)@.tile_at(tx, ty),
    {
        let i: usize = tile_y * TILEMAP_WIDTH_IN_TILES + tile_x;
        self.tilemap.set(i, name);
        proof {
            assert forall|tx: int, ty: int|
                0 <= tx < TILEMAP_WIDTH_IN_TILES && 0 <= ty < TILEMAP_HEIGHT_IN_TILES
                    && !(tx == tile_x && ty == tile_y)
                    implies self@.tile_at(tx, ty) == old(self)@.tile_at(tx, ty) by {
                assert(ty * TILEMAP_WIDTH_IN_TILES + tx != i);
            }
        }
    }

    /// The 2-bit palette-group code covering the tile cell at `(tile_x, tile_y)`.
    pub fn get_attribute(&self, tile_x: usize, tile_y: usize) -> (g: u8)
        requires
            self@.wf(),
            tile_x < TILEMAP_WIDTH_IN_TILES,
            tile_y < TILEMAP_HEIGHT_IN_TILES,
        ensures
            g == self@.attribute_at(tile_x as int, tile_y as int),
            g < 4,
    {
        let attr_x: usize = tile_x / 2;
        let attr_y: usize = tile_y / 2;
        let sub: u8 = (tile_y as u8 % 2) * 2 + tile_x as u8 % 2;
        let sh: u8 = 2 * (3 - sub);
        let b: u8 = self.attrmap[attr_y * ATTRMAP_WIDTH_IN_METATILES + attr_x];
        let g: u8 = (b >> sh) & 3;
        proof {
            assert((b >> sh) & 3 < 4) by (bit_vector);
        }
        g
    }

    /// Stores 2-bit code `attrib` for the 2x2-block sub-position covering the
    /// tile cell `(tile_x, tile_y)`; every other tile cell keeps its code.
    pub fn set_attribute(&mut self, tile_x: usize, tile_y: usize, attrib: u8)
        requires
            old(self)@.wf(),
            tile_x < TILEMAP_WIDTH_IN_TILES,
            tile_y < TILEMAP_HEIGHT_IN_TILES,
            attrib < 4,
        ensures
            final(self)@ == old(self)@.with_attribute(tile_x as int, tile_y as int, attrib),
            final(self)@.wf(),
            final(self)@.attribute_at(tile_x as int, tile_y as int) == attrib,
            forall|tx: int, ty: int|
                0 <= tx < TILEMAP_WIDTH_IN_TILES && 0 <= ty < TILEMAP_HEIGHT_IN_TILES
                    && !(tx == tile_x && ty == tile_y)
                    ==> final(self)@.attribute_at(tx, ty) == old(self)@.attribute_at(tx, ty),
    {
        let attr_x: usize = tile_x / 2;
        let attr_y: usize = tile_y / 2;
        let sub: u8 = (tile_y as u8 % 2) * 2 + tile_x as u8 % 2;
        let sh: u8 = 2 * (3 - sub);
        let i: usize = attr_y * ATTRMAP_WIDTH_IN_METATILES + attr_x;
        let b: u8 = self.attrmap[i];
        let nb: u8 = (b & !(3u8 << sh)) | (attrib << sh);
        self.attrmap.set(i, nb);
        proof {
            lemma_attribute_round_trip(
                old(self)@,
                tile_x as int,
                tile_y as int,
                attrib,
                0,
                0,
            );
            assert forall|tx: int, ty: int|
                0 <= tx < TILEMAP_WIDTH_IN_TILES && 0 <= ty < TILEMAP_HEIGHT_IN_TILES
                    && !(tx == tile_x && ty == tile_y)
                    implies self@.attribute_at(tx, ty) == old(self)@.attribute_at(tx, ty) by {
                lemma_attribute_round_trip(
                    old(self)@,
                    tile_x as int,
                    tile_y as int,
                    attrib,
                    tx,
                    ty,
                );
            }
        }
    }

    /// Copies the 16 packed bytes of the pattern stored under `name`.
    pub fn get_pattern(&self, name: u8) -> (p: Vec<u8>)
        requires
            self@.wf(),
        ensures
            p@ == self@.pattern_at(name as int),
            p@.len() == PATTERN_SIZE_IN_BYTES,
    {
        let addr: usize = name as usize * PATTERN_SIZE_IN_BYTES;
        let mut p: Vec<u8> = Vec::new();
        let mut k: usize = 0;
        while k < PATTERN_SIZE_IN_BYTES
            invariant
                self@.wf(),
                k <= PATTERN_SIZE_IN_BYTES,
                addr == name as int * PATTERN_SIZE_IN_BYTES,
                p@.len() == k,
                forall|i: int| 0 <= i < k ==> p@[i] == self@.patterns[addr + i],
            decreases PATTERN_SIZE_IN_BYTES - k,
        {
            p.push(self.pattern_table[addr + k]);
            k = k + 1;
        }
        proof {
            assert(p@ =~= self@.pattern_at(name as int));
        }
        p
    }

    /// Overwrites the 16-byte packed pattern stored under `tile`; every other
    /// pattern keeps its bytes.
    pub fn set_pattern(&mut self, tile: usize, pattern: &Vec<u8>)
        requires
            old(self)@.wf(),
            tile < NUM_PATTERNS,
            pattern@.len() == PATTERN_SIZE_IN_BYTES,
        ensures
            final(self)@ == (PpuView { patterns: final(self)@.patterns, ..old(self)@ }),
            final(self)@.wf(),
            final(self)@.pattern_at(tile as int) == pattern@,
            forall|name: int|
                0 <= name < NUM_PATTERNS && name != tile
                    ==> final(self)@.pattern_at(name) == old(self)@.pattern_at(name),
    {
        let addr: usize = tile * PATTERN_SIZE_IN_BYTES;
        let mut k: usize = 0;
        while k < PATTERN_SIZE_IN_BYTES
            invariant
                k <= PATTERN_SIZE_IN_BYTES,
                addr == tile * PATTERN_SIZE_IN_BYTES,
                tile < NUM_PATTERNS,
                pattern@.len() == PATTERN_SIZE_IN_BYTES,
                self@ == (PpuView { patterns: self@.patterns, ..old(self)@ }),
                self@.patterns.len() == PATTERN_TABLE_SIZE_IN_BYTES,
                forall|i: int| 0 <= i < k ==> self@.patterns[addr + i] == pattern@[i],
                forall|i: int|
                    0 <= i < PATTERN_TABLE_SIZE_IN_BYTES && !(addr <= i < addr + k)
                        ==> self@.patterns[i] == old(self)@.patterns[i],
            decreases PATTERN_SIZE_IN_BYTES - k,
        {
            self.pattern_table.set(addr + k, pattern[k]);
            k = k + 1;
        }
        proof {
            assert(self@.pattern_at(tile as int) =~= pattern@);
            assert forall|name: int|
                0 <= name < NUM_PATTERNS && name != tile
                    implies self@.pattern_at(name) == old(self)@.pattern_at(name) by {
                assert(self@.pattern_at(name) =~= old(self)@.pattern_at(name));
            }
        }
    }

    /// Resets every sprite slot to the disabled default.
    pub fn clear_sprites(&mut self)
        requires
            old(self)@.wf(),
        ensures
            final(self)@ == (PpuView {
                sprites: Seq::new(NUM_SPRITES as nat, |i: int| disabled_sprite()),
                ..old(self)@
            }),
            final(self)@.wf(),
    {
        self.sprites = make_disabled_sprites(NUM_SPRITES);
    }

    /// Fills sprite slot `num`. Coordinates are accepted as wide-range signed
    /// values; if either falls outside `[0, 256)` the slot is set to the
    /// disabled default instead.
    pub fn set_sprite(&mut self, num: usize, x: i32, y: i32, tile: u8, attrib: u8)
        requires
            old(self)@.wf(),
            num < NUM_SPRITES,
            attrib < 4,
        ensures
            final(self)@ == (PpuView {
                sprites: old(self)@.sprites.update(num as int, spec_new_sprite(x, y, tile, attrib)),
                ..old(self)@
            }),
            final(self)@.wf(),
    {
        let mut new_sprite = Sprite::default();
        if x >= 0 && x < 256 && y >= 0 && y < 256 {
            new_sprite = Sprite {
                x: x as u8,
                y: y as u8,
                tile,
                attrib,
                flip_horiz: false,
                flip_vert: false,
            };
        }
        self.sprites.set(num, new_sprite);
    }

    /// Palette index a background pixel resolves to.
    pub fn get_bg_color(&self, pixel: u8, attrib: u8) -> (c: u8)
        requires
            self@.wf(),
            attrib < 4,
        ensures
            c == self@.bg_color(pixel, attrib),
    {
        proof {
            assert(pixel & 3 < 4) by (bit_vector);
        }
        if pixel == 0 {
            self.palette[0]
        } else {
            self.palette[attrib as usize * 4 + (pixel & 3) as usize]
        }
    }

    /// Palette index an opaque sprite pixel resolves to. Sprite pixel value
    /// 0 is transparent: a caller must skip the lookup instead of making it.
    pub fn get_sprite_color(&self, pixel: u8, attrib: u8) -> (c: u8)
        requires
            self@.wf(),
            attrib < 4,
            1 <= pixel,
        ensures
            c == self@.sprite_color(pixel, attrib),
    {
        proof {
            assert(pixel & 3 < 4) by (bit_vector);
        }
        self.palette[attrib as usize * 4 + SPRITE_PALETTE_OFFSET + (pixel & 3) as usize]
    }

    /// Sets the universal background color, used wherever a background pixel
    /// value is 0.
    pub fn set_common_bg_color(&mut self, color: u8)
        requires
            old(self)@.wf(),
        ensures
            final(self)@ == (PpuView {
                palette: old(self)@.palette.update(0, color),
                ..old(self)@
            }),
            final(self)@.wf(),
    {
        self.palette.set(0, color);
    }

    /// Sets the three non-transparent colors of background palette group
    /// `attrib`.
    pub fn set_bg_colors(&mut self, attrib: u8, colors: [u8; 3])
        requires
            old(self)@.wf(),
            attrib < 4,
        ensures
            final(self)@ == (PpuView {
                palette: old(self)@.palette
                    .update(attrib * 4 + 1, colors@[0])
                    .update(attrib * 4 + 2, colors@[1])
                    .update(attrib * 4 + 3, colors@[2]),
                ..old(self)@
            }),
            final(self)@.wf(),
    {
        self.palette.set(attrib as usize * 4 + 1, colors[0]);
        self.palette.set(attrib as usize * 4 + 2, colors[1]);
        self.palette.set(attrib as usize * 4 + 3, colors[2]);
    }

    /// Sets the three non-transparent colors of sprite palette group `attrib`.
    pub fn set_sprite_colors(&mut self, attrib: u8, colors: [u8; 3])
        requires
            old(self)@.wf(),
            attrib < 4,
        ensures
            final(self)@ == (PpuView {
                palette: old(self)@.palette
                    .update(attrib * 4 + SPRITE_PALETTE_OFFSET + 1, colors@[0])
                    .update(attrib * 4 + SPRITE_PALETTE_OFFSET + 2, colors@[1])
                    .update(attrib * 4 + SPRITE_PALETTE_OFFSET + 3, colors@[2]),
                ..old(self)@
            }),
            final(self)@.wf(),
    {
        self.palette.set(attrib as usize * 4 + SPRITE_PALETTE_OFFSET + 1, colors[0]);
        self.palette.set(attrib as usize * 4 + SPRITE_PALETTE_OFFSET + 2, colors[1]);
        self.palette.set(attrib as usize * 4 + SPRITE_PALETTE_OFFSET + 3, colors[2]);
    }
}

} // verus!
