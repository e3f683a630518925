use vstd::prelude::*;

use crate::alu::signed_val;
use crate::ppu::{
    bg_map_high, bg_win_priority, bw_palette, bw_palette_spec, obj_big, obj_enabled,
    tile_data_unsigned, win_enabled, win_map_high, Color, Ppu, PpuView,
};

verus! {

/// The power of two selecting one bit of a byte.
pub open spec fn pow2(n: u8) -> u8 {
    if n == 0 {
        1
    } else if n == 1 {
        2
    } else if n == 2 {
        4
    } else if n == 3 {
        8
    } else if n == 4 {
        16
    } else if n == 5 {
        32
    } else if n == 6 {
        64
    } else {
        128
    }
}

/// The power of four selecting one 2-bit field of a palette byte.
pub open spec fn pow4(n: u8) -> u8 {
    if n == 0 {
        1
    } else if n == 1 {
        4
    } else if n == 2 {
        16
    } else {
        64
    }
}

/// The shade a palette byte assigns to a 2-bit color index.
pub open spec fn pal_shade(pal: u8, idx: u8) -> u8 {
    ((pal as int) / (pow4(idx) as int) % 4) as u8
}

/// The color of a background or window pixel: its index mapped
/// through BGP onto the grey ramp, with the index recorded.
pub open spec fn bg_color(bgp: u8, idx: u8) -> Color {
    bw_palette_spec(pal_shade(bgp, idx), idx)
}

/// The 2-bit color index at horizontal offset `xoff` of a tile line
/// held as a low and a high byte: bit `7 - xoff` of each.
pub open spec fn tile_pixel_idx(lo: u8, hi: u8, xoff: u8) -> u8 {
    (((hi as int) / (pow2((7 - xoff) as u8) as int) % 2) * 2 + (lo as int) / (pow2(
        (7 - xoff) as u8,
    ) as int) % 2) as u8
}

/// The VRAM address of a tile line: unsigned addressing from 0x8000,
/// or signed addressing around 0x9000, as LCDC bit 4 selects.
pub open spec fn tile_line_addr(unsigned: bool, ti: u8, yoff: int) -> int {
    if unsigned {
        ti * 16 + yoff * 2
    } else {
        0x1000 + signed_val(ti) * 16 + yoff * 2
    }
}

/// The color index the background map gives for screen pixel `x` of
/// the line the PPU is on.
pub open spec fn bg_idx(v: PpuView, x: int) -> u8 {
    let y = (v.ly + v.scy) % 256;
    let xx = (x + v.scx) % 256;
    let map_base: int = if bg_map_high(v.lcdc) {
        0x1c00
    } else {
        0x1800
    };
    let ti = v.vram[map_base + (y / 8) * 32 + xx / 8];
    let addr = tile_line_addr(tile_data_unsigned(v.lcdc), ti, y % 8);
    tile_pixel_idx(v.vram[addr], v.vram[addr + 1], (xx % 8) as u8)
}

/// Whether the window covers screen pixel `x` of the current line.
pub open spec fn win_active(v: PpuView, x: int) -> bool {
    win_enabled(v.lcdc) && v.ly >= v.wy && x + 7 >= v.wx
}

/// The color index the window map gives for screen pixel `x`.
pub open spec fn win_idx(v: PpuView, x: int) -> u8 {
    let y = v.ly - v.wy;
    let xx = x + 7 - v.wx;
    let map_base: int = if win_map_high(v.lcdc) {
        0x1c00
    } else {
        0x1800
    };
    let ti = v.vram[map_base + (y / 8) * 32 + xx / 8];
    let addr = tile_line_addr(tile_data_unsigned(v.lcdc), ti, y % 8);
    tile_pixel_idx(v.vram[addr], v.vram[addr + 1], (xx % 8) as u8)
}

/// The color index of the background/window layer at screen pixel
/// `x`: the window where it covers, else the background; index 0
/// everywhere while LCDC bit 0 disables the layer.
pub open spec fn bgwin_idx(v: PpuView, x: int) -> u8 {
    if !bg_win_priority(v.lcdc) {
        0
    } else if win_active(v, x) {
        win_idx(v, x)
    } else {
        bg_idx(v, x)
    }
}

/// One OAM entry, decoded.
#[derive(Clone, Copy, PartialEq, Eq, Structural, Debug)]
pub struct SpriteOam {
    pub x: u8,
    pub y: u8,
    pub tile: u8,
    pub behind_bg: bool,
    pub y_flip: bool,
    pub x_flip: bool,
    pub palette: bool,
}

/// The decoded form of OAM entry `i`.
pub open spec fn sprite_at(oam: Seq<u8>, i: int) -> SpriteOam {
    let flags = oam[4 * i + 3];
    SpriteOam {
        y: oam[4 * i],
        x: oam[4 * i + 1],
        tile: oam[4 * i + 2],
        behind_bg: flags / 128 % 2 == 1,
        y_flip: flags / 64 % 2 == 1,
        x_flip: flags / 32 % 2 == 1,
        palette: flags / 16 % 2 == 1,
    }
}

/// The sprite height LCDC bit 2 selects.
pub open spec fn sprite_height(lcdc: u8) -> int {
    if obj_big(lcdc) {
        16
    } else {
        8
    }
}

/// Whether a sprite overlaps the line the PPU is on.
pub open spec fn on_line(s: SpriteOam, ly: int, h: int) -> bool {
    s.y <= ly + 16 < s.y + h
}

/// The sprites chosen after scanning the first `i` OAM entries: those
/// overlapping the line, in OAM order, capped at ten.
pub open spec fn select_sprites(v: PpuView, i: int) -> Seq<SpriteOam>
    decreases i,
{
    if i <= 0 {
        Seq::empty()
    } else {
        let pre = select_sprites(v, i - 1);
        let s = sprite_at(v.oam, i - 1);
        if pre.len() < 10 && on_line(s, v.ly as int, sprite_height(v.lcdc)) {
            pre.push(s)
        } else {
            pre
        }
    }
}

/// Insert a sprite behind every queued sprite whose X does not exceed
/// its own: the stable insertion step of the X sort.
pub open spec fn insert_by_x(s: Seq<SpriteOam>, e: SpriteOam) -> Seq<SpriteOam>
    decreases s.len(),
{
    if s.len() == 0 {
        seq![e]
    } else if s.last().x > e.x {
        insert_by_x(s.drop_last(), e).push(s.last())
    } else {
        s.push(e)
    }
}

/// Stable insertion sort by sprite X, so that among equal X the
/// earlier OAM entry keeps priority.
pub open spec fn sort_by_x(s: Seq<SpriteOam>) -> Seq<SpriteOam>
    decreases s.len(),
{
    if s.len() == 0 {
        Seq::empty()
    } else {
        insert_by_x(sort_by_x(s.drop_last()), s.last())
    }
}

/// The draw-ordered sprites of the current line.
pub open spec fn line_sprites(v: PpuView) -> Seq<SpriteOam> {
    sort_by_x(select_sprites(v, 40))
}

/// Whether a sprite's 8-pixel span covers screen pixel `x`.
pub open spec fn sprite_covers(s: SpriteOam, x: int) -> bool {
    s.x <= x + 8 < s.x + 8
}

/// The 2-bit color index of a sprite at screen pixel `x` on the
/// current line, honoring both flips and the 8x16 tile-pair rule.
pub open spec fn sprite_pixel_idx(v: PpuView, s: SpriteOam, x: int) -> u8 {
    let h = sprite_height(v.lcdc);
    let yo0 = v.ly + 16 - s.y;
    let yo: int = if s.y_flip {
        h - 1 - yo0
    } else {
        yo0
    };
    let tile: int = if obj_big(v.lcdc) {
        if yo < 8 {
            s.tile - s.tile % 2
        } else {
            s.tile - s.tile % 2 + 1
        }
    } else {
        s.tile as int
    };
    let addr = tile * 16 + (yo % 8) * 2;
    let xo0 = x + 8 - s.x;
    let xo: int = if s.x_flip {
        7 - xo0
    } else {
        xo0
    };
    tile_pixel_idx(v.vram[addr], v.vram[addr + 1], xo as u8)
}

/// The first sprite of the draw-ordered list, from position `i` on,
/// that shows at screen pixel `x`: it must cover the pixel, have a
/// non-transparent color, and not hide behind a non-zero background
/// pixel.  Returns its color index and palette choice.
pub open spec fn first_sprite(
    v: PpuView,
    sprites: Seq<SpriteOam>,
    x: int,
    bg: u8,
    i: int,
) -> Option<(u8, bool)>
    decreases sprites.len() - i,
{
    if i < 0 || i >= sprites.len() {
        None
    } else {
        let s = sprites[i];
        if sprite_covers(s, x) && sprite_pixel_idx(v, s, x) != 0 && (!s.behind_bg || bg == 0) {
            Some((sprite_pixel_idx(v, s, x), s.palette))
        } else {
            first_sprite(v, sprites, x, bg, i + 1)
        }
    }
}

/// The final color of screen pixel `x` on the current line: the
/// background/window layer, overlaid by the winning sprite if sprites
/// are enabled.
pub open spec fn line_pixel(v: PpuView, sprites: Seq<SpriteOam>, x: int) -> Color {
    let bg = bgwin_idx(v, x);
    let bg_col = if bg_win_priority(v.lcdc) {
        bg_color(v.bgp, bg)
    } else {
        bw_palette_spec(0, 0)
    };
    if obj_enabled(v.lcdc) {
        match first_sprite(v, sprites, x, bg, 0) {
            Some((idx, pal1)) => {
                let p = if pal1 {
                    v.obp1
                } else {
                    v.obp0
                };
                bw_palette_spec(pal_shade(p, idx), idx)
            },
            None => bg_col,
        }
    } else {
        bg_col
    }
}

/// The 160 pixels one scanline renders to.
pub open spec fn line_spec(v: PpuView) -> Seq<Color> {
    Seq::new(160, |x: int| line_pixel(v, line_sprites(v), x))
}

/// A framebuffer with row `y` replaced.
pub open spec fn fb_with_row(fb: Seq<Color>, y: int, row: Seq<Color>) -> Seq<Color> {
    Seq::new(fb.len(), |i: int| if 160 * y <= i < 160 * y + 160 {
        row[i - 160 * y]
    } else {
        fb[i]
    })
}

/// The bit-selecting power of two, as executable code.
fn bit_mask(n: u8) -> (r: u8)
    requires
        n < 8,
    ensures
        r == pow2(n),
{
    if n == 0 {
        1
    } else if n == 1 {
        2
    } else if n == 2 {
        4
    } else if n == 3 {
        8
    } else if n == 4 {
        16
    } else if n == 5 {
        32
    } else if n == 6 {
        64
    } else {
        128
    }
}

/// The field-selecting power of four, as executable code.
fn quad_mask(n: u8) -> (r: u8)
    requires
        n < 4,
    ensures
        r == pow4(n),
{
    if n == 0 {
        1
    } else if n == 1 {
        4
    } else if n == 2 {
        16
    } else {
        64
    }
}

/// Map a color index through a palette byte, as executable code.
fn pal_shade_exec(pal: u8, idx: u8) -> (r: u8)
    requires
        idx < 4,
    ensures
        r == pal_shade(pal, idx),
        r < 4,
{
    pal / quad_mask(idx) % 4
}

/// Extract the 2-bit pixel at `xoff` of a tile line.
fn tile_pixel(lo: u8, hi: u8, xoff: u8) -> (r: u8)
    requires
        xoff < 8,
    ensures
        r == tile_pixel_idx(lo, hi, xoff),
        r < 4,
{
    let m = bit_mask(7 - xoff);
    (hi / m % 2) * 2 + lo / m % 2
}

/// All sprites of `insert_by_x(s, e)` come from `s` or are `e`, so a
/// property of every input sprite carries to every output sprite.
proof fn lemma_insert_members(s: Seq<SpriteOam>, e: SpriteOam, ly: int, h: int)
    requires
        forall|i: int| 0 <= i < s.len() ==> on_line(#[trigger] s[i], ly, h),
        on_line(e, ly, h),
    ensures
        forall|i: int|
            0 <= i < insert_by_x(s, e).len() ==> on_line(#[trigger] insert_by_x(s, e)[i], ly, h),
        insert_by_x(s, e).len() == s.len() + 1,
    decreases s.len(),
{
    if s.len() == 0 {
    } else if s.last().x > e.x {
        assert(forall|i: int|
            0 <= i < s.drop_last().len() ==> on_line(#[trigger] s.drop_last()[i], ly, h));
        lemma_insert_members(s.drop_last(), e, ly, h);
    } else {
    }
}

/// Every sprite of the sorted line list lies on the line.
proof fn lemma_sort_members(s: Seq<SpriteOam>, ly: int, h: int)
    requires
        forall|i: int| 0 <= i < s.len() ==> on_line(#[trigger] s[i], ly, h),
    ensures
        forall|i: int|
            0 <= i < sort_by_x(s).len() ==> on_line(#[trigger] sort_by_x(s)[i], ly, h),
        sort_by_x(s).len() == s.len(),
    decreases s.len(),
{
    if s.len() == 0 {
    } else {
        assert(forall|i: int|
            0 <= i < s.drop_last().len() ==> on_line(#[trigger] s.drop_last()[i], ly, h));
        lemma_sort_members(s.drop_last(), ly, h);
        lemma_insert_members(sort_by_x(s.drop_last()), s.last(), ly, h);
    }
}

/// Every sprite the OAM scan selects lies on the line.
proof fn lemma_select_members(v: PpuView, i: int)
    requires
        0 <= i <= 40,
    ensures
        forall|j: int|
            0 <= j < select_sprites(v, i).len() ==> on_line(
                #[trigger] select_sprites(v, i)[j],
                v.ly as int,
                sprite_height(v.lcdc),
            ),
        select_sprites(v, i).len() <= i,
    decreases i,
{
    if i <= 0 {
    } else {
        lemma_select_members(v, i - 1);
    }
}

/// Splitting `insert_by_x` at the insertion position: the result is
/// the prefix whose X does not exceed the new sprite's, the new
/// sprite, then the strictly greater suffix.
proof fn lemma_insert_at(s: Seq<SpriteOam>, e: SpriteOam, pos: int)
    requires
        0 <= pos <= s.len(),
        forall|k: int| pos <= k < s.len() ==> (#[trigger] s[k]).x > e.x,
        pos > 0 ==> s[pos - 1].x <= e.x,
    ensures
        insert_by_x(s, e) == s.subrange(0, pos) + seq![e] + s.subrange(pos, s.len() as int),
    decreases s.len(),
{
    if s.len() == pos {
        assert(insert_by_x(s, e) =~= s.subrange(0, pos) + seq![e] + s.subrange(
            pos,
            s.len() as int,
        ));
    } else {
        assert(s.last().x > e.x);
        let dl = s.drop_last();
        assert(forall|k: int| pos <= k < dl.len() ==> (#[trigger] dl[k]).x > e.x);
        if pos > 0 {
            assert(dl[pos - 1] == s[pos - 1]);
        }
        lemma_insert_at(dl, e, pos);
        assert(insert_by_x(s, e) =~= s.subrange(0, pos) + seq![e] + s.subrange(
            pos,
            s.len() as int,
        ));
    }
}

impl Ppu {
    /// Scan OAM for the sprites of the current line: the first ten
    /// entries, in OAM order, whose vertical span covers it.
    fn get_sprites_on_line(&self) -> (r: Vec<SpriteOam>)
        requires
            self@.wf(),
        ensures
            r@ == select_sprites(self@, 40),
            forall|j: int|
                0 <= j < r@.len() ==> on_line(
                    #[trigger] r@[j],
                    self@.ly as int,
                    sprite_height(self@.lcdc),
                ),
            r@.len() <= 10,
    {
        let h: u16 = if self.lcdc / 4 % 2 == 1 {
            16
        } else {
            8
        };
        let mut r: Vec<SpriteOam> = Vec::new();
        let mut i: usize = 0;
        while i < 40
            invariant
                i <= 40,
                self@.wf(),
                h == sprite_height(self@.lcdc),
                r@ == select_sprites(self@, i as int),
                r@.len() <= 10,
            decreases 40 - i,
        {
            let y = self.oam[4 * i];
            let x = self.oam[4 * i + 1];
            let tile = self.oam[4 * i + 2];
            let flags = self.oam[4 * i + 3];
            let s = SpriteOam {
                y,
                x,
                tile,
                behind_bg: flags / 128 % 2 == 1,
                y_flip: flags / 64 % 2 == 1,
                x_flip: flags / 32 % 2 == 1,
                palette: flags / 16 % 2 == 1,
            };
            assert(s == sprite_at(self@.oam, i as int));
            if r.len() < 10 && y as u16 <= self.ly as u16 + 16 && (self.ly as u16 + 16) < y as u16
                + h {
                r.push(s);
            }
            i = i + 1;
        }
        proof {
            lemma_select_members(self@, 40);
        }
        r
    }

    /// Stable insertion sort of the line's sprites by ascending X.
    fn sort_sprites(&self, v: Vec<SpriteOam>) -> (r: Vec<SpriteOam>)
        ensures
            r@ == sort_by_x(v@),
    {
        let mut r: Vec<SpriteOam> = Vec::new();
        let mut i: usize = 0;
        proof {
            assert(v@.subrange(0, 0) =~= Seq::<SpriteOam>::empty());
        }
        while i < v.len()
            invariant
                i <= v@.len(),
                r@ == sort_by_x(v@.subrange(0, i as int)),
            decreases v@.len() - i,
        {
            let e = v[i];
            let mut pos: usize = r.len();
            while pos > 0 && r[pos - 1].x > e.x
                invariant
                    pos <= r@.len(),
                    forall|k: int| pos <= k < r@.len() ==> (#[trigger] r@[k]).x > e.x,
                decreases pos,
            {
                pos = pos - 1;
            }
            proof {
                lemma_insert_at(r@, e, pos as int);
            }
            r.insert(pos, e);
            proof {
                let pre = v@.subrange(0, i as int);
                assert(v@.subrange(0, i + 1).drop_last() =~= pre);
                assert(v@.subrange(0, i + 1).last() == v@[i as int]);
                assert(r@ =~= insert_by_x(sort_by_x(pre), v@[i as int]));
            }
            i = i + 1;
        }
        proof {
            assert(v@.subrange(0, v@.len() as int) =~= v@);
        }
        r
    }

    /// The color index the background map gives for pixel `x`.
    fn bg_idx_exec(&self, x: usize) -> (r: u8)
        requires
            self@.wf(),
            x < 160,
        ensures
            r == bg_idx(self@, x as int),
            r < 4,
    {
        let y: usize = (self.ly as usize + self.scy as usize) % 256;
        let xx: usize = (x + self.scx as usize) % 256;
        let map_base: usize = if self.lcdc / 8 % 2 == 1 {
            0x1c00
        } else {
            0x1800
        };
        let ti = self.vram[map_base + (y / 8) * 32 + xx / 8];
        self.tile_pixel_at(ti, y % 8, (xx % 8) as u8)
    }

    /// The color index the window map gives for pixel `x`.
    fn win_idx_exec(&self, x: usize) -> (r: u8)
        requires
            self@.wf(),
            x < 160,
            win_active(self@, x as int),
        ensures
            r == win_idx(self@, x as int),
            r < 4,
    {
        let y: usize = self.ly as usize - self.wy as usize;
        let xx: usize = x + 7 - self.wx as usize;
        let map_base: usize = if self.lcdc / 64 % 2 == 1 {
            0x1c00
        } else {
            0x1800
        };
        let ti = self.vram[map_base + (y / 8) * 32 + xx / 8];
        self.tile_pixel_at(ti, y % 8, (xx % 8) as u8)
    }

    /// Fetch the pixel at `(yoff, xoff)` of background/window tile
    /// `ti` under the current addressing mode.
    fn tile_pixel_at(&self, ti: u8, yoff: usize, xoff: u8) -> (r: u8)
        requires
            self@.wf(),
            yoff < 8,
            xoff < 8,
        ensures
            r == tile_pixel_idx(
                self@.vram[tile_line_addr(tile_data_unsigned(self@.lcdc), ti, yoff as int)],
                self@.vram[tile_line_addr(tile_data_unsigned(self@.lcdc), ti, yoff as int) + 1],
                xoff,
            ),
            r < 4,
    {
        let addr: usize = if self.lcdc / 16 % 2 == 1 {
            ti as usize * 16 + yoff * 2
        } else {
            if ti < 128 {
                0x1000 + ti as usize * 16 + yoff * 2
            } else {
                0x1000 - (256 - ti as usize) * 16 + yoff * 2
            }
        };
        assert(addr == tile_line_addr(tile_data_unsigned(self@.lcdc), ti, yoff as int));
        tile_pixel(self.vram[addr], self.vram[addr + 1], xoff)
    }

    /// The winning sprite's color at pixel `x`, if any.
    fn sprite_lookup(&self, sprites: &Vec<SpriteOam>, x: usize, bg: u8) -> (r: Option<(u8, bool)>)
        requires
            self@.wf(),
            x < 160,
            forall|j: int|
                0 <= j < sprites@.len() ==> on_line(
                    #[trigger] sprites@[j],
                    self@.ly as int,
                    sprite_height(self@.lcdc),
                ),
        ensures
            r == first_sprite(self@, sprites@, x as int, bg, 0),
            r is Some ==> r.unwrap().0 < 4,
    {
        let mut i: usize = 0;
        while i < sprites.len()
            invariant
                i <= sprites@.len(),
                self@.wf(),
                x < 160,
                forall|j: int|
                    0 <= j < sprites@.len() ==> on_line(
                        #[trigger] sprites@[j],
                        self@.ly as int,
                        sprite_height(self@.lcdc),
                    ),
                first_sprite(self@, sprites@, x as int, bg, 0) == first_sprite(
                    self@,
                    sprites@,
                    x as int,
                    bg,
                    i as int,
                ),
            decreases sprites@.len() - i,
        {
            let s = sprites[i];
            if s.x as usize <= x + 8 && x + 8 < s.x as usize + 8 {
                let idx = self.sprite_pixel_exec(&s, x);
                if idx != 0 && (!s.behind_bg || bg == 0) {
                    return Some((idx, s.palette));
                }
            }
            i = i + 1;
        }
        None
    }

    /// The 2-bit color of sprite `s` at pixel `x` of the current line.
    fn sprite_pixel_exec(&self, s: &SpriteOam, x: usize) -> (r: u8)
        requires
            self@.wf(),
            x < 160,
            on_line(*s, self@.ly as int, sprite_height(self@.lcdc)),
            sprite_covers(*s, x as int),
        ensures
            r == sprite_pixel_idx(self@, *s, x as int),
            r < 4,
    {
        let big = self.lcdc / 4 % 2 == 1;
        let h: usize = if big {
            16
        } else {
            8
        };
        let yo0: usize = self.ly as usize + 16 - s.y as usize;
        let yo: usize = if s.y_flip {
            h - 1 - yo0
        } else {
            yo0
        };
        let tile: usize = if big {
            if yo < 8 {
                (s.tile - s.tile % 2) as usize
            } else {
                (s.tile - s.tile % 2 + 1) as usize
            }
        } else {
            s.tile as usize
        };
        let addr: usize = tile * 16 + (yo % 8) * 2;
        let xo0: usize = x + 8 - s.x as usize;
        let xo: u8 = if s.x_flip {
            7 - xo0 as u8
        } else {
            xo0 as u8
        };
        tile_pixel(self.vram[addr], self.vram[addr + 1], xo)
    }

    /// Render the scanline the PPU is on into the framebuffer.
    pub(crate) fn render_line(&mut self)
        requires
            old(self)@.wf(),
            old(self)@.ly < 144,
        ensures
            final(self)@ == (PpuView {
                fb: fb_with_row(old(self)@.fb, old(self)@.ly as int, line_spec(old(self)@)),
                ..old(self)@
            }),
            final(self)@.wf(),
    {
        let ghost v0 = self@;
        let unsorted = self.get_sprites_on_line();
        let sprites = self.sort_sprites(unsorted);
        proof {
            lemma_sort_members(
                select_sprites(v0, 40),
                v0.ly as int,
                sprite_height(v0.lcdc),
            );
            assert(sprites@ == line_sprites(v0));
        }
        let prio = self.lcdc % 2 == 1;
        let objs = self.lcdc / 2 % 2 == 1;
        let base: usize = self.ly as usize * 160;
        let mut row: Vec<Color> = Vec::new();
        let mut x: usize = 0;
        while x < 160
            invariant
                x <= 160,
                self@ == v0,
                v0.wf(),
                v0.ly < 144,
                prio == bg_win_priority(v0.lcdc),
                objs == obj_enabled(v0.lcdc),
                sprites@ == line_sprites(v0),
                forall|j: int|
                    0 <= j < sprites@.len() ==> on_line(
                        #[trigger] sprites@[j],
                        v0.ly as int,
                        sprite_height(v0.lcdc),
                    ),
                row@.len() == x,
                forall|i: int| 0 <= i < x ==> row@[i] == line_pixel(v0, sprites@, i),
            decreases 160 - x,
        {
            let bg: u8 = if prio {
                let wa = self.lcdc / 32 % 2 == 1 && self.ly >= self.wy && x + 7 >= self.wx as usize;
                if wa {
                    self.win_idx_exec(x)
                } else {
                    self.bg_idx_exec(x)
                }
            } else {
                0
            };
            let bg_col: Color = if prio {
                let sh = pal_shade_exec(self.bgp, bg);
                bw_palette(sh, bg)
            } else {
                bw_palette(0, 0)
            };
            let px: Color = if objs {
                match self.sprite_lookup(&sprites, x, bg) {
                    Some((idx, pal1)) => {
                        let p = if pal1 {
                            self.obp1
                        } else {
                            self.obp0
                        };
                        let sh = pal_shade_exec(p, idx);
                        bw_palette(sh, idx)
                    },
                    None => bg_col,
                }
            } else {
                bg_col
            };
            assert(px == line_pixel(v0, sprites@, x as int));
            row.push(px);
            x = x + 1;
        }
        let mut k: usize = 0;
        while k < 160
            invariant
                k <= 160,
                v0.wf(),
                v0.ly < 144,
                base == v0.ly * 160,
                row@.len() == 160,
                forall|i: int| 0 <= i < 160 ==> row@[i] == line_pixel(v0, sprites@, i),
                sprites@ == line_sprites(v0),
                self@ == (PpuView { fb: self@.fb, ..v0 }),
                self@.fb.len() == v0.fb.len(),
                forall|i: int|
                    0 <= i < v0.fb.len() && !(base <= i < base + k) ==> self@.fb[i] == v0.fb[i],
                forall|i: int| base <= i < base + k ==> self@.fb[i] == row@[i - base],
            decreases 160 - k,
        {
            self.fb.set(base + k, row[k]);
            k = k + 1;
        }
        proof {
            assert(self@.fb =~= fb_with_row(v0.fb, v0.ly as int, line_spec(v0)));
            assert(self@ =~= (PpuView {
                fb: fb_with_row(v0.fb, v0.ly as int, line_spec(v0)),
                ..v0
            }));
        }
    }
}

} // verus!
