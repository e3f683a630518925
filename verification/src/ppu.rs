use vstd::prelude::*;

use crate::render::{fb_with_row, line_spec};

verus! {

/// Screen width in pixels.
pub const WIDTH: usize = 160;

/// Screen height in pixels.
pub const HEIGHT: usize = 144;

/// One framebuffer pixel: the grey level it renders to and the 2-bit
/// palette index it came from.  The index is kept so sprite drawing
/// can honor "behind background" priority against background index 0.
#[derive(Clone, Copy, PartialEq, Eq, Structural, Debug)]
pub struct Color {
    pub r: u8,
    pub g: u8,
    pub b: u8,
    pub palette_index: u8,
}

impl Color {
    pub fn new(r: u8, g: u8, b: u8) -> (c: Color)
        ensures
            c == (Color { r, g, b, palette_index: 0 }),
    {
        Color { r, g, b, palette_index: 0 }
    }

    pub fn from_palette(r: u8, g: u8, b: u8, index: u8) -> (c: Color)
        ensures
            c == (Color { r, g, b, palette_index: index }),
    {
        Color { r, g, b, palette_index: index }
    }
}

/// The fixed four-entry grey ramp of the monochrome Game Boy, tagged
/// with the palette index the entry was chosen for.
pub open spec fn bw_palette_spec(entry: u8, index: u8) -> Color {
    let v: u8 = if entry == 3 {
        0
    } else if entry == 2 {
        50
    } else if entry == 1 {
        100
    } else {
        150
    };
    Color { r: v, g: v, b: v, palette_index: index }
}

/// The fixed grey ramp, as executable code.
pub fn bw_palette(entry: u8, index: u8) -> (c: Color)
    requires
        entry < 4,
    ensures
        c == bw_palette_spec(entry, index),
{
    if entry == 3 {
        Color::from_palette(0, 0, 0, index)
    } else if entry == 2 {
        Color::from_palette(50, 50, 50, index)
    } else if entry == 1 {
        Color::from_palette(100, 100, 100, index)
    } else {
        Color::from_palette(150, 150, 150, index)
    }
}

/// The four PPU modes of the STAT register.
#[derive(Clone, Copy, PartialEq, Eq, Structural, Debug)]
pub enum Mode {
    HBlank,
    VBlank,
    OamScan,
    Rendering,
}

/// The pixel processing unit: registers, VRAM, OAM and the back
/// framebuffer.  Its mode is derived from the line and dot counters:
/// OAM scan for the first 80 dots of a visible line, rendering for the
/// next 172, horizontal blank for the remaining 204, and vertical
/// blank for lines 144 to 153.
pub struct Ppu {
    pub lcdc: u8,
    pub scx: u8,
    pub scy: u8,
    pub wx: u8,
    pub wy: u8,
    pub ly: u8,
    pub lyc: u8,
    pub bgp: u8,
    pub obp0: u8,
    pub obp1: u8,
    pub int_hblank: bool,
    pub int_vblank: bool,
    pub int_oam: bool,
    pub int_lyc: bool,
    /// Dot counter within the current line, 0 to 455.
    pub dot: u16,
    pub vram: Vec<u8>,
    pub oam: Vec<u8>,
    pub fb: Vec<Color>,
}

/// The mathematical model of the PPU.
#[verifier::ext_equal]
pub struct PpuView {
    pub lcdc: u8,
    pub scx: u8,
    pub scy: u8,
    pub wx: u8,
    pub wy: u8,
    pub ly: u8,
    pub lyc: u8,
    pub bgp: u8,
    pub obp0: u8,
    pub obp1: u8,
    pub int_hblank: bool,
    pub int_vblank: bool,
    pub int_oam: bool,
    pub int_lyc: bool,
    pub dot: u16,
    pub vram: Seq<u8>,
    pub oam: Seq<u8>,
    pub fb: Seq<Color>,
}

impl View for Ppu {
    type V = PpuView;

    open spec fn view(&self) -> PpuView {
        PpuView {
            lcdc: self.lcdc,
            scx: self.scx,
            scy: self.scy,
            wx: self.wx,
            wy: self.wy,
            ly: self.ly,
            lyc: self.lyc,
            bgp: self.bgp,
            obp0: self.obp0,
            obp1: self.obp1,
            int_hblank: self.int_hblank,
            int_vblank: self.int_vblank,
            int_oam: self.int_oam,
            int_lyc: self.int_lyc,
            dot: self.dot,
            vram: self.vram@,
            oam: self.oam@,
            fb: self.fb@,
        }
    }
}

// The LCDC control bits.
pub open spec fn lcd_on(lcdc: u8) -> bool {
    lcdc / 128 % 2 == 1
}

pub open spec fn win_map_high(lcdc: u8) -> bool {
    lcdc / 64 % 2 == 1
}

pub open spec fn win_enabled(lcdc: u8) -> bool {
    lcdc / 32 % 2 == 1
}

pub open spec fn tile_data_unsigned(lcdc: u8) -> bool {
    lcdc / 16 % 2 == 1
}

pub open spec fn bg_map_high(lcdc: u8) -> bool {
    lcdc / 8 % 2 == 1
}

pub open spec fn obj_big(lcdc: u8) -> bool {
    lcdc / 4 % 2 == 1
}

pub open spec fn obj_enabled(lcdc: u8) -> bool {
    lcdc / 2 % 2 == 1
}

pub open spec fn bg_win_priority(lcdc: u8) -> bool {
    lcdc % 2 == 1
}

/// The mode the line and dot counters place the PPU in.
pub open spec fn mode_of(ly: u8, dot: u16) -> Mode {
    if ly >= 144 {
        Mode::VBlank
    } else if dot < 80 {
        Mode::OamScan
    } else if dot < 252 {
        Mode::Rendering
    } else {
        Mode::HBlank
    }
}

/// The two mode bits of STAT.
pub open spec fn mode_bits(m: Mode) -> u8 {
    match m {
        Mode::HBlank => 0,
        Mode::VBlank => 1,
        Mode::OamScan => 2,
        Mode::Rendering => 3,
    }
}

impl PpuView {
    pub open spec fn wf(self) -> bool {
        &&& self.vram.len() == 0x2000
        &&& self.oam.len() == 0xa0
        &&& self.fb.len() == 160 * 144
        &&& self.ly <= 153
        &&& self.dot < 456
    }

    /// The byte this unit holds for a bus address in 8000-9FFF or
    /// FE00-FE9F.
    pub open spec fn mem_read_spec(self, addr: u16) -> u8 {
        if addr < 0xa000 {
            self.vram[addr - 0x8000]
        } else {
            self.oam[addr - 0xfe00]
        }
    }

    /// The unit after a write to such an address.
    pub open spec fn mem_write_spec(self, addr: u16, val: u8) -> PpuView {
        if addr < 0xa000 {
            PpuView { vram: self.vram.update(addr - 0x8000, val), ..self }
        } else {
            PpuView { oam: self.oam.update(addr - 0xfe00, val), ..self }
        }
    }
}

/// One T-cycle of the PPU: the advanced state, whether the VBLANK
/// edge was crossed, and whether a STAT interrupt fired.  At dot 252
/// of a visible line the scanline is rendered and HBLANK begins
/// (STAT source 0); at dot 456 the line ends, and the new line checks
/// the LY=LYC source; entering a visible line checks the OAM source;
/// entering line 144 raises the VBLANK edge and checks the mode-1
/// STAT source.
#[verifier::opaque]
pub open spec fn ppu_step(v: PpuView) -> (PpuView, bool, bool) {
    if !lcd_on(v.lcdc) {
        (v, false, false)
    } else {
        let dot2 = (v.dot + 1) as u16;
        if dot2 == 252 && v.ly < 144 {
            let v2 = PpuView { dot: dot2, fb: fb_with_row(v.fb, v.ly as int, line_spec(v)), ..v };
            (v2, false, v.int_hblank)
        } else if dot2 == 456 {
            let ly2: u8 = if v.ly == 153 {
                0
            } else {
                (v.ly + 1) as u8
            };
            let v2 = PpuView { dot: 0, ly: ly2, ..v };
            let lyc_hit = v.int_lyc && ly2 == v.lyc;
            if ly2 == 144 {
                (v2, true, v.int_vblank || lyc_hit)
            } else if ly2 < 144 {
                (v2, false, v.int_oam || lyc_hit)
            } else {
                (v2, false, lyc_hit)
            }
        } else {
            (PpuView { dot: dot2, ..v }, false, false)
        }
    }
}

/// `n` T-cycles of the PPU; the booleans say whether any of them
/// raised the VBLANK edge and whether any raised a STAT interrupt.
#[verifier::opaque]
pub open spec fn ppu_run(v: PpuView, n: nat) -> (PpuView, bool, bool)
    decreases n,
{
    if n == 0 {
        (v, false, false)
    } else {
        let prev = ppu_run(v, (n - 1) as nat);
        let last = ppu_step(prev.0);
        (last.0, prev.1 || last.1, prev.2 || last.2)
    }
}

impl Ppu {
    /// A PPU at power-on: LCD enabled, all counters clear, the
    /// framebuffer filled with the lightest shade.
    pub fn new() -> (r: Ppu)
        ensures
            r@.wf(),
            r@.lcdc == 0x80,
            r@.ly == 0 && r@.dot == 0,
            r@.scx == 0 && r@.scy == 0 && r@.wx == 0 && r@.wy == 0 && r@.lyc == 0,
            r@.bgp == 0xe4 && r@.obp0 == 0xe4 && r@.obp1 == 0xe4,
            !r@.int_hblank && !r@.int_vblank && !r@.int_oam && !r@.int_lyc,
            forall|i: int| 0 <= i < 0x2000 ==> r@.vram[i] == 0,
            forall|i: int| 0 <= i < 0xa0 ==> r@.oam[i] == 0,
    {
        let mut vram: Vec<u8> = Vec::new();
        vram.resize(0x2000, 0u8);
        let mut oam: Vec<u8> = Vec::new();
        oam.resize(0xa0, 0u8);
        let mut fb: Vec<Color> = Vec::new();
        fb.resize(160 * 144, Color { r: 150, g: 150, b: 150, palette_index: 0 });
        Ppu {
            lcdc: 0x80,
            scx: 0,
            scy: 0,
            wx: 0,
            wy: 0,
            ly: 0,
            lyc: 0,
            bgp: 0xe4,
            obp0: 0xe4,
            obp1: 0xe4,
            int_hblank: false,
            int_vblank: false,
            int_oam: false,
            int_lyc: false,
            dot: 0,
            vram,
            oam,
            fb,
        }
    }

    /// Serve a bus read of VRAM or OAM.
    pub fn read(&self, addr: u16) -> (r: u8)
        requires
            self@.wf(),
            (0x8000 <= addr < 0xa000) || (0xfe00 <= addr < 0xfea0),
        ensures
            r == self@.mem_read_spec(addr),
    {
        if addr < 0xa000 {
            self.vram[(addr - 0x8000) as usize]
        } else {
            self.oam[(addr - 0xfe00) as usize]
        }
    }

    /// Serve a bus write to VRAM or OAM.
    pub fn write(&mut self, addr: u16, val: u8)
        requires
            old(self)@.wf(),
            (0x8000 <= addr < 0xa000) || (0xfe00 <= addr < 0xfea0),
        ensures
            final(self)@ == old(self)@.mem_write_spec(addr, val),
            final(self)@.wf(),
    {
        if addr < 0xa000 {
            self.vram.set((addr - 0x8000) as usize, val);
        } else {
            self.oam.set((addr - 0xfe00) as usize, val);
        }
        proof {
            assert(self@ =~= old(self)@.mem_write_spec(addr, val));
        }
    }

    pub fn get_bgp(&self) -> (r: u8)
        ensures
            r == self@.bgp,
    {
        self.bgp
    }

    pub fn set_bgp(&mut self, v: u8)
        ensures
            final(self)@ == (PpuView { bgp: v, ..old(self)@ }),
    {
        self.bgp = v;
        proof {
            assert(self@ =~= (PpuView { bgp: v, ..old(self)@ }));
        }
    }

    pub fn get_obp0(&self) -> (r: u8)
        ensures
            r == self@.obp0,
    {
        self.obp0
    }

    pub fn set_obp0(&mut self, v: u8)
        ensures
            final(self)@ == (PpuView { obp0: v, ..old(self)@ }),
    {
        self.obp0 = v;
        proof {
            assert(self@ =~= (PpuView { obp0: v, ..old(self)@ }));
        }
    }

    pub fn get_obp1(&self) -> (r: u8)
        ensures
            r == self@.obp1,
    {
        self.obp1
    }

    pub fn set_obp1(&mut self, v: u8)
        ensures
            final(self)@ == (PpuView { obp1: v, ..old(self)@ }),
    {
        self.obp1 = v;
        proof {
            assert(self@ =~= (PpuView { obp1: v, ..old(self)@ }));
        }
    }

    pub fn get_wx(&self) -> (r: u8)
        ensures
            r == self@.wx,
    {
        self.wx
    }

    pub fn set_wx(&mut self, v: u8)
        ensures
            final(self)@ == (PpuView { wx: v, ..old(self)@ }),
    {
        self.wx = v;
        proof {
            assert(self@ =~= (PpuView { wx: v, ..old(self)@ }));
        }
    }

    pub fn get_wy(&self) -> (r: u8)
        ensures
            r == self@.wy,
    {
        self.wy
    }

    pub fn set_wy(&mut self, v: u8)
        ensures
            final(self)@ == (PpuView { wy: v, ..old(self)@ }),
    {
        self.wy = v;
        proof {
            assert(self@ =~= (PpuView { wy: v, ..old(self)@ }));
        }
    }

    pub fn get_scy(&self) -> (r: u8)
        ensures
            r == self@.scy,
    {
        self.scy
    }

    pub fn set_scy(&mut self, v: u8)
        ensures
            final(self)@ == (PpuView { scy: v, ..old(self)@ }),
    {
        self.scy = v;
        proof {
            assert(self@ =~= (PpuView { scy: v, ..old(self)@ }));
        }
    }

    pub fn get_scx(&self) -> (r: u8)
        ensures
            r == self@.scx,
    {
        self.scx
    }

    pub fn set_scx(&mut self, v: u8)
        ensures
            final(self)@ == (PpuView { scx: v, ..old(self)@ }),
    {
        self.scx = v;
        proof {
            assert(self@ =~= (PpuView { scx: v, ..old(self)@ }));
        }
    }

    pub fn get_ly(&self) -> (r: u8)
        ensures
            r == self@.ly,
    {
        self.ly
    }

    /// LY is read-only for the guest; writes are ignored.
    pub fn set_ly(&mut self, _v: u8)
        ensures
            *final(self) == *old(self),
    {
    }

    pub fn get_lyc(&self) -> (r: u8)
        ensures
            r == self@.lyc,
    {
        self.lyc
    }

    pub fn set_lyc(&mut self, v: u8)
        ensures
            final(self)@ == (PpuView { lyc: v, ..old(self)@ }),
    {
        self.lyc = v;
        proof {
            assert(self@ =~= (PpuView { lyc: v, ..old(self)@ }));
        }
    }

    pub fn get_lcdc(&self) -> (r: u8)
        ensures
            r == self@.lcdc,
    {
        self.lcdc
    }

    /// Store LCDC.  When bit 7 turns the LCD from off to on, the line
    /// and dot counters restart at the top of the frame.
    pub fn set_lcdc(&mut self, v: u8)
        ensures
            final(self)@ == (PpuView {
                lcdc: v,
                ly: if lcd_on(v) && !lcd_on(old(self)@.lcdc) { 0 } else { old(self)@.ly },
                dot: if lcd_on(v) && !lcd_on(old(self)@.lcdc) { 0 } else { old(self)@.dot },
                ..old(self)@
            }),
            old(self)@.wf() ==> final(self)@.wf(),
    {
        if v / 128 % 2 == 1 && !(self.lcdc / 128 % 2 == 1) {
            self.ly = 0;
            self.dot = 0;
        }
        self.lcdc = v;
        proof {
            assert(self@ =~= (PpuView {
                lcdc: v,
                ly: if lcd_on(v) && !lcd_on(old(self)@.lcdc) { 0 } else { old(self)@.ly },
                dot: if lcd_on(v) && !lcd_on(old(self)@.lcdc) { 0 } else { old(self)@.dot },
                ..old(self)@
            }));
        }
    }

    /// What a read of STAT (FF41) returns.
    pub fn get_lcds(&self) -> (r: u8)
        ensures
            r == stat_spec(self@),
    {
        let m = if self.ly >= 144 {
            1
        } else if self.dot < 80 {
            2
        } else if self.dot < 252 {
            3
        } else {
            0
        };
        let mut r: u8 = m;
        if self.ly == self.lyc {
            r = r + 4;
        }
        if self.int_hblank {
            r = r + 8;
        }
        if self.int_vblank {
            r = r + 16;
        }
        if self.int_oam {
            r = r + 32;
        }
        if self.int_lyc {
            r = r + 64;
        }
        r
    }

    /// A write to STAT (FF41) sets the four interrupt-enable bits;
    /// the mode and coincidence bits are read-only.
    pub fn set_lcds(&mut self, v: u8)
        ensures
            final(self)@ == (PpuView {
                int_hblank: v / 8 % 2 == 1,
                int_vblank: v / 16 % 2 == 1,
                int_oam: v / 32 % 2 == 1,
                int_lyc: v / 64 % 2 == 1,
                ..old(self)@
            }),
    {
        self.int_hblank = v / 8 % 2 == 1;
        self.int_vblank = v / 16 % 2 == 1;
        self.int_oam = v / 32 % 2 == 1;
        self.int_lyc = v / 64 % 2 == 1;
        proof {
            assert(self@ =~= (PpuView {
                int_hblank: v / 8 % 2 == 1,
                int_vblank: v / 16 % 2 == 1,
                int_oam: v / 32 % 2 == 1,
                int_lyc: v / 64 % 2 == 1,
                ..old(self)@
            }));
        }
    }

    /// Advance the PPU by `n` T-cycles.  Returns whether the VBLANK
    /// edge was crossed and whether a STAT interrupt fired.
    pub fn tick(&mut self, n: u32) -> (r: (bool, bool))
        requires
            old(self)@.wf(),
        ensures
            (final(self)@, r.0, r.1) == ppu_run(old(self)@, n as nat),
            final(self)@.wf(),
    {
        proof {
            reveal(ppu_run);
        }
        let mut vb: bool = false;
        let mut st: bool = false;
        let mut i: u32 = 0;
        while i < n
            invariant
                i <= n,
                (self@, vb, st) == ppu_run(old(self)@, i as nat),
                self@.wf(),
            decreases n - i,
        {
            proof {
                reveal(ppu_run);
            }
            let (v1, s1) = self.tick_one();
            vb = vb || v1;
            st = st || s1;
            i = i + 1;
        }
        (vb, st)
    }

    /// One T-cycle of the PPU.
    fn tick_one(&mut self) -> (r: (bool, bool))
        requires
            old(self)@.wf(),
        ensures
            (final(self)@, r.0, r.1) == ppu_step(old(self)@),
            final(self)@.wf(),
    {
        proof {
            reveal(ppu_step);
        }
        if self.lcdc / 128 % 2 != 1 {
            return (false, false);
        }
        let dot2: u16 = self.dot + 1;
        if dot2 == 252 && self.ly < 144 {
            self.render_line();
            self.dot = dot2;
            proof {
                assert(self@ =~= ppu_step(old(self)@).0);
            }
            (false, self.int_hblank)
        } else if dot2 == 456 {
            let ly2: u8 = if self.ly == 153 {
                0
            } else {
                self.ly + 1
            };
            self.dot = 0;
            self.ly = ly2;
            proof {
                assert(self@ =~= ppu_step(old(self)@).0);
            }
            let lyc_hit = self.int_lyc && ly2 == self.lyc;
            if ly2 == 144 {
                (true, self.int_vblank || lyc_hit)
            } else if ly2 < 144 {
                (false, self.int_oam || lyc_hit)
            } else {
                (false, lyc_hit)
            }
        } else {
            self.dot = dot2;
            proof {
                assert(self@ =~= ppu_step(old(self)@).0);
            }
            (false, false)
        }
    }

    /// Copy the framebuffer into an RGB24 byte block, row-major with
    /// no padding.
    pub fn render(&self, target: &mut Vec<u8>)
        requires
            self@.wf(),
            old(target)@.len() == 160 * 144 * 3,
        ensures
            final(target)@.len() == 160 * 144 * 3,
            forall|i: int|
                0 <= i < 160 * 144 ==> final(target)@[3 * i] == self@.fb[i].r && final(target)@[3
                    * i + 1] == self@.fb[i].g && final(target)@[3 * i + 2] == self@.fb[i].b,
    {
        let mut i: usize = 0;
        while i < 160 * 144
            invariant
                i <= 160 * 144,
                self@.wf(),
                target@.len() == 160 * 144 * 3,
                forall|j: int|
                    0 <= j < i ==> target@[3 * j] == self@.fb[j].r && target@[3 * j + 1]
                        == self@.fb[j].g && target@[3 * j + 2] == self@.fb[j].b,
            decreases 160 * 144 - i,
        {
            let c = self.fb[i];
            target.set(3 * i, c.r);
            target.set(3 * i + 1, c.g);
            target.set(3 * i + 2, c.b);
            i = i + 1;
        }
    }
}

/// Where the canonical frame path stands after `n` dots from the top
/// of a frame: OAM scan for the first 80 dots of each of the 144
/// visible lines, rendering for the next 172, horizontal blank for
/// the remaining 204, and vertical blank from dot 65664 on.
pub open spec fn frame_mode(n: nat) -> Mode {
    if n >= 65664 {
        Mode::VBlank
    } else if n % 456 < 80 {
        Mode::OamScan
    } else if n % 456 < 252 {
        Mode::Rendering
    } else {
        Mode::HBlank
    }
}

/// One full frame of the PPU state machine.  From the top of a frame
/// the mode sequence is exactly 144 repetitions of OAM scan (80
/// dots), rendering (172) and horizontal blank (204), followed by ten
/// 456-dot lines of vertical blank; after 70224 dots the counters are
/// back at the top, and the VBLANK edge is raised exactly when dot
/// 65664 - the start of line 144 - is reached.
pub proof fn lemma_frame_mode_sequence(v: PpuView, n: nat)
    requires
        lcd_on(v.lcdc),
        v.ly == 0,
        v.dot == 0,
        n <= 70224,
    ensures
        ({
            let r = ppu_run(v, n);
            &&& r.0.lcdc == v.lcdc
            &&& (n < 70224 ==> r.0.ly == n / 456 && r.0.dot == n % 456 && mode_of(r.0.ly, r.0.dot)
                == frame_mode(n))
            &&& (n == 70224 ==> r.0.ly == 0 && r.0.dot == 0)
            &&& (r.1 <==> n >= 65664)
        }),
    decreases n,
{
    reveal(ppu_step);
    reveal(ppu_run);
    if n > 0 {
        let m = (n - 1) as nat;
        lemma_frame_mode_sequence(v, m);
        let s = ppu_run(v, m).0;
        assert(456 * (m / 456) + m % 456 == m) by (nonlinear_arith);
        assert(456 * (n / 456) + n % 456 == n) by (nonlinear_arith);
        if m % 456 == 455 {
            assert(n % 456 == 0 && n / 456 == m / 456 + 1) by (nonlinear_arith)
                requires
                    m % 456 == 455,
                    n == m + 1,
            ;
        } else {
            assert(n % 456 == m % 456 + 1 && n / 456 == m / 456) by (nonlinear_arith)
                requires
                    m % 456 < 455,
                    n == m + 1,
            ;
        }
    }
}

/// What a read of STAT returns: the interrupt enables, the LY=LYC
/// coincidence bit, and the mode bits.
pub open spec fn stat_spec(v: PpuView) -> u8 {
    (mode_bits(mode_of(v.ly, v.dot)) + (if v.ly == v.lyc { 4int } else { 0 }) + (if v.int_hblank {
        8int
    } else {
        0
    }) + (if v.int_vblank { 16int } else { 0 }) + (if v.int_oam { 32int } else { 0 })
        + (if v.int_lyc { 64int } else { 0 })) as u8
}

} // verus!
