use vstd::prelude::*;

use crate::cartridge::{CartView, Cartridge};
use crate::joypad::{joypad_read_spec, Joypad};
use crate::ppu::{Ppu, PpuView};
use crate::ram::{Ram, RamView};
use crate::sound::{sound_read_spec, sound_wf, sound_write_spec, Sound, SoundView};
use crate::timer::Timer;

verus! {

/// Interrupt flag bits of IE (FFFF) and IF (FF0F).
pub const VBLANK: u8 = 0x01;

pub const LCD_STAT: u8 = 0x02;

pub const TIMER: u8 = 0x04;

pub const SERIAL: u8 = 0x08;

pub const JOYPAD: u8 = 0x10;

/// The memory bus: it owns every addressable component and routes
/// guest reads and writes by address.
pub struct Bus {
    pub cartridge: Cartridge,
    pub ppu: Ppu,
    pub timer: Timer,
    pub joypad: Joypad,
    pub sound: Sound,
    pub ram: Ram,
    /// IE (FFFF).
    pub enabled_interrupts: u8,
    /// IF (FF0F), kept masked to its five interrupt bits.
    pub requested_interrupts: u8,
}

/// The mathematical model of the bus.
#[verifier::ext_equal]
pub struct BusView {
    pub cartridge: CartView,
    pub ppu: PpuView,
    pub timer: Timer,
    pub joypad: Joypad,
    pub sound: SoundView,
    pub ram: RamView,
    pub enabled_interrupts: u8,
    pub requested_interrupts: u8,
}

impl View for Bus {
    type V = BusView;

    open spec fn view(&self) -> BusView {
        BusView {
            cartridge: self.cartridge@,
            ppu: self.ppu@,
            timer: self.timer,
            joypad: self.joypad,
            sound: self.sound@,
            ram: self.ram@,
            enabled_interrupts: self.enabled_interrupts,
            requested_interrupts: self.requested_interrupts,
        }
    }
}

impl BusView {
    pub open spec fn wf(self) -> bool {
        &&& self.cartridge.wf()
        &&& self.ppu.wf()
        &&& self.ram.wf()
        &&& sound_wf(self.sound)
        &&& self.requested_interrupts < 32
    }

    /// What a guest read of any address returns.  Stubbed and
    /// CGB-only locations read 0.  An address outside the decode
    /// table is treated the same way: this library's functions do not
    /// panic, so the "terminate on a truly unmapped access" policy a
    /// host may want is left to the host, which can decode addresses
    /// itself before forwarding.
    #[verifier::opaque]
    pub open spec fn read_spec(self, addr: u16) -> u8 {
        if addr < 0x8000 {
            self.cartridge.read_spec(addr)
        } else if addr < 0xa000 {
            self.ppu.mem_read_spec(addr)
        } else if addr < 0xc000 {
            self.cartridge.read_spec(addr)
        } else if addr < 0xe000 {
            self.ram.read_spec(addr)
        } else if addr < 0xfe00 {
            self.ram.read_spec((addr - 0x2000) as u16)
        } else if addr < 0xfea0 {
            self.ppu.mem_read_spec(addr)
        } else if addr <= 0xfeff {
            0
        } else if 0xff80 <= addr && addr <= 0xfffe {
            self.ram.read_spec(addr)
        } else if addr == 0xff00 {
            joypad_read_spec(self.joypad)
        } else if addr == 0xff04 {
            (self.timer.sys / 256) as u8
        } else if addr == 0xff05 {
            self.timer.tima
        } else if addr == 0xff06 {
            self.timer.tma
        } else if addr == 0xff07 {
            self.timer.tac
        } else if addr == 0xff0f {
            self.requested_interrupts
        } else if 0xff10 <= addr && addr <= 0xff3f {
            sound_read_spec(self.sound, addr)
        } else if addr == 0xff40 {
            self.ppu.lcdc
        } else if addr == 0xff41 {
            crate::ppu::stat_spec(self.ppu)
        } else if addr == 0xff42 {
            self.ppu.scy
        } else if addr == 0xff43 {
            self.ppu.scx
        } else if addr == 0xff44 {
            self.ppu.ly
        } else if addr == 0xff45 {
            self.ppu.lyc
        } else if addr == 0xff47 {
            self.ppu.bgp
        } else if addr == 0xff48 {
            self.ppu.obp0
        } else if addr == 0xff49 {
            self.ppu.obp1
        } else if addr == 0xff4a {
            self.ppu.wy
        } else if addr == 0xff4b {
            self.ppu.wx
        } else if addr == 0xffff {
            self.enabled_interrupts
        } else {
            0
        }
    }

    /// The OAM contents after a DMA transfer from page `val`.
    #[verifier::opaque]
    pub open spec fn dma_oam(self, val: u8) -> Seq<u8> {
        Seq::new(0xa0, |i: int| self.read_spec((val * 256 + i) as u16))
    }

    /// The bus after a guest write to an IO or control address
    /// (FF00-FFFF outside HRAM).  Writes to stubbed locations are
    /// ignored.
    #[verifier::opaque]
    pub open spec fn io_write_spec(self, addr: u16, val: u8) -> BusView {
        if addr == 0xff00 {
            BusView {
                joypad: Joypad {
                    show_directions: val / 16 % 2 == 0,
                    show_actions: val / 32 % 2 == 0,
                    ..self.joypad
                },
                ..self
            }
        } else if addr == 0xff04 {
            BusView { timer: Timer { sys: 0, ..self.timer }, ..self }
        } else if addr == 0xff05 {
            BusView { timer: Timer { tima: val, ..self.timer }, ..self }
        } else if addr == 0xff06 {
            BusView { timer: Timer { tma: val, ..self.timer }, ..self }
        } else if addr == 0xff07 {
            BusView { timer: Timer { tac: (val % 8) as u8, ..self.timer }, ..self }
        } else if addr == 0xff0f {
            BusView { requested_interrupts: (val % 32) as u8, ..self }
        } else if 0xff10 <= addr && addr <= 0xff3f {
            BusView { sound: sound_write_spec(self.sound, addr, val), ..self }
        } else if addr == 0xff40 {
            BusView {
                ppu: PpuView {
                    lcdc: val,
                    ly: if crate::ppu::lcd_on(val) && !crate::ppu::lcd_on(self.ppu.lcdc) {
                        0
                    } else {
                        self.ppu.ly
                    },
                    dot: if crate::ppu::lcd_on(val) && !crate::ppu::lcd_on(self.ppu.lcdc) {
                        0
                    } else {
                        self.ppu.dot
                    },
                    ..self.ppu
                },
                ..self
            }
        } else if addr == 0xff41 {
            BusView {
                ppu: PpuView {
                    int_hblank: val / 8 % 2 == 1,
                    int_vblank: val / 16 % 2 == 1,
                    int_oam: val / 32 % 2 == 1,
                    int_lyc: val / 64 % 2 == 1,
                    ..self.ppu
                },
                ..self
            }
        } else if addr == 0xff42 {
            BusView { ppu: PpuView { scy: val, ..self.ppu }, ..self }
        } else if addr == 0xff43 {
            BusView { ppu: PpuView { scx: val, ..self.ppu }, ..self }
        } else if addr == 0xff45 {
            BusView { ppu: PpuView { lyc: val, ..self.ppu }, ..self }
        } else if addr == 0xff46 {
            BusView { ppu: PpuView { oam: self.dma_oam(val), ..self.ppu }, ..self }
        } else if addr == 0xff47 {
            BusView { ppu: PpuView { bgp: val, ..self.ppu }, ..self }
        } else if addr == 0xff48 {
            BusView { ppu: PpuView { obp0: val, ..self.ppu }, ..self }
        } else if addr == 0xff49 {
            BusView { ppu: PpuView { obp1: val, ..self.ppu }, ..self }
        } else if addr == 0xff4a {
            BusView { ppu: PpuView { wy: val, ..self.ppu }, ..self }
        } else if addr == 0xff4b {
            BusView { ppu: PpuView { wx: val, ..self.ppu }, ..self }
        } else if addr == 0xffff {
            BusView { enabled_interrupts: val, ..self }
        } else {
            self
        }
    }

    /// The bus after a guest write to any address.
    #[verifier::opaque]
    pub open spec fn write_spec(self, addr: u16, val: u8) -> BusView {
        if addr < 0x8000 {
            BusView { cartridge: self.cartridge.write_spec(addr, val), ..self }
        } else if addr < 0xa000 {
            BusView { ppu: self.ppu.mem_write_spec(addr, val), ..self }
        } else if addr < 0xc000 {
            BusView { cartridge: self.cartridge.write_spec(addr, val), ..self }
        } else if addr < 0xe000 {
            BusView { ram: self.ram.write_spec(addr, val), ..self }
        } else if addr < 0xfe00 {
            BusView { ram: self.ram.write_spec((addr - 0x2000) as u16, val), ..self }
        } else if addr < 0xfea0 {
            BusView { ppu: self.ppu.mem_write_spec(addr, val), ..self }
        } else if addr <= 0xfeff {
            self
        } else if 0xff80 <= addr && addr <= 0xfffe {
            BusView { ram: self.ram.write_spec(addr, val), ..self }
        } else {
            self.io_write_spec(addr, val)
        }
    }

    /// A 16-bit read: low byte first, wrapping at the address-space
    /// end.
    pub open spec fn read16_spec(self, addr: u16) -> u16 {
        (self.read_spec(addr) + self.read_spec(((addr + 1) % 0x10000) as u16) * 256) as u16
    }

    /// A 16-bit write: two byte writes, low byte first.
    pub open spec fn write16_spec(self, addr: u16, val: u16) -> BusView {
        self.write_spec(addr, (val % 256) as u8).write_spec(
            ((addr + 1) % 0x10000) as u16,
            (val / 256) as u8,
        )
    }
}

impl Bus {
    /// A bus over a loaded cartridge, with every other component at
    /// its power-on state.
    pub fn new(cartridge: Cartridge) -> (r: Bus)
        requires
            cartridge@.wf(),
        ensures
            r@.wf(),
            r@.cartridge == cartridge@,
            r@.enabled_interrupts == 0,
            r@.requested_interrupts == 0,
            r@.timer == (Timer { sys: 0, tima: 0, tma: 0, tac: 0 }),
    {
        Bus {
            cartridge,
            ppu: Ppu::new(),
            timer: Timer::new(),
            joypad: Joypad::new(),
            sound: Sound::new(),
            ram: Ram::new(),
            enabled_interrupts: 0,
            requested_interrupts: 0,
        }
    }

    /// Serve a guest read of any address.
    pub fn read(&self, addr: u16) -> (r: u8)
        requires
            self@.wf(),
        ensures
            r == self@.read_spec(addr),
    {
        proof {
            reveal(BusView::read_spec);
        }
        if addr < 0x8000 {
            self.cartridge.read(addr)
        } else if addr < 0xa000 {
            self.ppu.read(addr)
        } else if addr < 0xc000 {
            self.cartridge.read(addr)
        } else if addr < 0xe000 {
            self.ram.read(addr)
        } else if addr < 0xfe00 {
            self.ram.read(addr - 0x2000)
        } else if addr < 0xfea0 {
            self.ppu.read(addr)
        } else if addr <= 0xfeff {
            0
        } else if 0xff80 <= addr && addr <= 0xfffe {
            self.ram.read(addr)
        } else if addr == 0xff00 {
            self.joypad.read()
        } else if addr == 0xff04 {
            self.timer.get_div()
        } else if addr == 0xff05 {
            self.timer.get_tima()
        } else if addr == 0xff06 {
            self.timer.get_tma()
        } else if addr == 0xff07 {
            self.timer.get_tac()
        } else if addr == 0xff0f {
            self.requested_interrupts
        } else if 0xff10 <= addr && addr <= 0xff3f {
            self.sound.read(addr)
        } else if addr == 0xff40 {
            self.ppu.get_lcdc()
        } else if addr == 0xff41 {
            self.ppu.get_lcds()
        } else if addr == 0xff42 {
            self.ppu.get_scy()
        } else if addr == 0xff43 {
            self.ppu.get_scx()
        } else if addr == 0xff44 {
            self.ppu.get_ly()
        } else if addr == 0xff45 {
            self.ppu.get_lyc()
        } else if addr == 0xff47 {
            self.ppu.get_bgp()
        } else if addr == 0xff48 {
            self.ppu.get_obp0()
        } else if addr == 0xff49 {
            self.ppu.get_obp1()
        } else if addr == 0xff4a {
            self.ppu.get_wy()
        } else if addr == 0xff4b {
            self.ppu.get_wx()
        } else if addr == 0xffff {
            self.enabled_interrupts
        } else {
            0
        }
    }

    /// Serve a guest write to any address.
    pub fn write(&mut self, addr: u16, val: u8)
        requires
            old(self)@.wf(),
        ensures
            final(self)@ == old(self)@.write_spec(addr, val),
            final(self)@.wf(),
    {
        proof {
            reveal(BusView::write_spec);
        }
        if addr < 0x8000 {
            self.cartridge.write(addr, val);
            proof {
                assert(self@ =~= old(self)@.write_spec(addr, val));
            }
        } else if addr < 0xa000 {
            self.ppu.write(addr, val);
            proof {
                assert(self@ =~= old(self)@.write_spec(addr, val));
            }
        } else if addr < 0xc000 {
            self.cartridge.write(addr, val);
            proof {
                assert(self@ =~= old(self)@.write_spec(addr, val));
            }
        } else if addr < 0xe000 {
            self.ram.write(addr, val);
            proof {
                assert(self@ =~= old(self)@.write_spec(addr, val));
            }
        } else if addr < 0xfe00 {
            self.ram.write(addr - 0x2000, val);
            proof {
                assert(self@ =~= old(self)@.write_spec(addr, val));
            }
        } else if addr < 0xfea0 {
            self.ppu.write(addr, val);
            proof {
                assert(self@ =~= old(self)@.write_spec(addr, val));
            }
        } else if addr <= 0xfeff {
            proof {
                assert(self@ =~= old(self)@.write_spec(addr, val));
            }
        } else if 0xff80 <= addr && addr <= 0xfffe {
            self.ram.write(addr, val);
            proof {
                assert(self@ =~= old(self)@.write_spec(addr, val));
            }
        } else {
            self.io_write(addr, val);
            proof {
                assert(self@ =~= old(self)@.write_spec(addr, val));
            }
        }
    }

    /// Serve a guest write to an IO or control address.
    #[verifier::rlimit(100)]
    #[verifier::spinoff_prover]
    fn io_write(&mut self, addr: u16, val: u8)
        requires
            old(self)@.wf(),
            0xff00 <= addr,
            !(0xff80 <= addr && addr <= 0xfffe),
        ensures
            final(self)@ == old(self)@.io_write_spec(addr, val),
            final(self)@.wf(),
    {
        proof {
            reveal(BusView::io_write_spec);
        }
        if addr == 0xff00 {
            self.joypad.write(val);
            proof {
                assert(self@ =~= old(self)@.io_write_spec(addr, val));
            }
        } else if addr == 0xff04 {
            self.timer.reset_div();
            proof {
                assert(self@ =~= old(self)@.io_write_spec(addr, val));
            }
        } else if addr == 0xff05 {
            self.timer.set_tima(val);
            proof {
                assert(self@ =~= old(self)@.io_write_spec(addr, val));
            }
        } else if addr == 0xff06 {
            self.timer.set_tma(val);
            proof {
                assert(self@ =~= old(self)@.io_write_spec(addr, val));
            }
        } else if addr == 0xff07 {
            self.timer.set_tac(val);
            proof {
                assert(self@ =~= old(self)@.io_write_spec(addr, val));
            }
        } else if addr == 0xff0f {
            self.requested_interrupts = val % 32;
            proof {
                assert(self@ =~= old(self)@.io_write_spec(addr, val));
            }
        } else if 0xff10 <= addr && addr <= 0xff3f {
            self.sound.write(addr, val);
            proof {
                assert(self@ =~= old(self)@.io_write_spec(addr, val));
            }
        } else if 0xff40 <= addr && addr <= 0xff4b {
            self.ppu_io_write(addr, val);
            proof {
                assert(self@ =~= old(self)@.io_write_spec(addr, val));
            }
        } else if addr == 0xffff {
            self.enabled_interrupts = val;
            proof {
                assert(self@ =~= old(self)@.io_write_spec(addr, val));
            }
        } else {
            proof {
                assert(self@ =~= old(self)@.io_write_spec(addr, val));
            }
        }
    }


    /// Serve a guest write to a PPU control register, FF40-FF4B.
    #[verifier::rlimit(100)]
    #[verifier::spinoff_prover]
    fn ppu_io_write(&mut self, addr: u16, val: u8)
        requires
            old(self)@.wf(),
            0xff40 <= addr <= 0xff4b,
        ensures
            final(self)@ == old(self)@.io_write_spec(addr, val),
            final(self)@.wf(),
    {
        proof {
            reveal(BusView::io_write_spec);
        }
        if false {
        } else if addr == 0xff40 {
            self.ppu.set_lcdc(val);
            proof {
                assert(self@ =~= old(self)@.io_write_spec(addr, val));
            }
        } else if addr == 0xff41 {
            self.ppu.set_lcds(val);
            proof {
                assert(self@ =~= old(self)@.io_write_spec(addr, val));
            }
        } else if addr == 0xff42 {
            self.ppu.set_scy(val);
            proof {
                assert(self@ =~= old(self)@.io_write_spec(addr, val));
            }
        } else if addr == 0xff43 {
            self.ppu.set_scx(val);
            proof {
                assert(self@ =~= old(self)@.io_write_spec(addr, val));
            }
        } else if addr == 0xff44 {
            self.ppu.set_ly(val);
            proof {
                assert(self@ =~= old(self)@.io_write_spec(addr, val));
            }
        } else if addr == 0xff45 {
            self.ppu.set_lyc(val);
            proof {
                assert(self@ =~= old(self)@.io_write_spec(addr, val));
            }
        } else if addr == 0xff46 {
            self.dma(val);
            proof {
                assert(self@ =~= old(self)@.io_write_spec(addr, val));
            }
        } else if addr == 0xff47 {
            self.ppu.set_bgp(val);
            proof {
                assert(self@ =~= old(self)@.io_write_spec(addr, val));
            }
        } else if addr == 0xff48 {
            self.ppu.set_obp0(val);
            proof {
                assert(self@ =~= old(self)@.io_write_spec(addr, val));
            }
        } else if addr == 0xff49 {
            self.ppu.set_obp1(val);
            proof {
                assert(self@ =~= old(self)@.io_write_spec(addr, val));
            }
        } else if addr == 0xff4a {
            self.ppu.set_wy(val);
            proof {
                assert(self@ =~= old(self)@.io_write_spec(addr, val));
            }
        } else if addr == 0xff4b {
            self.ppu.set_wx(val);
            proof {
                assert(self@ =~= old(self)@.io_write_spec(addr, val));
            }
        } else {
            proof {
                assert(self@ =~= old(self)@.io_write_spec(addr, val));
            }
        }
    }

    /// DMA (FF46): copy 160 bytes from page `val` into OAM.
    fn dma(&mut self, val: u8)
        requires
            old(self)@.wf(),
        ensures
            final(self)@ == (BusView {
                ppu: PpuView { oam: old(self)@.dma_oam(val), ..old(self)@.ppu },
                ..old(self)@
            }),
            final(self)@.wf(),
    {
        proof {
            reveal(BusView::dma_oam);
        }
        let mut buf: Vec<u8> = Vec::new();
        let mut i: usize = 0;
        while i < 0xa0
            invariant
                i <= 0xa0,
                self@ == old(self)@,
                self@.wf(),
                buf@.len() == i,
                forall|j: int|
                    0 <= j < i ==> buf@[j] == old(self)@.read_spec((val * 256 + j) as u16),
            decreases 0xa0 - i,
        {
            let b = self.read(val as u16 * 256 + i as u16);
            buf.push(b);
            i = i + 1;
        }
        self.ppu.oam = buf;
        proof {
            assert forall|j: int| 0 <= j < 0xa0 implies self@.ppu.oam[j] == old(self)@.dma_oam(
                val,
            )[j] by {
                assert(old(self)@.dma_oam(val)[j] == old(self)@.read_spec((val * 256 + j) as u16));
            }
            assert(self@.ppu.oam =~= old(self)@.dma_oam(val));
            assert(self@ =~= (BusView {
                ppu: PpuView { oam: old(self)@.dma_oam(val), ..old(self)@.ppu },
                ..old(self)@
            }));
        }
    }

    /// A 16-bit read, low byte first.
    pub fn read16(&self, addr: u16) -> (r: u16)
        requires
            self@.wf(),
        ensures
            r == self@.read16_spec(addr),
    {
        let l = self.read(addr);
        let h = self.read(((addr as u32 + 1) % 0x10000) as u16);
        l as u16 + h as u16 * 256
    }

    /// A 16-bit write: two byte writes, low byte first.
    pub fn write16(&mut self, addr: u16, val: u16)
        requires
            old(self)@.wf(),
        ensures
            final(self)@ == old(self)@.write16_spec(addr, val),
            final(self)@.wf(),
    {
        self.write(addr, (val % 256) as u8);
        self.write(((addr as u32 + 1) % 0x10000) as u16, (val / 256) as u8);
    }
}

/// DIV reads zero after any guest write to FF04: a write clears the
/// whole system counter, and DIV is its high byte.
pub proof fn lemma_div_write_reads_zero(v: BusView, val: u8)
    ensures
        v.write_spec(0xff04, val).read_spec(0xff04) == 0,
{
    reveal(BusView::read_spec);
    reveal(BusView::write_spec);
    reveal(BusView::io_write_spec);
}

/// The bus after a sequence of guest writes to FF04, applied in
/// order.
pub open spec fn div_writes(v: BusView, vals: Seq<u8>) -> BusView
    decreases vals.len(),
{
    if vals.len() == 0 {
        v
    } else {
        div_writes(v, vals.drop_last()).write_spec(0xff04, vals.last())
    }
}

/// The same holds after any non-empty sequence of writes to FF04,
/// whatever bytes they carry: the last write clears the counter.
pub proof fn lemma_div_write_seq_reads_zero(v: BusView, vals: Seq<u8>)
    requires
        vals.len() > 0,
    ensures
        div_writes(v, vals).read_spec(0xff04) == 0,
{
    lemma_div_write_reads_zero(div_writes(v, vals.drop_last()), vals.last());
}

/// A read of IF (FF0F) after a write returns the five interrupt bits
/// of the written byte, exactly.
pub proof fn lemma_if_write_read(v: BusView, val: u8)
    ensures
        v.write_spec(0xff0f, val).read_spec(0xff0f) == val % 32,
{
    reveal(BusView::read_spec);
    reveal(BusView::write_spec);
    reveal(BusView::io_write_spec);
}

/// Whether both bytes of a 16-bit access land in plain work or high
/// RAM, away from the echo region and MMIO.
pub open spec fn plain_ram16(addr: u16) -> bool {
    (0xc000 <= addr && addr + 1 < 0xe000) || (0xff80 <= addr && addr + 1 <= 0xfffe)
}

/// A 16-bit value written to plain RAM reads back unchanged: what
/// PUSH stores, POP recovers.
#[verifier::rlimit(100)]
#[verifier::spinoff_prover]
pub proof fn lemma_write16_read16(v: BusView, addr: u16, val: u16)
    requires
        v.wf(),
        plain_ram16(addr),
    ensures
        v.write16_spec(addr, val).read16_spec(addr) == val,
{
    reveal(BusView::read_spec);
    reveal(BusView::write_spec);
    let lo = (val % 256) as u8;
    let hi = (val / 256) as u8;
    let a2 = ((addr + 1) % 0x10000) as u16;
    assert(a2 == addr + 1);
    let v1 = v.write_spec(addr, lo);
    let v2 = v1.write_spec(a2, hi);
    if addr < 0xe000 {
        assert(v1.ram == v.ram.write_spec(addr, lo));
        assert(v2.ram == v1.ram.write_spec(a2, hi));
        assert(v2.read_spec(addr) == lo);
        assert(v2.read_spec(a2) == hi);
    } else {
        assert(v1.ram == v.ram.write_spec(addr, lo));
        assert(v2.ram == v1.ram.write_spec(a2, hi));
        assert(v2.read_spec(addr) == lo);
        assert(v2.read_spec(a2) == hi);
    }
    assert(v2.read16_spec(addr) == lo + hi * 256);
}

} // verus!
