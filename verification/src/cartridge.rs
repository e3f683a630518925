use vstd::prelude::*;

use crate::rtc::{
    clamp_time, clamp_time_spec, game_time_spec, rtc_latch_spec, rtc_reg_spec, rtc_write_spec, Rtc,
    RTC_MAX,
};

verus! {

/// The cartridge kinds this core understands, from header byte 0x147.
#[derive(Clone, Copy, PartialEq, Eq, Structural, Debug)]
pub enum MbcType {
    NRom,
    Mbc1,
    Mbc1Ram,
    Mbc1RamBattery,
    Mbc2,
    Mbc2Battery,
    Mbc3TimerBattery,
    Mbc3TimerRamBattery,
    Mbc3,
    Mbc3Ram,
    Mbc3RamBattery,
}

/// A configuration error found while a cartridge is built from a ROM
/// image and its optional save data.
#[derive(Clone, Copy, PartialEq, Eq, Structural, Debug)]
pub enum CartError {
    /// The image is too short to hold the cartridge header.
    RomTooShort,
    /// Header byte 0x148 holds an unknown ROM size code, or one this
    /// mapper cannot address.
    InvalidRomSize,
    /// Header byte 0x149 holds an unknown RAM size code, or one this
    /// mapper cannot address.
    InvalidRamSize,
    /// Header byte 0x147 names a mapper outside the supported set.
    UnsupportedMbc,
    /// The save data is non-empty but shorter than this cartridge
    /// requires.
    CorruptSave,
}

/// The banking state of each mapper.
#[derive(Clone, Copy, PartialEq, Eq, Structural, Debug)]
pub enum Mapper {
    NRom,
    Mbc1 { ram_enable: bool, lower: u8, upper: u8, mode1: bool, upper_is_rom: bool },
    Mbc2 { ram_enable: bool, bank: u8 },
    Mbc3 { ram_enable: bool, rom_bank: u8, sel: u8, rtc: Rtc },
}

/// A cartridge: the immutable ROM image, the external RAM, and the
/// mapper state that decides how the bus ranges 0000-7FFF and
/// A000-BFFF are served.
pub struct Cartridge {
    pub rom: Vec<u8>,
    pub ram: Vec<u8>,
    pub rom_banks: u32,
    pub battery: bool,
    /// The wall clock in seconds, fed in by the driver for the MBC3
    /// real-time clock.
    pub now: i64,
    pub mapper: Mapper,
}

/// The mathematical model of a cartridge.
#[verifier::ext_equal]
pub struct CartView {
    pub rom: Seq<u8>,
    pub ram: Seq<u8>,
    pub rom_banks: int,
    pub battery: bool,
    pub now: i64,
    pub mapper: Mapper,
}

impl View for Cartridge {
    type V = CartView;

    open spec fn view(&self) -> CartView {
        CartView {
            rom: self.rom@,
            ram: self.ram@,
            rom_banks: self.rom_banks as int,
            battery: self.battery,
            now: self.now,
            mapper: self.mapper,
        }
    }
}

impl CartView {
    pub open spec fn wf(self) -> bool {
        &&& 2 <= self.rom_banks <= 512
        &&& self.rom.len() == self.rom_banks * 0x4000
        &&& 0 <= self.now <= RTC_MAX
        &&& match self.mapper {
            Mapper::NRom => true,
            Mapper::Mbc1 { lower, upper, .. } => 1 <= lower < 32 && upper < 4 && self.ram.len()
                % 0x2000 == 0 && self.ram.len() <= 0x8000,
            Mapper::Mbc2 { bank, .. } => 1 <= bank < 16 && self.ram.len() == 512,
            Mapper::Mbc3 { rom_bank, sel, rtc, .. } => 1 <= rom_bank < 128 && (sel <= 3 || 8 <= sel
                <= 12) && rtc.wf() && self.ram.len() % 0x2000 == 0 && self.ram.len() <= 0x8000,
        }
    }

    /// The ROM byte a bank and offset select; the bank wraps at the
    /// bank count.
    pub open spec fn rom_at(self, bank: int, off: int) -> u8 {
        self.rom[(bank % self.rom_banks) * 0x4000 + off]
    }

    /// The RAM byte an index selects, 0 when the index lies beyond the
    /// fitted RAM.
    pub open spec fn ram_at(self, idx: int) -> u8 {
        if 0 <= idx < self.ram.len() {
            self.ram[idx]
        } else {
            0
        }
    }

    /// The MBC1 bank serving 4000-7FFF.
    pub open spec fn mbc1_high_bank(self) -> int {
        match self.mapper {
            Mapper::Mbc1 { lower, upper, mode1, upper_is_rom, .. } => if !mode1 && upper_is_rom {
                lower + upper * 32
            } else {
                lower as int
            },
            _ => 0,
        }
    }

    /// The MBC1 RAM bank serving A000-BFFF.
    pub open spec fn mbc1_ram_bank(self) -> int {
        match self.mapper {
            Mapper::Mbc1 { upper, mode1, upper_is_rom, .. } => if mode1 && !upper_is_rom {
                upper as int
            } else {
                0
            },
            _ => 0,
        }
    }

    /// What a bus read of 0000-7FFF or A000-BFFF returns.
    pub open spec fn read_spec(self, addr: u16) -> u8 {
        match self.mapper {
            Mapper::NRom => {
                if addr < 0x8000 {
                    self.rom[addr as int]
                } else {
                    self.ram_at(addr - 0xa000)
                }
            },
            Mapper::Mbc1 { ram_enable, upper, mode1, .. } => {
                if addr < 0x4000 {
                    let bank: int = if mode1 { upper * 32 } else { 0 };
                    self.rom_at(bank, addr as int)
                } else if addr < 0x8000 {
                    self.rom_at(self.mbc1_high_bank(), addr - 0x4000)
                } else if ram_enable && self.ram.len() > 0 {
                    self.ram_at(self.mbc1_ram_bank() * 0x2000 + (addr - 0xa000))
                } else {
                    0
                }
            },
            Mapper::Mbc2 { ram_enable, bank } => {
                if addr < 0x4000 {
                    self.rom[addr as int]
                } else if addr < 0x8000 {
                    self.rom_at(bank as int, addr - 0x4000)
                } else if ram_enable && addr < 0xa200 {
                    self.ram_at(addr - 0xa000)
                } else {
                    0
                }
            },
            Mapper::Mbc3 { ram_enable, rom_bank, sel, rtc } => {
                if addr < 0x4000 {
                    self.rom[addr as int]
                } else if addr < 0x8000 {
                    self.rom_at(rom_bank as int, addr - 0x4000)
                } else if !ram_enable {
                    0
                } else if sel <= 3 {
                    self.ram_at(sel * 0x2000 + (addr - 0xa000))
                } else {
                    rtc_reg_spec(rtc, self.now, sel)
                }
            },
        }
    }

    /// The RAM after a guarded store: out-of-range indices are
    /// ignored.
    pub open spec fn ram_store(self, idx: int, val: u8) -> Seq<u8> {
        if 0 <= idx < self.ram.len() {
            self.ram.update(idx, val)
        } else {
            self.ram
        }
    }

    /// The cartridge after a bus write to 0000-7FFF or A000-BFFF.
    pub open spec fn write_spec(self, addr: u16, val: u8) -> CartView {
        match self.mapper {
            Mapper::NRom => {
                if 0xa000 <= addr {
                    CartView { ram: self.ram_store(addr - 0xa000, val), ..self }
                } else {
                    self
                }
            },
            Mapper::Mbc1 { ram_enable, lower, upper, mode1, upper_is_rom } => {
                if 0xa000 <= addr {
                    if ram_enable {
                        CartView {
                            ram: self.ram_store(self.mbc1_ram_bank() * 0x2000 + (addr - 0xa000), val),
                            ..self
                        }
                    } else {
                        self
                    }
                } else if addr < 0x2000 {
                    CartView {
                        mapper: Mapper::Mbc1 { ram_enable: val % 16 == 10, lower, upper, mode1, upper_is_rom },
                        ..self
                    }
                } else if addr < 0x4000 {
                    let v: u8 = if val % 32 == 0 { 1 } else { (val % 32) as u8 };
                    CartView {
                        mapper: Mapper::Mbc1 { ram_enable, lower: v, upper, mode1, upper_is_rom },
                        ..self
                    }
                } else if addr < 0x6000 {
                    CartView {
                        mapper: Mapper::Mbc1 { ram_enable, lower, upper: (val % 4) as u8, mode1, upper_is_rom },
                        ..self
                    }
                } else {
                    CartView {
                        mapper: Mapper::Mbc1 { ram_enable, lower, upper, mode1: val % 2 == 1, upper_is_rom },
                        ..self
                    }
                }
            },
            Mapper::Mbc2 { ram_enable, bank } => {
                if 0xa000 <= addr {
                    if ram_enable && addr < 0xa200 {
                        CartView { ram: self.ram_store(addr - 0xa000, (val % 16) as u8), ..self }
                    } else {
                        self
                    }
                } else if addr < 0x4000 {
                    if addr / 256 % 2 == 1 {
                        let v: u8 = if val % 16 == 0 { 1 } else { (val % 16) as u8 };
                        CartView { mapper: Mapper::Mbc2 { ram_enable, bank: v }, ..self }
                    } else {
                        CartView { mapper: Mapper::Mbc2 { ram_enable: val % 16 == 10, bank }, ..self }
                    }
                } else {
                    self
                }
            },
            Mapper::Mbc3 { ram_enable, rom_bank, sel, rtc } => {
                if 0xa000 <= addr {
                    if !ram_enable {
                        self
                    } else if sel <= 3 {
                        CartView { ram: self.ram_store(sel * 0x2000 + (addr - 0xa000), val), ..self }
                    } else {
                        CartView {
                            mapper: Mapper::Mbc3 {
                                ram_enable,
                                rom_bank,
                                sel,
                                rtc: rtc_write_spec(rtc, self.now, sel, val),
                            },
                            ..self
                        }
                    }
                } else if addr < 0x2000 {
                    CartView {
                        mapper: Mapper::Mbc3 { ram_enable: val % 16 == 10, rom_bank, sel, rtc },
                        ..self
                    }
                } else if addr < 0x4000 {
                    let v: u8 = if val % 128 == 0 { 1 } else { (val % 128) as u8 };
                    CartView { mapper: Mapper::Mbc3 { ram_enable, rom_bank: v, sel, rtc }, ..self }
                } else if addr < 0x6000 {
                    if val <= 3 || (8 <= val && val <= 12) {
                        CartView { mapper: Mapper::Mbc3 { ram_enable, rom_bank, sel: val, rtc }, ..self }
                    } else {
                        self
                    }
                } else {
                    CartView {
                        mapper: Mapper::Mbc3 {
                            ram_enable,
                            rom_bank,
                            sel,
                            rtc: rtc_latch_spec(rtc, self.now, val),
                        },
                        ..self
                    }
                }
            },
        }
    }
}

impl Cartridge {
    /// Read the ROM byte a bank and offset select.
    fn rom_read(&self, bank: u32, off: u16) -> (r: u8)
        requires
            self@.wf(),
            off < 0x4000,
        ensures
            r == self@.rom_at(bank as int, off as int),
    {
        let b: u32 = bank % self.rom_banks;
        let idx: usize = b as usize * 0x4000 + off as usize;
        proof {
            assert(b * 0x4000 + off < self.rom_banks * 0x4000) by (nonlinear_arith)
                requires
                    b < self.rom_banks,
                    off < 0x4000,
                    self.rom_banks <= 512,
            ;
        }
        self.rom[idx]
    }

    /// Read the RAM byte an index selects, 0 beyond the fitted RAM.
    fn ram_read(&self, idx: usize) -> (r: u8)
        ensures
            r == self@.ram_at(idx as int),
    {
        if idx < self.ram.len() {
            self.ram[idx]
        } else {
            0
        }
    }

    /// Store into RAM, ignoring indices beyond the fitted RAM.
    fn ram_write(&mut self, idx: usize, val: u8)
        ensures
            final(self)@ == (CartView { ram: old(self)@.ram_store(idx as int, val), ..old(self)@ }),
    {
        if idx < self.ram.len() {
            self.ram.set(idx, val);
        }
        proof {
            assert(self@ =~= (CartView { ram: old(self)@.ram_store(idx as int, val), ..old(self)@ }));
        }
    }

    /// Serve a bus read of 0000-7FFF or A000-BFFF.
    pub fn read(&self, addr: u16) -> (r: u8)
        requires
            self@.wf(),
            addr < 0x8000 || (0xa000 <= addr < 0xc000),
        ensures
            r == self@.read_spec(addr),
    {
        match &self.mapper {
            Mapper::NRom => {
                if addr < 0x8000 {
                    proof {
                        assert(self@.rom.len() >= 0x8000) by (nonlinear_arith)
                            requires
                                self@.rom.len() == self@.rom_banks * 0x4000,
                                self@.rom_banks >= 2,
                        ;
                    }
                    self.rom[addr as usize]
                } else {
                    self.ram_read(addr as usize - 0xa000)
                }
            },
            Mapper::Mbc1 { ram_enable, upper, mode1, .. } => {
                let ram_enable = *ram_enable;
                let upper = *upper;
                let mode1 = *mode1;
                if addr < 0x4000 {
                    let bank: u32 = if mode1 { upper as u32 * 32 } else { 0 };
                    self.rom_read(bank, addr)
                } else if addr < 0x8000 {
                    let bank = self.mbc1_high_bank_exec();
                    self.rom_read(bank, addr - 0x4000)
                } else if ram_enable && self.ram.len() > 0 {
                    let b = self.mbc1_ram_bank_exec();
                    self.ram_read(b as usize * 0x2000 + (addr as usize - 0xa000))
                } else {
                    0
                }
            },
            Mapper::Mbc2 { ram_enable, bank } => {
                let ram_enable = *ram_enable;
                let bank = *bank;
                if addr < 0x4000 {
                    proof {
                        assert(self@.rom.len() >= 0x8000) by (nonlinear_arith)
                            requires
                                self@.rom.len() == self@.rom_banks * 0x4000,
                                self@.rom_banks >= 2,
                        ;
                    }
                    self.rom[addr as usize]
                } else if addr < 0x8000 {
                    self.rom_read(bank as u32, addr - 0x4000)
                } else if ram_enable && addr < 0xa200 {
                    self.ram_read(addr as usize - 0xa000)
                } else {
                    0
                }
            },
            Mapper::Mbc3 { ram_enable, rom_bank, sel, rtc } => {
                let ram_enable = *ram_enable;
                let rom_bank = *rom_bank;
                let sel = *sel;
                let rtc = *rtc;
                if addr < 0x4000 {
                    proof {
                        assert(self@.rom.len() >= 0x8000) by (nonlinear_arith)
                            requires
                                self@.rom.len() == self@.rom_banks * 0x4000,
                                self@.rom_banks >= 2,
                        ;
                    }
                    self.rom[addr as usize]
                } else if addr < 0x8000 {
                    self.rom_read(rom_bank as u32, addr - 0x4000)
                } else if !ram_enable {
                    0
                } else if sel <= 3 {
                    self.ram_read(sel as usize * 0x2000 + (addr as usize - 0xa000))
                } else {
                    rtc.read_reg(self.now, sel)
                }
            },
        }
    }

    /// The MBC1 bank serving 4000-7FFF, as executable code.
    fn mbc1_high_bank_exec(&self) -> (r: u32)
        requires
            self.mapper is Mbc1,
        ensures
            r == self@.mbc1_high_bank(),
    {
        match &self.mapper {
            Mapper::Mbc1 { lower, upper, mode1, upper_is_rom, .. } => {
                if !*mode1 && *upper_is_rom {
                    *lower as u32 + *upper as u32 * 32
                } else {
                    *lower as u32
                }
            },
            _ => 0,
        }
    }

    /// The MBC1 RAM bank serving A000-BFFF, as executable code.
    fn mbc1_ram_bank_exec(&self) -> (r: u8)
        requires
            self.mapper is Mbc1,
        ensures
            r == self@.mbc1_ram_bank(),
    {
        match &self.mapper {
            Mapper::Mbc1 { upper, mode1, upper_is_rom, .. } => {
                if *mode1 && !*upper_is_rom {
                    *upper
                } else {
                    0
                }
            },
            _ => 0,
        }
    }

    /// Serve a bus write of 0000-7FFF or A000-BFFF.
    pub fn write(&mut self, addr: u16, val: u8)
        requires
            old(self)@.wf(),
            addr < 0x8000 || (0xa000 <= addr < 0xc000),
        ensures
            final(self)@ == old(self)@.write_spec(addr, val),
            final(self)@.wf(),
    {
        match &self.mapper {
            Mapper::NRom => {
                if 0xa000 <= addr {
                    self.ram_write(addr as usize - 0xa000, val);
                }
            },
            Mapper::Mbc1 { ram_enable, lower, upper, mode1, upper_is_rom } => {
                let ram_enable = *ram_enable;
                let lower = *lower;
                let upper = *upper;
                let mode1 = *mode1;
                let upper_is_rom = *upper_is_rom;
                if 0xa000 <= addr {
                    if ram_enable {
                        let b = self.mbc1_ram_bank_exec();
                        self.ram_write(b as usize * 0x2000 + (addr as usize - 0xa000), val);
                    }
                } else if addr < 0x2000 {
                    self.mapper = Mapper::Mbc1 {
                        ram_enable: val % 16 == 10,
                        lower,
                        upper,
                        mode1,
                        upper_is_rom,
                    };
                } else if addr < 0x4000 {
                    let v: u8 = if val % 32 == 0 { 1 } else { val % 32 };
                    self.mapper = Mapper::Mbc1 { ram_enable, lower: v, upper, mode1, upper_is_rom };
                } else if addr < 0x6000 {
                    self.mapper = Mapper::Mbc1 {
                        ram_enable,
                        lower,
                        upper: val % 4,
                        mode1,
                        upper_is_rom,
                    };
                } else {
                    self.mapper = Mapper::Mbc1 {
                        ram_enable,
                        lower,
                        upper,
                        mode1: val % 2 == 1,
                        upper_is_rom,
                    };
                }
                proof {
                    assert(self@ =~= old(self)@.write_spec(addr, val));
                }
            },
            Mapper::Mbc2 { ram_enable, bank } => {
                let ram_enable = *ram_enable;
                let bank = *bank;
                if 0xa000 <= addr {
                    if ram_enable && addr < 0xa200 {
                        self.ram_write(addr as usize - 0xa000, val % 16);
                    }
                } else if addr < 0x4000 {
                    if addr / 256 % 2 == 1 {
                        let v: u8 = if val % 16 == 0 { 1 } else { val % 16 };
                        self.mapper = Mapper::Mbc2 { ram_enable, bank: v };
                    } else {
                        self.mapper = Mapper::Mbc2 { ram_enable: val % 16 == 10, bank };
                    }
                }
                proof {
                    assert(self@ =~= old(self)@.write_spec(addr, val));
                }
            },
            Mapper::Mbc3 { ram_enable, rom_bank, sel, rtc } => {
                let ram_enable = *ram_enable;
                let rom_bank = *rom_bank;
                let sel = *sel;
                let mut rtc = *rtc;
                if 0xa000 <= addr {
                    if !ram_enable {
                    } else if sel <= 3 {
                        self.ram_write(sel as usize * 0x2000 + (addr as usize - 0xa000), val);
                    } else {
                        rtc.write_reg(self.now, sel, val);
                        self.mapper = Mapper::Mbc3 { ram_enable, rom_bank, sel, rtc };
                    }
                } else if addr < 0x2000 {
                    self.mapper = Mapper::Mbc3 { ram_enable: val % 16 == 10, rom_bank, sel, rtc };
                } else if addr < 0x4000 {
                    let v: u8 = if val % 128 == 0 { 1 } else { val % 128 };
                    self.mapper = Mapper::Mbc3 { ram_enable, rom_bank: v, sel, rtc };
                } else if addr < 0x6000 {
                    if val <= 3 || (8 <= val && val <= 12) {
                        self.mapper = Mapper::Mbc3 { ram_enable, rom_bank, sel: val, rtc };
                    }
                } else {
                    rtc.latch(self.now, val);
                    self.mapper = Mapper::Mbc3 { ram_enable, rom_bank, sel, rtc };
                }
                proof {
                    assert(self@ =~= old(self)@.write_spec(addr, val));
                }
            },
        }
        proof {
            assert(self@ =~= old(self)@.write_spec(addr, val));
        }
    }

    /// Feed the wall clock to the MBC3 real-time clock; the value is
    /// clamped into the range the clock stores.
    pub fn set_now(&mut self, t: i64)
        ensures
            final(self)@ == (CartView { now: clamp_time_spec(t as int), ..old(self)@ }),
    {
        self.now = clamp_time(t);
        proof {
            assert(self@ =~= (CartView { now: clamp_time_spec(t as int), ..old(self)@ }));
        }
    }
}

/// The cartridge kind header byte 0x147 selects.
pub open spec fn spec_mbc_type(code: u8) -> Option<MbcType> {
    if code == 0x00 {
        Some(MbcType::NRom)
    } else if code == 0x01 {
        Some(MbcType::Mbc1)
    } else if code == 0x02 {
        Some(MbcType::Mbc1Ram)
    } else if code == 0x03 {
        Some(MbcType::Mbc1RamBattery)
    } else if code == 0x05 {
        Some(MbcType::Mbc2)
    } else if code == 0x06 {
        Some(MbcType::Mbc2Battery)
    } else if code == 0x0f {
        Some(MbcType::Mbc3TimerBattery)
    } else if code == 0x10 {
        Some(MbcType::Mbc3TimerRamBattery)
    } else if code == 0x11 {
        Some(MbcType::Mbc3)
    } else if code == 0x12 {
        Some(MbcType::Mbc3Ram)
    } else if code == 0x13 {
        Some(MbcType::Mbc3RamBattery)
    } else {
        None
    }
}

/// The 16-KiB bank count header byte 0x148 selects, 0 for an unknown
/// code.
pub open spec fn spec_rom_banks(code: u8) -> int {
    if code == 0 {
        2
    } else if code == 1 {
        4
    } else if code == 2 {
        8
    } else if code == 3 {
        16
    } else if code == 4 {
        32
    } else if code == 5 {
        64
    } else if code == 6 {
        128
    } else if code == 7 {
        256
    } else if code == 8 {
        512
    } else if code == 0x52 {
        72
    } else if code == 0x53 {
        80
    } else if code == 0x54 {
        96
    } else {
        0
    }
}

/// The external-RAM byte count header byte 0x149 selects, -1 for an
/// unknown code.
pub open spec fn spec_ram_bytes(code: u8) -> int {
    if code == 0 {
        0
    } else if code == 1 {
        0x800
    } else if code == 2 {
        0x2000
    } else if code == 3 {
        0x8000
    } else if code == 4 {
        0x20000
    } else if code == 5 {
        0x10000
    } else {
        -1
    }
}

/// Whether this cartridge kind carries battery-backed persistence.
pub open spec fn spec_battery(t: MbcType) -> bool {
    t is Mbc1RamBattery || t is Mbc2Battery || t is Mbc3TimerBattery || t is Mbc3TimerRamBattery
        || t is Mbc3RamBattery
}

pub open spec fn is_mbc1(t: MbcType) -> bool {
    t is Mbc1 || t is Mbc1Ram || t is Mbc1RamBattery
}

pub open spec fn is_mbc2(t: MbcType) -> bool {
    t is Mbc2 || t is Mbc2Battery
}

pub open spec fn is_mbc3(t: MbcType) -> bool {
    t is Mbc3 || t is Mbc3Ram || t is Mbc3RamBattery || t is Mbc3TimerBattery
        || t is Mbc3TimerRamBattery
}

/// How many bytes of external RAM the cartridge is fitted with.
pub open spec fn spec_ram_len(t: MbcType, ram_bytes: int) -> int {
    if is_mbc2(t) {
        512
    } else {
        ram_bytes
    }
}

/// A byte sequence fitted to a length: truncated or zero-padded.
pub open spec fn padded(data: Seq<u8>, n: int) -> Seq<u8> {
    Seq::new(n as nat, |i: int| if i < data.len() { data[i] } else { 0 })
}

/// The unsigned 64-bit value whose two's-complement bits encode a
/// signed instant.
pub open spec fn i64_bits(v: i64) -> u64 {
    ((v as int) % 0x1_0000_0000_0000_0000) as u64
}

/// The signed value a two's-complement 64-bit pattern encodes.
pub open spec fn i64_of_bits(u: u64) -> int {
    if u >= 0x8000_0000_0000_0000 {
        u - 0x1_0000_0000_0000_0000
    } else {
        u as int
    }
}

/// A 64-bit value as eight big-endian bytes.
pub open spec fn be_bytes(u: u64) -> Seq<u8> {
    seq![
        (u / 0x100_0000_0000_0000 % 256) as u8,
        (u / 0x1_0000_0000_0000 % 256) as u8,
        (u / 0x100_0000_0000 % 256) as u8,
        (u / 0x1_0000_0000 % 256) as u8,
        (u / 0x100_0000 % 256) as u8,
        (u / 0x1_0000 % 256) as u8,
        (u / 0x100 % 256) as u8,
        (u % 256) as u8,
    ]
}

/// The 64-bit value eight big-endian bytes encode.
pub open spec fn be_value(s: Seq<u8>) -> int {
    s[0] * 0x100_0000_0000_0000 + s[1] * 0x1_0000_0000_0000 + s[2] * 0x100_0000_0000 + s[3]
        * 0x1_0000_0000 + s[4] * 0x100_0000 + s[5] * 0x1_0000 + s[6] * 0x100 + s[7]
}

/// The nine bytes the MBC3 appends to a save: the big-endian seconds
/// value and the halt flag.  Per the persistence format, a halted
/// clock stores its frozen instant under flag 1, a running clock its
/// wall-clock offset under flag 0.
pub open spec fn rtc_tail(rtc: Rtc) -> Seq<u8> {
    if rtc.halted {
        be_bytes(i64_bits(rtc.halt_time)) + seq![1u8]
    } else {
        be_bytes(i64_bits(rtc.offset)) + seq![0u8]
    }
}

/// What a battery save holds: every external-RAM bank in order, and
/// for MBC3 the nine clock bytes.
pub open spec fn save_bytes_spec(c: CartView) -> Seq<u8> {
    match c.mapper {
        Mapper::Mbc3 { rtc, .. } => c.ram + rtc_tail(rtc),
        _ => c.ram,
    }
}

/// The clock restored from the nine trailing save bytes.
pub open spec fn rtc_of_save(tail: Seq<u8>) -> Rtc {
    let raw = i64_of_bits(be_value(tail) as u64);
    if tail[8] != 0 {
        Rtc {
            offset: 0,
            halted: true,
            halt_time: clamp_time_spec(raw),
            latched: false,
            latch_time: 0,
        }
    } else {
        let off: i64 = if raw < -RTC_MAX {
            (-RTC_MAX) as i64
        } else if raw > RTC_MAX {
            RTC_MAX
        } else {
            raw as i64
        };
        Rtc { offset: off, halted: false, halt_time: 0, latched: false, latch_time: 0 }
    }
}

/// The first configuration error the loader reports for an image and
/// optional save data, in the order the checks run; None when the
/// cartridge loads.
pub open spec fn load_err(data: Seq<u8>, save: Option<Seq<u8>>) -> Option<CartError> {
    if data.len() < 0x150 {
        Some(CartError::RomTooShort)
    } else {
        match spec_mbc_type(data[0x147]) {
            None => Some(CartError::UnsupportedMbc),
            Some(t) => {
                let banks = spec_rom_banks(data[0x148]);
                let ram_bytes = spec_ram_bytes(data[0x149]);
                if banks == 0 {
                    Some(CartError::InvalidRomSize)
                } else if ram_bytes < 0 {
                    Some(CartError::InvalidRamSize)
                } else if t is NRom && data.len() < 0x8000 {
                    Some(CartError::RomTooShort)
                } else if is_mbc1(t) && !(ram_bytes == 0 || ram_bytes == 0x2000 || ram_bytes
                    == 0x8000) {
                    Some(CartError::InvalidRamSize)
                } else if is_mbc2(t) && banks > 16 {
                    Some(CartError::InvalidRomSize)
                } else if is_mbc2(t) && ram_bytes != 0 {
                    Some(CartError::InvalidRamSize)
                } else if is_mbc3(t) && !(ram_bytes == 0 || ram_bytes == 0x2000 || ram_bytes
                    == 0x4000 || ram_bytes == 0x8000) {
                    Some(CartError::InvalidRamSize)
                } else if spec_battery(t) && save is Some && save.unwrap().len() > 0
                    && (save.unwrap().len() < spec_ram_len(t, ram_bytes) + (
                    if is_mbc3(t) {
                        9int
                    } else {
                        0int
                    })) {
                    Some(CartError::CorruptSave)
                } else {
                    None
                }
            },
        }
    }
}

/// Whether the loader takes the RAM and clock from the save data.
pub open spec fn save_used(t: MbcType, save: Option<Seq<u8>>) -> bool {
    spec_battery(t) && save is Some && save.unwrap().len() > 0
}

/// The external RAM the loader fits: the save prefix, or zeroes.
pub open spec fn loaded_ram(t: MbcType, ram_bytes: int, save: Option<Seq<u8>>) -> Seq<u8> {
    let n = spec_ram_len(t, ram_bytes);
    if save_used(t, save) {
        save.unwrap().subrange(0, n)
    } else {
        Seq::new(n as nat, |i: int| 0u8)
    }
}

/// The clock the loader starts an MBC3 with: restored from the save
/// tail, or halted at the epoch.
pub open spec fn loaded_rtc(t: MbcType, ram_bytes: int, save: Option<Seq<u8>>) -> Rtc {
    let n = spec_ram_len(t, ram_bytes);
    if save_used(t, save) {
        rtc_of_save(save.unwrap().subrange(n, n + 9))
    } else {
        Rtc { offset: 0, halted: true, halt_time: 0, latched: false, latch_time: 0 }
    }
}

/// The mapper state a cartridge powers on with.
pub open spec fn initial_mapper(t: MbcType, banks: int, rtc: Rtc) -> Mapper {
    if t is NRom {
        Mapper::NRom
    } else if is_mbc1(t) {
        Mapper::Mbc1 {
            ram_enable: false,
            lower: 1,
            upper: 0,
            mode1: false,
            upper_is_rom: banks > 31,
        }
    } else if is_mbc2(t) {
        Mapper::Mbc2 { ram_enable: false, bank: 1 }
    } else {
        Mapper::Mbc3 { ram_enable: false, rom_bank: 1, sel: 0, rtc }
    }
}

/// The model of a freshly loaded cartridge.
pub open spec fn load_spec(data: Seq<u8>, save: Option<Seq<u8>>, now: i64) -> CartView {
    let t = spec_mbc_type(data[0x147]).unwrap();
    let banks = if t is NRom {
        2int
    } else {
        spec_rom_banks(data[0x148])
    };
    let ram_bytes = spec_ram_bytes(data[0x149]);
    CartView {
        rom: padded(data, banks * 0x4000),
        ram: loaded_ram(t, ram_bytes, save),
        rom_banks: banks,
        battery: spec_battery(t),
        now: clamp_time_spec(now as int),
        mapper: initial_mapper(t, banks, loaded_rtc(t, ram_bytes, save)),
    }
}

/// Read the eight big-endian bytes at `start` as an unsigned 64-bit
/// value.
fn be_read(s: &Vec<u8>, start: usize) -> (u: u64)
    requires
        start + 8 <= s@.len(),
    ensures
        u == be_value(s@.subrange(start as int, start + 8)),
{
    let n = s.len();
    assert(start + 8 <= n);
    let u: u64 = s[start] as u64 * 0x100_0000_0000_0000 + s[start + 1] as u64 * 0x1_0000_0000_0000
        + s[start + 2] as u64 * 0x100_0000_0000 + s[start + 3] as u64 * 0x1_0000_0000 + s[start
        + 4] as u64 * 0x100_0000 + s[start + 5] as u64 * 0x1_0000 + s[start + 6] as u64 * 0x100
        + s[start + 7] as u64;
    proof {
        let sub = s@.subrange(start as int, start + 8);
        assert(sub[0] == s@[start as int] && sub[1] == s@[start + 1] && sub[2] == s@[start + 2]
            && sub[3] == s@[start + 3] && sub[4] == s@[start + 4] && sub[5] == s@[start + 5]
            && sub[6] == s@[start + 6] && sub[7] == s@[start + 7]);
    }
    u
}

/// The signed value of a two's-complement 64-bit pattern.
fn be_signed(u: u64) -> (v: i64)
    ensures
        v == i64_of_bits(u),
{
    if u >= 0x8000_0000_0000_0000 {
        -((u64::MAX - u) as i64) - 1
    } else {
        u as i64
    }
}

/// Build a cartridge from a ROM image, the contents of its save-file
/// companion if one was found, and the wall clock in seconds.
pub fn load_rom(data: Vec<u8>, save: Option<Vec<u8>>, now: i64) -> (r: Result<Cartridge, CartError>)
    ensures
        match r {
            Ok(c) => load_err(data@, save_view(save)) is None && c@ == load_spec(
                data@,
                save_view(save),
                now,
            ) && c@.wf(),
            Err(e) => load_err(data@, save_view(save)) == Some(e),
        },
{
    let ghost gdata = data@;
    let ghost gsave = save_view(save);
    if data.len() < 0x150 {
        return Err(CartError::RomTooShort);
    }
    let code147 = data[0x147];
    let code148 = data[0x148];
    let code149 = data[0x149];
    let t = match mbc_type_of(code147) {
        Some(t) => t,
        None => { return Err(CartError::UnsupportedMbc) },
    };
    let header_banks = rom_banks_of(code148);
    let ram_bytes = ram_bytes_of(code149);
    if header_banks == 0 {
        return Err(CartError::InvalidRomSize);
    }
    if ram_bytes < 0 {
        return Err(CartError::InvalidRamSize);
    }
    let is1 = matches!(t, MbcType::Mbc1 | MbcType::Mbc1Ram | MbcType::Mbc1RamBattery);
    let is2 = matches!(t, MbcType::Mbc2 | MbcType::Mbc2Battery);
    let is3 = matches!(
        t,
        MbcType::Mbc3 | MbcType::Mbc3Ram | MbcType::Mbc3RamBattery | MbcType::Mbc3TimerBattery
            | MbcType::Mbc3TimerRamBattery
    );
    if matches!(t, MbcType::NRom) && data.len() < 0x8000 {
        return Err(CartError::RomTooShort);
    }
    if is1 && !(ram_bytes == 0 || ram_bytes == 0x2000 || ram_bytes == 0x8000) {
        return Err(CartError::InvalidRamSize);
    }
    if is2 && header_banks > 16 {
        return Err(CartError::InvalidRomSize);
    }
    if is2 && ram_bytes != 0 {
        return Err(CartError::InvalidRamSize);
    }
    if is3 && !(ram_bytes == 0 || ram_bytes == 0x2000 || ram_bytes == 0x4000 || ram_bytes
        == 0x8000) {
        return Err(CartError::InvalidRamSize);
    }
    let banks: u32 = if matches!(t, MbcType::NRom) {
        2
    } else {
        header_banks
    };
    let battery = matches!(
        t,
        MbcType::Mbc1RamBattery | MbcType::Mbc2Battery | MbcType::Mbc3TimerBattery
            | MbcType::Mbc3TimerRamBattery | MbcType::Mbc3RamBattery
    );
    let ram_len: usize = if is2 {
        512
    } else {
        ram_bytes as usize
    };
    let use_save = battery && match &save {
        Some(s) => s.len() > 0,
        None => false,
    };
    if use_save {
        let s = match &save {
            Some(s) => s,
            None => { return Err(CartError::CorruptSave) },
        };
        let required = ram_len + if is3 {
            9
        } else {
            0
        };
        if s.len() < required {
            return Err(CartError::CorruptSave);
        }
    }
    assert(load_err(gdata, gsave) is None);

    let mut rom = data;
    rom.resize(banks as usize * 0x4000, 0u8);
    proof {
        assert(rom@ =~= padded(gdata, banks as int * 0x4000));
    }

    let mut ram: Vec<u8> = Vec::new();
    let mut rtc = Rtc::new();
    if use_save {
        let s = match &save {
            Some(s) => s,
            None => { return Err(CartError::CorruptSave) },
        };
        let mut i: usize = 0;
        while i < ram_len
            invariant
                i <= ram_len,
                ram_len <= s@.len(),
                ram@ == s@.subrange(0, i as int),
            decreases ram_len - i,
        {
            ram.push(s[i]);
            proof {
                assert(ram@ =~= s@.subrange(0, i + 1));
            }
            i = i + 1;
        }
        if is3 {
            let u = be_read(s, ram_len);
            let raw = be_signed(u);
            let halt = s[ram_len + 8];
            if halt != 0 {
                rtc = Rtc {
                    offset: 0,
                    halted: true,
                    halt_time: clamp_time(raw),
                    latched: false,
                    latch_time: 0,
                };
            } else {
                let off: i64 = if raw < -RTC_MAX {
                    -RTC_MAX
                } else if raw > RTC_MAX {
                    RTC_MAX
                } else {
                    raw
                };
                rtc = Rtc { offset: off, halted: false, halt_time: 0, latched: false, latch_time: 0 };
            }
            proof {
                assert(s@.subrange(ram_len as int, ram_len + 9)[8] == s@[ram_len + 8]);
                assert(s@.subrange(ram_len as int, ram_len + 9).subrange(0, 8) =~= s@.subrange(
                    ram_len as int,
                    ram_len + 8,
                ));
                assert(rtc == loaded_rtc(t, ram_bytes as int, gsave));
            }
        }
    } else {
        ram.resize(ram_len, 0u8);
        proof {
            assert(ram@ =~= loaded_ram(t, ram_bytes as int, gsave));
        }
    }

    let mapper = if matches!(t, MbcType::NRom) {
        Mapper::NRom
    } else if is1 {
        Mapper::Mbc1 {
            ram_enable: false,
            lower: 1,
            upper: 0,
            mode1: false,
            upper_is_rom: banks > 31,
        }
    } else if is2 {
        Mapper::Mbc2 { ram_enable: false, bank: 1 }
    } else {
        Mapper::Mbc3 { ram_enable: false, rom_bank: 1, sel: 0, rtc }
    };
    let c = Cartridge { rom, ram, rom_banks: banks, battery, now: clamp_time(now), mapper };
    proof {
        assert(c@ =~= load_spec(gdata, gsave, now));
    }
    Ok(c)
}

/// The model of optional save data.
pub open spec fn save_view(save: Option<Vec<u8>>) -> Option<Seq<u8>> {
    match save {
        Some(s) => Some(s@),
        None => None,
    }
}

/// The cartridge kind header byte 0x147 selects, as executable code.
pub fn mbc_type_of(code: u8) -> (r: Option<MbcType>)
    ensures
        r == spec_mbc_type(code),
{
    if code == 0x00 {
        Some(MbcType::NRom)
    } else if code == 0x01 {
        Some(MbcType::Mbc1)
    } else if code == 0x02 {
        Some(MbcType::Mbc1Ram)
    } else if code == 0x03 {
        Some(MbcType::Mbc1RamBattery)
    } else if code == 0x05 {
        Some(MbcType::Mbc2)
    } else if code == 0x06 {
        Some(MbcType::Mbc2Battery)
    } else if code == 0x0f {
        Some(MbcType::Mbc3TimerBattery)
    } else if code == 0x10 {
        Some(MbcType::Mbc3TimerRamBattery)
    } else if code == 0x11 {
        Some(MbcType::Mbc3)
    } else if code == 0x12 {
        Some(MbcType::Mbc3Ram)
    } else if code == 0x13 {
        Some(MbcType::Mbc3RamBattery)
    } else {
        None
    }
}

/// The 16-KiB bank count header byte 0x148 selects, as executable
/// code; 0 for an unknown code.
pub fn rom_banks_of(code: u8) -> (r: u32)
    ensures
        r == spec_rom_banks(code),
{
    if code == 0 {
        2
    } else if code == 1 {
        4
    } else if code == 2 {
        8
    } else if code == 3 {
        16
    } else if code == 4 {
        32
    } else if code == 5 {
        64
    } else if code == 6 {
        128
    } else if code == 7 {
        256
    } else if code == 8 {
        512
    } else if code == 0x52 {
        72
    } else if code == 0x53 {
        80
    } else if code == 0x54 {
        96
    } else {
        0
    }
}

/// The external-RAM byte count header byte 0x149 selects, as
/// executable code; -1 for an unknown code.
pub fn ram_bytes_of(code: u8) -> (r: i64)
    ensures
        r == spec_ram_bytes(code),
{
    if code == 0 {
        0
    } else if code == 1 {
        0x800
    } else if code == 2 {
        0x2000
    } else if code == 3 {
        0x8000
    } else if code == 4 {
        0x20000
    } else if code == 5 {
        0x10000
    } else {
        -1
    }
}

/// Append a 64-bit value as eight big-endian bytes.
fn be_push(out: &mut Vec<u8>, u: u64)
    ensures
        final(out)@ == old(out)@ + be_bytes(u),
{
    out.push((u / 0x100_0000_0000_0000 % 256) as u8);
    out.push((u / 0x1_0000_0000_0000 % 256) as u8);
    out.push((u / 0x100_0000_0000 % 256) as u8);
    out.push((u / 0x1_0000_0000 % 256) as u8);
    out.push((u / 0x100_0000 % 256) as u8);
    out.push((u / 0x1_0000 % 256) as u8);
    out.push((u / 0x100 % 256) as u8);
    out.push((u % 256) as u8);
    proof {
        assert(out@ =~= old(out)@ + be_bytes(u));
    }
}

/// Eight big-endian bytes decode back to the value they encoded.
proof fn lemma_be_round(u: u64)
    ensures
        be_value(be_bytes(u)) == u,
{
    assert(u / 0x100_0000_0000_0000 % 256 * 0x100_0000_0000_0000 + u / 0x1_0000_0000_0000 % 256
        * 0x1_0000_0000_0000 + u / 0x100_0000_0000 % 256 * 0x100_0000_0000 + u / 0x1_0000_0000
        % 256 * 0x1_0000_0000 + u / 0x100_0000 % 256 * 0x100_0000 + u / 0x1_0000 % 256 * 0x1_0000
        + u / 0x100 % 256 * 0x100 + u % 256 == u) by (bit_vector);
}

/// The two's-complement bit pattern decodes back to the signed value.
proof fn lemma_bits_round(v: i64)
    ensures
        i64_of_bits(i64_bits(v)) == v,
{
    if v < 0 {
        assert((v as int) % 0x1_0000_0000_0000_0000 == v + 0x1_0000_0000_0000_0000) by {
            let d: int = v as int;
            assert((d + 0x1_0000_0000_0000_0000) % 0x1_0000_0000_0000_0000 == d
                % 0x1_0000_0000_0000_0000) by (nonlinear_arith);
            assert(0 <= d + 0x1_0000_0000_0000_0000 < 0x1_0000_0000_0000_0000);
            assert((d + 0x1_0000_0000_0000_0000) % 0x1_0000_0000_0000_0000 == d
                + 0x1_0000_0000_0000_0000) by (nonlinear_arith)
                requires
                    0 <= d + 0x1_0000_0000_0000_0000 < 0x1_0000_0000_0000_0000,
            ;
        };
    }
}

/// A battery save round-trips through the loader: a cartridge rebuilt
/// from a ROM image whose header describes the same shape, together
/// with the bytes `save_bytes` produced, holds the same external RAM.
pub proof fn lemma_save_ram_round_trip(c: CartView, data: Seq<u8>, now: i64)
    requires
        c.wf(),
        load_err(data, Some(save_bytes_spec(c))) is None,
        data.len() >= 0x150,
        spec_battery(spec_mbc_type(data[0x147]).unwrap()),
        spec_ram_len(
            spec_mbc_type(data[0x147]).unwrap(),
            spec_ram_bytes(data[0x149]),
        ) == c.ram.len(),
        save_bytes_spec(c).len() > 0,
    ensures
        load_spec(data, Some(save_bytes_spec(c)), now).ram == c.ram,
{
    let t = spec_mbc_type(data[0x147]).unwrap();
    let save = save_bytes_spec(c);
    assert(save.subrange(0, c.ram.len() as int) =~= c.ram);
}

/// The nine clock bytes of an MBC3 save round-trip as well: a halted
/// clock comes back halted at the same instant, a running clock comes
/// back running with the same offset.
pub proof fn lemma_save_rtc_round_trip(c: CartView, data: Seq<u8>, now: i64)
    requires
        c.wf(),
        c.mapper is Mbc3,
        load_err(data, Some(save_bytes_spec(c))) is None,
        data.len() >= 0x150,
        spec_battery(spec_mbc_type(data[0x147]).unwrap()),
        is_mbc3(spec_mbc_type(data[0x147]).unwrap()),
        spec_ram_len(
            spec_mbc_type(data[0x147]).unwrap(),
            spec_ram_bytes(data[0x149]),
        ) == c.ram.len(),
    ensures
        ({
            let rtc = match c.mapper {
                Mapper::Mbc3 { rtc, .. } => rtc,
                _ => Rtc { offset: 0, halted: false, halt_time: 0, latched: false, latch_time: 0 },
            };
            let r2 = match load_spec(data, Some(save_bytes_spec(c)), now).mapper {
                Mapper::Mbc3 { rtc, .. } => rtc,
                _ => Rtc { offset: 0, halted: false, halt_time: 0, latched: false, latch_time: 0 },
            };
            &&& (rtc.halted ==> r2.halted && r2.halt_time == rtc.halt_time)
            &&& (!rtc.halted ==> !r2.halted && r2.offset == rtc.offset)
        }),
{
    let t = spec_mbc_type(data[0x147]).unwrap();
    let rtc = match c.mapper {
        Mapper::Mbc3 { rtc, .. } => rtc,
        _ => Rtc { offset: 0, halted: false, halt_time: 0, latched: false, latch_time: 0 },
    };
    let save = save_bytes_spec(c);
    let n = c.ram.len() as int;
    let tail = save.subrange(n, n + 9);
    assert(tail =~= rtc_tail(rtc));
    let stored: i64 = if rtc.halted {
        rtc.halt_time
    } else {
        rtc.offset
    };
    assert(tail.subrange(0, 8) =~= be_bytes(i64_bits(stored)));
    assert(be_value(tail) == be_value(be_bytes(i64_bits(stored)))) by {
        let bb = be_bytes(i64_bits(stored));
        assert(tail[0] == bb[0] && tail[1] == bb[1] && tail[2] == bb[2] && tail[3] == bb[3]
            && tail[4] == bb[4] && tail[5] == bb[5] && tail[6] == bb[6] && tail[7] == bb[7]);
    };
    lemma_be_round(i64_bits(stored));
    lemma_bits_round(stored);
    assert(tail[8] == (if rtc.halted {
        1u8
    } else {
        0u8
    }));
}

/// The two's-complement bit pattern of a signed value.
fn bits_of(v: i64) -> (u: u64)
    ensures
        u == i64_bits(v),
{
    if v >= 0 {
        v as u64
    } else {
        u64::MAX - ((-(v + 1)) as u64)
    }
}

/// A raw ROM image with its header accessors.
pub struct Rom {
    pub data: Vec<u8>,
}

/// How many of the fifteen title bytes precede the first zero,
/// scanning from position `i`.
pub open spec fn title_len(s: Seq<u8>, i: int) -> int
    decreases 15 - i,
{
    if i < 0 || i >= 15 {
        15
    } else if s[0x134 + i] == 0 {
        i
    } else {
        title_len(s, i + 1)
    }
}

impl Rom {
    /// Wrap a ROM image.
    pub fn new(data: Vec<u8>) -> (r: Rom)
        ensures
            r.data@ == data@,
    {
        Rom { data }
    }

    /// The title bytes of the header, up to the first zero.
    pub fn get_title(&self) -> (t: Vec<u8>)
        requires
            self.data@.len() >= 0x150,
        ensures
            t@ == self.data@.subrange(0x134, 0x134 + title_len(self.data@, 0)),
    {
        let mut n: usize = 0;
        while n < 15 && self.data[0x134 + n] != 0
            invariant
                n <= 15,
                self.data@.len() >= 0x150,
                title_len(self.data@, 0) == title_len(self.data@, n as int),
                forall|j: int| 0 <= j < n ==> self.data@[#[trigger] (0x134 + j)] != 0,
            decreases 15 - n,
        {
            n = n + 1;
        }
        assert(title_len(self.data@, 0) == n);
        let mut t: Vec<u8> = Vec::new();
        let mut i: usize = 0;
        while i < n
            invariant
                i <= n,
                n <= 15,
                self.data@.len() >= 0x150,
                t@ == self.data@.subrange(0x134, 0x134 + i),
            decreases n - i,
        {
            t.push(self.data[0x134 + i]);
            proof {
                assert(t@ =~= self.data@.subrange(0x134, 0x134 + i + 1));
            }
            i = i + 1;
        }
        t
    }

    /// Whether the header's CGB flag has its high bit set.
    pub fn is_gbc(&self) -> (r: bool)
        requires
            self.data@.len() >= 0x150,
        ensures
            r == (self.data@[0x143] / 128 % 2 == 1),
    {
        self.data[0x143] / 128 % 2 == 1
    }

    /// The external-RAM byte count the header declares.
    pub fn get_ram_size(&self) -> (r: Result<u64, CartError>)
        requires
            self.data@.len() >= 0x150,
        ensures
            spec_ram_bytes(self.data@[0x149]) >= 0 ==> r == Ok::<u64, CartError>(
                spec_ram_bytes(self.data@[0x149]) as u64,
            ),
            spec_ram_bytes(self.data@[0x149]) < 0 ==> r == Err::<u64, CartError>(
                CartError::InvalidRamSize,
            ),
    {
        let v = ram_bytes_of(self.data[0x149]);
        if v < 0 {
            Err(CartError::InvalidRamSize)
        } else {
            Ok(v as u64)
        }
    }

    /// The ROM size the header declares, in KiB.
    pub fn get_rom_size(&self) -> (r: Result<u32, CartError>)
        requires
            self.data@.len() >= 0x150,
        ensures
            spec_rom_banks(self.data@[0x148]) > 0 ==> r == Ok::<u32, CartError>(
                (spec_rom_banks(self.data@[0x148]) * 16) as u32,
            ),
            spec_rom_banks(self.data@[0x148]) == 0 ==> r == Err::<u32, CartError>(
                CartError::InvalidRomSize,
            ),
    {
        let v = rom_banks_of(self.data[0x148]);
        if v == 0 {
            Err(CartError::InvalidRomSize)
        } else {
            Ok(v * 16)
        }
    }

    /// The mapper kind the header declares.
    pub fn get_mbc_type(&self) -> (r: Result<MbcType, CartError>)
        requires
            self.data@.len() >= 0x150,
        ensures
            match spec_mbc_type(self.data@[0x147]) {
                Some(t) => r == Ok::<MbcType, CartError>(t),
                None => r == Err::<MbcType, CartError>(CartError::UnsupportedMbc),
            },
    {
        match mbc_type_of(self.data[0x147]) {
            Some(t) => Ok(t),
            None => Err(CartError::UnsupportedMbc),
        }
    }

    /// The length of the wrapped image.
    pub fn get_data_len(&self) -> (r: usize)
        ensures
            r == self.data@.len(),
    {
        self.data.len()
    }

    /// A copy of the bytes in `[begin, end)`; an image too short for
    /// the range is reported as truncated.
    pub fn read_range(&self, begin: usize, end: usize) -> (r: Result<Vec<u8>, CartError>)
        requires
            begin <= end,
        ensures
            end <= self.data@.len() ==> (r is Ok && r.unwrap()@ == self.data@.subrange(
                begin as int,
                end as int,
            )),
            end > self.data@.len() ==> r == Err::<Vec<u8>, CartError>(CartError::RomTooShort),
    {
        if end > self.data.len() {
            return Err(CartError::RomTooShort);
        }
        let mut out: Vec<u8> = Vec::new();
        let mut i: usize = begin;
        while i < end
            invariant
                begin <= i <= end,
                end <= self.data@.len(),
                out@ == self.data@.subrange(begin as int, i as int),
            decreases end - i,
        {
            out.push(self.data[i]);
            proof {
                assert(out@ =~= self.data@.subrange(begin as int, i + 1));
            }
            i = i + 1;
        }
        Ok(out)
    }
}

impl Cartridge {
    /// The bytes a battery save holds for this cartridge: the external
    /// RAM, and for MBC3 the nine clock bytes.
    pub fn save_bytes(&self) -> (r: Vec<u8>)
        ensures
            r@ == save_bytes_spec(self@),
    {
        let mut out: Vec<u8> = Vec::new();
        let mut i: usize = 0;
        while i < self.ram.len()
            invariant
                i <= self.ram@.len(),
                out@ == self.ram@.subrange(0, i as int),
            decreases self.ram@.len() - i,
        {
            out.push(self.ram[i]);
            proof {
                assert(out@ =~= self.ram@.subrange(0, i + 1));
            }
            i = i + 1;
        }
        proof {
            assert(out@ =~= self.ram@);
        }
        match &self.mapper {
            Mapper::Mbc3 { rtc, .. } => {
                let v: i64 = if rtc.halted {
                    rtc.halt_time
                } else {
                    rtc.offset
                };
                let u: u64 = bits_of(v);
                be_push(&mut out, u);
                out.push(if rtc.halted {
                    1
                } else {
                    0
                });
                proof {
                    assert(out@ =~= save_bytes_spec(self@));
                }
                out
            },
            _ => out,
        }
    }
}

} // verus!
