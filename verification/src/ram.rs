use vstd::prelude::*;

verus! {

/// Work RAM (C000-DFFF, echoed at E000-FDFF) and high RAM (FF80-FFFE).
pub struct Ram {
    pub wram: Vec<u8>,
    pub hram: Vec<u8>,
}

/// The mathematical model of the RAM unit: the two byte arrays.
#[verifier::ext_equal]
pub struct RamView {
    pub wram: Seq<u8>,
    pub hram: Seq<u8>,
}

impl View for Ram {
    type V = RamView;

    open spec fn view(&self) -> RamView {
        RamView { wram: self.wram@, hram: self.hram@ }
    }
}

/// Whether a bus address belongs to this unit (after the echo range is
/// folded back by the bus).
pub open spec fn ram_addr(addr: u16) -> bool {
    (0xc000 <= addr < 0xe000) || (0xff80 <= addr <= 0xfffe)
}

impl RamView {
    /// The two arrays always keep their power-on sizes.
    pub open spec fn wf(self) -> bool {
        self.wram.len() == 0x2000 && self.hram.len() == 0x7f
    }

    /// The byte this unit holds for a bus address.
    pub open spec fn read_spec(self, addr: u16) -> u8 {
        if addr < 0xe000 {
            self.wram[addr - 0xc000]
        } else {
            self.hram[addr - 0xff80]
        }
    }

    /// The unit after a write to a bus address.
    pub open spec fn write_spec(self, addr: u16, val: u8) -> RamView {
        if addr < 0xe000 {
            RamView { wram: self.wram.update(addr - 0xc000, val), ..self }
        } else {
            RamView { hram: self.hram.update(addr - 0xff80, val), ..self }
        }
    }
}

impl Ram {
    /// Zero-filled RAM.
    pub fn new() -> (r: Ram)
        ensures
            r@.wf(),
            forall|addr: u16| ram_addr(addr) ==> r@.read_spec(addr) == 0,
    {
        let mut wram: Vec<u8> = Vec::new();
        wram.resize(0x2000, 0u8);
        let mut hram: Vec<u8> = Vec::new();
        hram.resize(0x7f, 0u8);
        Ram { wram, hram }
    }

    pub fn read(&self, addr: u16) -> (r: u8)
        requires
            self@.wf(),
            ram_addr(addr),
        ensures
            r == self@.read_spec(addr),
    {
        if addr < 0xe000 {
            self.wram[(addr - 0xc000) as usize]
        } else {
            self.hram[(addr - 0xff80) as usize]
        }
    }

    pub fn write(&mut self, addr: u16, val: u8)
        requires
            old(self)@.wf(),
            ram_addr(addr),
        ensures
            final(self)@ == old(self)@.write_spec(addr, val),
    {
        if addr < 0xe000 {
            self.wram.set((addr - 0xc000) as usize, val);
        } else {
            self.hram.set((addr - 0xff80) as usize, val);
        }
        proof {
            assert(self@ =~= old(self)@.write_spec(addr, val));
        }
    }
}

} // verus!
