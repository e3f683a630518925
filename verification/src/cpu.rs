use vstd::prelude::*;

use crate::alu::{
    add_signed16, alu_add, alu_add16, alu_daa, alu_dec, alu_inc, alu_sub, alu_and, alu_or,
    alu_xor, nib_swap, rot_rl, rot_rlc, rot_rr, rot_rrc, rot_sla, rot_sra, rot_srl,
    sp_offset_flags, signed_val, Flags,
};
use crate::bus::{Bus, BusView};
use crate::isa::{
    exec_alu_spec, exec_cb_spec, exec_high_spec, exec_ld_spec, exec_low_spec, execute_spec,
    rot_spec, step_spec,
};

verus! {

/// The LR35902 processor core: the eight 8-bit registers, the stack
/// pointer and program counter, the four flags, the interrupt master
/// enable with its one-instruction EI delay, and the halt latch.
#[derive(Clone, Copy, PartialEq, Eq, Structural, Debug)]
pub struct Cpu {
    pub a: u8,
    pub b: u8,
    pub c: u8,
    pub d: u8,
    pub e: u8,
    pub h: u8,
    pub l: u8,
    pub pc: u16,
    pub sp: u16,
    /// The Z flag: the last flag-affecting result was zero.
    pub zerof: bool,
    /// The N flag: the last flag-affecting operation subtracted.
    pub add_subf: bool,
    /// The H flag: half-carry out of bit 3 or borrow from bit 4.
    pub half_carryf: bool,
    /// The C flag: carry out of bit 7 or 15.
    pub carryf: bool,
    /// IME, the interrupt master enable.
    pub interrupts_enabled: bool,
    /// Set while a HALT waits for an interrupt to become pending.
    pub halted: bool,
    /// Set by EI: IME turns on after the next instruction.
    pub ei_pending: bool,
}

/// The lowest-priority-order interrupt bit that is pending: VBLANK
/// before STAT before TIMER before SERIAL before JOYPAD.
pub open spec fn irq_bit(pending: u8) -> u8 {
    if pending % 2 == 1 {
        1
    } else if pending / 2 % 2 == 1 {
        2
    } else if pending / 4 % 2 == 1 {
        4
    } else if pending / 8 % 2 == 1 {
        8
    } else {
        16
    }
}

/// The handler address of an interrupt bit.
pub open spec fn irq_addr(pending: u8) -> u16 {
    if pending % 2 == 1 {
        0x40
    } else if pending / 2 % 2 == 1 {
        0x48
    } else if pending / 4 % 2 == 1 {
        0x50
    } else if pending / 8 % 2 == 1 {
        0x58
    } else {
        0x60
    }
}

/// A 16-bit value decremented by two, wrapping.
pub open spec fn sub2(x: u16) -> u16 {
    ((x - 2) % 0x10000) as u16
}

/// A byte with one interrupt bit taken out, if it was set.
pub open spec fn clear_bit(x: u8, b: u8) -> u8 {
    if b > 0 && (x as int) / (b as int) % 2 == 1 {
        (x - b) as u8
    } else {
        x
    }
}

/// The bus after an interrupt dispatch: the interrupted PC pushed at
/// the new stack top, and the taken interrupt's IF bit cleared.
pub open spec fn dispatch_bus(v: BusView, sp2: u16, pc: u16, pending: u8) -> BusView {
    let v1 = v.write16_spec(sp2, pc);
    BusView { requested_interrupts: clear_bit(v1.requested_interrupts, irq_bit(pending)), ..v1 }
}

impl Cpu {
    /// A processor with cleared registers and the stack pointer at
    /// the top of HRAM.
    pub fn new() -> (r: Cpu)
        ensures
            r == cpu_poweron(),
    {
        Cpu {
            a: 0,
            b: 0,
            c: 0,
            d: 0,
            e: 0,
            h: 0,
            l: 0,
            pc: 0,
            sp: 0xfffe,
            zerof: false,
            add_subf: false,
            half_carryf: false,
            carryf: false,
            interrupts_enabled: false,
            halted: false,
            ei_pending: false,
        }
    }

    /// Return to the reset state the driver starts emulation from:
    /// as power-on, but with the stack pointer at 0xFFF4.
    pub fn reset(&mut self)
        ensures
            *final(self) == cpu_reset_state(),
    {
        *self = Cpu::new();
        self.sp = 0xfff4;
    }

    /// The F register: the four flags in the high nibble, the low
    /// nibble always zero.
    pub fn flags(&self) -> (r: u8)
        ensures
            r == flags_byte(*self),
            r % 16 == 0,
    {
        (if self.zerof {
            128
        } else {
            0
        }) + (if self.add_subf {
            64
        } else {
            0
        }) + (if self.half_carryf {
            32
        } else {
            0
        }) + (if self.carryf {
            16
        } else {
            0
        })
    }

    /// Load the flags from an F byte; its low nibble is discarded.
    pub fn set_flags(&mut self, f: u8)
        ensures
            *final(self) == (Cpu {
                zerof: f / 128 % 2 == 1,
                add_subf: f / 64 % 2 == 1,
                half_carryf: f / 32 % 2 == 1,
                carryf: f / 16 % 2 == 1,
                ..*old(self)
            }),
    {
        self.zerof = f / 128 % 2 == 1;
        self.add_subf = f / 64 % 2 == 1;
        self.half_carryf = f / 32 % 2 == 1;
        self.carryf = f / 16 % 2 == 1;
    }

    /// Apply an ALU flag result.
    fn apply_flags(&mut self, fl: Flags)
        ensures
            *final(self) == (Cpu {
                zerof: fl.z,
                add_subf: fl.n,
                half_carryf: fl.h,
                carryf: fl.c,
                ..*old(self)
            }),
    {
        self.zerof = fl.z;
        self.add_subf = fl.n;
        self.half_carryf = fl.h;
        self.carryf = fl.c;
    }

    pub fn bc(&self) -> (r: u16)
        ensures
            r == self.b * 256 + self.c,
    {
        self.b as u16 * 256 + self.c as u16
    }

    pub fn de(&self) -> (r: u16)
        ensures
            r == self.d * 256 + self.e,
    {
        self.d as u16 * 256 + self.e as u16
    }

    pub fn hl(&self) -> (r: u16)
        ensures
            r == self.h * 256 + self.l,
    {
        self.h as u16 * 256 + self.l as u16
    }

    fn set_bc(&mut self, v: u16)
        ensures
            *final(self) == (Cpu { b: (v / 256) as u8, c: (v % 256) as u8, ..*old(self) }),
    {
        self.b = (v / 256) as u8;
        self.c = (v % 256) as u8;
    }

    fn set_de(&mut self, v: u16)
        ensures
            *final(self) == (Cpu { d: (v / 256) as u8, e: (v % 256) as u8, ..*old(self) }),
    {
        self.d = (v / 256) as u8;
        self.e = (v % 256) as u8;
    }

    fn set_hl(&mut self, v: u16)
        ensures
            *final(self) == (Cpu { h: (v / 256) as u8, l: (v % 256) as u8, ..*old(self) }),
    {
        self.h = (v / 256) as u8;
        self.l = (v % 256) as u8;
    }

    /// Fetch the byte at PC and advance PC past it.
    fn fetch8(&mut self, bus: &Bus) -> (r: u8)
        requires
            bus@.wf(),
        ensures
            r == bus@.read_spec(old(self).pc),
            *final(self) == (Cpu { pc: ((old(self).pc + 1) % 0x10000) as u16, ..*old(self) }),
    {
        let v = bus.read(self.pc);
        self.pc = ((self.pc as u32 + 1) % 0x10000) as u16;
        v
    }

    /// Fetch a 16-bit immediate, low byte first.
    fn fetch16(&mut self, bus: &Bus) -> (r: u16)
        requires
            bus@.wf(),
        ensures
            r == bus@.read_spec(old(self).pc) + bus@.read_spec(
                ((old(self).pc + 1) % 0x10000) as u16,
            ) * 256,
            *final(self) == (Cpu { pc: ((old(self).pc + 2) % 0x10000) as u16, ..*old(self) }),
    {
        let lo = self.fetch8(bus);
        let hi = self.fetch8(bus);
        lo as u16 + hi as u16 * 256
    }

    /// Push a 16-bit value: the stack pointer drops by two and the
    /// value is stored at the new stack top.
    fn push16(&mut self, bus: &mut Bus, v: u16)
        requires
            old(bus)@.wf(),
        ensures
            final(self).sp == sub2(old(self).sp),
            *final(self) == (Cpu { sp: sub2(old(self).sp), ..*old(self) }),
            final(bus)@ == old(bus)@.write16_spec(sub2(old(self).sp), v),
            final(bus)@.wf(),
    {
        self.sp = wsub16(self.sp, 2);
        bus.write16(self.sp, v);
    }

    /// Pop a 16-bit value from the stack top; the stack pointer rises
    /// by two.
    fn pop16(&mut self, bus: &Bus) -> (r: u16)
        requires
            bus@.wf(),
        ensures
            r == bus@.read16_spec(old(self).sp),
            *final(self) == (Cpu { sp: ((old(self).sp + 2) % 0x10000) as u16, ..*old(self) }),
    {
        let v = bus.read16(self.sp);
        self.sp = ((self.sp as u32 + 2) % 0x10000) as u16;
        v
    }

    /// Read operand `idx` of the regular encoding: B, C, D, E, H, L,
    /// (HL), A.
    fn read_r(&self, bus: &Bus, idx: u8) -> (r: u8)
        requires
            bus@.wf(),
            idx < 8,
        ensures
            r == read_r_spec(*self, bus@, idx),
    {
        if idx == 0 {
            self.b
        } else if idx == 1 {
            self.c
        } else if idx == 2 {
            self.d
        } else if idx == 3 {
            self.e
        } else if idx == 4 {
            self.h
        } else if idx == 5 {
            self.l
        } else if idx == 6 {
            bus.read(self.hl())
        } else {
            self.a
        }
    }

    /// Write operand `idx` of the regular encoding.
    fn write_r(&mut self, bus: &mut Bus, idx: u8, v: u8)
        requires
            old(bus)@.wf(),
            idx < 8,
        ensures
            final(bus)@.wf(),
            idx != 6 ==> *final(self) == with_r(*old(self), idx, v) && final(bus)@ == old(bus)@,
            idx == 6 ==> *final(self) == *old(self) && final(bus)@ == old(bus)@.write_spec(
                (old(self).h * 256 + old(self).l) as u16,
                v,
            ),
    {
        if idx == 0 {
            self.b = v;
        } else if idx == 1 {
            self.c = v;
        } else if idx == 2 {
            self.d = v;
        } else if idx == 3 {
            self.e = v;
        } else if idx == 4 {
            self.h = v;
        } else if idx == 5 {
            self.l = v;
        } else if idx == 6 {
            let addr = self.hl();
            bus.write(addr, v);
        } else {
            self.a = v;
        }
    }

    /// Evaluate a branch condition: NZ, Z, NC, C.
    fn cond(&self, idx: u8) -> (r: bool)
        requires
            idx < 4,
        ensures
            r == cond_spec(*self, idx),
    {
        if idx == 0 {
            !self.zerof
        } else if idx == 1 {
            self.zerof
        } else if idx == 2 {
            !self.carryf
        } else {
            self.carryf
        }
    }

    /// Execute one instruction (or dispatch one interrupt, or idle in
    /// halt) and report the T-cycles consumed.
    ///
    /// The contract pins the two cases that do not run an
    /// instruction: a halted processor with nothing pending idles for
    /// four cycles and changes nothing, and a pending, enabled
    /// interrupt with IME set is dispatched exactly as the hardware
    /// does: IME drops, the PC is pushed, the highest-priority IF bit
    /// clears, the PC lands on the handler, and twenty cycles pass.
    #[verifier::rlimit(100)]
    #[verifier::spinoff_prover]
    pub fn step(&mut self, bus: &mut Bus) -> (cycles: u32)
        requires
            old(bus)@.wf(),
        ensures
            final(bus)@.wf(),
            4 <= cycles <= 24,
            cycles % 4 == 0,
            *final(self) == step_spec(*old(self), old(bus)@).cpu,
            final(bus)@ == step_spec(*old(self), old(bus)@).bus,
            cycles == step_spec(*old(self), old(bus)@).cycles,
    {
        proof {
            reveal(crate::isa::step_spec);
        }
        let pending: u8 = bus.enabled_interrupts & bus.requested_interrupts;
        if self.halted {
            if pending == 0 {
                return 4;
            }
            self.halted = false;
        }
        if self.interrupts_enabled && pending != 0 {
            self.interrupts_enabled = false;
            let sp2 = wsub16(self.sp, 2);
            self.sp = sp2;
            bus.write16(sp2, self.pc);
            let bit: u8;
            let target: u16;
            if pending % 2 == 1 {
                bit = 1;
                target = 0x40;
            } else if pending / 2 % 2 == 1 {
                bit = 2;
                target = 0x48;
            } else if pending / 4 % 2 == 1 {
                bit = 4;
                target = 0x50;
            } else if pending / 8 % 2 == 1 {
                bit = 8;
                target = 0x58;
            } else {
                bit = 16;
                target = 0x60;
            }
            self.pc = target;
            let cur = bus.requested_interrupts;
            bus.requested_interrupts = if cur / bit % 2 == 1 {
                cur - bit
            } else {
                cur
            };
            proof {
                assert(bit == irq_bit(pending));
                assert(target == irq_addr(pending));
                assert(bus@ =~= dispatch_bus(old(bus)@, sub2(old(self).sp), old(self).pc, pending));
            }
            return 20;
        }
        let op = self.fetch8(bus);
        let enable_after = self.ei_pending && op != 0xf3;
        self.ei_pending = false;
        let cycles = self.execute(bus, op);
        if enable_after {
            self.interrupts_enabled = true;
        }
        cycles
    }

    /// Execute one fetched opcode.
    fn execute(&mut self, bus: &mut Bus, op: u8) -> (cycles: u32)
        requires
            old(bus)@.wf(),
        ensures
            final(bus)@.wf(),
            4 <= cycles <= 24,
            cycles % 4 == 0,
            *final(self) == execute_spec(*old(self), old(bus)@, op).cpu,
            final(bus)@ == execute_spec(*old(self), old(bus)@, op).bus,
            cycles == execute_spec(*old(self), old(bus)@, op).cycles,
    {
        proof {
            reveal(crate::isa::execute_spec);
        }        if op < 0x40 {
            self.exec_low(bus, op)
        } else if op < 0x80 {
            self.exec_ld(bus, op)
        } else if op < 0xc0 {
            self.exec_alu(bus, op)
        } else if op == 0xcb {
            self.exec_cb(bus)
        } else {
            self.exec_high(bus, op)
        }
    }

    /// The 8-bit register-to-register load block, 0x40-0x7F, with
    /// HALT at 0x76.
    fn exec_ld(&mut self, bus: &mut Bus, op: u8) -> (cycles: u32)
        requires
            old(bus)@.wf(),
            0x40 <= op < 0x80,
        ensures
            final(bus)@.wf(),
            cycles == 4 || cycles == 8,
            *final(self) == exec_ld_spec(*old(self), old(bus)@, op).cpu,
            final(bus)@ == exec_ld_spec(*old(self), old(bus)@, op).bus,
            cycles == exec_ld_spec(*old(self), old(bus)@, op).cycles,
    {
        proof {
            reveal(crate::isa::exec_ld_spec);
        }        if op == 0x76 {
            self.halted = true;
            return 4;
        }
        let dst = (op - 0x40) / 8;
        let src = op % 8;
        let v = self.read_r(bus, src);
        self.write_r(bus, dst, v);
        if dst == 6 || src == 6 {
            8
        } else {
            4
        }
    }

    /// The 8-bit arithmetic block, 0x80-0xBF: ADD, ADC, SUB, SBC,
    /// AND, XOR, OR and CP of an operand into A.
    fn exec_alu(&mut self, bus: &mut Bus, op: u8) -> (cycles: u32)
        requires
            old(bus)@.wf(),
            0x80 <= op < 0xc0,
        ensures
            final(bus)@ == old(bus)@,
            final(bus)@.wf(),
            cycles == 4 || cycles == 8,
            *final(self) == exec_alu_spec(*old(self), old(bus)@, op).cpu,
            final(bus)@ == exec_alu_spec(*old(self), old(bus)@, op).bus,
            cycles == exec_alu_spec(*old(self), old(bus)@, op).cycles,
    {
        proof {
            reveal(crate::isa::exec_alu_spec);
        }        let family = (op - 0x80) / 8;
        let src = op % 8;
        let v = self.read_r(bus, src);
        self.alu_apply(family, v);
        if src == 6 {
            8
        } else {
            4
        }
    }

    /// Apply one 8-bit arithmetic family to A and the flags.
    fn alu_apply(&mut self, family: u8, v: u8)
        requires
            family < 8,
        ensures
            *final(self) == alu_family_spec(*old(self), family, v),
    {
        if family == 0 {
            let (r, fl) = alu_add(self.a, v, false);
            self.a = r;
            self.apply_flags(fl);
        } else if family == 1 {
            let (r, fl) = alu_add(self.a, v, self.carryf);
            self.a = r;
            self.apply_flags(fl);
        } else if family == 2 {
            let (r, fl) = alu_sub(self.a, v, false);
            self.a = r;
            self.apply_flags(fl);
        } else if family == 3 {
            let (r, fl) = alu_sub(self.a, v, self.carryf);
            self.a = r;
            self.apply_flags(fl);
        } else if family == 4 {
            let (r, fl) = alu_and(self.a, v);
            self.a = r;
            self.apply_flags(fl);
        } else if family == 5 {
            let (r, fl) = alu_xor(self.a, v);
            self.a = r;
            self.apply_flags(fl);
        } else if family == 6 {
            let (r, fl) = alu_or(self.a, v);
            self.a = r;
            self.apply_flags(fl);
        } else {
            let (_r, fl) = alu_sub(self.a, v, false);
            self.apply_flags(fl);
        }
    }
}

/// A 16-bit add that wraps at the address-space end.
fn wadd16(x: u16, d: u16) -> (r: u16)
    ensures
        r == (x + d) % 0x10000,
{
    ((x as u32 + d as u32) % 0x10000) as u16
}

/// A 16-bit subtract that wraps at zero.
fn wsub16(x: u16, d: u16) -> (r: u16)
    ensures
        r == (x - d) % 0x10000,
{
    let v = ((x as u32 + 0x10000 - d as u32) % 0x10000) as u16;
    assert(v == (x - d) % 0x10000) by {
        let w: int = x - d;
        assert((w + 0x10000) % 0x10000 == w % 0x10000) by (nonlinear_arith);
    };
    v
}

impl Cpu {
    /// 8-bit increment: sets Z, N and H, leaves C alone.
    fn inc8(&mut self, v: u8) -> (r: u8)
        ensures
            r == (v + 1) % 256,
            *final(self) == (Cpu {
                zerof: (v + 1) % 256 == 0,
                add_subf: false,
                half_carryf: v % 16 == 15,
                ..*old(self)
            }),
    {
        let (r, z, hf) = alu_inc(v);
        self.zerof = z;
        self.add_subf = false;
        self.half_carryf = hf;
        r
    }

    /// 8-bit decrement: sets Z, N and H, leaves C alone.
    fn dec8(&mut self, v: u8) -> (r: u8)
        ensures
            r == (v - 1) % 256,
            *final(self) == (Cpu {
                zerof: (v - 1) % 256 == 0,
                add_subf: true,
                half_carryf: v % 16 == 0,
                ..*old(self)
            }),
    {
        let (r, z, hf) = alu_dec(v);
        self.zerof = z;
        self.add_subf = true;
        self.half_carryf = hf;
        r
    }

    /// `ADD HL,rr`: N clears, H is the carry out of bit 11, C the
    /// carry out of bit 15; Z is untouched.
    fn add_hl(&mut self, v: u16)
        ensures
            *final(self) == (Cpu {
                h: (((old(self).h * 256 + old(self).l + v) % 0x10000) / 256) as u8,
                l: (((old(self).h * 256 + old(self).l + v) % 0x10000) % 256) as u8,
                add_subf: false,
                half_carryf: (old(self).h * 256 + old(self).l) % 4096 + v % 4096 > 4095,
                carryf: old(self).h * 256 + old(self).l + v > 65535,
                ..*old(self)
            }),
    {
        let hl = self.hl();
        let (r, hf, cf) = alu_add16(hl, v);
        self.set_hl(r);
        self.add_subf = false;
        self.half_carryf = hf;
        self.carryf = cf;
    }

    /// Relative jump: PC moves by the signed displacement.
    fn jr(&mut self, off: u8)
        ensures
            *final(self) == (Cpu {
                pc: ((old(self).pc + signed_val(off)) % 0x10000) as u16,
                ..*old(self)
            }),
    {
        self.pc = add_signed16(self.pc, off);
    }

    /// The opcodes 0x00-0x3F: 16-bit loads and arithmetic, 8-bit
    /// increments and decrements, immediate loads, relative jumps,
    /// accumulator rotates, DAA and the flag instructions.
    #[verifier::rlimit(100)]
    #[verifier::spinoff_prover]
    fn exec_low(&mut self, bus: &mut Bus, op: u8) -> (cycles: u32)
        requires
            old(bus)@.wf(),
            op < 0x40,
        ensures
            final(bus)@.wf(),
            4 <= cycles <= 20,
            cycles % 4 == 0,
            *final(self) == exec_low_spec(*old(self), old(bus)@, op).cpu,
            final(bus)@ == exec_low_spec(*old(self), old(bus)@, op).bus,
            cycles == exec_low_spec(*old(self), old(bus)@, op).cycles,
    {
        proof {
            reveal(crate::isa::exec_low_spec);
        }        if op % 8 == 4 {
            let idx = op / 8;
            let v = self.read_r(bus, idx);
            let r = self.inc8(v);
            self.write_r(bus, idx, r);
            if idx == 6 {
                12
            } else {
                4
            }
        } else if op % 8 == 5 {
            let idx = op / 8;
            let v = self.read_r(bus, idx);
            let r = self.dec8(v);
            self.write_r(bus, idx, r);
            if idx == 6 {
                12
            } else {
                4
            }
        } else if op % 8 == 6 {
            let idx = op / 8;
            let v = self.fetch8(bus);
            self.write_r(bus, idx, v);
            if idx == 6 {
                12
            } else {
                8
            }
        } else if op == 0x00 {
            4
        } else if op == 0x01 {
            let v = self.fetch16(bus);
            self.set_bc(v);
            12
        } else if op == 0x02 {
            let addr = self.bc();
            bus.write(addr, self.a);
            8
        } else if op == 0x03 {
            let v = wadd16(self.bc(), 1);
            self.set_bc(v);
            8
        } else if op == 0x07 {
            let (r, cf) = rot_rlc(self.a);
            self.a = r;
            self.apply_flags(Flags { z: false, n: false, h: false, c: cf });
            4
        } else if op == 0x08 {
            let addr = self.fetch16(bus);
            bus.write16(addr, self.sp);
            20
        } else if op == 0x09 {
            let v = self.bc();
            self.add_hl(v);
            8
        } else if op == 0x0a {
            self.a = bus.read(self.bc());
            8
        } else if op == 0x0b {
            let v = wsub16(self.bc(), 1);
            self.set_bc(v);
            8
        } else if op == 0x0f {
            let (r, cf) = rot_rrc(self.a);
            self.a = r;
            self.apply_flags(Flags { z: false, n: false, h: false, c: cf });
            4
        } else if op == 0x10 {
            let _skipped = self.fetch8(bus);
            4
        } else if op == 0x11 {
            let v = self.fetch16(bus);
            self.set_de(v);
            12
        } else if op == 0x12 {
            let addr = self.de();
            bus.write(addr, self.a);
            8
        } else if op == 0x13 {
            let v = wadd16(self.de(), 1);
            self.set_de(v);
            8
        } else if op == 0x17 {
            let (r, cf) = rot_rl(self.a, self.carryf);
            self.a = r;
            self.apply_flags(Flags { z: false, n: false, h: false, c: cf });
            4
        } else if op == 0x18 {
            let off = self.fetch8(bus);
            self.jr(off);
            12
        } else if op == 0x19 {
            let v = self.de();
            self.add_hl(v);
            8
        } else if op == 0x1a {
            self.a = bus.read(self.de());
            8
        } else if op == 0x1b {
            let v = wsub16(self.de(), 1);
            self.set_de(v);
            8
        } else if op == 0x1f {
            let (r, cf) = rot_rr(self.a, self.carryf);
            self.a = r;
            self.apply_flags(Flags { z: false, n: false, h: false, c: cf });
            4
        } else if op == 0x20 || op == 0x28 || op == 0x30 || op == 0x38 {
            let idx = (op - 0x20) / 8;
            let off = self.fetch8(bus);
            if self.cond(idx) {
                self.jr(off);
                12
            } else {
                8
            }
        } else if op == 0x21 {
            let v = self.fetch16(bus);
            self.set_hl(v);
            12
        } else if op == 0x22 {
            let addr = self.hl();
            bus.write(addr, self.a);
            let v = wadd16(addr, 1);
            self.set_hl(v);
            8
        } else if op == 0x23 {
            let v = wadd16(self.hl(), 1);
            self.set_hl(v);
            8
        } else if op == 0x27 {
            let fl = Flags {
                z: self.zerof,
                n: self.add_subf,
                h: self.half_carryf,
                c: self.carryf,
            };
            let (r, fl2) = alu_daa(self.a, fl);
            self.a = r;
            self.apply_flags(fl2);
            4
        } else if op == 0x29 {
            let v = self.hl();
            self.add_hl(v);
            8
        } else if op == 0x2a {
            let addr = self.hl();
            self.a = bus.read(addr);
            let v = wadd16(addr, 1);
            self.set_hl(v);
            8
        } else if op == 0x2b {
            let v = wsub16(self.hl(), 1);
            self.set_hl(v);
            8
        } else if op == 0x2f {
            self.a = 255 - self.a;
            self.add_subf = true;
            self.half_carryf = true;
            4
        } else if op == 0x31 {
            self.sp = self.fetch16(bus);
            12
        } else if op == 0x32 {
            let addr = self.hl();
            bus.write(addr, self.a);
            let v = wsub16(addr, 1);
            self.set_hl(v);
            8
        } else if op == 0x33 {
            self.sp = wadd16(self.sp, 1);
            8
        } else if op == 0x37 {
            self.add_subf = false;
            self.half_carryf = false;
            self.carryf = true;
            4
        } else if op == 0x39 {
            let v = self.sp;
            self.add_hl(v);
            8
        } else if op == 0x3a {
            let addr = self.hl();
            self.a = bus.read(addr);
            let v = wsub16(addr, 1);
            self.set_hl(v);
            8
        } else if op == 0x3b {
            self.sp = wsub16(self.sp, 1);
            8
        } else if op == 0x3f {
            self.add_subf = false;
            self.half_carryf = false;
            self.carryf = !self.carryf;
            4
        } else {
            4
        }
    }

    /// The opcodes 0xC0-0xFF: stack operations, absolute jumps,
    /// calls, returns, restarts, the IO-page loads, immediate
    /// arithmetic, the interrupt-enable instructions, and the CB
    /// prefix.
    fn exec_high(&mut self, bus: &mut Bus, op: u8) -> (cycles: u32)
        requires
            old(bus)@.wf(),
            0xc0 <= op,
            op != 0xcb,
        ensures
            final(bus)@.wf(),
            4 <= cycles <= 24,
            cycles % 4 == 0,
            *final(self) == exec_high_spec(*old(self), old(bus)@, op).cpu,
            final(bus)@ == exec_high_spec(*old(self), old(bus)@, op).bus,
            cycles == exec_high_spec(*old(self), old(bus)@, op).cycles,
    {
        proof {
            reveal(crate::isa::exec_high_spec);
        }        if op == 0xe0 || op == 0xf0 || op == 0xe2 || op == 0xf2 || op == 0xe8 || op == 0xe9 || op
            == 0xea || op == 0xfa || op == 0xf3 || op == 0xfb || op == 0xf8 || op == 0xf9 || op
            == 0xd3 || op == 0xdb || op == 0xdd || op == 0xe3 || op == 0xe4 || op == 0xeb || op
            == 0xec || op == 0xed || op == 0xf4 || op == 0xfc || op == 0xfd {
            self.exec_high_e(bus, op)
        } else {
            self.exec_high_c(bus, op)
        }
    }

    /// The opcodes 0xC0-0xDF: returns, pops, jumps, calls, pushes,
    /// immediate arithmetic and restarts of the first two rows.
    #[verifier::rlimit(100)]
    #[verifier::spinoff_prover]
    fn exec_high_c(&mut self, bus: &mut Bus, op: u8) -> (cycles: u32)
        requires
            old(bus)@.wf(),
            0xc0 <= op,
            op != 0xcb,
            !(op == 0xe0 || op == 0xf0 || op == 0xe2 || op == 0xf2 || op == 0xe8 || op == 0xe9
                || op == 0xea || op == 0xfa || op == 0xf3 || op == 0xfb || op == 0xf8 || op == 0xf9
                || op == 0xd3 || op == 0xdb || op == 0xdd || op == 0xe3 || op == 0xe4 || op == 0xeb
                || op == 0xec || op == 0xed || op == 0xf4 || op == 0xfc || op == 0xfd),
        ensures
            final(bus)@.wf(),
            4 <= cycles <= 24,
            cycles % 4 == 0,
            *final(self) == exec_high_spec(*old(self), old(bus)@, op).cpu,
            final(bus)@ == exec_high_spec(*old(self), old(bus)@, op).bus,
            cycles == exec_high_spec(*old(self), old(bus)@, op).cycles,
    {
        proof {
            reveal(crate::isa::exec_high_spec);
        }        if (op == 0xc0 || op == 0xc8 || op == 0xd0 || op == 0xd8) {
            let idx = (op - 0xc0) / 8;
            if self.cond(idx) {
                self.pc = self.pop16(bus);
                20
            } else {
                8
            }
        } else if op == 0xc1 {
            let v = self.pop16(bus);
            self.set_bc(v);
            12
        } else if op == 0xd1 {
            let v = self.pop16(bus);
            self.set_de(v);
            12
        } else if op == 0xe1 {
            let v = self.pop16(bus);
            self.set_hl(v);
            12
        } else if op == 0xf1 {
            let v = self.pop16(bus);
            self.a = (v / 256) as u8;
            self.set_flags((v % 256) as u8);
            12
        } else if (op == 0xc2 || op == 0xca || op == 0xd2 || op == 0xda) {
            let idx = (op - 0xc2) / 8;
            let addr = self.fetch16(bus);
            if self.cond(idx) {
                self.pc = addr;
                16
            } else {
                12
            }
        } else if op == 0xc3 {
            self.pc = self.fetch16(bus);
            16
        } else if (op == 0xc4 || op == 0xcc || op == 0xd4 || op == 0xdc) {
            let idx = (op - 0xc4) / 8;
            let addr = self.fetch16(bus);
            if self.cond(idx) {
                let pc = self.pc;
                self.push16(bus, pc);
                self.pc = addr;
                24
            } else {
                12
            }
        } else if op == 0xc5 {
            let v = self.bc();
            self.push16(bus, v);
            16
        } else if op == 0xd5 {
            let v = self.de();
            self.push16(bus, v);
            16
        } else if op == 0xe5 {
            let v = self.hl();
            self.push16(bus, v);
            16
        } else if op == 0xf5 {
            let v = self.a as u16 * 256 + self.flags() as u16;
            self.push16(bus, v);
            16
        } else if op % 8 == 6 {
            let family = (op - 0xc0) / 8;
            let v = self.fetch8(bus);
            self.alu_apply(family, v);
            8
        } else if op % 8 == 7 {
            let target = (op - 0xc7) as u16;
            let pc = self.pc;
            self.push16(bus, pc);
            self.pc = target;
            16
        } else if op == 0xcd {
            let addr = self.fetch16(bus);
            let pc = self.pc;
            self.push16(bus, pc);
            self.pc = addr;
            24
        } else if op == 0xc9 {
            self.pc = self.pop16(bus);
            16
        } else if op == 0xd9 {
            self.interrupts_enabled = true;
            self.pc = self.pop16(bus);
            16
        } else {
            4
        }
    }

    /// The opcodes 0xE0-0xFF: the IO-page loads, stack-pointer
    /// arithmetic, absolute loads of A, and the interrupt-enable
    /// instructions.
    #[verifier::rlimit(100)]
    #[verifier::spinoff_prover]
    fn exec_high_e(&mut self, bus: &mut Bus, op: u8) -> (cycles: u32)
        requires
            old(bus)@.wf(),
            0xc0 <= op,
            op == 0xe0 || op == 0xf0 || op == 0xe2 || op == 0xf2 || op == 0xe8 || op == 0xe9 || op
                == 0xea || op == 0xfa || op == 0xf3 || op == 0xfb || op == 0xf8 || op == 0xf9 || op
                == 0xd3 || op == 0xdb || op == 0xdd || op == 0xe3 || op == 0xe4 || op == 0xeb || op
                == 0xec || op == 0xed || op == 0xf4 || op == 0xfc || op == 0xfd,
        ensures
            final(bus)@.wf(),
            4 <= cycles <= 24,
            cycles % 4 == 0,
            *final(self) == exec_high_spec(*old(self), old(bus)@, op).cpu,
            final(bus)@ == exec_high_spec(*old(self), old(bus)@, op).bus,
            cycles == exec_high_spec(*old(self), old(bus)@, op).cycles,
    {
        proof {
            reveal(crate::isa::exec_high_spec);
        }        if op == 0xe0 {
            let a8 = self.fetch8(bus);
            bus.write(0xff00 + a8 as u16, self.a);
            12
        } else if op == 0xf0 {
            let a8 = self.fetch8(bus);
            self.a = bus.read(0xff00 + a8 as u16);
            12
        } else if op == 0xe2 {
            bus.write(0xff00 + self.c as u16, self.a);
            8
        } else if op == 0xf2 {
            self.a = bus.read(0xff00 + self.c as u16);
            8
        } else if op == 0xe8 {
            let off = self.fetch8(bus);
            let fl = sp_offset_flags(self.sp, off);
            self.sp = add_signed16(self.sp, off);
            self.apply_flags(fl);
            16
        } else if op == 0xe9 {
            self.pc = self.hl();
            4
        } else if op == 0xea {
            let addr = self.fetch16(bus);
            bus.write(addr, self.a);
            16
        } else if op == 0xfa {
            let addr = self.fetch16(bus);
            self.a = bus.read(addr);
            16
        } else if op == 0xf3 {
            self.interrupts_enabled = false;
            self.ei_pending = false;
            4
        } else if op == 0xfb {
            self.ei_pending = true;
            4
        } else if op == 0xf8 {
            let off = self.fetch8(bus);
            let fl = sp_offset_flags(self.sp, off);
            let v = add_signed16(self.sp, off);
            self.set_hl(v);
            self.apply_flags(fl);
            12
        } else if op == 0xf9 {
            self.sp = self.hl();
            8
        } else {
            4
        }
    }


    /// The CB-prefixed set: rotates, shifts and SWAP, then BIT, RES
    /// and SET over the regular operand encoding.
    #[verifier::rlimit(100)]
    #[verifier::spinoff_prover]
    fn exec_cb(&mut self, bus: &mut Bus) -> (cycles: u32)
        requires
            old(bus)@.wf(),
        ensures
            final(bus)@.wf(),
            4 <= cycles <= 16,
            cycles % 4 == 0,
            *final(self) == exec_cb_spec(*old(self), old(bus)@).cpu,
            final(bus)@ == exec_cb_spec(*old(self), old(bus)@).bus,
            cycles == exec_cb_spec(*old(self), old(bus)@).cycles,
    {
        proof {
            reveal(crate::isa::exec_cb_spec);
        }        let op = self.fetch8(bus);
        let idx = op % 8;
        let y = op / 8 % 8;
        if op < 0x40 {
            let v = self.read_r(bus, idx);
            let r = self.rot_apply(y, v);
            self.write_r(bus, idx, r);
            if idx == 6 {
                16
            } else {
                8
            }
        } else if op < 0x80 {
            let v = self.read_r(bus, idx);
            self.bit(v, y);
            if idx == 6 {
                12
            } else {
                8
            }
        } else if op < 0xc0 {
            let v = self.read_r(bus, idx);
            let r = self.res(v, y);
            self.write_r(bus, idx, r);
            if idx == 6 {
                16
            } else {
                8
            }
        } else {
            let v = self.read_r(bus, idx);
            let r = self.set_bit(v, y);
            self.write_r(bus, idx, r);
            if idx == 6 {
                16
            } else {
                8
            }
        }
    }

    /// Apply one of the eight CB rotate/shift families.
    fn rot_apply(&mut self, y: u8, v: u8) -> (r: u8)
        requires
            y < 8,
        ensures
            (*final(self), r) == rot_spec(*old(self), y, v),
    {
        if y == 0 {
            self.rlc(v)
        } else if y == 1 {
            self.rrc(v)
        } else if y == 2 {
            self.rl(v)
        } else if y == 3 {
            self.rr(v)
        } else if y == 4 {
            self.sla(v)
        } else if y == 5 {
            self.sra(v)
        } else if y == 6 {
            self.swap(v)
        } else {
            self.srl(v)
        }
    }

    /// Rotate left circular, CB form: Z tracks the result.
    pub fn rlc(&mut self, v: u8) -> (r: u8)
        ensures
            r == (v * 2) % 256 + v / 128,
            *final(self) == (Cpu {
                zerof: ((v * 2) % 256 + v / 128) == 0,
                add_subf: false,
                half_carryf: false,
                carryf: v >= 128,
                ..*old(self)
            }),
    {
        let (r, cf) = rot_rlc(v);
        self.apply_flags(Flags { z: r == 0, n: false, h: false, c: cf });
        r
    }

    /// Rotate right circular, CB form.
    pub fn rrc(&mut self, v: u8) -> (r: u8)
        ensures
            r == v / 2 + (v % 2) * 128,
            *final(self) == (Cpu {
                zerof: (v / 2 + (v % 2) * 128) == 0,
                add_subf: false,
                half_carryf: false,
                carryf: v % 2 == 1,
                ..*old(self)
            }),
    {
        let (r, cf) = rot_rrc(v);
        self.apply_flags(Flags { z: r == 0, n: false, h: false, c: cf });
        r
    }

    /// Rotate left through the carry, CB form.
    pub fn rl(&mut self, v: u8) -> (r: u8)
        ensures
            r == (v * 2) % 256 + (if old(self).carryf { 1int } else { 0 }),
            *final(self) == (Cpu {
                zerof: ((v * 2) % 256 + (if old(self).carryf { 1int } else { 0 })) == 0,
                add_subf: false,
                half_carryf: false,
                carryf: v >= 128,
                ..*old(self)
            }),
    {
        let (r, cf) = rot_rl(v, self.carryf);
        self.apply_flags(Flags { z: r == 0, n: false, h: false, c: cf });
        r
    }

    /// Rotate right through the carry, CB form.
    pub fn rr(&mut self, v: u8) -> (r: u8)
        ensures
            r == v / 2 + (if old(self).carryf { 128int } else { 0 }),
            *final(self) == (Cpu {
                zerof: (v / 2 + (if old(self).carryf { 128int } else { 0 })) == 0,
                add_subf: false,
                half_carryf: false,
                carryf: v % 2 == 1,
                ..*old(self)
            }),
    {
        let (r, cf) = rot_rr(v, self.carryf);
        self.apply_flags(Flags { z: r == 0, n: false, h: false, c: cf });
        r
    }

    /// Arithmetic shift left.
    pub fn sla(&mut self, v: u8) -> (r: u8)
        ensures
            r == (v * 2) % 256,
            *final(self) == (Cpu {
                zerof: (v * 2) % 256 == 0,
                add_subf: false,
                half_carryf: false,
                carryf: v >= 128,
                ..*old(self)
            }),
    {
        let (r, cf) = rot_sla(v);
        self.apply_flags(Flags { z: r == 0, n: false, h: false, c: cf });
        r
    }

    /// Arithmetic shift right: bit 7 is kept.
    pub fn sra(&mut self, v: u8) -> (r: u8)
        ensures
            r == v / 2 + (v / 128) * 128,
            *final(self) == (Cpu {
                zerof: (v / 2 + (v / 128) * 128) == 0,
                add_subf: false,
                half_carryf: false,
                carryf: v % 2 == 1,
                ..*old(self)
            }),
    {
        let (r, cf) = rot_sra(v);
        self.apply_flags(Flags { z: r == 0, n: false, h: false, c: cf });
        r
    }

    /// Swap the two nibbles; all of N, H and C clear.
    pub fn swap(&mut self, v: u8) -> (r: u8)
        ensures
            r == (v % 16) * 16 + v / 16,
            *final(self) == (Cpu {
                zerof: ((v % 16) * 16 + v / 16) == 0,
                add_subf: false,
                half_carryf: false,
                carryf: false,
                ..*old(self)
            }),
    {
        let r = nib_swap(v);
        self.apply_flags(Flags { z: r == 0, n: false, h: false, c: false });
        r
    }

    /// Logical shift right: bit 7 clears.
    pub fn srl(&mut self, v: u8) -> (r: u8)
        ensures
            r == v / 2,
            *final(self) == (Cpu {
                zerof: v / 2 == 0,
                add_subf: false,
                half_carryf: false,
                carryf: v % 2 == 1,
                ..*old(self)
            }),
    {
        let (r, cf) = rot_srl(v);
        self.apply_flags(Flags { z: r == 0, n: false, h: false, c: cf });
        r
    }

    /// `BIT n,r`: Z reports whether the tested bit is clear; C is
    /// untouched.
    pub fn bit(&mut self, v: u8, n: u8)
        requires
            n < 8,
        ensures
            *final(self) == (Cpu {
                zerof: (v >> n) & 1 == 0,
                add_subf: false,
                half_carryf: true,
                ..*old(self)
            }),
    {
        self.zerof = (v >> n) & 1 == 0;
        self.add_subf = false;
        self.half_carryf = true;
    }

    /// `RES n,r`: clear one bit.
    pub fn res(&self, v: u8, n: u8) -> (r: u8)
        requires
            n < 8,
        ensures
            r == (v & !(1u8 << n)),
    {
        v & !(1u8 << n)
    }

    /// `SET n,r`: set one bit.
    pub fn set_bit(&self, v: u8, n: u8) -> (r: u8)
        requires
            n < 8,
        ensures
            r == (v | (1u8 << n)),
    {
        v | (1u8 << n)
    }
}

/// The processor state an 8-bit arithmetic family leaves behind: the
/// result in A (except for CP, which only compares) and the four
/// flags as the LR35902 defines them for that family.
pub open spec fn alu_family_spec(c: Cpu, family: u8, v: u8) -> Cpu {
    let cin: int = if c.carryf {
        1
    } else {
        0
    };
    if family == 0 {
        Cpu {
            a: ((c.a + v) % 256) as u8,
            zerof: (c.a + v) % 256 == 0,
            add_subf: false,
            half_carryf: c.a % 16 + v % 16 > 15,
            carryf: c.a + v > 255,
            ..c
        }
    } else if family == 1 {
        Cpu {
            a: ((c.a + v + cin) % 256) as u8,
            zerof: (c.a + v + cin) % 256 == 0,
            add_subf: false,
            half_carryf: c.a % 16 + v % 16 + cin > 15,
            carryf: c.a + v + cin > 255,
            ..c
        }
    } else if family == 2 {
        Cpu {
            a: ((c.a - v) % 256) as u8,
            zerof: (c.a - v) % 256 == 0,
            add_subf: true,
            half_carryf: c.a % 16 < v % 16,
            carryf: c.a < v,
            ..c
        }
    } else if family == 3 {
        Cpu {
            a: ((c.a - v - cin) % 256) as u8,
            zerof: (c.a - v - cin) % 256 == 0,
            add_subf: true,
            half_carryf: c.a % 16 < v % 16 + cin,
            carryf: c.a < v + cin,
            ..c
        }
    } else if family == 4 {
        Cpu {
            a: (c.a & v) as u8,
            zerof: (c.a & v) == 0,
            add_subf: false,
            half_carryf: true,
            carryf: false,
            ..c
        }
    } else if family == 5 {
        Cpu {
            a: (c.a ^ v) as u8,
            zerof: (c.a ^ v) == 0,
            add_subf: false,
            half_carryf: false,
            carryf: false,
            ..c
        }
    } else if family == 6 {
        Cpu {
            a: (c.a | v) as u8,
            zerof: (c.a | v) == 0,
            add_subf: false,
            half_carryf: false,
            carryf: false,
            ..c
        }
    } else {
        Cpu {
            zerof: (c.a - v) % 256 == 0,
            add_subf: true,
            half_carryf: c.a % 16 < v % 16,
            carryf: c.a < v,
            ..c
        }
    }
}

/// The value operand `idx` of the regular encoding denotes: B, C, D,
/// E, H, L, the byte at (HL), or A.
pub open spec fn read_r_spec(c: Cpu, b: BusView, idx: u8) -> u8 {
    if idx == 0 {
        c.b
    } else if idx == 1 {
        c.c
    } else if idx == 2 {
        c.d
    } else if idx == 3 {
        c.e
    } else if idx == 4 {
        c.h
    } else if idx == 5 {
        c.l
    } else if idx == 6 {
        b.read_spec((c.h * 256 + c.l) as u16)
    } else {
        c.a
    }
}

/// A processor with one 8-bit register of the regular encoding
/// replaced (every operand but the memory one).
pub open spec fn with_r(c: Cpu, idx: u8, v: u8) -> Cpu {
    if idx == 0 {
        Cpu { b: v, ..c }
    } else if idx == 1 {
        Cpu { c: v, ..c }
    } else if idx == 2 {
        Cpu { d: v, ..c }
    } else if idx == 3 {
        Cpu { e: v, ..c }
    } else if idx == 4 {
        Cpu { h: v, ..c }
    } else if idx == 5 {
        Cpu { l: v, ..c }
    } else {
        Cpu { a: v, ..c }
    }
}

/// The F register's byte encoding of the four flags.
pub open spec fn flags_byte(c: Cpu) -> u8 {
    ((if c.zerof {
        128int
    } else {
        0
    }) + (if c.add_subf {
        64int
    } else {
        0
    }) + (if c.half_carryf {
        32int
    } else {
        0
    }) + (if c.carryf {
        16int
    } else {
        0
    })) as u8
}

/// The state `reset` leaves: power-on registers with the stack
/// pointer at 0xFFF4.
pub open spec fn cpu_reset_state() -> Cpu {
    Cpu { sp: 0xfff4, ..cpu_poweron() }
}

/// The power-on processor state.
pub open spec fn cpu_poweron() -> Cpu {
    Cpu {
        a: 0,
        b: 0,
        c: 0,
        d: 0,
        e: 0,
        h: 0,
        l: 0,
        pc: 0,
        sp: 0xfffe,
        zerof: false,
        add_subf: false,
        half_carryf: false,
        carryf: false,
        interrupts_enabled: false,
        halted: false,
        ei_pending: false,
    }
}

/// After PUSH and then POP through the same stack top, the popped
/// word equals the pushed word, whenever the stack lies in plain
/// work or high RAM.  Together with the exact `push16`/`pop16`
/// contracts, a pushed register pair is restored exactly; for AF, the
/// low nibble of F is zero by construction (`Cpu::flags`).
pub proof fn lemma_push_pop(v: BusView, sp: u16, val: u16)
    requires
        v.wf(),
        crate::bus::plain_ram16(sub2(sp)),
    ensures
        v.write16_spec(sub2(sp), val).read16_spec(sub2(sp)) == val,
{
    crate::bus::lemma_write16_read16(v, sub2(sp), val);
}

/// The branch conditions NZ, Z, NC, C.
pub open spec fn cond_spec(c: Cpu, idx: u8) -> bool {
    if idx == 0 {
        !c.zerof
    } else if idx == 1 {
        c.zerof
    } else if idx == 2 {
        !c.carryf
    } else {
        c.carryf
    }
}

} // verus!
