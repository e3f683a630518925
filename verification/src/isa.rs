use vstd::prelude::*;

use crate::alu::{daa_add_spec, daa_sub_spec, signed_val};
use crate::bus::BusView;
use crate::cpu::{
    alu_family_spec, cond_spec, dispatch_bus, flags_byte, irq_addr, read_r_spec, sub2, with_r, Cpu,
};

verus! {

/// The complete outcome of one processor step: the new processor
/// state, the new bus, and the T-cycles consumed.
pub struct StepOut {
    pub cpu: Cpu,
    pub bus: BusView,
    pub cycles: u32,
}

/// A 16-bit value wrapped into the address space.
pub open spec fn w16(x: int) -> u16 {
    (x % 0x10000) as u16
}

/// The 16-bit register pairs.
pub open spec fn bc_of(c: Cpu) -> u16 {
    (c.b * 256 + c.c) as u16
}

pub open spec fn de_of(c: Cpu) -> u16 {
    (c.d * 256 + c.e) as u16
}

pub open spec fn hl_of(c: Cpu) -> u16 {
    (c.h * 256 + c.l) as u16
}

/// A processor with one register pair replaced.
pub open spec fn with_bc(c: Cpu, v: u16) -> Cpu {
    Cpu { b: (v / 256) as u8, c: (v % 256) as u8, ..c }
}

pub open spec fn with_de(c: Cpu, v: u16) -> Cpu {
    Cpu { d: (v / 256) as u8, e: (v % 256) as u8, ..c }
}

pub open spec fn with_hl(c: Cpu, v: u16) -> Cpu {
    Cpu { h: (v / 256) as u8, l: (v % 256) as u8, ..c }
}

/// A processor whose PC moved by `n`, wrapping.
pub open spec fn pc_add(c: Cpu, n: int) -> Cpu {
    Cpu { pc: w16(c.pc + n), ..c }
}

/// A processor with all four flags replaced.
pub open spec fn flags_set(c: Cpu, z: bool, n: bool, h: bool, cf: bool) -> Cpu {
    Cpu { zerof: z, add_subf: n, half_carryf: h, carryf: cf, ..c }
}

/// The 8-bit immediate after the opcode.
pub open spec fn imm8(c: Cpu, b: BusView) -> u8 {
    b.read_spec(c.pc)
}

/// The 16-bit immediate after the opcode, low byte first.
pub open spec fn imm16(c: Cpu, b: BusView) -> u16 {
    (b.read_spec(c.pc) + b.read_spec(w16(c.pc + 1)) * 256) as u16
}

/// `ADD HL,rr`: the new HL with N cleared, H the carry out of bit 11
/// and C the carry out of bit 15.
pub open spec fn add_hl_spec(c: Cpu, v: u16) -> Cpu {
    Cpu {
        h: (((c.h * 256 + c.l + v) % 0x10000) / 256) as u8,
        l: (((c.h * 256 + c.l + v) % 0x10000) % 256) as u8,
        add_subf: false,
        half_carryf: (c.h * 256 + c.l) % 4096 + v % 4096 > 4095,
        carryf: c.h * 256 + c.l + v > 65535,
        ..c
    }
}

/// The flags of `ADD SP,r8` and `LD HL,SP+r8`: Z and N clear, H and C
/// from the unsigned add of the displacement byte to the low byte of
/// SP.
pub open spec fn sp_off_flags(c: Cpu, off: u8) -> Cpu {
    flags_set(c, false, false, c.sp % 16 + off % 16 > 15, c.sp % 256 + off > 255)
}

/// One CB rotate/shift family applied to a value: the new flags and
/// the result.  Z tracks the result; N and H clear.
pub open spec fn rot_spec(c: Cpu, y: u8, v: u8) -> (Cpu, u8) {
    let r: u8 = if y == 0 {
        ((v * 2) % 256 + v / 128) as u8
    } else if y == 1 {
        (v / 2 + (v % 2) * 128) as u8
    } else if y == 2 {
        ((v * 2) % 256 + (if c.carryf {
            1int
        } else {
            0
        })) as u8
    } else if y == 3 {
        (v / 2 + (if c.carryf {
            128int
        } else {
            0
        })) as u8
    } else if y == 4 {
        ((v * 2) % 256) as u8
    } else if y == 5 {
        (v / 2 + (v / 128) * 128) as u8
    } else if y == 6 {
        ((v % 16) * 16 + v / 16) as u8
    } else {
        (v / 2) as u8
    };
    let cf: bool = if y == 0 || y == 2 || y == 4 {
        v >= 128
    } else if y == 6 {
        false
    } else {
        v % 2 == 1
    };
    (flags_set(c, r == 0, false, false, cf), r)
}

/// The opcodes 0x00-0x3F, entered with PC already past the opcode.
#[verifier::opaque]
pub open spec fn exec_low_spec(c: Cpu, b: BusView, op: u8) -> StepOut {
    if op % 8 == 4 {
        let idx = (op / 8) as u8;
        let v = read_r_spec(c, b, idx);
        let r = ((v + 1) % 256) as u8;
        let c1 = Cpu {
            zerof: (v + 1) % 256 == 0,
            add_subf: false,
            half_carryf: v % 16 == 15,
            ..c
        };
        if idx == 6 {
            StepOut { cpu: c1, bus: b.write_spec(hl_of(c1), r), cycles: 12 }
        } else {
            StepOut { cpu: with_r(c1, idx, r), bus: b, cycles: 4 }
        }
    } else if op % 8 == 5 {
        let idx = (op / 8) as u8;
        let v = read_r_spec(c, b, idx);
        let r = ((v - 1) % 256) as u8;
        let c1 = Cpu {
            zerof: (v - 1) % 256 == 0,
            add_subf: true,
            half_carryf: v % 16 == 0,
            ..c
        };
        if idx == 6 {
            StepOut { cpu: c1, bus: b.write_spec(hl_of(c1), r), cycles: 12 }
        } else {
            StepOut { cpu: with_r(c1, idx, r), bus: b, cycles: 4 }
        }
    } else if op % 8 == 6 {
        let idx = (op / 8) as u8;
        let v = imm8(c, b);
        let c1 = pc_add(c, 1);
        if idx == 6 {
            StepOut { cpu: c1, bus: b.write_spec(hl_of(c1), v), cycles: 12 }
        } else {
            StepOut { cpu: with_r(c1, idx, v), bus: b, cycles: 8 }
        }
    } else if op == 0x00 {
        StepOut { cpu: c, bus: b, cycles: 4 }
    } else if op == 0x01 {
        StepOut { cpu: with_bc(pc_add(c, 2), imm16(c, b)), bus: b, cycles: 12 }
    } else if op == 0x02 {
        StepOut { cpu: c, bus: b.write_spec(bc_of(c), c.a), cycles: 8 }
    } else if op == 0x03 {
        StepOut { cpu: with_bc(c, w16(bc_of(c) + 1)), bus: b, cycles: 8 }
    } else if op == 0x07 {
        let r = ((c.a * 2) % 256 + c.a / 128) as u8;
        StepOut { cpu: flags_set(Cpu { a: r, ..c }, false, false, false, c.a >= 128), bus: b, cycles: 4 }
    } else if op == 0x08 {
        StepOut { cpu: pc_add(c, 2), bus: b.write16_spec(imm16(c, b), c.sp), cycles: 20 }
    } else if op == 0x09 {
        StepOut { cpu: add_hl_spec(c, bc_of(c)), bus: b, cycles: 8 }
    } else if op == 0x0a {
        StepOut { cpu: Cpu { a: b.read_spec(bc_of(c)), ..c }, bus: b, cycles: 8 }
    } else if op == 0x0b {
        StepOut { cpu: with_bc(c, w16(bc_of(c) - 1)), bus: b, cycles: 8 }
    } else if op == 0x0f {
        let r = (c.a / 2 + (c.a % 2) * 128) as u8;
        StepOut {
            cpu: flags_set(Cpu { a: r, ..c }, false, false, false, c.a % 2 == 1),
            bus: b,
            cycles: 4,
        }
    } else if op == 0x10 {
        StepOut { cpu: pc_add(c, 1), bus: b, cycles: 4 }
    } else if op == 0x11 {
        StepOut { cpu: with_de(pc_add(c, 2), imm16(c, b)), bus: b, cycles: 12 }
    } else if op == 0x12 {
        StepOut { cpu: c, bus: b.write_spec(de_of(c), c.a), cycles: 8 }
    } else if op == 0x13 {
        StepOut { cpu: with_de(c, w16(de_of(c) + 1)), bus: b, cycles: 8 }
    } else if op == 0x17 {
        let r = ((c.a * 2) % 256 + (if c.carryf {
            1int
        } else {
            0
        })) as u8;
        StepOut { cpu: flags_set(Cpu { a: r, ..c }, false, false, false, c.a >= 128), bus: b, cycles: 4 }
    } else if op == 0x18 {
        let off = imm8(c, b);
        let c1 = pc_add(c, 1);
        StepOut { cpu: Cpu { pc: w16(c1.pc + signed_val(off)), ..c1 }, bus: b, cycles: 12 }
    } else if op == 0x19 {
        StepOut { cpu: add_hl_spec(c, de_of(c)), bus: b, cycles: 8 }
    } else if op == 0x1a {
        StepOut { cpu: Cpu { a: b.read_spec(de_of(c)), ..c }, bus: b, cycles: 8 }
    } else if op == 0x1b {
        StepOut { cpu: with_de(c, w16(de_of(c) - 1)), bus: b, cycles: 8 }
    } else if op == 0x1f {
        let r = (c.a / 2 + (if c.carryf {
            128int
        } else {
            0
        })) as u8;
        StepOut {
            cpu: flags_set(Cpu { a: r, ..c }, false, false, false, c.a % 2 == 1),
            bus: b,
            cycles: 4,
        }
    } else if op == 0x20 || op == 0x28 || op == 0x30 || op == 0x38 {
        let idx = ((op - 0x20) / 8) as u8;
        let off = imm8(c, b);
        let c1 = pc_add(c, 1);
        if cond_spec(c, idx) {
            StepOut { cpu: Cpu { pc: w16(c1.pc + signed_val(off)), ..c1 }, bus: b, cycles: 12 }
        } else {
            StepOut { cpu: c1, bus: b, cycles: 8 }
        }
    } else if op == 0x21 {
        StepOut { cpu: with_hl(pc_add(c, 2), imm16(c, b)), bus: b, cycles: 12 }
    } else if op == 0x22 {
        StepOut {
            cpu: with_hl(c, w16(hl_of(c) + 1)),
            bus: b.write_spec(hl_of(c), c.a),
            cycles: 8,
        }
    } else if op == 0x23 {
        StepOut { cpu: with_hl(c, w16(hl_of(c) + 1)), bus: b, cycles: 8 }
    } else if op == 0x27 {
        let adj = if !c.add_subf {
            daa_add_spec(c.a, c.half_carryf, c.carryf)
        } else {
            daa_sub_spec(c.a, c.half_carryf, c.carryf)
        };
        StepOut {
            cpu: Cpu {
                a: adj.0,
                zerof: adj.0 == 0,
                half_carryf: false,
                carryf: adj.1,
                ..c
            },
            bus: b,
            cycles: 4,
        }
    } else if op == 0x29 {
        StepOut { cpu: add_hl_spec(c, hl_of(c)), bus: b, cycles: 8 }
    } else if op == 0x2a {
        StepOut {
            cpu: with_hl(Cpu { a: b.read_spec(hl_of(c)), ..c }, w16(hl_of(c) + 1)),
            bus: b,
            cycles: 8,
        }
    } else if op == 0x2b {
        StepOut { cpu: with_hl(c, w16(hl_of(c) - 1)), bus: b, cycles: 8 }
    } else if op == 0x2f {
        StepOut {
            cpu: Cpu { a: (255 - c.a) as u8, add_subf: true, half_carryf: true, ..c },
            bus: b,
            cycles: 4,
        }
    } else if op == 0x31 {
        StepOut { cpu: Cpu { sp: imm16(c, b), ..pc_add(c, 2) }, bus: b, cycles: 12 }
    } else if op == 0x32 {
        StepOut {
            cpu: with_hl(c, w16(hl_of(c) - 1)),
            bus: b.write_spec(hl_of(c), c.a),
            cycles: 8,
        }
    } else if op == 0x33 {
        StepOut { cpu: Cpu { sp: w16(c.sp + 1), ..c }, bus: b, cycles: 8 }
    } else if op == 0x37 {
        StepOut {
            cpu: Cpu { add_subf: false, half_carryf: false, carryf: true, ..c },
            bus: b,
            cycles: 4,
        }
    } else if op == 0x39 {
        StepOut { cpu: add_hl_spec(c, c.sp), bus: b, cycles: 8 }
    } else if op == 0x3a {
        StepOut {
            cpu: with_hl(Cpu { a: b.read_spec(hl_of(c)), ..c }, w16(hl_of(c) - 1)),
            bus: b,
            cycles: 8,
        }
    } else if op == 0x3b {
        StepOut { cpu: Cpu { sp: w16(c.sp - 1), ..c }, bus: b, cycles: 8 }
    } else if op == 0x3f {
        StepOut {
            cpu: Cpu { add_subf: false, half_carryf: false, carryf: !c.carryf, ..c },
            bus: b,
            cycles: 4,
        }
    } else {
        StepOut { cpu: c, bus: b, cycles: 4 }
    }
}

/// The load block 0x40-0x7F, with HALT at 0x76.
#[verifier::opaque]
pub open spec fn exec_ld_spec(c: Cpu, b: BusView, op: u8) -> StepOut {
    if op == 0x76 {
        StepOut { cpu: Cpu { halted: true, ..c }, bus: b, cycles: 4 }
    } else {
        let v = read_r_spec(c, b, (op % 8) as u8);
        let dst = ((op - 0x40) / 8) as u8;
        if dst == 6 {
            StepOut { cpu: c, bus: b.write_spec(hl_of(c), v), cycles: 8 }
        } else {
            StepOut {
                cpu: with_r(c, dst, v),
                bus: b,
                cycles: if op % 8 == 6 {
                    8
                } else {
                    4
                },
            }
        }
    }
}

/// The arithmetic block 0x80-0xBF.
#[verifier::opaque]
pub open spec fn exec_alu_spec(c: Cpu, b: BusView, op: u8) -> StepOut {
    StepOut {
        cpu: alu_family_spec(c, ((op - 0x80) / 8) as u8, read_r_spec(c, b, (op % 8) as u8)),
        bus: b,
        cycles: if op % 8 == 6 {
            8
        } else {
            4
        },
    }
}

/// The opcodes 0xC0-0xFF except the CB prefix.
#[verifier::opaque]
pub open spec fn exec_high_spec(c: Cpu, b: BusView, op: u8) -> StepOut {
    if op == 0xc0 || op == 0xc8 || op == 0xd0 || op == 0xd8 {
        let idx = ((op - 0xc0) / 8) as u8;
        if cond_spec(c, idx) {
            StepOut {
                cpu: Cpu { pc: b.read16_spec(c.sp), sp: w16(c.sp + 2), ..c },
                bus: b,
                cycles: 20,
            }
        } else {
            StepOut { cpu: c, bus: b, cycles: 8 }
        }
    } else if op == 0xc1 {
        StepOut {
            cpu: with_bc(Cpu { sp: w16(c.sp + 2), ..c }, b.read16_spec(c.sp)),
            bus: b,
            cycles: 12,
        }
    } else if op == 0xd1 {
        StepOut {
            cpu: with_de(Cpu { sp: w16(c.sp + 2), ..c }, b.read16_spec(c.sp)),
            bus: b,
            cycles: 12,
        }
    } else if op == 0xe1 {
        StepOut {
            cpu: with_hl(Cpu { sp: w16(c.sp + 2), ..c }, b.read16_spec(c.sp)),
            bus: b,
            cycles: 12,
        }
    } else if op == 0xf1 {
        let v = b.read16_spec(c.sp);
        let f = (v % 256) as u8;
        StepOut {
            cpu: Cpu {
                a: (v / 256) as u8,
                zerof: f / 128 % 2 == 1,
                add_subf: f / 64 % 2 == 1,
                half_carryf: f / 32 % 2 == 1,
                carryf: f / 16 % 2 == 1,
                sp: w16(c.sp + 2),
                ..c
            },
            bus: b,
            cycles: 12,
        }
    } else if op == 0xc2 || op == 0xca || op == 0xd2 || op == 0xda {
        let idx = ((op - 0xc2) / 8) as u8;
        if cond_spec(c, idx) {
            StepOut { cpu: Cpu { pc: imm16(c, b), ..c }, bus: b, cycles: 16 }
        } else {
            StepOut { cpu: pc_add(c, 2), bus: b, cycles: 12 }
        }
    } else if op == 0xc3 {
        StepOut { cpu: Cpu { pc: imm16(c, b), ..c }, bus: b, cycles: 16 }
    } else if op == 0xc4 || op == 0xcc || op == 0xd4 || op == 0xdc {
        let idx = ((op - 0xc4) / 8) as u8;
        let c1 = pc_add(c, 2);
        if cond_spec(c, idx) {
            StepOut {
                cpu: Cpu { sp: sub2(c.sp), pc: imm16(c, b), ..c1 },
                bus: b.write16_spec(sub2(c.sp), c1.pc),
                cycles: 24,
            }
        } else {
            StepOut { cpu: c1, bus: b, cycles: 12 }
        }
    } else if op == 0xc5 {
        StepOut {
            cpu: Cpu { sp: sub2(c.sp), ..c },
            bus: b.write16_spec(sub2(c.sp), bc_of(c)),
            cycles: 16,
        }
    } else if op == 0xd5 {
        StepOut {
            cpu: Cpu { sp: sub2(c.sp), ..c },
            bus: b.write16_spec(sub2(c.sp), de_of(c)),
            cycles: 16,
        }
    } else if op == 0xe5 {
        StepOut {
            cpu: Cpu { sp: sub2(c.sp), ..c },
            bus: b.write16_spec(sub2(c.sp), hl_of(c)),
            cycles: 16,
        }
    } else if op == 0xf5 {
        StepOut {
            cpu: Cpu { sp: sub2(c.sp), ..c },
            bus: b.write16_spec(sub2(c.sp), (c.a * 256 + flags_byte(c)) as u16),
            cycles: 16,
        }
    } else if op % 8 == 6 {
        StepOut {
            cpu: alu_family_spec(pc_add(c, 1), ((op - 0xc0) / 8) as u8, imm8(c, b)),
            bus: b,
            cycles: 8,
        }
    } else if op % 8 == 7 {
        StepOut {
            cpu: Cpu { sp: sub2(c.sp), pc: (op - 0xc7) as u16, ..c },
            bus: b.write16_spec(sub2(c.sp), c.pc),
            cycles: 16,
        }
    } else if op == 0xcd {
        let c1 = pc_add(c, 2);
        StepOut {
            cpu: Cpu { sp: sub2(c.sp), pc: imm16(c, b), ..c1 },
            bus: b.write16_spec(sub2(c.sp), c1.pc),
            cycles: 24,
        }
    } else if op == 0xc9 {
        StepOut {
            cpu: Cpu { pc: b.read16_spec(c.sp), sp: w16(c.sp + 2), ..c },
            bus: b,
            cycles: 16,
        }
    } else if op == 0xd9 {
        StepOut {
            cpu: Cpu {
                pc: b.read16_spec(c.sp),
                sp: w16(c.sp + 2),
                interrupts_enabled: true,
                ..c
            },
            bus: b,
            cycles: 16,
        }
    } else if op == 0xe0 {
        StepOut {
            cpu: pc_add(c, 1),
            bus: b.write_spec((0xff00 + imm8(c, b)) as u16, c.a),
            cycles: 12,
        }
    } else if op == 0xf0 {
        StepOut {
            cpu: Cpu { a: b.read_spec((0xff00 + imm8(c, b)) as u16), ..pc_add(c, 1) },
            bus: b,
            cycles: 12,
        }
    } else if op == 0xe2 {
        StepOut { cpu: c, bus: b.write_spec((0xff00 + c.c) as u16, c.a), cycles: 8 }
    } else if op == 0xf2 {
        StepOut { cpu: Cpu { a: b.read_spec((0xff00 + c.c) as u16), ..c }, bus: b, cycles: 8 }
    } else if op == 0xe8 {
        let off = imm8(c, b);
        StepOut {
            cpu: Cpu { sp: w16(c.sp + signed_val(off)), ..sp_off_flags(pc_add(c, 1), off) },
            bus: b,
            cycles: 16,
        }
    } else if op == 0xe9 {
        StepOut { cpu: Cpu { pc: hl_of(c), ..c }, bus: b, cycles: 4 }
    } else if op == 0xea {
        StepOut { cpu: pc_add(c, 2), bus: b.write_spec(imm16(c, b), c.a), cycles: 16 }
    } else if op == 0xfa {
        StepOut {
            cpu: Cpu { a: b.read_spec(imm16(c, b)), ..pc_add(c, 2) },
            bus: b,
            cycles: 16,
        }
    } else if op == 0xf3 {
        StepOut {
            cpu: Cpu { interrupts_enabled: false, ei_pending: false, ..c },
            bus: b,
            cycles: 4,
        }
    } else if op == 0xfb {
        StepOut { cpu: Cpu { ei_pending: true, ..c }, bus: b, cycles: 4 }
    } else if op == 0xf8 {
        let off = imm8(c, b);
        StepOut {
            cpu: with_hl(sp_off_flags(pc_add(c, 1), off), w16(c.sp + signed_val(off))),
            bus: b,
            cycles: 12,
        }
    } else if op == 0xf9 {
        StepOut { cpu: Cpu { sp: hl_of(c), ..c }, bus: b, cycles: 8 }
    } else {
        StepOut { cpu: c, bus: b, cycles: 4 }
    }
}

/// The CB-prefixed set, entered with PC on the CB operand byte.
#[verifier::opaque]
pub open spec fn exec_cb_spec(c: Cpu, b: BusView) -> StepOut {
    let op = b.read_spec(c.pc);
    let c1 = pc_add(c, 1);
    let idx = (op % 8) as u8;
    let y = (op / 8 % 8) as u8;
    if op < 0x40 {
        let v = read_r_spec(c1, b, idx);
        let rot = rot_spec(c1, y, v);
        if idx == 6 {
            StepOut { cpu: rot.0, bus: b.write_spec(hl_of(c1), rot.1), cycles: 16 }
        } else {
            StepOut { cpu: with_r(rot.0, idx, rot.1), bus: b, cycles: 8 }
        }
    } else if op < 0x80 {
        let v = read_r_spec(c1, b, idx);
        let c2 = Cpu { zerof: (v >> y) & 1 == 0, add_subf: false, half_carryf: true, ..c1 };
        StepOut {
            cpu: c2,
            bus: b,
            cycles: if idx == 6 {
                12
            } else {
                8
            },
        }
    } else if op < 0xc0 {
        let v = read_r_spec(c1, b, idx);
        let r = (v & !(1u8 << y)) as u8;
        if idx == 6 {
            StepOut { cpu: c1, bus: b.write_spec(hl_of(c1), r), cycles: 16 }
        } else {
            StepOut { cpu: with_r(c1, idx, r), bus: b, cycles: 8 }
        }
    } else {
        let v = read_r_spec(c1, b, idx);
        let r = (v | (1u8 << y)) as u8;
        if idx == 6 {
            StepOut { cpu: c1, bus: b.write_spec(hl_of(c1), r), cycles: 16 }
        } else {
            StepOut { cpu: with_r(c1, idx, r), bus: b, cycles: 8 }
        }
    }
}

/// One fetched opcode, entered with PC already past it.
#[verifier::opaque]
pub open spec fn execute_spec(c: Cpu, b: BusView, op: u8) -> StepOut {
    if op < 0x40 {
        exec_low_spec(c, b, op)
    } else if op < 0x80 {
        exec_ld_spec(c, b, op)
    } else if op < 0xc0 {
        exec_alu_spec(c, b, op)
    } else if op == 0xcb {
        exec_cb_spec(c, b)
    } else {
        exec_high_spec(c, b, op)
    }
}

/// One whole processor step: idle in halt while nothing is pending,
/// else leave halt; dispatch the highest-priority enabled interrupt
/// when IME is set; otherwise fetch and execute the opcode at PC,
/// with EI's one-instruction delay (which an intervening DI cancels).
#[verifier::opaque]
pub open spec fn step_spec(c: Cpu, b: BusView) -> StepOut {
    let pending = (b.enabled_interrupts & b.requested_interrupts) as u8;
    if c.halted && pending == 0 {
        StepOut { cpu: c, bus: b, cycles: 4 }
    } else {
        let c1 = if c.halted {
            Cpu { halted: false, ..c }
        } else {
            c
        };
        if c1.interrupts_enabled && pending != 0 {
            StepOut {
                cpu: Cpu {
                    pc: irq_addr(pending),
                    sp: sub2(c1.sp),
                    interrupts_enabled: false,
                    ..c1
                },
                bus: dispatch_bus(b, sub2(c1.sp), c1.pc, pending),
                cycles: 20,
            }
        } else {
            let op = b.read_spec(c1.pc);
            let enable_after = c1.ei_pending && op != 0xf3;
            let c2 = Cpu { pc: w16(c1.pc + 1), ei_pending: false, ..c1 };
            let r = execute_spec(c2, b, op);
            if enable_after {
                StepOut {
                    cpu: Cpu { interrupts_enabled: true, ..r.cpu },
                    bus: r.bus,
                    cycles: r.cycles,
                }
            } else {
                r
            }
        }
    }
}

} // verus!
