use gbcore::alu::{alu_add, alu_daa, alu_and, alu_or, alu_sub, alu_xor, Flags};
use gbcore::bus::Bus;
use gbcore::cartridge::load_rom;
use gbcore::cpu::Cpu;

fn make_rom(mbc: u8, rom_code: u8, ram_code: u8) -> Vec<u8> {
    let mut data = vec![0u8; 0x8000];
    data[0x147] = mbc;
    data[0x148] = rom_code;
    data[0x149] = ram_code;
    data
}

fn make_bus() -> Bus {
    let cart = load_rom(make_rom(0, 0, 0), None, 0).expect("cartridge");
    Bus::new(cart)
}

fn make_bus_with(patch: &[(usize, u8)]) -> Bus {
    let mut rom = make_rom(0, 0, 0);
    for &(addr, v) in patch {
        rom[addr] = v;
    }
    let cart = load_rom(rom, None, 0).expect("cartridge");
    Bus::new(cart)
}

#[test]
fn ld_bc_d16() {
    // One step of `LD BC,d16` at 0x0100 loads the little-endian
    // immediate and costs 12 T-cycles.
    let mut bus = make_bus_with(&[(0x0100, 0x01), (0x0101, 0xCD), (0x0102, 0xAB)]);
    let mut cpu = Cpu::new();
    cpu.pc = 0x0100;
    let cycles = cpu.step(&mut bus);
    assert_eq!(cpu.pc, 0x0103);
    assert_eq!(cpu.b, 0xAB);
    assert_eq!(cpu.c, 0xCD);
    assert_eq!(cycles, 12);
}

#[test]
fn adc_with_carry_propagation() {
    // `ADC A,E` with A=0x0F, E=0x01 and C set gives 0x11 with only H.
    let mut bus = make_bus_with(&[(0x0100, 0x8B)]);
    let mut cpu = Cpu::new();
    cpu.pc = 0x0100;
    cpu.a = 0x0F;
    cpu.e = 0x01;
    cpu.carryf = true;
    let cycles = cpu.step(&mut bus);
    assert_eq!(cpu.a, 0x11);
    assert!(!cpu.zerof);
    assert!(!cpu.add_subf);
    assert!(cpu.half_carryf);
    assert!(!cpu.carryf);
    assert_eq!(cycles, 4);
}

#[test]
fn jr_self_jump() {
    // `JR -2` lands back on its own opcode: the displacement applies
    // after PC has passed the 2-byte instruction.
    let mut bus = make_bus_with(&[(0x1000, 0x18), (0x1001, 0xFE)]);
    let mut cpu = Cpu::new();
    cpu.pc = 0x1000;
    cpu.step(&mut bus);
    assert_eq!(cpu.pc, 0x1000);
}

#[test]
fn jr_nz_taken_and_not_taken() {
    let mut bus = make_bus_with(&[(0x0200, 0x20), (0x0201, 0xFE)]);
    let mut cpu = Cpu::new();
    cpu.pc = 0x0200;
    cpu.zerof = false;
    let cycles = cpu.step(&mut bus);
    assert_eq!(cpu.pc, 0x0200);
    assert_eq!(cycles, 12);

    let mut bus2 = make_bus_with(&[(0x0200, 0x20), (0x0201, 0xFE)]);
    let mut cpu2 = Cpu::new();
    cpu2.pc = 0x0200;
    cpu2.zerof = true;
    let cycles2 = cpu2.step(&mut bus2);
    assert_eq!(cpu2.pc, 0x0202);
    assert_eq!(cycles2, 8);
}

#[test]
fn rst_28() {
    // `RST 0x28` pushes the address after the opcode and jumps to the
    // vector in 16 T-cycles.
    let mut bus = make_bus_with(&[(0x1234, 0xEF)]);
    let mut cpu = Cpu::new();
    cpu.pc = 0x1234;
    cpu.sp = 0xFFFE;
    let cycles = cpu.step(&mut bus);
    assert_eq!(cpu.pc, 0x0028);
    assert_eq!(cpu.sp, 0xFFFC);
    assert_eq!(bus.read(0xFFFC), 0x35);
    assert_eq!(bus.read(0xFFFD), 0x12);
    assert_eq!(cycles, 16);
}

#[test]
fn vblank_interrupt_dispatch() {
    // With IE=0x01, IME set and the PPU crossing into line 144, the
    // next step pushes PC, jumps to 0x0040, clears the IF bit and
    // IME, and costs 20 T-cycles.
    let mut bus = make_bus();
    let (vb, _st) = bus.ppu.tick(65664);
    assert!(vb);
    bus.write(0xFFFF, 0x01);
    bus.write(0xFF0F, 0x01);
    let mut cpu = Cpu::new();
    cpu.pc = 0x1234;
    cpu.sp = 0xFFFE;
    cpu.interrupts_enabled = true;
    let cycles = cpu.step(&mut bus);
    assert_eq!(cpu.pc, 0x0040);
    assert!(!cpu.interrupts_enabled);
    assert_eq!(bus.read(0xFF0F), 0x00);
    assert_eq!(bus.read(0xFFFC), 0x34);
    assert_eq!(bus.read(0xFFFD), 0x12);
    assert_eq!(cycles, 20);
}

#[test]
fn interrupt_priority_vblank_first() {
    let mut bus = make_bus();
    bus.write(0xFFFF, 0x1F);
    bus.write(0xFF0F, 0x1F);
    let mut cpu = Cpu::new();
    cpu.sp = 0xFFFE;
    cpu.interrupts_enabled = true;
    cpu.step(&mut bus);
    assert_eq!(cpu.pc, 0x0040);
    assert_eq!(bus.read(0xFF0F), 0x1E);
}

#[test]
fn halt_wakes_on_pending_interrupt_without_ime() {
    // HALT with IME clear and an enabled interrupt pending exits halt
    // without dispatching.
    let mut bus = make_bus_with(&[(0x0100, 0x76), (0x0101, 0x04)]);
    let mut cpu = Cpu::new();
    cpu.pc = 0x0100;
    cpu.step(&mut bus);
    assert!(cpu.halted);
    // Nothing pending: the processor idles.
    let idle = cpu.step(&mut bus);
    assert_eq!(idle, 4);
    assert!(cpu.halted);
    // An enabled pending interrupt ends the halt; IME off, so the
    // next instruction (INC B) runs instead of a dispatch.
    bus.write(0xFFFF, 0x04);
    bus.write(0xFF0F, 0x04);
    cpu.step(&mut bus);
    assert!(!cpu.halted);
    assert_eq!(cpu.b, 1);
    assert_eq!(bus.read(0xFF0F), 0x04);
}

#[test]
fn ei_delay_one_instruction() {
    // EI arms IME only after the following instruction.
    let mut bus = make_bus_with(&[(0x0100, 0xFB), (0x0101, 0x00), (0x0102, 0x00)]);
    let mut cpu = Cpu::new();
    cpu.pc = 0x0100;
    cpu.step(&mut bus);
    assert!(!cpu.interrupts_enabled);
    cpu.step(&mut bus);
    assert!(cpu.interrupts_enabled);
}

#[test]
fn push_pop_round_trip() {
    // PUSH BC then POP BC restores the pair through WRAM.
    let mut bus = make_bus();
    bus.write(0xC100, 0xC5);
    bus.write(0xC101, 0xC1);
    let mut cpu = Cpu::new();
    cpu.pc = 0xC100;
    cpu.sp = 0xD000;
    cpu.b = 0xAB;
    cpu.c = 0x42;
    cpu.step(&mut bus);
    cpu.b = 0;
    cpu.c = 0;
    cpu.step(&mut bus);
    assert_eq!(cpu.b, 0xAB);
    assert_eq!(cpu.c, 0x42);
    assert_eq!(cpu.sp, 0xD000);
}

#[test]
fn push_pop_af_low_nibble_zero() {
    let mut bus = make_bus();
    bus.write(0xC100, 0xF5);
    bus.write(0xC101, 0xF1);
    let mut cpu = Cpu::new();
    cpu.pc = 0xC100;
    cpu.sp = 0xD000;
    cpu.a = 0x5A;
    cpu.zerof = true;
    cpu.carryf = true;
    let f_before = cpu.flags();
    cpu.step(&mut bus);
    cpu.a = 0;
    cpu.set_flags(0);
    cpu.step(&mut bus);
    assert_eq!(cpu.a, 0x5A);
    assert_eq!(cpu.flags(), f_before);
    assert_eq!(cpu.flags() & 0x0F, 0);
}

#[test]
fn alu_flags_exhaustive() {
    // Z is set iff the 8-bit result is zero, N tracks the family, and
    // H and C follow the carry/borrow definitions - over all 65536
    // operand pairs of every family.
    for a in 0..=255u16 {
        for b in 0..=255u16 {
            let (a8, b8) = (a as u8, b as u8);
            for cin in [false, true] {
                let cv = cin as u16;
                let (r, f) = alu_add(a8, b8, cin);
                assert_eq!(r, ((a + b + cv) % 256) as u8);
                assert_eq!(f.z, r == 0);
                assert!(!f.n);
                assert_eq!(f.h, a % 16 + b % 16 + cv > 15);
                assert_eq!(f.c, a + b + cv > 255);

                let (r, f) = alu_sub(a8, b8, cin);
                assert_eq!(r, ((512 + a - b - cv) % 256) as u8);
                assert_eq!(f.z, r == 0);
                assert!(f.n);
                assert_eq!(f.h, a % 16 < b % 16 + cv);
                assert_eq!(f.c, a < b + cv);
            }
            let (r, f) = alu_and(a8, b8);
            assert_eq!(r, a8 & b8);
            assert_eq!(f.z, r == 0);
            assert!(!f.n && f.h && !f.c);
            let (r, f) = alu_or(a8, b8);
            assert_eq!(r, a8 | b8);
            assert_eq!(f.z, r == 0);
            assert!(!f.n && !f.h && !f.c);
            let (r, f) = alu_xor(a8, b8);
            assert_eq!(r, a8 ^ b8);
            assert_eq!(f.z, r == 0);
            assert!(!f.n && !f.h && !f.c);
        }
    }
}

#[test]
fn daa_bcd_exhaustive() {
    // DAA after an add or subtract of any two packed-BCD bytes gives
    // the BCD-correct result.
    for ah in 0..10u32 {
        for al in 0..10u32 {
            for bh in 0..10u32 {
                for bl in 0..10u32 {
                    let a = (ah * 16 + al) as u8;
                    let b = (bh * 16 + bl) as u8;
                    let da = ah * 10 + al;
                    let db = bh * 10 + bl;

                    let (r, f) = alu_add(a, b, false);
                    let (v, f2) = alu_daa(r, f);
                    let expect = (da + db) % 100;
                    assert_eq!((v >> 4) as u32 * 10 + (v & 0x0F) as u32, expect);
                    assert_eq!(f2.c, da + db >= 100);
                    assert_eq!(f2.z, v == 0);

                    let (r, f) = alu_sub(a, b, false);
                    let (v, f2) = alu_daa(r, f);
                    let expect = ((100 + da as i32 - db as i32) % 100) as u32;
                    assert_eq!((v >> 4) as u32 * 10 + (v & 0x0F) as u32, expect);
                    assert_eq!(f2.c, da < db);
                }
            }
        }
    }
}

#[test]
fn daa_examples() {
    // 0x19 + 0x28 = 0x41 in BCD with a half-carry fix.
    let (r, f) = alu_add(0x19, 0x28, false);
    let (v, f2) = alu_daa(r, f);
    assert_eq!(v, 0x47);
    assert!(!f2.c);
    // 0x90 + 0x90 = 0x80 carry out.
    let (r, f) = alu_add(0x90, 0x90, false);
    let (v, f2) = alu_daa(r, f);
    assert_eq!(v, 0x80);
    assert!(f2.c);
}

#[test]
fn cb_rotates_and_bits() {
    let mut bus = make_bus();
    // RLC B: 0x81 -> 0x03 with carry.
    bus.write(0xC100, 0xCB);
    bus.write(0xC101, 0x00);
    let mut cpu = Cpu::new();
    cpu.pc = 0xC100;
    cpu.b = 0x81;
    let cycles = cpu.step(&mut bus);
    assert_eq!(cpu.b, 0x03);
    assert!(cpu.carryf);
    assert_eq!(cycles, 8);
    // BIT 7,B on 0x03: bit clear, Z set.
    bus.write(0xC102, 0xCB);
    bus.write(0xC103, 0x78);
    cpu.step(&mut bus);
    assert!(cpu.zerof);
    assert!(cpu.half_carryf);
    // SET 7,B then RES 7,B.
    bus.write(0xC104, 0xCB);
    bus.write(0xC105, 0xF8);
    cpu.step(&mut bus);
    assert_eq!(cpu.b, 0x83);
    bus.write(0xC106, 0xCB);
    bus.write(0xC107, 0xB8);
    cpu.step(&mut bus);
    assert_eq!(cpu.b, 0x03);
}

#[test]
fn swap_and_srl() {
    let mut cpu = Cpu::new();
    let r = cpu.swap(0xAB);
    assert_eq!(r, 0xBA);
    assert!(!cpu.carryf);
    let r = cpu.srl(0x01);
    assert_eq!(r, 0x00);
    assert!(cpu.carryf);
    assert!(cpu.zerof);
}

#[test]
fn add_sp_r8_flags() {
    // ADD SP,-1 from 0x0000 wraps and sets H and C from the low byte.
    let mut bus = make_bus_with(&[(0x0100, 0xE8), (0x0101, 0xFF)]);
    let mut cpu = Cpu::new();
    cpu.pc = 0x0100;
    cpu.sp = 0x0001;
    let cycles = cpu.step(&mut bus);
    assert_eq!(cpu.sp, 0x0000);
    assert!(!cpu.zerof);
    assert!(!cpu.add_subf);
    assert!(cpu.half_carryf);
    assert!(cpu.carryf);
    assert_eq!(cycles, 16);
}

#[test]
fn ld_hl_block_and_hl_memory() {
    let mut bus = make_bus();
    // LD (HL),d8 then LD A,(HL).
    bus.write(0xC100, 0x36);
    bus.write(0xC101, 0x77);
    bus.write(0xC102, 0x7E);
    let mut cpu = Cpu::new();
    cpu.pc = 0xC100;
    cpu.h = 0xC2;
    cpu.l = 0x00;
    let c1 = cpu.step(&mut bus);
    assert_eq!(c1, 12);
    assert_eq!(bus.read(0xC200), 0x77);
    let c2 = cpu.step(&mut bus);
    assert_eq!(c2, 8);
    assert_eq!(cpu.a, 0x77);
}

#[test]
fn call_and_ret() {
    let mut bus = make_bus();
    bus.write(0xC100, 0xCD); // CALL 0xC200
    bus.write(0xC101, 0x00);
    bus.write(0xC102, 0xC2);
    bus.write(0xC200, 0xC9); // RET
    let mut cpu = Cpu::new();
    cpu.pc = 0xC100;
    cpu.sp = 0xD000;
    let c1 = cpu.step(&mut bus);
    assert_eq!(c1, 24);
    assert_eq!(cpu.pc, 0xC200);
    assert_eq!(cpu.sp, 0xCFFE);
    let c2 = cpu.step(&mut bus);
    assert_eq!(c2, 16);
    assert_eq!(cpu.pc, 0xC103);
    assert_eq!(cpu.sp, 0xD000);
}

#[test]
fn flags_byte_round_trip() {
    let mut cpu = Cpu::new();
    cpu.set_flags(0xFF);
    assert_eq!(cpu.flags(), 0xF0);
    cpu.set_flags(0x35);
    assert_eq!(cpu.flags(), 0x30);
}

#[test]
fn daa_struct_fields() {
    // DAA leaves N alone and clears H.
    let fl = Flags { z: false, n: true, h: true, c: false };
    let (_v, f2) = alu_daa(0x05, fl);
    assert!(f2.n);
    assert!(!f2.h);
}
