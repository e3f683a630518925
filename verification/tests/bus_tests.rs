use gbcore::bus::Bus;
use gbcore::cartridge::load_rom;
use gbcore::joypad::{GBKey, Joypad, KeyState, Message};

fn make_rom(mbc: u8, rom_code: u8, ram_code: u8) -> Vec<u8> {
    let mut data = vec![0u8; 0x8000];
    data[0x147] = mbc;
    data[0x148] = rom_code;
    data[0x149] = ram_code;
    data
}

fn make_bus() -> Bus {
    let cart = load_rom(make_rom(0, 0, 0), None, 0).expect("cartridge");
    Bus::new(cart)
}

#[test]
fn div_reads_zero_after_any_writes() {
    // Any sequence of writes to FF04 leaves the next read at 0.
    let mut bus = make_bus();
    bus.timer.sys = 0xABCD;
    assert_ne!(bus.read(0xFF04), 0);
    for v in [0x00u8, 0x5A, 0xFF, 0x01] {
        bus.write(0xFF04, v);
    }
    assert_eq!(bus.read(0xFF04), 0);
}

#[test]
fn if_write_reads_back_five_bits() {
    // A write to FF0F reads back as its five interrupt bits.
    let mut bus = make_bus();
    for v in 0..=255u8 {
        bus.write(0xFF0F, v);
        assert_eq!(bus.read(0xFF0F), v & 0x1F);
    }
}

#[test]
fn wram_echo_mirror() {
    let mut bus = make_bus();
    bus.write(0xC123, 0x99);
    assert_eq!(bus.read(0xE123), 0x99);
    bus.write(0xE200, 0x77);
    assert_eq!(bus.read(0xC200), 0x77);
}

#[test]
fn hram_and_ie() {
    let mut bus = make_bus();
    bus.write(0xFF80, 0x12);
    bus.write(0xFFFE, 0x34);
    bus.write(0xFFFF, 0x1B);
    assert_eq!(bus.read(0xFF80), 0x12);
    assert_eq!(bus.read(0xFFFE), 0x34);
    assert_eq!(bus.read(0xFFFF), 0x1B);
}

#[test]
fn unmapped_reads_zero_and_writes_ignored() {
    let mut bus = make_bus();
    assert_eq!(bus.read(0xFEA5), 0);
    bus.write(0xFEA5, 0xFF);
    assert_eq!(bus.read(0xFF4D), 0);
    bus.write(0xFF4D, 0xFF);
    assert_eq!(bus.read(0xFF7F), 0);
}

#[test]
fn dma_copies_160_bytes_to_oam() {
    let mut bus = make_bus();
    for i in 0..0xA0u16 {
        bus.write(0xC000 + i, i as u8 ^ 0x5A);
    }
    bus.write(0xFF46, 0xC0);
    for i in 0..0xA0u16 {
        assert_eq!(bus.read(0xFE00 + i), (i as u8) ^ 0x5A);
    }
}

#[test]
fn read16_write16_little_endian() {
    let mut bus = make_bus();
    bus.write16(0xC500, 0xBEEF);
    assert_eq!(bus.read(0xC500), 0xEF);
    assert_eq!(bus.read(0xC501), 0xBE);
    assert_eq!(bus.read16(0xC500), 0xBEEF);
}

#[test]
fn timer_tima_period_and_overflow() {
    let mut bus = make_bus();
    // TAC=0x05: enabled, fastest clock - TIMA increments every 16
    // T-cycles.
    bus.write(0xFF07, 0x05);
    assert_eq!(bus.read(0xFF07), 0x05);
    let irq = bus.timer.tick(16);
    assert!(!irq);
    assert_eq!(bus.read(0xFF05), 1);
    // Overflow reloads TIMA from TMA and requests the interrupt.
    bus.write(0xFF06, 0x42);
    bus.write(0xFF05, 0xFF);
    let irq = bus.timer.tick(16);
    assert!(irq);
    assert_eq!(bus.read(0xFF05), 0x42);
}

#[test]
fn timer_disabled_keeps_tima() {
    let mut bus = make_bus();
    bus.write(0xFF07, 0x01);
    bus.timer.tick(10_000);
    assert_eq!(bus.read(0xFF05), 0);
}

#[test]
fn joypad_rows_and_interrupt() {
    let mut j = Joypad::new();
    assert!(j.update(Message::KeyDown(GBKey::A)));
    // A second press edge of the same key raises nothing.
    assert!(!j.update(Message::KeyDown(GBKey::A)));
    assert!(!j.update(Message::KeyUp(GBKey::A)));
    assert!(j.update(Message::KeyDown(GBKey::A)));
    // Select the action row alone (bit 4 set deselects directions).
    j.write(0x10);
    assert_eq!(j.read(), 0x1E);
    // Select the direction row alone: everything released reads high.
    j.write(0x20);
    assert_eq!(j.read(), 0x2F);
    // Both rows selected: the nibbles combine; A pressed shows.
    j.write(0x00);
    assert_eq!(j.read(), 0x0E);
    // No row selected: the nibble floats high.
    j.write(0x30);
    assert_eq!(j.read(), 0x3F);
    assert_eq!(j.get_key_state(GBKey::A), KeyState::Pressed);
}

#[test]
fn joypad_through_bus() {
    let mut bus = make_bus();
    bus.joypad.update(Message::KeyDown(GBKey::Start));
    bus.write(0xFF00, 0x10);
    assert_eq!(bus.read(0xFF00), 0x17);
}

#[test]
fn sound_register_round_trips() {
    let mut bus = make_bus();
    bus.write(0xFF12, 0xA7);
    assert_eq!(bus.read(0xFF12), 0xA7);
    bus.write(0xFF25, 0xF3);
    assert_eq!(bus.read(0xFF25), 0xF3);
    bus.write(0xFF10, 0x7A);
    assert_eq!(bus.read(0xFF10), 0xFA);
    // Unreflected registers read zero.
    bus.write(0xFF11, 0xC0);
    assert_eq!(bus.read(0xFF11), 0);
}

#[test]
fn sound_decode_fields() {
    let mut bus = make_bus();
    bus.write(0xFF11, 0x83);
    assert_eq!(bus.sound.pulse1.duty, 2);
    assert_eq!(bus.sound.pulse1.sound_length, 61);
    bus.write(0xFF13, 0xAD);
    bus.write(0xFF14, 0x87);
    assert_eq!(bus.sound.pulse1.frequency, 0x7AD);
    assert!(bus.sound.pulse1.trigger);
    assert!(!bus.sound.pulse1.length_en);
    bus.sound.clear_triggers();
    assert!(!bus.sound.pulse1.trigger);
    // Wave pattern RAM stores two nibbles per byte.
    bus.write(0xFF30, 0xA5);
    assert_eq!(bus.sound.wave.pattern[0], 0xA);
    assert_eq!(bus.sound.wave.pattern[1], 0x5);
    // Noise divisor: code 0 maps to 8 before the shift.
    bus.write(0xFF22, 0x20);
    assert_eq!(bus.sound.noise.frequency, 8 << 2);
    bus.write(0xFF22, 0x23);
    assert_eq!(bus.sound.noise.frequency, (3 * 16) << 2);
}

#[test]
fn serial_stubbed() {
    let mut bus = make_bus();
    bus.write(0xFF01, 0x55);
    bus.write(0xFF02, 0x81);
    assert_eq!(bus.read(0xFF01), 0);
    assert_eq!(bus.read(0xFF02), 0);
}
