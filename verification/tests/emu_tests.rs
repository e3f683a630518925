use gbcore::cartridge::CartError;
use gbcore::emu::Emu;
use gbcore::joypad::{GBKey, Message};

fn make_rom(mbc: u8, rom_code: u8, ram_code: u8) -> Vec<u8> {
    let mut data = vec![0u8; 0x8000];
    data[0x147] = mbc;
    data[0x148] = rom_code;
    data[0x149] = ram_code;
    data
}

#[test]
fn emu_boots_and_produces_a_frame() {
    // A ROM of NOPs runs one frame; the all-zero tiles come out as
    // the lightest shade everywhere.
    let mut emu = Emu::new(make_rom(0, 0, 0), None).expect("emu");
    let mut frame = vec![0u8; 160 * 144 * 3];
    let events: Vec<Message> = vec![];
    emu.get_next_frame(&events, &mut frame);
    assert_eq!(frame.len(), 160 * 144 * 3);
    assert!(frame.iter().all(|&b| b == 150));
}

#[test]
fn emu_rejects_bad_rom() {
    let r = Emu::new(vec![0u8; 16], None);
    assert!(matches!(r, Err(CartError::RomTooShort)));
}

#[test]
fn joypad_event_sets_interrupt_flag() {
    let mut emu = Emu::new(make_rom(0, 0, 0), None).expect("emu");
    let mut frame = vec![0u8; 160 * 144 * 3];
    let events = vec![Message::KeyDown(GBKey::Start)];
    emu.get_next_frame(&events, &mut frame);
    // The joypad bit was requested at some point; with IE clear no
    // dispatch consumed it.
    assert_eq!(emu.bus.read(0xFF0F) & 0x10, 0x10);
}

#[test]
fn guest_program_draws_into_vram() {
    // A tiny program: fill tile 0's first line with color 3, then
    // loop.  After one frame the top-left pixels are black.
    let mut rom = make_rom(0, 0, 0);
    let program: [u8; 13] = [
        0x3E, 0xFF, // LD A,0xFF
        0xEA, 0x00, 0x80, // LD (0x8000),A
        0xEA, 0x01, 0x80, // LD (0x8001),A
        0x3E, 0x93, // LD A,0x93 (keep LCD and BG on)
        0xE0, 0x40, // LDH (0x40),A
        0x18, // JR -2 (self-loop; operand below)
    ];
    rom[..program.len()].copy_from_slice(&program);
    rom[13] = 0xFE;
    // BGP identity mapping.
    let mut emu = Emu::new(rom, None).expect("emu");
    emu.bus.write(0xFF47, 0xE4);
    let mut frame = vec![0u8; 160 * 144 * 3];
    let events: Vec<Message> = vec![];
    emu.get_next_frame(&events, &mut frame);
    assert_eq!(frame[0], 0);
    assert_eq!(frame[(160 + 0) * 3], 150);
}

#[test]
fn save_bytes_come_from_the_cartridge() {
    let mut emu = Emu::new(make_rom(0x03, 0, 0x02), None).expect("emu");
    emu.bus.write(0x0000, 0x0A);
    emu.bus.write(0xA123, 0x77);
    let save = emu.save_bytes();
    assert_eq!(save.len(), 0x2000);
    assert_eq!(save[0x123], 0x77);
}
