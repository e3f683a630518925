use gbcore::cartridge::{load_rom, CartError, MbcType, Rom};

fn make_rom_sized(mbc: u8, rom_code: u8, ram_code: u8, len: usize) -> Vec<u8> {
    let mut data = vec![0u8; len];
    data[0x147] = mbc;
    data[0x148] = rom_code;
    data[0x149] = ram_code;
    data
}

fn make_rom(mbc: u8, rom_code: u8, ram_code: u8) -> Vec<u8> {
    make_rom_sized(mbc, rom_code, ram_code, 0x8000)
}

#[test]
fn header_too_short() {
    let r = load_rom(vec![0u8; 0x100], None, 0);
    assert_eq!(r.err(), Some(CartError::RomTooShort));
}

#[test]
fn header_unsupported_mbc() {
    let r = load_rom(make_rom(0x19, 0, 0), None, 0);
    assert_eq!(r.err(), Some(CartError::UnsupportedMbc));
}

#[test]
fn header_invalid_rom_size() {
    let r = load_rom(make_rom(0x01, 0x09, 0), None, 0);
    assert_eq!(r.err(), Some(CartError::InvalidRomSize));
}

#[test]
fn header_invalid_ram_size() {
    let r = load_rom(make_rom(0x01, 0, 0x06), None, 0);
    assert_eq!(r.err(), Some(CartError::InvalidRamSize));
}

#[test]
fn mbc1_rejects_2k_ram() {
    let r = load_rom(make_rom(0x02, 0, 0x01), None, 0);
    assert_eq!(r.err(), Some(CartError::InvalidRamSize));
}

#[test]
fn mbc2_rejects_declared_ram() {
    let r = load_rom(make_rom(0x05, 0, 0x02), None, 0);
    assert_eq!(r.err(), Some(CartError::InvalidRamSize));
}

#[test]
fn corrupt_save_too_short() {
    let r = load_rom(make_rom(0x03, 0, 0x02), Some(vec![1u8; 100]), 0);
    assert_eq!(r.err(), Some(CartError::CorruptSave));
}

#[test]
fn nrom_reads_and_guarded_ram() {
    let mut rom = make_rom(0x00, 0, 0x02);
    rom[0x1234] = 0xAA;
    let mut cart = load_rom(rom, None, 0).unwrap();
    assert_eq!(cart.read(0x1234), 0xAA);
    cart.write(0xA010, 0x55);
    assert_eq!(cart.read(0xA010), 0x55);
    // Selector writes are ignored on a plain ROM.
    cart.write(0x2000, 0x02);
    assert_eq!(cart.read(0x1234), 0xAA);
}

#[test]
fn mbc1_bank_switching() {
    // Four banks; a marker byte in each switchable bank.
    let mut rom = make_rom_sized(0x01, 0x01, 0x00, 4 * 0x4000);
    rom[0x4000] = 0x11;
    rom[0x8000] = 0x22;
    rom[0xC000] = 0x33;
    let mut cart = load_rom(rom, None, 0).unwrap();
    // Power-on: bank 1 at 4000-7FFF.
    assert_eq!(cart.read(0x4000), 0x11);
    cart.write(0x2000, 0x02);
    assert_eq!(cart.read(0x4000), 0x22);
    cart.write(0x2000, 0x03);
    assert_eq!(cart.read(0x4000), 0x33);
    // Selecting bank 0 coerces to bank 1.
    cart.write(0x2000, 0x00);
    assert_eq!(cart.read(0x4000), 0x11);
}

#[test]
fn mbc1_ram_enable_latch() {
    let mut cart = load_rom(make_rom(0x02, 0, 0x02), None, 0).unwrap();
    // Disabled RAM reads 0 and swallows writes.
    cart.write(0xA000, 0x77);
    assert_eq!(cart.read(0xA000), 0);
    cart.write(0x0000, 0x0A);
    cart.write(0xA000, 0x77);
    assert_eq!(cart.read(0xA000), 0x77);
    cart.write(0x0000, 0x00);
    assert_eq!(cart.read(0xA000), 0);
}

#[test]
fn mbc2_nibble_ram() {
    let mut cart = load_rom(make_rom(0x06, 0, 0x00), None, 0).unwrap();
    cart.write(0x0000, 0x0A);
    cart.write(0xA000, 0xFF);
    assert_eq!(cart.read(0xA000), 0x0F);
    // Beyond the 512 nibbles the range reads 0.
    assert_eq!(cart.read(0xA300), 0);
    // A bank write needs bit 8 of the address.
    cart.write(0x0100, 0x03);
    assert_eq!(cart.read(0xA000), 0x0F);
}

#[test]
fn battery_ram_round_trip() {
    // A battery-backed write survives the save-bytes round trip.
    let rom = make_rom(0x03, 0, 0x02);
    let mut cart = load_rom(rom.clone(), None, 0).unwrap();
    cart.write(0x0000, 0x0A);
    cart.write(0xA000, 0x5A);
    let save = cart.save_bytes();
    let mut cart2 = load_rom(rom, Some(save), 0).unwrap();
    cart2.write(0x0000, 0x0A);
    assert_eq!(cart2.read(0xA000), 0x5A);
}

#[test]
fn mbc3_rtc_set_latch_read() {
    // Setting S/M/H/DL with RAM enabled and the selector at 8..11
    // reads back after a 0-then-1 latch sequence.
    let rom = make_rom(0x13, 0, 0x03);
    let mut cart = load_rom(rom, None, 0).unwrap();
    cart.write(0x0000, 0x0A);
    let cases: [(u8, u8); 4] = [(8, 30), (9, 45), (10, 12), (11, 200)];
    for (sel, val) in cases {
        cart.write(0x4000, sel);
        cart.write(0xA000, val);
        cart.write(0x6000, 0x00);
        cart.write(0x6000, 0x01);
        assert_eq!(cart.read(0xA000), val);
    }
    // All four survive together through one more latch.
    cart.write(0x6000, 0x00);
    cart.write(0x6000, 0x01);
    for (sel, val) in cases {
        cart.write(0x4000, sel);
        assert_eq!(cart.read(0xA000), val);
    }
}

#[test]
fn mbc3_rtc_halt_bit() {
    let rom = make_rom(0x13, 0, 0x03);
    let mut cart = load_rom(rom, None, 0).unwrap();
    cart.write(0x0000, 0x0A);
    cart.write(0x4000, 12);
    cart.write(0xA000, 0x40);
    cart.write(0x6000, 0x00);
    cart.write(0x6000, 0x01);
    assert_eq!(cart.read(0xA000) & 0x40, 0x40);
}

#[test]
fn mbc3_rtc_persists_through_save() {
    let rom = make_rom(0x13, 0, 0x03);
    let mut cart = load_rom(rom.clone(), None, 0).unwrap();
    cart.write(0x0000, 0x0A);
    // Halted clock (the power-on state) set to 90 seconds.
    cart.write(0x4000, 9);
    cart.write(0xA000, 1);
    cart.write(0x4000, 8);
    cart.write(0xA000, 30);
    let save = cart.save_bytes();
    let mut cart2 = load_rom(rom, Some(save), 0).unwrap();
    cart2.write(0x0000, 0x0A);
    cart2.write(0x6000, 0x00);
    cart2.write(0x6000, 0x01);
    cart2.write(0x4000, 8);
    assert_eq!(cart2.read(0xA000), 30);
    cart2.write(0x4000, 9);
    assert_eq!(cart2.read(0xA000), 1);
}

#[test]
fn mbc3_ram_banks() {
    let rom = make_rom(0x12, 0, 0x03);
    let mut cart = load_rom(rom, None, 0).unwrap();
    cart.write(0x0000, 0x0A);
    cart.write(0x4000, 0);
    cart.write(0xA000, 0x11);
    cart.write(0x4000, 1);
    cart.write(0xA000, 0x22);
    cart.write(0x4000, 0);
    assert_eq!(cart.read(0xA000), 0x11);
    cart.write(0x4000, 1);
    assert_eq!(cart.read(0xA000), 0x22);
}

#[test]
fn rom_header_getters() {
    let mut data = make_rom(0x13, 0x02, 0x03);
    let title = b"TESTTITLE";
    data[0x134..0x134 + title.len()].copy_from_slice(title);
    data[0x143] = 0x80;
    let rom = Rom::new(data);
    assert_eq!(rom.get_title(), title.to_vec());
    assert!(rom.is_gbc());
    assert_eq!(rom.get_ram_size().unwrap(), 0x8000);
    assert_eq!(rom.get_rom_size().unwrap(), 128);
    assert_eq!(rom.get_mbc_type().unwrap(), MbcType::Mbc3RamBattery);
    assert_eq!(rom.get_data_len(), 0x8000);
    assert_eq!(rom.read_range(0x134, 0x137).unwrap(), b"TES".to_vec());
    assert_eq!(rom.read_range(0, 0x9000).err(), Some(CartError::RomTooShort));
}
