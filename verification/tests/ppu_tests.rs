use gbcore::bus::Bus;
use gbcore::cartridge::load_rom;
use gbcore::ppu::{Ppu, HEIGHT, WIDTH};

fn make_bus() -> Bus {
    let mut data = vec![0u8; 0x8000];
    data[0x147] = 0;
    let cart = load_rom(data, None, 0).expect("cartridge");
    Bus::new(cart)
}

#[test]
fn frame_mode_sequence() {
    // One full frame: 144 lines of OAM scan (80 dots), rendering
    // (172) and HBLANK (204), then 10 lines of VBLANK, 70224 dots in
    // all, with the VBLANK edge exactly at dot 65664.
    let mut ppu = Ppu::new();
    let mut vblank_at: Option<u32> = None;
    for n in 0..70224u32 {
        let line = n / 456;
        let dot = n % 456;
        let expected = if line >= 144 {
            1
        } else if dot < 80 {
            2
        } else if dot < 252 {
            3
        } else {
            0
        };
        assert_eq!(ppu.get_lcds() & 3, expected, "mode at dot {}", n);
        assert_eq!(ppu.get_ly() as u32, line);
        let (vb, _st) = ppu.tick(1);
        if vb && vblank_at.is_none() {
            vblank_at = Some(n + 1);
        }
    }
    assert_eq!(vblank_at, Some(65664));
    assert_eq!(ppu.get_ly(), 0);
    assert_eq!(ppu.get_lcds() & 3, 2);
}

#[test]
fn lcd_off_freezes_counters() {
    let mut ppu = Ppu::new();
    ppu.set_lcdc(0x00);
    ppu.tick(1000);
    assert_eq!(ppu.get_ly(), 0);
    // Turning the LCD back on restarts at the top of the frame.
    ppu.tick(5);
    ppu.set_lcdc(0x80);
    assert_eq!(ppu.get_ly(), 0);
    assert_eq!(ppu.get_lcds() & 3, 2);
}

#[test]
fn stat_register_bits() {
    let mut ppu = Ppu::new();
    ppu.set_lcds(0xFF);
    ppu.set_lyc(0);
    // LY==LYC at power-on: coincidence bit plus all four enables.
    assert_eq!(ppu.get_lcds(), 0x78 | 0x04 | 0x02);
    ppu.set_lyc(5);
    assert_eq!(ppu.get_lcds() & 0x04, 0);
}

#[test]
fn lyc_stat_interrupt() {
    let mut ppu = Ppu::new();
    ppu.set_lyc(2);
    ppu.set_lcds(0x40);
    let (_vb, st) = ppu.tick(456);
    assert!(!st, "LY 1 is not LYC");
    let (_vb, st) = ppu.tick(456);
    assert!(st, "reaching LY 2 raises the STAT interrupt");
}

#[test]
fn background_renders_through_bgp() {
    let mut bus = make_bus();
    // Tile 0, line 0: low byte all ones -> color index 1 everywhere.
    bus.write(0x8000, 0xFF);
    bus.write(0x8001, 0x00);
    // Map already points at tile 0.  Unsigned addressing, BG on.
    bus.write(0xFF40, 0x91);
    bus.write(0xFF47, 0xE4);
    bus.ppu.tick(252);
    let mut frame = vec![0u8; WIDTH * HEIGHT * 3];
    bus.ppu.render(&mut frame);
    // Index 1 through BGP 0xE4 is shade 1: the 100-grey.
    assert_eq!(frame[0], 100);
    assert_eq!(frame[1], 100);
    assert_eq!(frame[2], 100);
    // Line 1 uses tile line 1, which is all zeroes: shade 0 is 150.
    bus.ppu.tick(456);
    bus.ppu.render(&mut frame);
    assert_eq!(frame[WIDTH * 3], 150);
}

#[test]
fn bg_disabled_draws_white() {
    let mut bus = make_bus();
    bus.write(0x8000, 0xFF);
    bus.write(0x8001, 0xFF);
    bus.write(0xFF40, 0x90);
    bus.write(0xFF47, 0xE4);
    bus.ppu.tick(252);
    let mut frame = vec![0u8; WIDTH * HEIGHT * 3];
    bus.ppu.render(&mut frame);
    assert_eq!(frame[0], 150);
}

#[test]
fn scx_scrolls_background() {
    let mut bus = make_bus();
    // Tile 0 line 0: pixel 0 dark, others light.
    bus.write(0x8000, 0x80);
    bus.write(0x8001, 0x80);
    bus.write(0xFF40, 0x91);
    bus.write(0xFF47, 0xE4);
    bus.write(0xFF43, 0x01);
    bus.ppu.tick(252);
    let mut frame = vec![0u8; WIDTH * HEIGHT * 3];
    bus.ppu.render(&mut frame);
    // With SCX=1 the dark pixel of the next tile lands at x=7.
    assert_eq!(frame[0], 150);
    assert_eq!(frame[7 * 3], 0);
}

#[test]
fn sprite_over_background() {
    let mut bus = make_bus();
    bus.write(0xFF40, 0x93);
    bus.write(0xFF47, 0xE4);
    bus.write(0xFF48, 0xE4);
    // Sprite tile 1: all pixels color 3.
    bus.write(0x8010, 0xFF);
    bus.write(0x8011, 0xFF);
    // OAM entry 0: top-left corner, tile 1.
    bus.write(0xFE00, 16);
    bus.write(0xFE01, 8);
    bus.write(0xFE02, 1);
    bus.write(0xFE03, 0);
    bus.ppu.tick(252);
    let mut frame = vec![0u8; WIDTH * HEIGHT * 3];
    bus.ppu.render(&mut frame);
    // Color 3 through OBP0 0xE4 is shade 3: black.
    assert_eq!(frame[0], 0);
    // Past the sprite's 8 pixels the background shows.
    assert_eq!(frame[8 * 3], 150);
}

#[test]
fn behind_bg_sprite_hides_over_nonzero_bg() {
    let mut bus = make_bus();
    bus.write(0xFF40, 0x93);
    bus.write(0xFF47, 0xE4);
    bus.write(0xFF48, 0xE4);
    // Background color 1 everywhere on line 0.
    bus.write(0x8000, 0xFF);
    bus.write(0x8001, 0x00);
    bus.write(0x8010, 0xFF);
    bus.write(0x8011, 0xFF);
    bus.write(0xFE00, 16);
    bus.write(0xFE01, 8);
    bus.write(0xFE02, 1);
    bus.write(0xFE03, 0x80);
    bus.ppu.tick(252);
    let mut frame = vec![0u8; WIDTH * HEIGHT * 3];
    bus.ppu.render(&mut frame);
    // The behind-BG sprite loses against background index 1.
    assert_eq!(frame[0], 100);
}

#[test]
fn lower_x_sprite_wins() {
    let mut bus = make_bus();
    bus.write(0xFF40, 0x93);
    bus.write(0xFF47, 0xE4);
    bus.write(0xFF48, 0xE4);
    bus.write(0xFF49, 0x1B);
    // Tile 1 color 3, tile 2 color 1.
    bus.write(0x8010, 0xFF);
    bus.write(0x8011, 0xFF);
    bus.write(0x8020, 0xFF);
    bus.write(0x8021, 0x00);
    // Entry 0: x=9 tile 2 with OBP1; entry 1: x=8 tile 1 with OBP0.
    bus.write(0xFE00, 16);
    bus.write(0xFE01, 9);
    bus.write(0xFE02, 2);
    bus.write(0xFE03, 0x10);
    bus.write(0xFE04, 16);
    bus.write(0xFE05, 8);
    bus.write(0xFE06, 1);
    bus.write(0xFE07, 0);
    bus.ppu.tick(252);
    let mut frame = vec![0u8; WIDTH * HEIGHT * 3];
    bus.ppu.render(&mut frame);
    // At x=1 both sprites overlap; the lower-X one (tile 1, black)
    // wins.
    assert_eq!(frame[3], 0);
}

#[test]
fn window_overlays_background() {
    let mut bus = make_bus();
    // Window map at 0x9C00 points at tile 1 (color 3); background map
    // keeps tile 0 (color 0).
    bus.write(0xFF40, 0xF1);
    bus.write(0xFF47, 0xE4);
    bus.write(0x8010, 0xFF);
    bus.write(0x8011, 0xFF);
    for i in 0..32u16 {
        bus.write(0x9C00 + i, 1);
    }
    // Window starts at WX=87 (screen x=80), WY=0.
    bus.write(0xFF4B, 87);
    bus.write(0xFF4A, 0);
    bus.ppu.tick(252);
    let mut frame = vec![0u8; WIDTH * HEIGHT * 3];
    bus.ppu.render(&mut frame);
    assert_eq!(frame[79 * 3], 150);
    assert_eq!(frame[80 * 3], 0);
}

#[test]
fn vram_oam_read_write() {
    let mut ppu = Ppu::new();
    ppu.write(0x8123, 0xAB);
    assert_eq!(ppu.read(0x8123), 0xAB);
    ppu.write(0xFE10, 0xCD);
    assert_eq!(ppu.read(0xFE10), 0xCD);
}

#[test]
fn palette_registers() {
    let mut ppu = Ppu::new();
    ppu.set_bgp(0x1B);
    ppu.set_obp0(0xC6);
    ppu.set_obp1(0x39);
    assert_eq!(ppu.get_bgp(), 0x1B);
    assert_eq!(ppu.get_obp0(), 0xC6);
    assert_eq!(ppu.get_obp1(), 0x39);
    ppu.set_scy(7);
    ppu.set_scx(9);
    ppu.set_wy(11);
    ppu.set_wx(13);
    ppu.set_lyc(99);
    assert_eq!(ppu.get_scy(), 7);
    assert_eq!(ppu.get_scx(), 9);
    assert_eq!(ppu.get_wy(), 11);
    assert_eq!(ppu.get_wx(), 13);
    assert_eq!(ppu.get_lyc(), 99);
    // LY ignores writes.
    ppu.set_ly(55);
    assert_eq!(ppu.get_ly(), 0);
}
