use zx_spectrum_emulator::memory::Memory;

fn blank_rom() -> Vec<u8> {
    vec![0u8; 0x4000]
}

#[test]
fn ram_write_then_read_returns_byte() {
    let mut m = Memory::new(blank_rom());
    m.write(0x4000, 0xAB);
    assert_eq!(m.read(0x4000), 0xAB);
    m.write(0xFFFF, 0x12);
    assert_eq!(m.read(0xFFFF), 0x12);
    m.write(0x8000, 0x55);
    assert_eq!(m.read(0x8000), 0x55);
}

#[test]
fn rom_write_is_ignored() {
    let mut rom = blank_rom();
    rom[0x1234] = 0x77;
    let mut m = Memory::new(rom);
    m.write(0x1234, 0x99);
    assert_eq!(m.read(0x1234), 0x77);
    m.write(0x0000, 0x99);
    assert_eq!(m.read(0x0000), 0x00);
    m.write(0x3FFF, 0x99);
    assert_eq!(m.read(0x3FFF), 0x00);
}

#[test]
fn word_round_trip_is_little_endian() {
    let mut m = Memory::new(blank_rom());
    m.write_word(0x5000, 0xBEEF);
    assert_eq!(m.read(0x5000), 0xEF);
    assert_eq!(m.read(0x5001), 0xBE);
    assert_eq!(m.read_word(0x5000), 0xBEEF);
}

#[test]
fn word_read_wraps_at_address_space_end() {
    let mut m = Memory::new(blank_rom());
    m.write(0xFFFF, 0x34);
    // the high byte comes from address 0x0000, which is ROM and reads 0
    assert_eq!(m.read_word(0xFFFF), 0x0034);
}

#[test]
fn ram_starts_zeroed_and_rom_is_kept() {
    let mut rom = blank_rom();
    rom[0] = 0xF3;
    let m = Memory::new(rom);
    assert_eq!(m.read(0x0000), 0xF3);
    assert_eq!(m.read(0x4000), 0);
    assert_eq!(m.read(0xC123), 0);
    assert_eq!(m.rom().len(), 0x4000);
    assert_eq!(m.rom()[0], 0xF3);
}

#[test]
fn screen_views_have_documented_sizes() {
    let mut m = Memory::new(blank_rom());
    m.write(0x4000, 1);
    m.write(0x57FF, 2);
    m.write(0x5800, 3);
    m.write(0x5AFF, 4);
    let bitmap = m.screen_bitmap();
    assert_eq!(bitmap.len(), 6144);
    assert_eq!(bitmap[0], 1);
    assert_eq!(bitmap[6143], 2);
    let attrs = m.screen_attributes();
    assert_eq!(attrs.len(), 768);
    assert_eq!(attrs[0], 3);
    assert_eq!(attrs[767], 4);
}

#[test]
fn clear_screen_zeroes_bitmap_and_fills_attributes() {
    let mut m = Memory::new(blank_rom());
    m.write(0x4100, 0xFF);
    m.write(0x5900, 0x01);
    m.write(0x6000, 0x42);
    m.clear_screen(2, 5, true, false);
    assert_eq!(m.read(0x4100), 0);
    // attribute: bright, paper 5, ink 2
    let expected = 0x40 | (5 << 3) | 2;
    assert_eq!(m.read(0x5900), expected);
    assert_eq!(m.read(0x5800), expected);
    assert_eq!(m.read(0x5AFF), expected);
    // outside the screen area nothing changed
    assert_eq!(m.read(0x6000), 0x42);
}
