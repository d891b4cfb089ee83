use zx_spectrum_emulator::emulator::Emulator;

fn blank_rom() -> Vec<u8> {
    vec![0u8; 0x4000]
}

#[test]
fn new_emulator_is_reset() {
    let e = Emulator::new(blank_rom(), false);
    assert_eq!(e.total_cycles(), 0);
    assert_eq!(e.cpu().pc, 0);
    assert_eq!(e.cpu().sp, 0xFFFF);
    assert!(!e.is_halted());
    assert_eq!(e.video().border_colour, 7);
}

#[test]
fn step_accumulates_cycles() {
    // ROM full of zero bytes executes NOPs
    let mut e = Emulator::new(blank_rom(), false);
    assert_eq!(e.step(), 4);
    assert_eq!(e.total_cycles(), 4);
    assert_eq!(e.step(), 4);
    assert_eq!(e.total_cycles(), 8);
    assert_eq!(e.cpu().pc, 2);
}

#[test]
fn run_frame_reaches_cycle_target() {
    let mut e = Emulator::new(blank_rom(), false);
    e.run_frame();
    assert!(e.total_cycles() >= 69888);
    assert!(e.total_cycles() < 69888 + 256);
}

#[test]
fn run_frame_stops_on_halt() {
    let mut rom = blank_rom();
    rom[0] = 0x76;
    let mut e = Emulator::new(rom, false);
    e.run_frame();
    assert!(e.is_halted());
    assert_eq!(e.total_cycles(), 4);
}

#[test]
fn halted_cpu_keeps_idling() {
    let mut rom = blank_rom();
    rom[0] = 0x76;
    let mut e = Emulator::new(rom, false);
    e.step();
    assert!(e.is_halted());
    assert_eq!(e.step(), 4);
    assert_eq!(e.cpu().pc, 1);
}

#[test]
fn frame_boundary_delivers_interrupt_when_enabled() {
    // EI then NOPs; after 69888 T-states the interrupt fires and the CPU
    // continues at 0x0038
    let mut rom = blank_rom();
    rom[0] = 0xFB;
    let mut e = Emulator::new(rom, false);
    e.cpu.sp = 0x9000;
    while e.frame_cycles + 4 < 69888 {
        e.step();
    }
    let pc_before = e.cpu.pc;
    e.step();
    assert!(pc_before != 0x0038);
    assert_eq!(e.cpu.pc, 0x0038);
    assert!(!e.cpu.iff1);
}

#[test]
fn frame_boundary_without_ei_changes_nothing() {
    let mut e = Emulator::new(blank_rom(), false);
    while e.frame_cycles + 4 < 69888 {
        e.step();
    }
    e.step();
    assert!(e.cpu.pc != 0x0038);
}

#[test]
fn reset_cpu_keeps_memory() {
    let mut e = Emulator::new(blank_rom(), false);
    e.memory.write(0x8000, 0x5A);
    e.cpu.a = 9;
    e.cpu.pc = 0x1234;
    e.reset_cpu();
    assert_eq!(e.cpu.a, 0);
    assert_eq!(e.cpu.pc, 0);
    assert_eq!(e.memory.read(0x8000), 0x5A);
}

#[test]
fn write_to_screen_uses_interleaved_layout() {
    let mut e = Emulator::new(blank_rom(), false);
    e.write_to_screen(0, 1, 0xAA);
    assert_eq!(e.memory.read(0x4100), 0xAA);
    e.write_to_screen(3, 0, 0x55);
    assert_eq!(e.memory.read(0x4003), 0x55);
    // out of range writes are ignored
    e.write_to_screen(32, 0, 0xFF);
    e.write_to_screen(0, 192, 0xFF);
    assert_eq!(e.memory.read(0x4020), 0);
}

#[test]
fn set_attribute_addresses_cells() {
    let mut e = Emulator::new(blank_rom(), false);
    e.set_attribute(1, 2, 0x47);
    assert_eq!(e.memory.read(0x5800 + 2 * 32 + 1), 0x47);
    e.set_attribute(32, 0, 0xFF);
    assert_eq!(e.memory.read(0x5820), 0);
}

#[test]
fn clear_screen_through_emulator() {
    let mut e = Emulator::new(blank_rom(), false);
    e.memory.write(0x4000, 0xFF);
    e.clear_screen(0, 7, false);
    assert_eq!(e.memory.read(0x4000), 0);
    assert_eq!(e.memory.read(0x5800), 7 << 3);
}

#[test]
fn screen_writes_cover_bitmap_exactly_once() {
    // writing each of the 32 x 192 cells once must light every one of
    // the 6144 bitmap bytes: the address arithmetic is a bijection
    let mut e = Emulator::new(blank_rom(), false);
    for y in 0..192 {
        for x in 0..32 {
            e.write_to_screen(x, y, 0xFF);
        }
    }
    for a in 0x4000u16..0x5800u16 {
        assert_eq!(e.memory.read(a), 0xFF);
    }
    // and nothing outside the bitmap was touched
    assert_eq!(e.memory.read(0x5800), 0);
    assert_eq!(e.memory.read(0x3FFF), 0);
}

#[test]
fn render_display_and_border() {
    let mut e = Emulator::new(blank_rom(), false);
    e.clear_screen(0, 7, false);
    e.set_border_colour(1);
    e.render_display();
    // white paper everywhere on the canvas
    assert_eq!(e.video.buffer[0], 0xFFCDCDCD);
    assert_eq!(e.video.border_colour, 1);
}
