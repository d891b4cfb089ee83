use zx_spectrum_emulator::memory::Memory;
use zx_spectrum_emulator::video::Video;

fn blank_memory() -> Memory {
    Memory::new(vec![0u8; 0x4000])
}

const WHITE: u32 = 0xFFCDCDCD;
const BLACK: u32 = 0xFF000000;
const BRIGHT_RED: u32 = 0xFFFF0000;

#[test]
fn screen_address_examples() {
    // the interleaved layout sends consecutive lines 256 bytes apart,
    // line 8 back to offset 32, line 64 to the second third at 2048,
    // and the last pixel of the screen to the last bitmap byte
    let mut m = blank_memory();
    let cases: [(usize, usize, u16); 5] = [
        (0, 0, 0),
        (0, 1, 256),
        (0, 8, 32),
        (0, 64, 2048),
        (255, 191, 6143),
    ];
    for (i, (x, y, offset)) in cases.iter().enumerate() {
        // light exactly the byte the formula names and check the pixel
        let pattern: u8 = 0x80 >> (x % 8);
        m.write(0x4000 + offset, pattern);
        // ink 0 on paper 7: a lit pixel reads black, an unlit one white
        let attr_off = (y / 8) * 32 + x / 8;
        m.write(0x5800 + attr_off as u16, 7 << 3);
        let c = Video::render_pixel(&m, *x, *y, false);
        assert_eq!(c, BLACK, "case {}", i);
        m.write(0x4000 + offset, 0);
        let c = Video::render_pixel(&m, *x, *y, false);
        assert_eq!(c, WHITE, "case {}", i);
    }
}

#[test]
fn palette_matches_documented_values() {
    assert_eq!(Video::palette_colour(0, false), 0xFF000000);
    assert_eq!(Video::palette_colour(1, false), 0xFF0000CD);
    assert_eq!(Video::palette_colour(2, false), 0xFFCD0000);
    assert_eq!(Video::palette_colour(3, false), 0xFFCD00CD);
    assert_eq!(Video::palette_colour(4, false), 0xFF00CD00);
    assert_eq!(Video::palette_colour(5, false), 0xFF00CDCD);
    assert_eq!(Video::palette_colour(6, false), 0xFFCDCD00);
    assert_eq!(Video::palette_colour(7, false), 0xFFCDCDCD);
    assert_eq!(Video::palette_colour(1, true), 0xFF0000FF);
    assert_eq!(Video::palette_colour(2, true), 0xFFFF0000);
    assert_eq!(Video::palette_colour(7, true), 0xFFFFFFFF);
    assert_eq!(Video::palette_colour(0, true), 0xFF000000);
}

#[test]
fn attribute_bright_and_bit_order() {
    let mut m = blank_memory();
    // bitmap byte 0x01 lights only the rightmost pixel of the cell
    m.write(0x4000, 0x01);
    // bright, ink red, paper black
    m.write(0x5800, 0x40 | 2);
    assert_eq!(Video::render_pixel(&m, 7, 0, false), BRIGHT_RED);
    assert_eq!(Video::render_pixel(&m, 6, 0, false), BLACK);
    assert_eq!(Video::render_pixel(&m, 0, 0, false), BLACK);
}

#[test]
fn flash_swaps_ink_and_paper_in_on_phase() {
    let mut m = blank_memory();
    m.write(0x4000, 0x80);
    // flash, ink 2, paper 7
    m.write(0x5800, 0x80 | (7 << 3) | 2);
    assert_eq!(Video::render_pixel(&m, 0, 0, false), 0xFFCD0000);
    assert_eq!(Video::render_pixel(&m, 0, 0, true), WHITE);
    // a non-flashing cell ignores the phase
    m.write(0x5800, (7 << 3) | 2);
    assert_eq!(Video::render_pixel(&m, 0, 0, true), 0xFFCD0000);
}

#[test]
fn render_fills_border_and_canvas() {
    let m = blank_memory();
    let mut v = Video::new(false);
    v.set_border_colour(1);
    v.render(&m);
    assert_eq!(v.buffer.len(), 512 * 384);
    // a blank screen shows paper 0 everywhere on the canvas
    assert_eq!(v.buffer[0], BLACK);
    // the canvas fills the whole width when no debug strip is present,
    // so with these dimensions every pixel is canvas; check corners
    assert_eq!(v.buffer[512 * 384 - 1], BLACK);
    assert_eq!(v.width, 512);
    assert_eq!(v.height, 384);
}

#[test]
fn render_with_debug_strip_shows_border_right_of_canvas() {
    let m = blank_memory();
    let mut v = Video::new(true);
    assert_eq!(v.width, 512 + 320);
    v.set_border_colour(4);
    v.render(&m);
    // first row, just past the canvas: border green
    assert_eq!(v.buffer[512], 0xFF00CD00);
    // inside the canvas: blank screen, paper 0
    assert_eq!(v.buffer[0], BLACK);
}

#[test]
fn render_scales_each_pixel_two_by_two() {
    let mut m = blank_memory();
    m.write(0x4000, 0x80);
    m.write(0x5800, 7 << 3);
    let mut v = Video::new(false);
    v.render(&m);
    let w = v.width;
    // pixel (0,0) is lit with ink 0: four black host pixels
    assert_eq!(v.buffer[0], BLACK);
    assert_eq!(v.buffer[1], BLACK);
    assert_eq!(v.buffer[w], BLACK);
    assert_eq!(v.buffer[w + 1], BLACK);
    // pixel (1,0) is unlit: white paper
    assert_eq!(v.buffer[2], WHITE);
}

#[test]
fn border_colour_masks_to_three_bits() {
    let mut v = Video::new(false);
    v.set_border_colour(0x0F);
    assert_eq!(v.border_colour(), 7);
    v.set_border_colour(2);
    assert_eq!(v.border_colour(), 2);
}

#[test]
fn render_advances_flash_phase_every_sixteen_frames() {
    let mut m = blank_memory();
    m.write(0x4000, 0x80);
    m.write(0x5800, 0x80 | (7 << 3));
    let mut v = Video::new(false);
    for _ in 0..16 {
        v.render(&m);
    }
    // frame 16 is the first of the on phase: ink and paper trade places
    v.render(&m);
    assert_eq!(v.buffer[0], WHITE);
}
