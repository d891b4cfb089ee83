//! The bitmap-to-framebuffer translation: the Spectrum's interleaved
//! screen address arithmetic, the two palettes, and the renderer that
//! turns a memory snapshot plus border colour into a host pixel buffer.
//! Opening a window and blitting the buffer are the host's business.

use vstd::prelude::*;

use crate::alu::pow2_8;
use crate::memory::Memory;

verus! {

/// Horizontal pixels of the Spectrum canvas.
pub const SCREEN_WIDTH: usize = 256;
/// Vertical pixels of the Spectrum canvas.
pub const SCREEN_HEIGHT: usize = 192;
/// Integer scale factor applied to the canvas.
pub const SCREEN_SCALE: usize = 2;
/// Width reserved for the host's debug overlay, right of the canvas.
pub const DEBUG_PANEL_WIDTH: usize = 320;

/// Offset of pixel (x, y) inside the 6144-byte bitmap: the column byte
/// and the interleaved third/scan/row split of y.
pub open spec fn bitmap_offset(x: int, y: int) -> int
    recommends
        0 <= x < 256,
        0 <= y < 192,
{
    let col = x / 8;
    let third = y / 64;
    let line = y % 64;
    let scan = line / 8;
    let pr = line % 8;
    third * 2048 + pr * 256 + scan * 32 + col
}

/// Offset of pixel (x, y) inside the 768-byte attribute area.
pub open spec fn attr_offset(x: int, y: int) -> int
    recommends
        0 <= x < 256,
        0 <= y < 192,
{
    (y / 8) * 32 + x / 8
}

/// The palette: colour `index` in the normal or bright ramp, as a host
/// pixel with an opaque alpha byte.
pub open spec fn palette(index: u8, bright: bool) -> u32
    recommends
        index < 8,
{
    if bright {
        if index == 0 {
            0xFF000000u32
        } else if index == 1 {
            0xFF0000FFu32
        } else if index == 2 {
            0xFFFF0000u32
        } else if index == 3 {
            0xFFFF00FFu32
        } else if index == 4 {
            0xFF00FF00u32
        } else if index == 5 {
            0xFF00FFFFu32
        } else if index == 6 {
            0xFFFFFF00u32
        } else {
            0xFFFFFFFFu32
        }
    } else {
        if index == 0 {
            0xFF000000u32
        } else if index == 1 {
            0xFF0000CDu32
        } else if index == 2 {
            0xFFCD0000u32
        } else if index == 3 {
            0xFFCD00CDu32
        } else if index == 4 {
            0xFF00CD00u32
        } else if index == 5 {
            0xFF00CDCDu32
        } else if index == 6 {
            0xFFCDCD00u32
        } else {
            0xFFCDCDCDu32
        }
    }
}

/// The colour of Spectrum pixel (x, y) given a memory snapshot and the
/// flash phase: the attribute cell supplies ink, paper and bright; a set
/// bitmap bit selects ink, and during the on phase a flashing cell has
/// ink and paper traded.
pub open spec fn pixel_colour(mem: Seq<u8>, x: int, y: int, flash_on: bool) -> u32
    recommends
        mem.len() == 0x10000,
        0 <= x < 256,
        0 <= y < 192,
{
    let byte = mem[0x4000 + bitmap_offset(x, y)];
    let attr = mem[0x5800 + attr_offset(x, y)];
    let flash = attr / 128 == 1;
    let bright = (attr / 64) % 2 == 1;
    let paper = (attr / 8) % 8;
    let ink = attr % 8;
    let bit = (byte / pow2_8((7 - x % 8) as u8)) % 2;
    let ink_up = bit == 1;
    let ink_shown = if flash && flash_on {
        !ink_up
    } else {
        ink_up
    };
    if ink_shown {
        palette(ink, bright)
    } else {
        palette(paper, bright)
    }
}

/// What the renderer puts at buffer position (px, py): the scaled canvas
/// in the top-left 512x384 region, the border colour everywhere else
/// (including the debug strip, which the host draws over).
pub open spec fn frame_pixel(
    mem: Seq<u8>,
    border: u8,
    flash_on: bool,
    px: int,
    py: int,
) -> u32
    recommends
        mem.len() == 0x10000,
        border < 8,
{
    if 0 <= px < 512 && 0 <= py < 384 {
        pixel_colour(mem, px / 2, py / 2, flash_on)
    } else {
        palette(border, false)
    }
}

/// The framebuffer and border latch.  The host window that displays the
/// buffer lives outside the library.
pub struct Video {
    pub buffer: Vec<u32>,
    pub width: usize,
    pub height: usize,
    pub debug_enabled: bool,
    pub border_colour: u8,
    pub frame_count: u8,
}

impl Video {
    /// The geometry invariant: a 512x384 scaled canvas, widened by the
    /// debug strip when enabled, with a full-size buffer and a 3-bit
    /// border.
    pub open spec fn wf(&self) -> bool {
        &&& self.width == 512 + if self.debug_enabled {
            320int
        } else {
            0int
        }
        &&& self.height == 384
        &&& self.buffer@.len() == self.width * self.height
        &&& self.border_colour < 8
        &&& self.frame_count < 32
    }

    /// A black buffer with a white border, sized for the optional debug
    /// strip.
    pub fn new(debug_enabled: bool) -> (v: Video)
        ensures
            v.wf(),
            v.debug_enabled == debug_enabled,
            v.border_colour == 7,
            v.frame_count == 0,
    {
        let width: usize = if debug_enabled {
            512 + DEBUG_PANEL_WIDTH
        } else {
            512
        };
        let height: usize = 384;
        let total: usize = width * height;
        let mut buffer: Vec<u32> = Vec::new();
        let mut i: usize = 0;
        while i < total
            invariant
                buffer@.len() == i,
                i <= total,
            decreases total - i,
        {
            buffer.push(0);
            i = i + 1;
        }
        Video { buffer, width, height, debug_enabled, border_colour: 7, frame_count: 0 }
    }

    /// The current border colour.
    pub fn border_colour(&self) -> (r: u8)
        ensures
            r == self.border_colour,
    {
        self.border_colour
    }

    /// Latches a border colour; only the low three bits matter.
    pub fn set_border_colour(&mut self, colour: u8)
        ensures
            *final(self) == (Video { border_colour: colour % 8, ..*old(self) }),
    {
        self.border_colour = colour % 8;
    }

    /// The colour of one Spectrum pixel under the current memory state.
    pub fn render_pixel(memory: &Memory, x: usize, y: usize, flash_on: bool) -> (c: u32)
        requires
            memory.wf(),
            x < 256,
            y < 192,
        ensures
            c == pixel_colour(memory@, x as int, y as int, flash_on),
    {
        let col = x / 8;
        let third = y / 64;
        let line = y % 64;
        let scan = line / 8;
        let pr = line % 8;
        let bitmap_addr: u16 = 0x4000 + (third * 2048 + pr * 256 + scan * 32 + col) as u16;
        let attr_addr: u16 = 0x5800 + ((y / 8) * 32 + col) as u16;
        let byte = memory.read(bitmap_addr);
        let attr = memory.read(attr_addr);
        let flash = attr / 128 == 1;
        let bright = (attr / 64) % 2 == 1;
        let paper = (attr / 8) % 8;
        let ink = attr % 8;
        let bit = (byte / crate::alu::pow2_of((7 - x % 8) as u8)) % 2;
        let ink_up = bit == 1;
        let ink_shown = if flash && flash_on {
            !ink_up
        } else {
            ink_up
        };
        if ink_shown {
            Video::palette_colour(ink, bright)
        } else {
            Video::palette_colour(paper, bright)
        }
    }

    /// One palette entry.
    pub fn palette_colour(index: u8, bright: bool) -> (c: u32)
        requires
            index < 8,
        ensures
            c == palette(index, bright),
    {
        if bright {
            if index == 0 {
                0xFF000000
            } else if index == 1 {
                0xFF0000FF
            } else if index == 2 {
                0xFFFF0000
            } else if index == 3 {
                0xFFFF00FF
            } else if index == 4 {
                0xFF00FF00
            } else if index == 5 {
                0xFF00FFFF
            } else if index == 6 {
                0xFFFFFF00
            } else {
                0xFFFFFFFF
            }
        } else {
            if index == 0 {
                0xFF000000
            } else if index == 1 {
                0xFF0000CD
            } else if index == 2 {
                0xFFCD0000
            } else if index == 3 {
                0xFFCD00CD
            } else if index == 4 {
                0xFF00CD00
            } else if index == 5 {
                0xFF00CDCD
            } else if index == 6 {
                0xFFCDCD00
            } else {
                0xFFCDCDCD
            }
        }
    }

    /// Renders the screen area and border into the buffer from a memory
    /// snapshot, and advances the 16-frame flash phase.
    pub fn render(&mut self, memory: &Memory)
        requires
            old(self).wf(),
            memory.wf(),
        ensures
            final(self).wf(),
            final(self).width == old(self).width,
            final(self).height == old(self).height,
            final(self).debug_enabled == old(self).debug_enabled,
            final(self).border_colour == old(self).border_colour,
            final(self).frame_count == (old(self).frame_count + 1) % 32,
            forall|idx: int|
                0 <= idx < final(self).buffer@.len() ==> #[trigger] final(self).buffer@[idx]
                    == frame_pixel(
                    memory@,
                    old(self).border_colour,
                    old(self).frame_count / 16 == 1,
                    idx % (final(self).width as int),
                    idx / (final(self).width as int),
                ),
    {
        let flash_on = self.frame_count / 16 == 1;
        let width = self.width;
        let height = self.height;
        let ghost border = self.border_colour;
        let mut buf: Vec<u32> = Vec::new();
        let mut py: usize = 0;
        while py < height
            invariant
                memory.wf(),
                width == 512 + if self.debug_enabled {
                    320int
                } else {
                    0int
                },
                height == 384,
                self.border_colour == border,
                border < 8,
                py <= height,
                buf@.len() == py * width,
                forall|idx: int|
                    0 <= idx < buf@.len() ==> #[trigger] buf@[idx] == frame_pixel(
                        memory@,
                        border,
                        flash_on,
                        idx % (width as int),
                        idx / (width as int),
                    ),
            decreases height - py,
        {
            let mut px: usize = 0;
            while px < width
                invariant
                    memory.wf(),
                    width == 512 + if self.debug_enabled {
                        320int
                    } else {
                        0int
                    },
                    height == 384,
                    self.border_colour == border,
                    border < 8,
                    py < height,
                    px <= width,
                    buf@.len() == py * width + px,
                    forall|idx: int|
                        0 <= idx < buf@.len() ==> #[trigger] buf@[idx] == frame_pixel(
                            memory@,
                            border,
                            flash_on,
                            idx % (width as int),
                            idx / (width as int),
                        ),
                decreases width - px,
            {
                let colour = if px < 512 && py < 384 {
                    Video::render_pixel(memory, px / 2, py / 2, flash_on)
                } else {
                    Video::palette_colour(self.border_colour, false)
                };
                proof {
                    assert((py * width + px) % (width as int) == px && (py * width + px) / (
                    width as int) == py) by (nonlinear_arith)
                        requires
                            0 <= px < width,
                            0 <= py,
                    ;
                }
                buf.push(colour);
                px = px + 1;
            }
            proof {
                assert((py + 1) * width == py * width + width) by (nonlinear_arith);
            }
            py = py + 1;
        }
        proof {
            assert(height * width == width * height) by (nonlinear_arith);
        }
        self.buffer = buf;
        self.frame_count = (self.frame_count + 1) % 32;
    }
}

} // verus!
