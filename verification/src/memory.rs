//! The Spectrum's flat 64 KiB address space: 16 KiB of read-only ROM at the
//! low end and 48 KiB of RAM above it.  Byte and little-endian word access;
//! writes below 0x4000 are silently ignored.

use vstd::prelude::*;

verus! {

/// Size of the ROM region, 16 KiB mapped at 0x0000..0x4000.
pub const ROM_SIZE: usize = 0x4000;
/// Size of the RAM region, 48 KiB mapped at 0x4000..0x10000.
pub const RAM_SIZE: usize = 0xC000;
/// First RAM address; writes below this are ignored.
pub const RAM_BASE: u16 = 0x4000;

/// What a write does to the 64 KiB address space: RAM bytes are replaced,
/// ROM bytes are left alone.
pub open spec fn mem_write(m: Seq<u8>, addr: u16, val: u8) -> Seq<u8> {
    if addr < 0x4000 {
        m
    } else {
        m.update(addr as int, val)
    }
}

/// The little-endian word at `addr`; the high byte comes from `addr + 1`
/// with 16-bit wrap-around.
pub open spec fn mem_read_word(m: Seq<u8>, addr: u16) -> u16
    recommends
        m.len() == 0x10000,
{
    (256 * m[addr.wrapping_add(1) as int] + m[addr as int]) as u16
}

/// What a little-endian word write does: low byte at `addr`, high byte at
/// `addr + 1` with 16-bit wrap-around, each subject to ROM protection.
pub open spec fn mem_write_word(m: Seq<u8>, addr: u16, val: u16) -> Seq<u8> {
    mem_write(mem_write(m, addr, (val % 256) as u8), addr.wrapping_add(1), (val / 256) as u8)
}

/// The 64 KiB address space, partitioned at 0x3FFF/0x4000.
pub struct Memory {
    rom: Vec<u8>,
    ram: Vec<u8>,
}

impl View for Memory {
    type V = Seq<u8>;

    /// The whole address space as one 65536-byte sequence.
    closed spec fn view(&self) -> Seq<u8> {
        self.rom@ + self.ram@
    }
}

impl Memory {
    /// Both regions have their fixed sizes, so every 16-bit address is valid.
    pub closed spec fn wf(&self) -> bool {
        self.rom@.len() == 0x4000 && self.ram@.len() == 0xC000
    }

    /// A well-formed memory exposes the full 16-bit address space, so
    /// every address indexes the view soundly.
    pub proof fn lemma_view_len(&self)
        requires
            self.wf(),
        ensures
            self@.len() == 0x10000,
    {
    }

    /// Builds the address space from a 16 KiB ROM image; RAM starts zeroed.
    pub fn new(rom: Vec<u8>) -> (m: Memory)
        requires
            rom@.len() == 0x4000,
        ensures
            m.wf(),
            m@ == rom@ + Seq::<u8>::new(0xC000, |i: int| 0u8),
    {
        let mut ram: Vec<u8> = Vec::new();
        let mut i: usize = 0;
        while i < RAM_SIZE
            invariant
                ram@ =~= Seq::<u8>::new(i as nat, |j: int| 0u8),
                i <= RAM_SIZE,
            decreases RAM_SIZE - i,
        {
            ram.push(0);
            i = i + 1;
        }
        let m = Memory { rom, ram };
        assert(m@ =~= m.rom@ + Seq::<u8>::new(0xC000, |i: int| 0u8));
        m
    }

    /// The ROM image.
    pub fn rom(&self) -> (r: &[u8])
        requires
            self.wf(),
        ensures
            r@ == self@.subrange(0, 0x4000),
    {
        let r = self.rom.as_slice();
        assert(r@ =~= self@.subrange(0, 0x4000));
        r
    }

    /// ROM below 0x4000, RAM above.
    pub fn read(&self, addr: u16) -> (b: u8)
        requires
            self.wf(),
        ensures
            b == self@[addr as int],
    {
        if addr < RAM_BASE {
            self.rom[addr as usize]
        } else {
            let b = self.ram[(addr - RAM_BASE) as usize];
            assert(self@[addr as int] == self.ram@[addr - 0x4000]);
            b
        }
    }

    /// Writes only when the address lies in RAM.
    pub fn write(&mut self, addr: u16, val: u8)
        requires
            old(self).wf(),
        ensures
            final(self).wf(),
            final(self)@ == mem_write(old(self)@, addr, val),
    {
        if addr >= RAM_BASE {
            let i = (addr - RAM_BASE) as usize;
            self.ram[i] = val;
            assert(self@ =~= old(self)@.update(addr as int, val));
        }
    }

    /// Little-endian two-byte read; the high byte is fetched from `addr + 1`
    /// with 16-bit wrap.
    pub fn read_word(&self, addr: u16) -> (w: u16)
        requires
            self.wf(),
        ensures
            w == mem_read_word(self@, addr),
    {
        let lo = self.read(addr) as u16;
        let hi = self.read(addr.wrapping_add(1)) as u16;
        256 * hi + lo
    }

    /// Little-endian two-byte write.
    pub fn write_word(&mut self, addr: u16, val: u16)
        requires
            old(self).wf(),
        ensures
            final(self).wf(),
            final(self)@ == mem_write_word(old(self)@, addr, val),
    {
        let lo = (val % 256) as u8;
        let hi = (val / 256) as u8;
        self.write(addr, lo);
        self.write(addr.wrapping_add(1), hi);
    }

    /// The 6144-byte pixel bitmap at 0x4000..0x5800.
    pub fn screen_bitmap(&self) -> (r: &[u8])
        requires
            self.wf(),
        ensures
            r@ == self@.subrange(0x4000, 0x5800),
    {
        let r = vstd::slice::slice_subrange(self.ram.as_slice(), 0, 0x1800);
        assert(r@ =~= self@.subrange(0x4000, 0x5800));
        r
    }

    /// The 768-byte attribute area at 0x5800..0x5B00.
    pub fn screen_attributes(&self) -> (r: &[u8])
        requires
            self.wf(),
        ensures
            r@ == self@.subrange(0x5800, 0x5B00),
    {
        let r = vstd::slice::slice_subrange(self.ram.as_slice(), 0x1800, 0x1B00);
        assert(r@ =~= self@.subrange(0x5800, 0x5B00));
        r
    }

    /// The attribute byte encoding flash, bright, paper and ink.
    pub open spec fn attr_byte(ink: u8, paper: u8, bright: bool, flash: bool) -> u8 {
        ((if flash {
            0x80u8
        } else {
            0u8
        }) | (if bright {
            0x40u8
        } else {
            0u8
        }) | ((paper & 0x07) << 3) | (ink & 0x07)) as u8
    }

    /// Zeroes the pixel bitmap and fills the attribute area with one
    /// ink/paper/bright/flash byte; everything else is untouched.
    pub fn clear_screen(&mut self, ink: u8, paper: u8, bright: bool, flash: bool)
        requires
            old(self).wf(),
        ensures
            final(self).wf(),
            final(self)@.len() == old(self)@.len(),
            forall|a: int|
                0x4000 <= a < 0x5800 ==> final(self)@[a] == 0,
            forall|a: int|
                0x5800 <= a < 0x5B00 ==> final(self)@[a] == Memory::attr_byte(
                    ink,
                    paper,
                    bright,
                    flash,
                ),
            forall|a: int|
                0 <= a < 0x10000 && !(0x4000 <= a < 0x5B00) ==> final(self)@[a] == old(self)@[a],
    {
        let mut i: usize = 0;
        while i < 0x1800
            invariant
                self.wf(),
                self@.len() == old(self)@.len(),
                i <= 0x1800,
                forall|a: int| 0x4000 <= a < 0x4000 + i ==> #[trigger] self@[a] == 0,
                forall|a: int|
                    0 <= a < 0x10000 && !(0x4000 <= a < 0x4000 + i) ==> #[trigger] self@[a]
                        == old(self)@[a],
            decreases 0x1800 - i,
        {
            let ghost prev = self@;
            self.ram[i] = 0;
            assert(self@ =~= prev.update(0x4000 + i, 0u8));
            i = i + 1;
        }
        let attr = (if flash {
            0x80u8
        } else {
            0u8
        }) | (if bright {
            0x40u8
        } else {
            0u8
        }) | ((paper & 0x07) << 3) | (ink & 0x07);
        let ghost mid = self@;
        let mut j: usize = 0x1800;
        while j < 0x1B00
            invariant
                self.wf(),
                self@.len() == mid.len(),
                0x1800 <= j <= 0x1B00,
                attr == Memory::attr_byte(ink, paper, bright, flash),
                forall|a: int| 0x5800 <= a < 0x4000 + j ==> #[trigger] self@[a] == attr,
                forall|a: int|
                    0 <= a < 0x10000 && !(0x5800 <= a < 0x4000 + j) ==> #[trigger] self@[a]
                        == mid[a],
            decreases 0x1B00 - j,
        {
            let ghost prev = self@;
            self.ram[j] = attr;
            assert(self@ =~= prev.update(0x4000 + j, attr));
            j = j + 1;
        }
    }
}

} // verus!
