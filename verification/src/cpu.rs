//! The Z80 register file and the helpers every instruction builds on:
//! flag access, register pairs, operand fetches and the stack.
//!
//! Contracts are stated over plain arithmetic on the register bytes; the
//! flag byte is modelled as a sum of eight weighted bits.

use vstd::prelude::*;

use crate::memory::{mem_read_word, mem_write_word, Memory};

verus! {

/// 16-bit addition with wrap-around.
pub open spec fn add16w(x: u16, y: int) -> u16
    recommends
        0 <= y < 0x10000,
{
    (((x + y) as int % 0x10000) as u16)
}

/// 16-bit subtraction with wrap-around.
pub open spec fn sub16w(x: u16, y: int) -> u16
    recommends
        0 <= y < 0x10000,
{
    (((x + 0x10000 - y) as int % 0x10000) as u16)
}

/// 8-bit addition with wrap-around.
pub open spec fn add8w(x: u8, y: int) -> u8
    recommends
        0 <= y < 0x100,
{
    (((x + y) as int % 0x100) as u8)
}

/// 8-bit subtraction with wrap-around.
pub open spec fn sub8w(x: u8, y: int) -> u8
    recommends
        0 <= y < 0x100,
{
    (((x + 0x100 - y) as int % 0x100) as u8)
}

/// The address `base + d` where `d` is a signed displacement byte.
pub open spec fn disp16(base: u16, d: i8) -> u16 {
    (((base + d + 0x10000) as int % 0x10000) as u16)
}

/// The refresh register after one auto-increment: the low seven bits count,
/// bit 7 is preserved.
pub open spec fn r_bump(r: u8) -> u8 {
    ((r - r % 0x80) + (r % 0x80 + 1) % 0x80) as u8
}

/// Carry flag, bit 0 of F.
pub open spec fn flag_c(f: u8) -> bool {
    f % 2 == 1
}

/// Add/subtract flag, bit 1 of F.
pub open spec fn flag_n(f: u8) -> bool {
    (f / 2) % 2 == 1
}

/// Parity/overflow flag, bit 2 of F.
pub open spec fn flag_pv(f: u8) -> bool {
    (f / 4) % 2 == 1
}

/// Undocumented Y flag, bit 3 of F.
pub open spec fn flag_y(f: u8) -> bool {
    (f / 8) % 2 == 1
}

/// Half-carry flag, bit 4 of F.
pub open spec fn flag_h(f: u8) -> bool {
    (f / 16) % 2 == 1
}

/// Undocumented X flag, bit 5 of F.
pub open spec fn flag_x(f: u8) -> bool {
    (f / 32) % 2 == 1
}

/// Zero flag, bit 6 of F.
pub open spec fn flag_z(f: u8) -> bool {
    (f / 64) % 2 == 1
}

/// Sign flag, bit 7 of F.
pub open spec fn flag_s(f: u8) -> bool {
    f / 128 == 1
}

/// The flag byte assembled from its eight named bits.
pub open spec fn flags_byte(
    s: bool,
    z: bool,
    x: bool,
    h: bool,
    y: bool,
    pv: bool,
    n: bool,
    c: bool,
) -> u8 {
    ((if s {
        128int
    } else {
        0int
    }) + (if z {
        64int
    } else {
        0int
    }) + (if x {
        32int
    } else {
        0int
    }) + (if h {
        16int
    } else {
        0int
    }) + (if y {
        8int
    } else {
        0int
    }) + (if pv {
        4int
    } else {
        0int
    }) + (if n {
        2int
    } else {
        0int
    }) + (if c {
        1int
    } else {
        0int
    })) as u8
}

/// F with the bit of weight `m` forced to `val`; the other bits keep their
/// values.
pub open spec fn put_flag(f: u8, m: u8, val: bool) -> u8
    recommends
        m == 1 || m == 2 || m == 4 || m == 8 || m == 16 || m == 32 || m == 64 || m == 128,
{
    ((f - (f / m % 2) * m + if val {
        m as int
    } else {
        0
    }) as u8)
}

/// The two bytes of a register pair as one 16-bit value.
pub open spec fn pair(hi: u8, lo: u8) -> u16 {
    (256 * hi + lo) as u16
}

/// High byte of a 16-bit value.
pub open spec fn hi8(w: u16) -> u8 {
    (w / 256) as u8
}

/// Low byte of a 16-bit value.
pub open spec fn lo8(w: u16) -> u8 {
    (w % 256) as u8
}

/// A 16-bit value splits into its two bytes and reassembles.
pub proof fn lemma_pair_split(w: u16)
    ensures
        pair(hi8(w), lo8(w)) == w,
{
}

/// Each flag accessor recovers exactly the bit that `flags_byte` put in:
/// the flag byte encoding loses nothing.
pub proof fn lemma_flags_decode()
    ensures
        forall|s: bool, z: bool, x: bool, h: bool, y: bool, pv: bool, n: bool, c: bool|
            {
                &&& flag_s(#[trigger] flags_byte(s, z, x, h, y, pv, n, c)) == s
                &&& flag_z(flags_byte(s, z, x, h, y, pv, n, c)) == z
                &&& flag_x(flags_byte(s, z, x, h, y, pv, n, c)) == x
                &&& flag_h(flags_byte(s, z, x, h, y, pv, n, c)) == h
                &&& flag_y(flags_byte(s, z, x, h, y, pv, n, c)) == y
                &&& flag_pv(flags_byte(s, z, x, h, y, pv, n, c)) == pv
                &&& flag_n(flags_byte(s, z, x, h, y, pv, n, c)) == n
                &&& flag_c(flags_byte(s, z, x, h, y, pv, n, c)) == c
            },
{
}

/// Even parity: true when the number of set bits is even.
pub open spec fn parity_even(v: u8) -> bool {
    ((v >> 7) ^ (v >> 6) ^ (v >> 5) ^ (v >> 4) ^ (v >> 3) ^ (v >> 2) ^ (v >> 1) ^ v) & 1 == 0
}

/// A diagnostic left behind by an unrecognised opcode: the plane's prefix
/// byte(s), the opcode itself, and PC at the prefix byte.  Execution is
/// never stopped by one; the instruction is charged a conservative cycle
/// count and the host may report the event.
#[derive(Clone, Copy, PartialEq, Eq, Debug)]
pub struct OpcodeDiag {
    pub prefix: u16,
    pub opcode: u8,
    pub pc: u16,
}

/// The Z80 register file, interrupt latches and halt state.
#[derive(Clone, Copy)]
pub struct Cpu {
    pub a: u8,
    pub f: u8,
    pub b: u8,
    pub c: u8,
    pub d: u8,
    pub e: u8,
    pub h: u8,
    pub l: u8,
    pub a_alt: u8,
    pub f_alt: u8,
    pub b_alt: u8,
    pub c_alt: u8,
    pub d_alt: u8,
    pub e_alt: u8,
    pub h_alt: u8,
    pub l_alt: u8,
    pub ix: u16,
    pub iy: u16,
    pub sp: u16,
    pub pc: u16,
    pub i: u8,
    pub r: u8,
    pub iff1: bool,
    pub iff2: bool,
    pub interrupt_mode: u8,
    pub is_halted: bool,
    pub ei_pending: bool,
    pub last_diag: Option<OpcodeDiag>,
}

/// The state a PUSH leaves behind: SP two lower with wrap, the value stored
/// little-endian at the new SP.
pub open spec fn spec_push(cpu: Cpu, mem: Seq<u8>, val: u16) -> (Cpu, Seq<u8>) {
    (Cpu { sp: sub16w(cpu.sp, 2), ..cpu }, mem_write_word(mem, sub16w(cpu.sp, 2), val))
}

/// The state a POP leaves behind and the value it reads from the old SP.
pub open spec fn spec_pop(cpu: Cpu, mem: Seq<u8>) -> (Cpu, u16) {
    (Cpu { sp: add16w(cpu.sp, 2), ..cpu }, mem_read_word(mem, cpu.sp))
}

/// EX AF,AF': the accumulator and flag bytes trade places with the shadows.
pub open spec fn spec_ex_af(cpu: Cpu) -> Cpu {
    Cpu { a: cpu.a_alt, f: cpu.f_alt, a_alt: cpu.a, f_alt: cpu.f, ..cpu }
}

/// EXX: BC, DE and HL trade places with the shadow set.
pub open spec fn spec_exx(cpu: Cpu) -> Cpu {
    Cpu {
        b: cpu.b_alt,
        c: cpu.c_alt,
        d: cpu.d_alt,
        e: cpu.e_alt,
        h: cpu.h_alt,
        l: cpu.l_alt,
        b_alt: cpu.b,
        c_alt: cpu.c,
        d_alt: cpu.d,
        e_alt: cpu.e,
        h_alt: cpu.h,
        l_alt: cpu.l,
        ..cpu
    }
}

/// EX DE,HL: the two pairs trade places.
pub open spec fn spec_ex_de_hl(cpu: Cpu) -> Cpu {
    Cpu { d: cpu.h, e: cpu.l, h: cpu.d, l: cpu.e, ..cpu }
}

/// The register pair selected by `p`: BC, DE, HL or SP.
pub open spec fn rp_read(cpu: Cpu, p: u8) -> u16
    recommends
        p < 4,
{
    if p == 0 {
        pair(cpu.b, cpu.c)
    } else if p == 1 {
        pair(cpu.d, cpu.e)
    } else if p == 2 {
        pair(cpu.h, cpu.l)
    } else {
        cpu.sp
    }
}

/// The CPU with the pair selected by `p` (BC, DE, HL or SP) replaced.
pub open spec fn rp_write(cpu: Cpu, p: u8, val: u16) -> Cpu
    recommends
        p < 4,
{
    if p == 0 {
        Cpu { b: hi8(val), c: lo8(val), ..cpu }
    } else if p == 1 {
        Cpu { d: hi8(val), e: lo8(val), ..cpu }
    } else if p == 2 {
        Cpu { h: hi8(val), l: lo8(val), ..cpu }
    } else {
        Cpu { sp: val, ..cpu }
    }
}

/// The single register selected by a 3-bit code other than 6:
/// B, C, D, E, H, L or A.
pub open spec fn reg8_read(cpu: Cpu, code: u8) -> u8
    recommends
        code < 8 && code != 6,
{
    if code == 0 {
        cpu.b
    } else if code == 1 {
        cpu.c
    } else if code == 2 {
        cpu.d
    } else if code == 3 {
        cpu.e
    } else if code == 4 {
        cpu.h
    } else if code == 5 {
        cpu.l
    } else {
        cpu.a
    }
}

/// The CPU with the register selected by a 3-bit code other than 6
/// replaced.
pub open spec fn reg8_write(cpu: Cpu, code: u8, v: u8) -> Cpu
    recommends
        code < 8 && code != 6,
{
    if code == 0 {
        Cpu { b: v, ..cpu }
    } else if code == 1 {
        Cpu { c: v, ..cpu }
    } else if code == 2 {
        Cpu { d: v, ..cpu }
    } else if code == 3 {
        Cpu { e: v, ..cpu }
    } else if code == 4 {
        Cpu { h: v, ..cpu }
    } else if code == 5 {
        Cpu { l: v, ..cpu }
    } else {
        Cpu { a: v, ..cpu }
    }
}

/// The reset state: every register zero except SP, which starts at the
/// top of memory.
pub open spec fn spec_reset() -> Cpu {
    Cpu {
        a: 0,
        f: 0,
        b: 0,
        c: 0,
        d: 0,
        e: 0,
        h: 0,
        l: 0,
        a_alt: 0,
        f_alt: 0,
        b_alt: 0,
        c_alt: 0,
        d_alt: 0,
        e_alt: 0,
        h_alt: 0,
        l_alt: 0,
        ix: 0,
        iy: 0,
        sp: 0xFFFF,
        pc: 0,
        i: 0,
        r: 0,
        iff1: false,
        iff2: false,
        interrupt_mode: 0,
        is_halted: false,
        ei_pending: false,
        last_diag: None,
    }
}

impl Cpu {
    /// Reset state: every register zero except SP, which starts at the top
    /// of memory.
    pub fn new() -> (cpu: Cpu)
        ensures
            cpu == spec_reset(),
            cpu.a == 0 && cpu.f == 0 && cpu.b == 0 && cpu.c == 0,
            cpu.d == 0 && cpu.e == 0 && cpu.h == 0 && cpu.l == 0,
            cpu.a_alt == 0 && cpu.f_alt == 0 && cpu.b_alt == 0 && cpu.c_alt == 0,
            cpu.d_alt == 0 && cpu.e_alt == 0 && cpu.h_alt == 0 && cpu.l_alt == 0,
            cpu.ix == 0 && cpu.iy == 0,
            cpu.sp == 0xFFFF && cpu.pc == 0,
            cpu.i == 0 && cpu.r == 0,
            !cpu.iff1 && !cpu.iff2,
            cpu.interrupt_mode == 0,
            !cpu.is_halted,
            !cpu.ei_pending,
            cpu.last_diag is None,
    {
        Cpu {
            a: 0,
            f: 0,
            b: 0,
            c: 0,
            d: 0,
            e: 0,
            h: 0,
            l: 0,
            a_alt: 0,
            f_alt: 0,
            b_alt: 0,
            c_alt: 0,
            d_alt: 0,
            e_alt: 0,
            h_alt: 0,
            l_alt: 0,
            ix: 0,
            iy: 0,
            sp: 0xFFFF,
            pc: 0,
            i: 0,
            r: 0,
            iff1: false,
            iff2: false,
            interrupt_mode: 0,
            is_halted: false,
            ei_pending: false,
            last_diag: None,
        }
    }

    // == Flag-setting helper functions == //
    pub fn set_flag_c(&mut self, val: bool)
        ensures
            *final(self) == (Cpu { f: put_flag(old(self).f, 1, val), ..*old(self) }),
    {
        self.f = self.f - (self.f / 1 % 2) * 1 + if val {
            1
        } else {
            0
        };
    }

    pub fn set_flag_n(&mut self, val: bool)
        ensures
            *final(self) == (Cpu { f: put_flag(old(self).f, 2, val), ..*old(self) }),
    {
        self.f = self.f - (self.f / 2 % 2) * 2 + if val {
            2
        } else {
            0
        };
    }

    pub fn set_flag_pv(&mut self, val: bool)
        ensures
            *final(self) == (Cpu { f: put_flag(old(self).f, 4, val), ..*old(self) }),
    {
        self.f = self.f - (self.f / 4 % 2) * 4 + if val {
            4
        } else {
            0
        };
    }

    pub fn set_flag_y(&mut self, val: bool)
        ensures
            *final(self) == (Cpu { f: put_flag(old(self).f, 8, val), ..*old(self) }),
    {
        self.f = self.f - (self.f / 8 % 2) * 8 + if val {
            8
        } else {
            0
        };
    }

    pub fn set_flag_h(&mut self, val: bool)
        ensures
            *final(self) == (Cpu { f: put_flag(old(self).f, 16, val), ..*old(self) }),
    {
        self.f = self.f - (self.f / 16 % 2) * 16 + if val {
            16
        } else {
            0
        };
    }

    pub fn set_flag_x(&mut self, val: bool)
        ensures
            *final(self) == (Cpu { f: put_flag(old(self).f, 32, val), ..*old(self) }),
    {
        self.f = self.f - (self.f / 32 % 2) * 32 + if val {
            32
        } else {
            0
        };
    }

    pub fn set_flag_z(&mut self, val: bool)
        ensures
            *final(self) == (Cpu { f: put_flag(old(self).f, 64, val), ..*old(self) }),
    {
        self.f = self.f - (self.f / 64 % 2) * 64 + if val {
            64
        } else {
            0
        };
    }

    pub fn set_flag_s(&mut self, val: bool)
        ensures
            *final(self) == (Cpu { f: put_flag(old(self).f, 128, val), ..*old(self) }),
    {
        self.f = self.f - (self.f / 128 % 2) * 128 + if val {
            128
        } else {
            0
        };
    }

    // == Flag-getting helper functions == //
    pub fn get_flag_c(&self) -> (r: bool)
        ensures
            r == flag_c(self.f),
    {
        self.f % 2 == 1
    }

    pub fn get_flag_n(&self) -> (r: bool)
        ensures
            r == flag_n(self.f),
    {
        (self.f / 2) % 2 == 1
    }

    pub fn get_flag_pv(&self) -> (r: bool)
        ensures
            r == flag_pv(self.f),
    {
        (self.f / 4) % 2 == 1
    }

    pub fn get_flag_y(&self) -> (r: bool)
        ensures
            r == flag_y(self.f),
    {
        (self.f / 8) % 2 == 1
    }

    pub fn get_flag_h(&self) -> (r: bool)
        ensures
            r == flag_h(self.f),
    {
        (self.f / 16) % 2 == 1
    }

    pub fn get_flag_x(&self) -> (r: bool)
        ensures
            r == flag_x(self.f),
    {
        (self.f / 32) % 2 == 1
    }

    pub fn get_flag_z(&self) -> (r: bool)
        ensures
            r == flag_z(self.f),
    {
        (self.f / 64) % 2 == 1
    }

    pub fn get_flag_s(&self) -> (r: bool)
        ensures
            r == flag_s(self.f),
    {
        self.f / 128 == 1
    }

    // == Register pair helper functions == //
    pub fn af(&self) -> (r: u16)
        ensures
            r == pair(self.a, self.f),
    {
        256 * (self.a as u16) + (self.f as u16)
    }

    pub fn set_af(&mut self, val: u16)
        ensures
            *final(self) == (Cpu { a: (val / 256) as u8, f: (val % 256) as u8, ..*old(self) }),
    {
        self.a = (val / 256) as u8;
        self.f = (val % 256) as u8;
    }

    pub fn bc(&self) -> (r: u16)
        ensures
            r == pair(self.b, self.c),
    {
        256 * (self.b as u16) + (self.c as u16)
    }

    pub fn set_bc(&mut self, val: u16)
        ensures
            *final(self) == (Cpu { b: (val / 256) as u8, c: (val % 256) as u8, ..*old(self) }),
    {
        self.b = (val / 256) as u8;
        self.c = (val % 256) as u8;
    }

    pub fn de(&self) -> (r: u16)
        ensures
            r == pair(self.d, self.e),
    {
        256 * (self.d as u16) + (self.e as u16)
    }

    pub fn set_de(&mut self, val: u16)
        ensures
            *final(self) == (Cpu { d: (val / 256) as u8, e: (val % 256) as u8, ..*old(self) }),
    {
        self.d = (val / 256) as u8;
        self.e = (val % 256) as u8;
    }

    pub fn hl(&self) -> (r: u16)
        ensures
            r == pair(self.h, self.l),
    {
        256 * (self.h as u16) + (self.l as u16)
    }

    pub fn set_hl(&mut self, val: u16)
        ensures
            *final(self) == (Cpu { h: (val / 256) as u8, l: (val % 256) as u8, ..*old(self) }),
    {
        self.h = (val / 256) as u8;
        self.l = (val % 256) as u8;
    }

    /// Reads the register pair selected by `p`: BC, DE, HL or SP.
    pub fn get_rp(&self, p: u8) -> (r: u16)
        requires
            p < 4,
        ensures
            r == rp_read(*self, p),
    {
        if p == 0 {
            self.bc()
        } else if p == 1 {
            self.de()
        } else if p == 2 {
            self.hl()
        } else {
            self.sp
        }
    }

    /// Replaces the register pair selected by `p`: BC, DE, HL or SP.
    pub fn put_rp(&mut self, p: u8, val: u16)
        requires
            p < 4,
        ensures
            *final(self) == rp_write(*old(self), p, val),
    {
        if p == 0 {
            self.set_bc(val);
        } else if p == 1 {
            self.set_de(val);
        } else if p == 2 {
            self.set_hl(val);
        } else {
            self.sp = val;
        }
    }

    /// Reads the register named by a 3-bit code; code 6 is the memory
    /// operand (HL).
    pub fn read_reg(&self, reg_code: u8, memory: &Memory) -> (r: u8)
        requires
            reg_code < 8,
            memory.wf(),
        ensures
            r == if reg_code == 6 {
                memory@[pair(self.h, self.l) as int]
            } else {
                reg8_read(*self, reg_code)
            },
    {
        if reg_code == 0 {
            self.b
        } else if reg_code == 1 {
            self.c
        } else if reg_code == 2 {
            self.d
        } else if reg_code == 3 {
            self.e
        } else if reg_code == 4 {
            self.h
        } else if reg_code == 5 {
            self.l
        } else if reg_code == 6 {
            memory.read(self.hl())
        } else {
            self.a
        }
    }

    /// Writes the register named by a 3-bit code; code 6 stores to (HL).
    pub fn write_reg(&mut self, reg_code: u8, val: u8, memory: &mut Memory)
        requires
            reg_code < 8,
            old(memory).wf(),
        ensures
            final(memory).wf(),
            reg_code == 6 ==> *final(self) == *old(self),
            reg_code == 6 ==> final(memory)@ == crate::memory::mem_write(
                old(memory)@,
                pair(old(self).h, old(self).l),
                val,
            ),
            reg_code != 6 ==> *final(self) == reg8_write(*old(self), reg_code, val),
            reg_code != 6 ==> final(memory)@ == old(memory)@,
    {
        if reg_code == 0 {
            self.b = val;
        } else if reg_code == 1 {
            self.c = val;
        } else if reg_code == 2 {
            self.d = val;
        } else if reg_code == 3 {
            self.e = val;
        } else if reg_code == 4 {
            self.h = val;
        } else if reg_code == 5 {
            self.l = val;
        } else if reg_code == 6 {
            memory.write(self.hl(), val);
        } else {
            self.a = val;
        }
    }

    // == Stack operations == //
    /// PUSH: SP moves down two with 16-bit wrap, then the value is stored at
    /// the new SP.
    pub fn push(&mut self, val: u16, memory: &mut Memory)
        requires
            old(memory).wf(),
        ensures
            final(memory).wf(),
            (*final(self), final(memory)@) == spec_push(*old(self), old(memory)@, val),
    {
        self.sp = wsub16(self.sp, 2);
        memory.write_word(self.sp, val);
    }

    /// POP: reads the word at SP, then SP moves up two with 16-bit wrap.
    pub fn pop(&mut self, memory: &Memory) -> (val: u16)
        requires
            memory.wf(),
        ensures
            (*final(self), val) == spec_pop(*old(self), memory@),
    {
        let val = memory.read_word(self.sp);
        self.sp = wadd16(self.sp, 2);
        val
    }

    // == Fetching == //
    /// Reads the byte at PC and advances PC with 16-bit wrap.
    pub fn fetch_byte(&mut self, memory: &Memory) -> (b: u8)
        requires
            memory.wf(),
        ensures
            b == memory@[old(self).pc as int],
            *final(self) == (Cpu { pc: add16w(old(self).pc, 1), ..*old(self) }),
    {
        let b = memory.read(self.pc);
        self.pc = wadd16(self.pc, 1);
        b
    }

    /// Reads the little-endian word at PC and advances PC by two.
    pub fn fetch_word(&mut self, memory: &Memory) -> (w: u16)
        requires
            memory.wf(),
        ensures
            w == mem_read_word(memory@, old(self).pc),
            *final(self) == (Cpu { pc: add16w(old(self).pc, 2), ..*old(self) }),
    {
        let lo = self.fetch_byte(memory) as u16;
        let hi = self.fetch_byte(memory) as u16;
        assert(add16w(add16w(old(self).pc, 1), 1) == add16w(old(self).pc, 2));
        256 * hi + lo
    }

    /// Records the diagnostic for an unrecognised opcode `back` bytes
    /// behind PC, in the plane named by `prefix`.
    pub fn note_unknown(&mut self, prefix: u16, opcode: u8, back: u16)
        requires
            back < 0x10000,
        ensures
            *final(self) == (Cpu {
                last_diag: Some(
                    OpcodeDiag { prefix, opcode, pc: sub16w(old(self).pc, back as int) },
                ),
                ..*old(self)
            }),
    {
        self.last_diag = Some(OpcodeDiag { prefix, opcode, pc: wsub16(self.pc, back) });
    }

    // == Exchanges == //
    /// EX AF,AF'.
    pub fn ex_af_af(&mut self)
        ensures
            *final(self) == spec_ex_af(*old(self)),
    {
        let a = self.a;
        let f = self.f;
        self.a = self.a_alt;
        self.f = self.f_alt;
        self.a_alt = a;
        self.f_alt = f;
    }

    /// EXX.
    pub fn exx(&mut self)
        ensures
            *final(self) == spec_exx(*old(self)),
    {
        let b = self.b;
        let c = self.c;
        let d = self.d;
        let e = self.e;
        let h = self.h;
        let l = self.l;
        self.b = self.b_alt;
        self.c = self.c_alt;
        self.d = self.d_alt;
        self.e = self.e_alt;
        self.h = self.h_alt;
        self.l = self.l_alt;
        self.b_alt = b;
        self.c_alt = c;
        self.d_alt = d;
        self.e_alt = e;
        self.h_alt = h;
        self.l_alt = l;
    }

    /// EX DE,HL.
    pub fn ex_de_hl(&mut self)
        ensures
            *final(self) == spec_ex_de_hl(*old(self)),
    {
        let d = self.d;
        let e = self.e;
        self.d = self.h;
        self.e = self.l;
        self.h = d;
        self.l = e;
    }
}

/// 16-bit wrapping addition.
pub fn wadd16(x: u16, y: u16) -> (r: u16)
    ensures
        r == add16w(x, y as int),
{
    (((x as u32) + (y as u32)) % 0x10000) as u16
}

/// 16-bit wrapping subtraction.
pub fn wsub16(x: u16, y: u16) -> (r: u16)
    ensures
        r == sub16w(x, y as int),
{
    (((x as u32) + 0x10000 - (y as u32)) % 0x10000) as u16
}

/// 8-bit wrapping addition.
pub fn wadd8(x: u8, y: u8) -> (r: u8)
    ensures
        r == add8w(x, y as int),
{
    (((x as u16) + (y as u16)) % 0x100) as u8
}

/// 8-bit wrapping subtraction.
pub fn wsub8(x: u8, y: u8) -> (r: u8)
    ensures
        r == sub8w(x, y as int),
{
    (((x as u16) + 0x100 - (y as u16)) % 0x100) as u8
}

/// Index-register displacement: `base + d` with `d` sign-extended.
pub fn disp_addr(base: u16, d: i8) -> (r: u16)
    ensures
        r == disp16(base, d),
{
    (((base as i32) + (d as i32) + 0x10000) % 0x10000) as u16
}

/// One refresh-register auto-increment.
pub fn bump_r(r: u8) -> (res: u8)
    ensures
        res == r_bump(r),
{
    (r - r % 0x80) + (r % 0x80 + 1) % 0x80
}

} // verus!
