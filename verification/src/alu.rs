//! Value-level semantics of the Z80 arithmetic, logic, rotate and bit
//! operations: each spec function maps operand bytes and the incoming flag
//! byte to the result and the outgoing flag byte, exactly as the flag
//! tables document them, including the undocumented X and Y bits.

use vstd::prelude::*;

use crate::cpu::{
    flag_c, flag_h, flag_n, flag_pv, flag_s, flag_x, flag_y, flag_z, flags_byte, parity_even, Cpu,
};

verus! {

/// ADD/ADC: result and flags.  C from bit-7 carry, N cleared, P/V signed
/// overflow, H from bit-3 carry, S/Z/X/Y from the result.
pub open spec fn alu_add8(a: u8, v: u8, cin: bool) -> (u8, u8) {
    let carry = if cin {
        1int
    } else {
        0int
    };
    let sum = a + v + carry;
    let res = (sum % 256) as u8;
    (
        res,
        flags_byte(
            flag_s(res),
            res == 0,
            flag_x(res),
            a % 16 + v % 16 + carry > 15,
            flag_y(res),
            (a < 128) == (v < 128) && (res < 128) != (a < 128),
            false,
            sum > 255,
        ),
    )
}

/// SUB/SBC: result and flags.  C from borrow, N set, P/V signed overflow,
/// H from bit-3 borrow, S/Z/X/Y from the result.
pub open spec fn alu_sub8(a: u8, v: u8, cin: bool) -> (u8, u8) {
    let carry = if cin {
        1int
    } else {
        0int
    };
    let res = (((a - v - carry) + 512) % 256) as u8;
    (
        res,
        flags_byte(
            flag_s(res),
            res == 0,
            flag_x(res),
            a % 16 < v % 16 + carry,
            flag_y(res),
            (a < 128) != (v < 128) && (res < 128) != (a < 128),
            true,
            a < v + carry,
        ),
    )
}

/// CP: the flags of `a - v`, except that X and Y come from the operand,
/// not from the result; A itself is left alone.
pub open spec fn alu_cp(a: u8, v: u8) -> u8 {
    let res = (((a - v) + 256) % 256) as u8;
    flags_byte(
        flag_s(res),
        res == 0,
        flag_x(v),
        a % 16 < v % 16,
        flag_y(v),
        (a < 128) != (v < 128) && (res < 128) != (a < 128),
        true,
        a < v,
    )
}

/// AND: C and N cleared, H set, P/V is even parity, S/Z/X/Y from the result.
pub open spec fn alu_and(a: u8, v: u8) -> (u8, u8) {
    let res = a & v;
    (
        res,
        flags_byte(flag_s(res), res == 0, flag_x(res), true, flag_y(res), parity_even(res), false, false),
    )
}

/// OR: C, N and H cleared, P/V is even parity, S/Z/X/Y from the result.
pub open spec fn alu_or(a: u8, v: u8) -> (u8, u8) {
    let res = a | v;
    (
        res,
        flags_byte(flag_s(res), res == 0, flag_x(res), false, flag_y(res), parity_even(res), false, false),
    )
}

/// XOR: C, N and H cleared, P/V is even parity, S/Z/X/Y from the result.
pub open spec fn alu_xor(a: u8, v: u8) -> (u8, u8) {
    let res = a ^ v;
    (
        res,
        flags_byte(flag_s(res), res == 0, flag_x(res), false, flag_y(res), parity_even(res), false, false),
    )
}

/// INC r: C preserved, N cleared, H on a low-nibble carry, P/V exactly at
/// the 0x7F boundary, S/Z/X/Y from the result.
pub open spec fn alu_inc8(f: u8, v: u8) -> (u8, u8) {
    let res = (((v + 1) as int) % 256) as u8;
    (
        res,
        flags_byte(
            flag_s(res),
            res == 0,
            flag_x(res),
            v % 16 == 15,
            flag_y(res),
            v == 0x7F,
            false,
            flag_c(f),
        ),
    )
}

/// DEC r: C preserved, N set, H on a low-nibble borrow, P/V exactly at the
/// 0x80 boundary, S/Z/X/Y from the result.
pub open spec fn alu_dec8(f: u8, v: u8) -> (u8, u8) {
    let res = (((v + 255) as int) % 256) as u8;
    (
        res,
        flags_byte(
            flag_s(res),
            res == 0,
            flag_x(res),
            v % 16 == 0,
            flag_y(res),
            v == 0x80,
            true,
            flag_c(f),
        ),
    )
}

/// ADD HL,rr (and ADD IX/IY,rr): C from bit-15, H from bit-11, N cleared,
/// X/Y from the high byte of the result; S, Z and P/V are preserved.
pub open spec fn alu_add16(f: u8, hl: u16, rr: u16) -> (u16, u8) {
    let sum = hl + rr;
    let res = ((sum % 0x10000) as u16);
    let hi = ((res / 256) as u8);
    (
        res,
        flags_byte(
            flag_s(f),
            flag_z(f),
            flag_x(hi),
            hl % 0x1000 + rr % 0x1000 > 0xFFF,
            flag_y(hi),
            flag_pv(f),
            false,
            sum > 0xFFFF,
        ),
    )
}

/// ADC HL,rr: the full 16-bit flag set, S/Z/P-V included.
pub open spec fn alu_adc16(f: u8, hl: u16, rr: u16) -> (u16, u8) {
    let carry = if flag_c(f) {
        1int
    } else {
        0int
    };
    let sum = hl + rr + carry;
    let res = ((sum % 0x10000) as u16);
    let hi = ((res / 256) as u8);
    (
        res,
        flags_byte(
            res >= 0x8000,
            res == 0,
            flag_x(hi),
            hl % 0x1000 + rr % 0x1000 + carry > 0xFFF,
            flag_y(hi),
            (hl < 0x8000) == (rr < 0x8000) && (res < 0x8000) != (hl < 0x8000),
            false,
            sum > 0xFFFF,
        ),
    )
}

/// SBC HL,rr: the full 16-bit flag set, S/Z/P-V included.
pub open spec fn alu_sbc16(f: u8, hl: u16, rr: u16) -> (u16, u8) {
    let carry = if flag_c(f) {
        1int
    } else {
        0int
    };
    let res = ((((hl - rr - carry) + 0x20000) % 0x10000) as u16);
    let hi = ((res / 256) as u8);
    (
        res,
        flags_byte(
            res >= 0x8000,
            res == 0,
            flag_x(hi),
            hl % 0x1000 < rr % 0x1000 + carry,
            flag_y(hi),
            (hl < 0x8000) != (rr < 0x8000) && (res < 0x8000) != (hl < 0x8000),
            true,
            hl < rr + carry,
        ),
    )
}

/// The rotate and shift family, selected by `kind` in CB-plane order:
/// RLC, RRC, RL, RR, SLA, SRA, SLL, SRL.  Returns the result byte and the
/// bit shifted out into C.
pub open spec fn rot_res(kind: u8, f: u8, v: u8) -> (u8, bool)
    recommends
        kind < 8,
{
    if kind == 0 {
        ((((v * 2 + v / 128) as int % 256) as u8), v >= 128)
    } else if kind == 1 {
        (((v / 2 + (v % 2) * 128) as u8), v % 2 == 1)
    } else if kind == 2 {
        ((((v * 2 + if flag_c(f) {
            1int
        } else {
            0int
        }) % 256) as u8), v >= 128)
    } else if kind == 3 {
        (((v / 2 + if flag_c(f) {
            128int
        } else {
            0int
        }) as u8), v % 2 == 1)
    } else if kind == 4 {
        ((((v * 2) as int % 256) as u8), v >= 128)
    } else if kind == 5 {
        (((v / 2 + (v / 128) * 128) as u8), v % 2 == 1)
    } else if kind == 6 {
        ((((v * 2 + 1) as int % 256) as u8), v >= 128)
    } else {
        ((v / 2) as u8, v % 2 == 1)
    }
}

/// Flags after a CB-plane rotate or shift: C from the shifted-out bit, N
/// and H cleared, P/V parity, S/Z/X/Y from the result.
pub open spec fn rot_flags(res: u8, c: bool) -> u8 {
    flags_byte(flag_s(res), res == 0, flag_x(res), false, flag_y(res), parity_even(res), false, c)
}

/// RLCA/RRCA/RLA/RRA (`kind` 0..3 as in `rot_res`): C from the shifted
/// bit, N and H cleared, X/Y from the result, S/Z/P-V untouched.
pub open spec fn rota_flags(f: u8, res: u8, c: bool) -> u8 {
    flags_byte(flag_s(f), flag_z(f), flag_x(res), false, flag_y(res), flag_pv(f), false, c)
}

/// The power of two with exponent `n < 8`.
pub open spec fn pow2_8(n: u8) -> u8
    recommends
        n < 8,
{
    if n == 0 {
        1
    } else if n == 1 {
        2
    } else if n == 2 {
        4
    } else if n == 3 {
        8
    } else if n == 4 {
        16
    } else if n == 5 {
        32
    } else if n == 6 {
        64
    } else {
        128
    }
}

/// Bit `n` of `v` as 0 or 1.
pub open spec fn bit_of(v: u8, n: u8) -> u8
    recommends
        n < 8,
{
    (v / pow2_8(n)) % 2
}

/// Flags after BIT n: Z is the complement of the tested bit, P/V copies Z,
/// H set, N cleared, S only for a set bit 7, X/Y from `xy` (the tested
/// byte, or the high byte of the effective address for memory forms), C
/// preserved.
pub open spec fn bit_flags(f: u8, n: u8, v: u8, xy: u8) -> u8
    recommends
        n < 8,
{
    let z = bit_of(v, n) == 0;
    flags_byte(n == 7 && !z, z, flag_x(xy), true, flag_y(xy), z, false, flag_c(f))
}

/// `v` with bit `n` forced to one (SET) or zero (RES); no flags change.
pub open spec fn bit_put(v: u8, n: u8, on: bool) -> u8
    recommends
        n < 8,
{
    if on {
        if bit_of(v, n) == 0 {
            (v + pow2_8(n)) as u8
        } else {
            v
        }
    } else {
        if bit_of(v, n) == 1 {
            (v - pow2_8(n)) as u8
        } else {
            v
        }
    }
}

/// DAA: the standard BCD adjustment driven by H, N, C and A's nibbles.
/// The correction is 0x06, 0x60 or 0x66; it is added after an addition and
/// subtracted after a subtraction.
pub open spec fn alu_daa(a: u8, f: u8) -> (u8, u8) {
    let low_adj = flag_h(f) || a % 16 > 9;
    let high_adj = flag_c(f) || a > 0x99;
    let t = (if low_adj {
        6int
    } else {
        0int
    }) + (if high_adj {
        0x60int
    } else {
        0int
    });
    let res = if flag_n(f) {
        (((a - t + 256) % 256) as u8)
    } else {
        (((a + t) % 256) as u8)
    };
    let h = if flag_n(f) {
        a % 16 < t % 16
    } else {
        a % 16 + t % 16 > 15
    };
    (
        res,
        flags_byte(
            flag_s(res),
            res == 0,
            flag_x(res),
            h,
            flag_y(res),
            parity_even(res),
            flag_n(f),
            high_adj,
        ),
    )
}

/// Builds the flag byte from its eight named bits.
pub fn mk_flags(s: bool, z: bool, x: bool, h: bool, y: bool, pv: bool, n: bool, c: bool) -> (f: u8)
    ensures
        f == flags_byte(s, z, x, h, y, pv, n, c),
{
    (if s {
        128
    } else {
        0
    }) + (if z {
        64
    } else {
        0
    }) + (if x {
        32
    } else {
        0
    }) + (if h {
        16
    } else {
        0
    }) + (if y {
        8
    } else {
        0
    }) + (if pv {
        4
    } else {
        0
    }) + (if n {
        2
    } else {
        0
    }) + (if c {
        1
    } else {
        0
    })
}

/// Even parity of a byte.
pub fn parity8(v: u8) -> (r: bool)
    ensures
        r == parity_even(v),
{
    ((v >> 7) ^ (v >> 6) ^ (v >> 5) ^ (v >> 4) ^ (v >> 3) ^ (v >> 2) ^ (v >> 1) ^ v) & 1 == 0
}

/// Bit 5 of a byte, the X flag source.
pub fn bit5(v: u8) -> (r: bool)
    ensures
        r == flag_x(v),
{
    (v / 32) % 2 == 1
}

/// Bit 3 of a byte, the Y flag source.
pub fn bit3(v: u8) -> (r: bool)
    ensures
        r == flag_y(v),
{
    (v / 8) % 2 == 1
}

/// Bit 7 of a byte, the S flag source.
pub fn bit7(v: u8) -> (r: bool)
    ensures
        r == flag_s(v),
{
    v / 128 == 1
}

/// The power of two with exponent `n < 8`.
pub fn pow2_of(n: u8) -> (r: u8)
    requires
        n < 8,
    ensures
        r == pow2_8(n),
{
    if n == 0 {
        1
    } else if n == 1 {
        2
    } else if n == 2 {
        4
    } else if n == 3 {
        8
    } else if n == 4 {
        16
    } else if n == 5 {
        32
    } else if n == 6 {
        64
    } else {
        128
    }
}

impl Cpu {
    /// ADD A,v / ADC A,v: accumulator and flags per `alu_add8`.
    pub fn alu_add_a(&mut self, v: u8, cin: bool)
        ensures
            ({
                let (res, fl) = alu_add8(old(self).a, v, cin);
                *final(self) == (Cpu { a: res, f: fl, ..*old(self) })
            }),
    {
        let carry: u16 = if cin {
            1
        } else {
            0
        };
        let sum: u16 = self.a as u16 + v as u16 + carry;
        let res = (sum % 256) as u8;
        let h = (self.a % 16) as u16 + (v % 16) as u16 + carry > 15;
        let ov = (self.a < 128) == (v < 128) && (res < 128) != (self.a < 128);
        self.f = mk_flags(bit7(res), res == 0, bit5(res), h, bit3(res), ov, false, sum > 255);
        self.a = res;
    }

    /// SUB v / SBC A,v: accumulator and flags per `alu_sub8`.
    pub fn alu_sub_a(&mut self, v: u8, cin: bool)
        ensures
            ({
                let (res, fl) = alu_sub8(old(self).a, v, cin);
                *final(self) == (Cpu { a: res, f: fl, ..*old(self) })
            }),
    {
        let carry: u16 = if cin {
            1
        } else {
            0
        };
        let res = (((self.a as u16) + 512 - (v as u16) - carry) % 256) as u8;
        let h = ((self.a % 16) as u16) < ((v % 16) as u16) + carry;
        let ov = (self.a < 128) != (v < 128) && (res < 128) != (self.a < 128);
        let borrow = (self.a as u16) < (v as u16) + carry;
        self.f = mk_flags(bit7(res), res == 0, bit5(res), h, bit3(res), ov, true, borrow);
        self.a = res;
    }

    /// CP v: flags per `alu_cp`; A is left alone.
    pub fn alu_cp_a(&mut self, v: u8)
        ensures
            *final(self) == (Cpu { f: alu_cp(old(self).a, v), ..*old(self) }),
    {
        let res = (((self.a as u16) + 256 - (v as u16)) % 256) as u8;
        let h = self.a % 16 < v % 16;
        let ov = (self.a < 128) != (v < 128) && (res < 128) != (self.a < 128);
        self.f = mk_flags(bit7(res), res == 0, bit5(v), h, bit3(v), ov, true, self.a < v);
    }

    /// AND v.
    pub fn alu_and_a(&mut self, v: u8)
        ensures
            ({
                let (res, fl) = alu_and(old(self).a, v);
                *final(self) == (Cpu { a: res, f: fl, ..*old(self) })
            }),
    {
        let res = self.a & v;
        self.f = mk_flags(bit7(res), res == 0, bit5(res), true, bit3(res), parity8(res), false, false);
        self.a = res;
    }

    /// OR v.
    pub fn alu_or_a(&mut self, v: u8)
        ensures
            ({
                let (res, fl) = alu_or(old(self).a, v);
                *final(self) == (Cpu { a: res, f: fl, ..*old(self) })
            }),
    {
        let res = self.a | v;
        self.f = mk_flags(bit7(res), res == 0, bit5(res), false, bit3(res), parity8(res), false, false);
        self.a = res;
    }

    /// XOR v.
    pub fn alu_xor_a(&mut self, v: u8)
        ensures
            ({
                let (res, fl) = alu_xor(old(self).a, v);
                *final(self) == (Cpu { a: res, f: fl, ..*old(self) })
            }),
    {
        let res = self.a ^ v;
        self.f = mk_flags(bit7(res), res == 0, bit5(res), false, bit3(res), parity8(res), false, false);
        self.a = res;
    }

    /// INC on a byte: returns the incremented value, updates the flags.
    pub fn alu_inc_val(&mut self, v: u8) -> (res: u8)
        ensures
            res == alu_inc8(old(self).f, v).0,
            *final(self) == (Cpu { f: alu_inc8(old(self).f, v).1, ..*old(self) }),
    {
        let res = (((v as u16) + 1) % 256) as u8;
        let c = self.get_flag_c();
        self.f = mk_flags(bit7(res), res == 0, bit5(res), v % 16 == 15, bit3(res), v == 0x7F, false, c);
        res
    }

    /// DEC on a byte: returns the decremented value, updates the flags.
    pub fn alu_dec_val(&mut self, v: u8) -> (res: u8)
        ensures
            res == alu_dec8(old(self).f, v).0,
            *final(self) == (Cpu { f: alu_dec8(old(self).f, v).1, ..*old(self) }),
    {
        let res = (((v as u16) + 255) % 256) as u8;
        let c = self.get_flag_c();
        self.f = mk_flags(bit7(res), res == 0, bit5(res), v % 16 == 0, bit3(res), v == 0x80, true, c);
        res
    }

    /// ADD HL,rr (or an index register): returns the sum, updates the flags.
    pub fn alu_add16_val(&mut self, hl: u16, rr: u16) -> (res: u16)
        ensures
            res == alu_add16(old(self).f, hl, rr).0,
            *final(self) == (Cpu { f: alu_add16(old(self).f, hl, rr).1, ..*old(self) }),
    {
        let sum: u32 = hl as u32 + rr as u32;
        let res = (sum % 0x10000) as u16;
        let hi = (res / 256) as u8;
        let h = (hl % 0x1000) as u32 + (rr % 0x1000) as u32 > 0xFFF;
        let s = self.get_flag_s();
        let z = self.get_flag_z();
        let pv = self.get_flag_pv();
        self.f = mk_flags(s, z, bit5(hi), h, bit3(hi), pv, false, sum > 0xFFFF);
        res
    }

    /// ADC HL,rr: returns the sum, updates the full flag set.
    pub fn alu_adc16_val(&mut self, hl: u16, rr: u16) -> (res: u16)
        ensures
            res == alu_adc16(old(self).f, hl, rr).0,
            *final(self) == (Cpu { f: alu_adc16(old(self).f, hl, rr).1, ..*old(self) }),
    {
        let carry: u32 = if self.get_flag_c() {
            1
        } else {
            0
        };
        let sum: u32 = hl as u32 + rr as u32 + carry;
        let res = (sum % 0x10000) as u16;
        let hi = (res / 256) as u8;
        let h = (hl % 0x1000) as u32 + (rr % 0x1000) as u32 + carry > 0xFFF;
        let ov = (hl < 0x8000) == (rr < 0x8000) && (res < 0x8000) != (hl < 0x8000);
        self.f = mk_flags(res >= 0x8000, res == 0, bit5(hi), h, bit3(hi), ov, false, sum > 0xFFFF);
        res
    }

    /// SBC HL,rr: returns the difference, updates the full flag set.
    pub fn alu_sbc16_val(&mut self, hl: u16, rr: u16) -> (res: u16)
        ensures
            res == alu_sbc16(old(self).f, hl, rr).0,
            *final(self) == (Cpu { f: alu_sbc16(old(self).f, hl, rr).1, ..*old(self) }),
    {
        let carry: u32 = if self.get_flag_c() {
            1
        } else {
            0
        };
        let res = (((hl as u32) + 0x20000 - (rr as u32) - carry) % 0x10000) as u16;
        let hi = (res / 256) as u8;
        let h = ((hl % 0x1000) as u32) < ((rr % 0x1000) as u32) + carry;
        let ov = (hl < 0x8000) != (rr < 0x8000) && (res < 0x8000) != (hl < 0x8000);
        let borrow = (hl as u32) < (rr as u32) + carry;
        self.f = mk_flags(res >= 0x8000, res == 0, bit5(hi), h, bit3(hi), ov, true, borrow);
        res
    }

    /// One CB-plane rotate or shift on a byte: returns the result, updates
    /// the flags per `rot_flags`.
    pub fn alu_rot_val(&mut self, kind: u8, v: u8) -> (res: u8)
        requires
            kind < 8,
        ensures
            res == rot_res(kind, old(self).f, v).0,
            *final(self) == (Cpu {
                f: rot_flags(rot_res(kind, old(self).f, v).0, rot_res(kind, old(self).f, v).1),
                ..*old(self)
            }),
    {
        let cin: u16 = if self.get_flag_c() {
            1
        } else {
            0
        };
        let (res, c): (u8, bool) = if kind == 0 {
            (((v as u16 * 2 + v as u16 / 128) % 256) as u8, v >= 128)
        } else if kind == 1 {
            (v / 2 + (v % 2) * 128, v % 2 == 1)
        } else if kind == 2 {
            (((v as u16 * 2 + cin) % 256) as u8, v >= 128)
        } else if kind == 3 {
            (v / 2 + if cin == 1 {
                128
            } else {
                0
            }, v % 2 == 1)
        } else if kind == 4 {
            (((v as u16 * 2) % 256) as u8, v >= 128)
        } else if kind == 5 {
            (v / 2 + (v / 128) * 128, v % 2 == 1)
        } else if kind == 6 {
            (((v as u16 * 2 + 1) % 256) as u8, v >= 128)
        } else {
            (v / 2, v % 2 == 1)
        };
        self.f = mk_flags(bit7(res), res == 0, bit5(res), false, bit3(res), parity8(res), false, c);
        res
    }

    /// RLCA/RRCA/RLA/RRA: rotate the accumulator, touching only C, N, H
    /// and the X/Y copies.
    pub fn alu_rota(&mut self, kind: u8)
        requires
            kind < 4,
        ensures
            ({
                let (res, c) = rot_res(kind, old(self).f, old(self).a);
                *final(self) == (Cpu { a: res, f: rota_flags(old(self).f, res, c), ..*old(self) })
            }),
    {
        let cin: u16 = if self.get_flag_c() {
            1
        } else {
            0
        };
        let v = self.a;
        let (res, c): (u8, bool) = if kind == 0 {
            (((v as u16 * 2 + v as u16 / 128) % 256) as u8, v >= 128)
        } else if kind == 1 {
            (v / 2 + (v % 2) * 128, v % 2 == 1)
        } else if kind == 2 {
            (((v as u16 * 2 + cin) % 256) as u8, v >= 128)
        } else {
            (v / 2 + if cin == 1 {
                128
            } else {
                0
            }, v % 2 == 1)
        };
        let s = self.get_flag_s();
        let z = self.get_flag_z();
        let pv = self.get_flag_pv();
        self.f = mk_flags(s, z, bit5(res), false, bit3(res), pv, false, c);
        self.a = res;
    }

    /// BIT n on a byte, with `xy` the source of the X/Y copies.
    pub fn alu_bit(&mut self, n: u8, v: u8, xy: u8)
        requires
            n < 8,
        ensures
            *final(self) == (Cpu { f: bit_flags(old(self).f, n, v, xy), ..*old(self) }),
    {
        let z = (v / pow2_of(n)) % 2 == 0;
        let c = self.get_flag_c();
        self.f = mk_flags(n == 7 && !z, z, bit5(xy), true, bit3(xy), z, false, c);
    }

    /// One of the eight accumulator ALU operations, selected by `y` in
    /// base-plane order.
    pub fn alu_acc(&mut self, y: u8, val: u8)
        requires
            y < 8,
        ensures
            *final(self) == alu_acc_spec(*old(self), y, val),
    {
        if y == 0 {
            self.alu_add_a(val, false);
        } else if y == 1 {
            let cin = self.get_flag_c();
            self.alu_add_a(val, cin);
        } else if y == 2 {
            self.alu_sub_a(val, false);
        } else if y == 3 {
            let cin = self.get_flag_c();
            self.alu_sub_a(val, cin);
        } else if y == 4 {
            self.alu_and_a(val);
        } else if y == 5 {
            self.alu_xor_a(val);
        } else if y == 6 {
            self.alu_or_a(val);
        } else {
            self.alu_cp_a(val);
        }
    }

    /// DAA: BCD adjustment of the accumulator.
    pub fn alu_daa_a(&mut self)
        ensures
            ({
                let (res, fl) = alu_daa(old(self).a, old(self).f);
                *final(self) == (Cpu { a: res, f: fl, ..*old(self) })
            }),
    {
        let a = self.a;
        let low_adj = self.get_flag_h() || a % 16 > 9;
        let high_adj = self.get_flag_c() || a > 0x99;
        let t: u16 = (if low_adj {
            6
        } else {
            0
        }) + (if high_adj {
            0x60
        } else {
            0
        });
        let n = self.get_flag_n();
        let res = if n {
            (((a as u16) + 256 - t) % 256) as u8
        } else {
            (((a as u16) + t) % 256) as u8
        };
        let h = if n {
            ((a % 16) as u16) < t % 16
        } else {
            ((a % 16) as u16) + t % 16 > 15
        };
        self.f = mk_flags(bit7(res), res == 0, bit5(res), h, bit3(res), parity8(res), n, high_adj);
        self.a = res;
    }
}

/// The eight-way accumulator ALU family in base-plane order:
/// ADD, ADC, SUB, SBC, AND, XOR, OR, CP.
pub open spec fn alu_acc_spec(cpu: Cpu, y: u8, val: u8) -> Cpu
    recommends
        y < 8,
{
    if y == 0 {
        let (res, f2) = alu_add8(cpu.a, val, false);
        Cpu { a: res, f: f2, ..cpu }
    } else if y == 1 {
        let (res, f2) = alu_add8(cpu.a, val, flag_c(cpu.f));
        Cpu { a: res, f: f2, ..cpu }
    } else if y == 2 {
        let (res, f2) = alu_sub8(cpu.a, val, false);
        Cpu { a: res, f: f2, ..cpu }
    } else if y == 3 {
        let (res, f2) = alu_sub8(cpu.a, val, flag_c(cpu.f));
        Cpu { a: res, f: f2, ..cpu }
    } else if y == 4 {
        let (res, f2) = alu_and(cpu.a, val);
        Cpu { a: res, f: f2, ..cpu }
    } else if y == 5 {
        let (res, f2) = alu_xor(cpu.a, val);
        Cpu { a: res, f: f2, ..cpu }
    } else if y == 6 {
        let (res, f2) = alu_or(cpu.a, val);
        Cpu { a: res, f: f2, ..cpu }
    } else {
        Cpu { f: alu_cp(cpu.a, val), ..cpu }
    }
}

/// SET or RES on a byte: bit `n` forced to `on`.
pub fn put_bit_val(v: u8, n: u8, on: bool) -> (r: u8)
    requires
        n < 8,
    ensures
        r == bit_put(v, n, on),
{
    let m = pow2_of(n);
    if on {
        if (v / m) % 2 == 0 {
            v + m
        } else {
            v
        }
    } else {
        if (v / m) % 2 == 1 {
            v - m
        } else {
            v
        }
    }
}

} // verus!
