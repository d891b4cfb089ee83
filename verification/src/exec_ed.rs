//! The extended (ED-prefixed) instruction plane: block transfers and
//! searches, 16-bit arithmetic with carry, the interrupt plumbing, RRD/RLD
//! and the stubbed port instructions.
//!
//! `ed_spec` is the plane's full meaning: it maps the state after the two
//! prefix fetches to the state after the instruction, together with its
//! T-state count.

use vstd::prelude::*;

use crate::alu::{alu_adc16, alu_sbc16, alu_sub8, parity8, bit3, bit5, bit7, mk_flags};
use crate::cpu::{
    OpcodeDiag,
    add16w, add8w, flag_c, flag_h, flag_pv, flag_s, flag_x, flag_y, flag_z, flags_byte, hi8, lo8,
    pair, parity_even, reg8_write, rp_read, rp_write, spec_pop, sub16w, sub8w, wadd16, wsub16,
    wsub8, Cpu,
};
use crate::memory::{mem_read_word, mem_write, mem_write_word, Memory};

verus! {

/// Common effect of LDI/LDD: copy (HL) to (DE), move both pointers one
/// step, decrement BC; H and N clear, P/V records BC != 0, X and Y come
/// from the low bits of the transferred byte plus A.
pub open spec fn ld_block(cpu: Cpu, mem: Seq<u8>, inc: bool) -> (Cpu, Seq<u8>)
    recommends
        mem.len() == 0x10000,
{
    let hl = pair(cpu.h, cpu.l);
    let de = pair(cpu.d, cpu.e);
    let bc = pair(cpu.b, cpu.c);
    let byte = mem[hl as int];
    let mem2 = mem_write(mem, de, byte);
    let hl2 = if inc {
        add16w(hl, 1)
    } else {
        sub16w(hl, 1)
    };
    let de2 = if inc {
        add16w(de, 1)
    } else {
        sub16w(de, 1)
    };
    let bc2 = sub16w(bc, 1);
    let n = add8w(byte, cpu.a as int);
    let f2 = flags_byte(
        flag_s(cpu.f),
        flag_z(cpu.f),
        (n / 8) % 2 == 1,
        false,
        (n / 2) % 2 == 1,
        bc2 != 0,
        false,
        flag_c(cpu.f),
    );
    (
        Cpu {
            h: hi8(hl2),
            l: lo8(hl2),
            d: hi8(de2),
            e: lo8(de2),
            b: hi8(bc2),
            c: lo8(bc2),
            f: f2,
            ..cpu
        },
        mem2,
    )
}

/// LDI.
pub open spec fn spec_ldi(cpu: Cpu, mem: Seq<u8>) -> (Cpu, Seq<u8>, u8) {
    let (c2, m2) = ld_block(cpu, mem, true);
    (c2, m2, 16)
}

/// LDD.
pub open spec fn spec_ldd(cpu: Cpu, mem: Seq<u8>) -> (Cpu, Seq<u8>, u8) {
    let (c2, m2) = ld_block(cpu, mem, false);
    (c2, m2, 16)
}

/// LDIR: one LDI step; while BC has not reached zero PC rewinds over the
/// two prefix bytes and the iteration costs 21 T-states instead of 16.
pub open spec fn spec_ldir(cpu: Cpu, mem: Seq<u8>) -> (Cpu, Seq<u8>, u8) {
    let (c2, m2) = ld_block(cpu, mem, true);
    if pair(c2.b, c2.c) != 0 {
        (Cpu { pc: sub16w(c2.pc, 2), ..c2 }, m2, 21)
    } else {
        (c2, m2, 16)
    }
}

/// LDDR.
pub open spec fn spec_lddr(cpu: Cpu, mem: Seq<u8>) -> (Cpu, Seq<u8>, u8) {
    let (c2, m2) = ld_block(cpu, mem, false);
    if pair(c2.b, c2.c) != 0 {
        (Cpu { pc: sub16w(c2.pc, 2), ..c2 }, m2, 21)
    } else {
        (c2, m2, 16)
    }
}

/// Common effect of CPI/CPD: compare A with (HL), move HL one step,
/// decrement BC; subtract flags, P/V records BC != 0, X and Y come from
/// the low bits of the difference less the half-borrow.
pub open spec fn cp_block(cpu: Cpu, mem: Seq<u8>, inc: bool) -> Cpu
    recommends
        mem.len() == 0x10000,
{
    let hl = pair(cpu.h, cpu.l);
    let bc = pair(cpu.b, cpu.c);
    let val = mem[hl as int];
    let res = sub8w(cpu.a, val as int);
    let hl2 = if inc {
        add16w(hl, 1)
    } else {
        sub16w(hl, 1)
    };
    let bc2 = sub16w(bc, 1);
    let hb = cpu.a % 16 < val % 16;
    let n = if hb {
        sub8w(res, 1)
    } else {
        res
    };
    let f2 = flags_byte(
        flag_s(res),
        res == 0,
        (n / 8) % 2 == 1,
        hb,
        (n / 2) % 2 == 1,
        bc2 != 0,
        true,
        flag_c(cpu.f),
    );
    Cpu { h: hi8(hl2), l: lo8(hl2), b: hi8(bc2), c: lo8(bc2), f: f2, ..cpu }
}

/// CPI.
pub open spec fn spec_cpi(cpu: Cpu, mem: Seq<u8>) -> (Cpu, Seq<u8>, u8) {
    (cp_block(cpu, mem, true), mem, 16)
}

/// CPD.
pub open spec fn spec_cpd(cpu: Cpu, mem: Seq<u8>) -> (Cpu, Seq<u8>, u8) {
    (cp_block(cpu, mem, false), mem, 16)
}

/// CPIR: one CPI step; repeats (PC rewound, 21 T-states) until BC reaches
/// zero or the compared bytes match.
pub open spec fn spec_cpir(cpu: Cpu, mem: Seq<u8>) -> (Cpu, Seq<u8>, u8) {
    let c2 = cp_block(cpu, mem, true);
    if pair(c2.b, c2.c) != 0 && cpu.a != mem[pair(cpu.h, cpu.l) as int] {
        (Cpu { pc: sub16w(c2.pc, 2), ..c2 }, mem, 21)
    } else {
        (c2, mem, 16)
    }
}

/// CPDR.
pub open spec fn spec_cpdr(cpu: Cpu, mem: Seq<u8>) -> (Cpu, Seq<u8>, u8) {
    let c2 = cp_block(cpu, mem, false);
    if pair(c2.b, c2.c) != 0 && cpu.a != mem[pair(cpu.h, cpu.l) as int] {
        (Cpu { pc: sub16w(c2.pc, 2), ..c2 }, mem, 21)
    } else {
        (c2, mem, 16)
    }
}

/// Common effect of the stubbed block port instructions: HL moves one
/// step, B is decremented, Z records B == 0 and N is set; the port space
/// itself is not modelled.
pub open spec fn io_block(cpu: Cpu, inc: bool) -> Cpu {
    let hl = pair(cpu.h, cpu.l);
    let hl2 = if inc {
        add16w(hl, 1)
    } else {
        sub16w(hl, 1)
    };
    let b2 = sub8w(cpu.b, 1);
    let f2 = flags_byte(
        flag_s(cpu.f),
        b2 == 0,
        flag_x(cpu.f),
        flag_h(cpu.f),
        flag_y(cpu.f),
        flag_pv(cpu.f),
        true,
        flag_c(cpu.f),
    );
    Cpu { h: hi8(hl2), l: lo8(hl2), b: b2, f: f2, ..cpu }
}

/// A repeating stubbed port instruction: PC rewinds and the iteration
/// costs 21 T-states while B has not reached zero.
pub open spec fn io_block_rep(cpu: Cpu, inc: bool) -> (Cpu, u8) {
    let c2 = io_block(cpu, inc);
    if c2.b != 0 {
        (Cpu { pc: sub16w(c2.pc, 2), ..c2 }, 21)
    } else {
        (c2, 16)
    }
}

/// Flags after LD A,I and LD A,R: S/Z/X/Y from the value, H and N clear,
/// P/V copies IFF2, C preserved.
pub open spec fn ld_air_flags(f: u8, v: u8, iff2: bool) -> u8 {
    flags_byte(flag_s(v), v == 0, flag_x(v), false, flag_y(v), iff2, false, flag_c(f))
}

/// RRD: the three nibbles A-low, (HL)-high, (HL)-low rotate right.
pub open spec fn spec_rrd(cpu: Cpu, mem: Seq<u8>) -> (Cpu, Seq<u8>, u8)
    recommends
        mem.len() == 0x10000,
{
    let hl = pair(cpu.h, cpu.l);
    let val = mem[hl as int];
    let a2 = ((cpu.a - cpu.a % 16 + val % 16) as u8);
    let v2 = (((cpu.a % 16) * 16 + val / 16) as u8);
    let f2 = flags_byte(
        flag_s(a2),
        a2 == 0,
        flag_x(a2),
        false,
        flag_y(a2),
        parity_even(a2),
        false,
        flag_c(cpu.f),
    );
    (Cpu { a: a2, f: f2, ..cpu }, mem_write(mem, hl, v2), 18)
}

/// RLD: the three nibbles rotate left.
pub open spec fn spec_rld(cpu: Cpu, mem: Seq<u8>) -> (Cpu, Seq<u8>, u8)
    recommends
        mem.len() == 0x10000,
{
    let hl = pair(cpu.h, cpu.l);
    let val = mem[hl as int];
    let a2 = ((cpu.a - cpu.a % 16 + val / 16) as u8);
    let v2 = (((val % 16) * 16 + cpu.a % 16) as u8);
    let f2 = flags_byte(
        flag_s(a2),
        a2 == 0,
        flag_x(a2),
        false,
        flag_y(a2),
        parity_even(a2),
        false,
        flag_c(cpu.f),
    );
    (Cpu { a: a2, f: f2, ..cpu }, mem_write(mem, hl, v2), 18)
}

/// RETN/RETI: PC is popped and IFF1 restored from IFF2.
pub open spec fn spec_retn(cpu: Cpu, mem: Seq<u8>) -> (Cpu, Seq<u8>, u8)
    recommends
        mem.len() == 0x10000,
{
    let (c2, addr) = spec_pop(Cpu { iff1: cpu.iff2, ..cpu }, mem);
    (Cpu { pc: addr, ..c2 }, mem, 14)
}

/// The block instructions of the ED plane, opcodes 0xA0 and up.
pub open spec fn ed_blocks_spec(cpu: Cpu, mem: Seq<u8>, op: u8) -> (Cpu, Seq<u8>, u8)
    recommends
        mem.len() == 0x10000,
{
    if op == 0xA0 {
        spec_ldi(cpu, mem)
    } else if op == 0xA1 {
        spec_cpi(cpu, mem)
    } else if op == 0xA2 || op == 0xA3 {
        (io_block(cpu, true), mem, 16)
    } else if op == 0xA8 {
        spec_ldd(cpu, mem)
    } else if op == 0xA9 {
        spec_cpd(cpu, mem)
    } else if op == 0xAA || op == 0xAB {
        (io_block(cpu, false), mem, 16)
    } else if op == 0xB0 {
        spec_ldir(cpu, mem)
    } else if op == 0xB1 {
        spec_cpir(cpu, mem)
    } else if op == 0xB2 || op == 0xB3 {
        let (c2, t) = io_block_rep(cpu, true);
        (c2, mem, t)
    } else if op == 0xB8 {
        spec_lddr(cpu, mem)
    } else if op == 0xB9 {
        spec_cpdr(cpu, mem)
    } else if op == 0xBA || op == 0xBB {
        let (c2, t) = io_block_rep(cpu, false);
        (c2, mem, t)
    } else {
        (ed_unknown(cpu, op), mem, 8)
    }
}

/// An unrecognised ED opcode: nothing changes but the diagnostic, which
/// names the plane, the opcode and PC at the prefix byte.
pub open spec fn ed_unknown(cpu: Cpu, op: u8) -> Cpu {
    Cpu {
        last_diag: Some(OpcodeDiag { prefix: 0xED, opcode: op, pc: sub16w(cpu.pc, 2) }),
        ..cpu
    }
}

/// The rest of the ED plane: loads, 16-bit carry arithmetic, interrupt
/// plumbing, NEG, RRD/RLD and the stubbed single port operations.
pub open spec fn ed_misc_spec(cpu: Cpu, mem: Seq<u8>, op: u8) -> (Cpu, Seq<u8>, u8)
    recommends
        mem.len() == 0x10000,
{
    if op == 0x4F {
        (Cpu { r: cpu.a, ..cpu }, mem, 9)
    } else if op == 0x47 {
        (Cpu { i: cpu.a, ..cpu }, mem, 9)
    } else if op == 0x5F {
        (Cpu { a: cpu.r, f: ld_air_flags(cpu.f, cpu.r, cpu.iff2), ..cpu }, mem, 9)
    } else if op == 0x57 {
        (Cpu { a: cpu.i, f: ld_air_flags(cpu.f, cpu.i, cpu.iff2), ..cpu }, mem, 9)
    } else if op == 0x56 || op == 0x76 {
        (Cpu { interrupt_mode: 1, ..cpu }, mem, 8)
    } else if op == 0x5E {
        (Cpu { interrupt_mode: 2, ..cpu }, mem, 8)
    } else if op == 0x46 {
        (Cpu { interrupt_mode: 0, ..cpu }, mem, 8)
    } else if 0x40 <= op < 0x80 && op % 8 == 4 {
        let (res, f2) = alu_sub8(0, cpu.a, false);
        (Cpu { a: res, f: f2, ..cpu }, mem, 8)
    } else if op == 0x4B || op == 0x5B || op == 0x6B || op == 0x7B {
        let addr = mem_read_word(mem, cpu.pc);
        let cpu1 = Cpu { pc: add16w(cpu.pc, 2), ..cpu };
        (rp_write(cpu1, (op / 16) % 4, mem_read_word(mem, addr)), mem, 20)
    } else if op == 0x43 || op == 0x53 || op == 0x63 || op == 0x73 {
        let addr = mem_read_word(mem, cpu.pc);
        let cpu1 = Cpu { pc: add16w(cpu.pc, 2), ..cpu };
        (cpu1, mem_write_word(mem, addr, rp_read(cpu, (op / 16) % 4)), 20)
    } else if op == 0x42 || op == 0x52 || op == 0x62 || op == 0x72 {
        let (res, f2) = alu_sbc16(cpu.f, pair(cpu.h, cpu.l), rp_read(cpu, (op / 16) % 4));
        (Cpu { h: hi8(res), l: lo8(res), f: f2, ..cpu }, mem, 15)
    } else if op == 0x4A || op == 0x5A || op == 0x6A || op == 0x7A {
        let (res, f2) = alu_adc16(cpu.f, pair(cpu.h, cpu.l), rp_read(cpu, (op / 16) % 4));
        (Cpu { h: hi8(res), l: lo8(res), f: f2, ..cpu }, mem, 15)
    } else if op == 0x40 || op == 0x48 || op == 0x50 || op == 0x58 || op == 0x60 || op == 0x68
        || op == 0x78 {
        let v = 0xFFu8;
        let reg = (op / 8) % 8;
        let f2 = flags_byte(
            flag_s(v),
            v == 0,
            flag_x(v),
            false,
            flag_y(v),
            parity_even(v),
            false,
            flag_c(cpu.f),
        );
        let c2 = if reg == 6 {
            cpu
        } else {
            reg8_write(cpu, reg, v)
        };
        (Cpu { f: f2, ..c2 }, mem, 12)
    } else if op == 0x41 || op == 0x49 || op == 0x51 || op == 0x59 || op == 0x61 || op == 0x69
        || op == 0x79 {
        (cpu, mem, 12)
    } else if op == 0x67 {
        spec_rrd(cpu, mem)
    } else if op == 0x6F {
        spec_rld(cpu, mem)
    } else if op == 0x4D {
        spec_retn(cpu, mem)
    } else if 0x40 <= op < 0x80 && op % 8 == 5 {
        spec_retn(cpu, mem)
    } else {
        (ed_unknown(cpu, op), mem, 8)
    }
}

/// The whole ED plane, from the state after the two opcode fetches.
/// Unrecognised opcodes change nothing and cost a conservative 8 T-states.
pub open spec fn ed_spec(cpu: Cpu, mem: Seq<u8>, op: u8) -> (Cpu, Seq<u8>, u8)
    recommends
        mem.len() == 0x10000,
{
    if op >= 0xA0 {
        ed_blocks_spec(cpu, mem, op)
    } else {
        ed_misc_spec(cpu, mem, op)
    }
}

impl Cpu {
    /// Dispatches one ED-plane opcode; PC is already past the prefix and
    /// the opcode, R has been bumped twice.
    pub fn execute_ed_instruction(&mut self, opcode: u8, memory: &mut Memory) -> (t: u8)
        requires
            old(memory).wf(),
        ensures
            final(memory).wf(),
            (*final(self), final(memory)@, t) == ed_spec(*old(self), old(memory)@, opcode),
            t >= 4,
    {
        if opcode >= 0xA0 {
            self.exec_ed_blocks(opcode, memory)
        } else {
            self.exec_ed_misc(opcode, memory)
        }
    }

    /// The block instructions of the ED plane.
    #[verifier::rlimit(60)]
    fn exec_ed_blocks(&mut self, opcode: u8, memory: &mut Memory) -> (t: u8)
        requires
            old(memory).wf(),
        ensures
            final(memory).wf(),
            (*final(self), final(memory)@, t) == ed_blocks_spec(*old(self), old(memory)@, opcode),
            t >= 4,
    {
        if opcode == 0xA0 {
            self.ldi(memory)
        } else if opcode == 0xA1 {
            self.cpi(memory)
        } else if opcode == 0xA2 || opcode == 0xA3 {
            if opcode == 0xA2 {
                self.ini(memory)
            } else {
                self.outi(memory)
            }
        } else if opcode == 0xA8 {
            self.ldd(memory)
        } else if opcode == 0xA9 {
            self.cpd(memory)
        } else if opcode == 0xAA || opcode == 0xAB {
            if opcode == 0xAA {
                self.ind(memory)
            } else {
                self.outd(memory)
            }
        } else if opcode == 0xB0 {
            self.ldir(memory)
        } else if opcode == 0xB1 {
            self.cpir(memory)
        } else if opcode == 0xB2 || opcode == 0xB3 {
            if opcode == 0xB2 {
                self.inir(memory)
            } else {
                self.otir(memory)
            }
        } else if opcode == 0xB8 {
            self.lddr(memory)
        } else if opcode == 0xB9 {
            self.cpdr(memory)
        } else if opcode == 0xBA || opcode == 0xBB {
            if opcode == 0xBA {
                self.indr(memory)
            } else {
                self.otdr(memory)
            }
        } else {
            self.note_unknown(0xED, opcode, 2);
            8
        }
    }

    /// The rest of the ED plane.
    #[verifier::rlimit(60)]
    fn exec_ed_misc(&mut self, opcode: u8, memory: &mut Memory) -> (t: u8)
        requires
            old(memory).wf(),
        ensures
            final(memory).wf(),
            (*final(self), final(memory)@, t) == ed_misc_spec(*old(self), old(memory)@, opcode),
            t >= 4,
    {
        if opcode == 0x4F {
            self.ld_r_a()
        } else if opcode == 0x47 {
            self.ld_i_a()
        } else if opcode == 0x5F {
            self.ld_a_r()
        } else if opcode == 0x57 {
            self.ld_a_i()
        } else if opcode == 0x56 || opcode == 0x76 {
            self.im_1()
        } else if opcode == 0x5E {
            self.im_2()
        } else if opcode == 0x46 {
            self.im_0()
        } else if 0x40 <= opcode && opcode < 0x80 && opcode % 8 == 4 {
            self.neg()
        } else if opcode == 0x4B || opcode == 0x5B || opcode == 0x6B || opcode == 0x7B {
            self.ld_rr_nn_indirect(opcode, memory)
        } else if opcode == 0x43 || opcode == 0x53 || opcode == 0x63 || opcode == 0x73 {
            self.ld_nn_indirect_rr(opcode, memory)
        } else if opcode == 0x42 || opcode == 0x52 || opcode == 0x62 || opcode == 0x72 {
            self.sbc_hl_rr(opcode)
        } else if opcode == 0x4A || opcode == 0x5A || opcode == 0x6A || opcode == 0x7A {
            self.adc_hl_rr(opcode)
        } else if opcode == 0x40 || opcode == 0x48 || opcode == 0x50 || opcode == 0x58 || opcode
            == 0x60 || opcode == 0x68 || opcode == 0x78 {
            self.in_r_c(opcode)
        } else if opcode == 0x41 || opcode == 0x49 || opcode == 0x51 || opcode == 0x59 || opcode
            == 0x61 || opcode == 0x69 || opcode == 0x79 {
            self.out_c_r(opcode)
        } else if opcode == 0x67 {
            self.rrd(memory)
        } else if opcode == 0x6F {
            self.rld(memory)
        } else if opcode == 0x4D {
            self.reti(memory)
        } else if 0x40 <= opcode && opcode < 0x80 && opcode % 8 == 5 {
            self.retn(memory)
        } else {
            self.note_unknown(0xED, opcode, 2);
            8
        }
    }

    /// One LDI/LDD step shared by the four block transfer forms.
    fn ld_block_step(&mut self, memory: &mut Memory, inc: bool)
        requires
            old(memory).wf(),
        ensures
            final(memory).wf(),
            (*final(self), final(memory)@) == ld_block(*old(self), old(memory)@, inc),
    {
        let byte = memory.read(self.hl());
        memory.write(self.de(), byte);
        if inc {
            let hl2 = wadd16(self.hl(), 1);
            let de2 = wadd16(self.de(), 1);
            self.set_hl(hl2);
            self.set_de(de2);
        } else {
            let hl2 = wsub16(self.hl(), 1);
            let de2 = wsub16(self.de(), 1);
            self.set_hl(hl2);
            self.set_de(de2);
        }
        let bc2 = wsub16(self.bc(), 1);
        self.set_bc(bc2);
        let n = crate::cpu::wadd8(byte, self.a);
        let s = self.get_flag_s();
        let z = self.get_flag_z();
        let c = self.get_flag_c();
        self.f = mk_flags(s, z, (n / 8) % 2 == 1, false, (n / 2) % 2 == 1, bc2 != 0, false, c);
    }

    /// LDI: copy (HL) to (DE), both pointers up, BC down.
    pub fn ldi(&mut self, memory: &mut Memory) -> (t: u8)
        requires
            old(memory).wf(),
        ensures
            final(memory).wf(),
            (*final(self), final(memory)@, t) == spec_ldi(*old(self), old(memory)@),
    {
        self.ld_block_step(memory, true);
        16
    }

    /// LDD: copy (HL) to (DE), both pointers down, BC down.
    pub fn ldd(&mut self, memory: &mut Memory) -> (t: u8)
        requires
            old(memory).wf(),
        ensures
            final(memory).wf(),
            (*final(self), final(memory)@, t) == spec_ldd(*old(self), old(memory)@),
    {
        self.ld_block_step(memory, false);
        16
    }

    /// LDIR: one LDI step, repeated by rewinding PC until BC reaches zero.
    pub fn ldir(&mut self, memory: &mut Memory) -> (t: u8)
        requires
            old(memory).wf(),
        ensures
            final(memory).wf(),
            (*final(self), final(memory)@, t) == spec_ldir(*old(self), old(memory)@),
    {
        self.ld_block_step(memory, true);
        if self.bc() != 0 {
            self.pc = wsub16(self.pc, 2);
            21
        } else {
            16
        }
    }

    /// LDDR: one LDD step, repeated by rewinding PC until BC reaches zero.
    pub fn lddr(&mut self, memory: &mut Memory) -> (t: u8)
        requires
            old(memory).wf(),
        ensures
            final(memory).wf(),
            (*final(self), final(memory)@, t) == spec_lddr(*old(self), old(memory)@),
    {
        self.ld_block_step(memory, false);
        if self.bc() != 0 {
            self.pc = wsub16(self.pc, 2);
            21
        } else {
            16
        }
    }

    /// One CPI/CPD step shared by the four block search forms.
    fn cp_block_step(&mut self, memory: &Memory, inc: bool)
        requires
            memory.wf(),
        ensures
            *final(self) == cp_block(*old(self), memory@, inc),
    {
        let val = memory.read(self.hl());
        let res = wsub8(self.a, val);
        if inc {
            let hl2 = wadd16(self.hl(), 1);
            self.set_hl(hl2);
        } else {
            let hl2 = wsub16(self.hl(), 1);
            self.set_hl(hl2);
        }
        let bc2 = wsub16(self.bc(), 1);
        self.set_bc(bc2);
        let hb = self.a % 16 < val % 16;
        let n = if hb {
            wsub8(res, 1)
        } else {
            res
        };
        let c = self.get_flag_c();
        self.f = mk_flags(
            bit7(res),
            res == 0,
            (n / 8) % 2 == 1,
            hb,
            (n / 2) % 2 == 1,
            bc2 != 0,
            true,
            c,
        );
    }

    /// CPI: compare A with (HL), HL up, BC down.
    pub fn cpi(&mut self, memory: &Memory) -> (t: u8)
        requires
            memory.wf(),
        ensures
            (*final(self), memory@, t) == spec_cpi(*old(self), memory@),
    {
        self.cp_block_step(memory, true);
        16
    }

    /// CPD: compare A with (HL), HL down, BC down.
    pub fn cpd(&mut self, memory: &Memory) -> (t: u8)
        requires
            memory.wf(),
        ensures
            (*final(self), memory@, t) == spec_cpd(*old(self), memory@),
    {
        self.cp_block_step(memory, false);
        16
    }

    /// CPIR: one CPI step, repeated until BC reaches zero or A matches.
    pub fn cpir(&mut self, memory: &Memory) -> (t: u8)
        requires
            memory.wf(),
        ensures
            (*final(self), memory@, t) == spec_cpir(*old(self), memory@),
    {
        let matched = memory.read(self.hl()) == self.a;
        self.cp_block_step(memory, true);
        if self.bc() != 0 && !matched {
            self.pc = wsub16(self.pc, 2);
            21
        } else {
            16
        }
    }

    /// CPDR: one CPD step, repeated until BC reaches zero or A matches.
    pub fn cpdr(&mut self, memory: &Memory) -> (t: u8)
        requires
            memory.wf(),
        ensures
            (*final(self), memory@, t) == spec_cpdr(*old(self), memory@),
    {
        let matched = memory.read(self.hl()) == self.a;
        self.cp_block_step(memory, false);
        if self.bc() != 0 && !matched {
            self.pc = wsub16(self.pc, 2);
            21
        } else {
            16
        }
    }

    /// One step of a stubbed block port instruction.
    fn io_block_step(&mut self, inc: bool)
        ensures
            *final(self) == io_block(*old(self), inc),
    {
        if inc {
            let hl2 = wadd16(self.hl(), 1);
            self.set_hl(hl2);
        } else {
            let hl2 = wsub16(self.hl(), 1);
            self.set_hl(hl2);
        }
        let b2 = wsub8(self.b, 1);
        self.b = b2;
        let s = self.get_flag_s();
        let x = self.get_flag_x();
        let h = self.get_flag_h();
        let y = self.get_flag_y();
        let pv = self.get_flag_pv();
        let c = self.get_flag_c();
        self.f = mk_flags(s, b2 == 0, x, h, y, pv, true, c);
    }

    /// INI (stub: the port space is not modelled).
    pub fn ini(&mut self, _memory: &mut Memory) -> (t: u8)
        ensures
            *final(self) == io_block(*old(self), true),
            final(_memory)@ == old(_memory)@,
            final(_memory).wf() == old(_memory).wf(),
            t == 16,
    {
        self.io_block_step(true);
        16
    }

    /// IND (stub).
    pub fn ind(&mut self, _memory: &mut Memory) -> (t: u8)
        ensures
            *final(self) == io_block(*old(self), false),
            final(_memory)@ == old(_memory)@,
            final(_memory).wf() == old(_memory).wf(),
            t == 16,
    {
        self.io_block_step(false);
        16
    }

    /// OUTI (stub).
    pub fn outi(&mut self, _memory: &Memory) -> (t: u8)
        ensures
            *final(self) == io_block(*old(self), true),
            t == 16,
    {
        self.io_block_step(true);
        16
    }

    /// OUTD (stub).
    pub fn outd(&mut self, _memory: &Memory) -> (t: u8)
        ensures
            *final(self) == io_block(*old(self), false),
            t == 16,
    {
        self.io_block_step(false);
        16
    }

    /// INIR (stub): repeats until B reaches zero.
    pub fn inir(&mut self, _memory: &mut Memory) -> (t: u8)
        ensures
            (*final(self), t) == io_block_rep(*old(self), true),
            final(_memory)@ == old(_memory)@,
            final(_memory).wf() == old(_memory).wf(),
    {
        self.io_block_step(true);
        if self.b != 0 {
            self.pc = wsub16(self.pc, 2);
            21
        } else {
            16
        }
    }

    /// INDR (stub).
    pub fn indr(&mut self, _memory: &mut Memory) -> (t: u8)
        ensures
            (*final(self), t) == io_block_rep(*old(self), false),
            final(_memory)@ == old(_memory)@,
            final(_memory).wf() == old(_memory).wf(),
    {
        self.io_block_step(false);
        if self.b != 0 {
            self.pc = wsub16(self.pc, 2);
            21
        } else {
            16
        }
    }

    /// OTIR (stub).
    pub fn otir(&mut self, _memory: &Memory) -> (t: u8)
        ensures
            (*final(self), t) == io_block_rep(*old(self), true),
    {
        self.io_block_step(true);
        if self.b != 0 {
            self.pc = wsub16(self.pc, 2);
            21
        } else {
            16
        }
    }

    /// OTDR (stub).
    pub fn otdr(&mut self, _memory: &Memory) -> (t: u8)
        ensures
            (*final(self), t) == io_block_rep(*old(self), false),
    {
        self.io_block_step(false);
        if self.b != 0 {
            self.pc = wsub16(self.pc, 2);
            21
        } else {
            16
        }
    }

    /// LD rr,(nn): the pair named by the opcode is loaded from the address
    /// in the immediate word.
    pub fn ld_rr_nn_indirect(&mut self, opcode: u8, memory: &Memory) -> (t: u8)
        requires
            memory.wf(),
        ensures
            ({
                let addr = mem_read_word(memory@, old(self).pc);
                let cpu1 = Cpu { pc: add16w(old(self).pc, 2), ..*old(self) };
                *final(self) == rp_write(cpu1, (opcode / 16) % 4, mem_read_word(memory@, addr))
                    && t == 20
            }),
    {
        let addr = self.fetch_word(memory);
        let val = memory.read_word(addr);
        self.put_rp((opcode / 16) % 4, val);
        20
    }

    /// LD (nn),rr: the pair named by the opcode is stored at the address
    /// in the immediate word.
    pub fn ld_nn_indirect_rr(&mut self, opcode: u8, memory: &mut Memory) -> (t: u8)
        requires
            old(memory).wf(),
        ensures
            final(memory).wf(),
            ({
                let addr = mem_read_word(old(memory)@, old(self).pc);
                *final(self) == (Cpu { pc: add16w(old(self).pc, 2), ..*old(self) })
                    && final(memory)@ == mem_write_word(
                    old(memory)@,
                    addr,
                    rp_read(*old(self), (opcode / 16) % 4),
                ) && t == 20
            }),
    {
        let addr = self.fetch_word(memory);
        let val = self.get_rp((opcode / 16) % 4);
        memory.write_word(addr, val);
        20
    }

    /// SBC HL,rr.
    pub fn sbc_hl_rr(&mut self, opcode: u8) -> (t: u8)
        ensures
            ({
                let (res, f2) = alu_sbc16(
                    old(self).f,
                    pair(old(self).h, old(self).l),
                    rp_read(*old(self), (opcode / 16) % 4),
                );
                *final(self) == (Cpu { h: hi8(res), l: lo8(res), f: f2, ..*old(self) }) && t == 15
            }),
    {
        let hl = self.hl();
        let rr = self.get_rp((opcode / 16) % 4);
        let res = self.alu_sbc16_val(hl, rr);
        self.set_hl(res);
        15
    }

    /// ADC HL,rr.
    pub fn adc_hl_rr(&mut self, opcode: u8) -> (t: u8)
        ensures
            ({
                let (res, f2) = alu_adc16(
                    old(self).f,
                    pair(old(self).h, old(self).l),
                    rp_read(*old(self), (opcode / 16) % 4),
                );
                *final(self) == (Cpu { h: hi8(res), l: lo8(res), f: f2, ..*old(self) }) && t == 15
            }),
    {
        let hl = self.hl();
        let rr = self.get_rp((opcode / 16) % 4);
        let res = self.alu_adc16_val(hl, rr);
        self.set_hl(res);
        15
    }

    /// LD R,A.
    pub fn ld_r_a(&mut self) -> (t: u8)
        ensures
            *final(self) == (Cpu { r: old(self).a, ..*old(self) }),
            t == 9,
    {
        self.r = self.a;
        9
    }

    /// LD I,A.
    pub fn ld_i_a(&mut self) -> (t: u8)
        ensures
            *final(self) == (Cpu { i: old(self).a, ..*old(self) }),
            t == 9,
    {
        self.i = self.a;
        9
    }

    /// LD A,R: loads A and the IFF2-carrying flag set.
    pub fn ld_a_r(&mut self) -> (t: u8)
        ensures
            *final(self) == (Cpu {
                a: old(self).r,
                f: ld_air_flags(old(self).f, old(self).r, old(self).iff2),
                ..*old(self)
            }),
            t == 9,
    {
        let v = self.r;
        self.a = v;
        let c = self.get_flag_c();
        self.f = mk_flags(bit7(v), v == 0, bit5(v), false, bit3(v), self.iff2, false, c);
        9
    }

    /// LD A,I: loads A and the IFF2-carrying flag set.
    pub fn ld_a_i(&mut self) -> (t: u8)
        ensures
            *final(self) == (Cpu {
                a: old(self).i,
                f: ld_air_flags(old(self).f, old(self).i, old(self).iff2),
                ..*old(self)
            }),
            t == 9,
    {
        let v = self.i;
        self.a = v;
        let c = self.get_flag_c();
        self.f = mk_flags(bit7(v), v == 0, bit5(v), false, bit3(v), self.iff2, false, c);
        9
    }

    /// IN r,(C) (stub): the port reads as 0xFF.
    pub fn in_r_c(&mut self, opcode: u8) -> (t: u8)
        ensures
            ({
                let v = 0xFFu8;
                let reg = (opcode / 8) % 8;
                let f2 = flags_byte(
                    flag_s(v),
                    v == 0,
                    flag_x(v),
                    false,
                    flag_y(v),
                    parity_even(v),
                    false,
                    flag_c(old(self).f),
                );
                let c2 = if reg == 6 {
                    *old(self)
                } else {
                    reg8_write(*old(self), reg, v)
                };
                *final(self) == (Cpu { f: f2, ..c2 }) && t == 12
            }),
    {
        let v: u8 = 0xFF;
        let reg = (opcode / 8) % 8;
        if reg == 0 {
            self.b = v;
        } else if reg == 1 {
            self.c = v;
        } else if reg == 2 {
            self.d = v;
        } else if reg == 3 {
            self.e = v;
        } else if reg == 4 {
            self.h = v;
        } else if reg == 5 {
            self.l = v;
        } else if reg == 7 {
            self.a = v;
        }
        let c = self.get_flag_c();
        self.f = mk_flags(bit7(v), v == 0, bit5(v), false, bit3(v), parity8(v), false, c);
        12
    }

    /// OUT (C),r (stub): the write is discarded.
    pub fn out_c_r(&mut self, _opcode: u8) -> (t: u8)
        ensures
            *final(self) == *old(self),
            t == 12,
    {
        12
    }

    /// IM 0.
    pub fn im_0(&mut self) -> (t: u8)
        ensures
            *final(self) == (Cpu { interrupt_mode: 0, ..*old(self) }),
            t == 8,
    {
        self.interrupt_mode = 0;
        8
    }

    /// IM 1.
    pub fn im_1(&mut self) -> (t: u8)
        ensures
            *final(self) == (Cpu { interrupt_mode: 1, ..*old(self) }),
            t == 8,
    {
        self.interrupt_mode = 1;
        8
    }

    /// IM 2.
    pub fn im_2(&mut self) -> (t: u8)
        ensures
            *final(self) == (Cpu { interrupt_mode: 2, ..*old(self) }),
            t == 8,
    {
        self.interrupt_mode = 2;
        8
    }

    /// NEG: A becomes 0 - A with full subtract flags.
    pub fn neg(&mut self) -> (t: u8)
        ensures
            ({
                let (res, f2) = alu_sub8(0, old(self).a, false);
                *final(self) == (Cpu { a: res, f: f2, ..*old(self) }) && t == 8
            }),
    {
        let v = self.a;
        self.a = 0;
        self.alu_sub_a(v, false);
        8
    }

    /// RRD.
    pub fn rrd(&mut self, memory: &mut Memory) -> (t: u8)
        requires
            old(memory).wf(),
        ensures
            final(memory).wf(),
            (*final(self), final(memory)@, t) == spec_rrd(*old(self), old(memory)@),
    {
        let addr = self.hl();
        let val = memory.read(addr);
        let a2 = self.a - self.a % 16 + val % 16;
        let v2 = (self.a % 16) * 16 + val / 16;
        self.a = a2;
        memory.write(addr, v2);
        let c = self.get_flag_c();
        self.f = mk_flags(bit7(a2), a2 == 0, bit5(a2), false, bit3(a2), parity8(a2), false, c);
        18
    }

    /// RLD.
    pub fn rld(&mut self, memory: &mut Memory) -> (t: u8)
        requires
            old(memory).wf(),
        ensures
            final(memory).wf(),
            (*final(self), final(memory)@, t) == spec_rld(*old(self), old(memory)@),
    {
        let addr = self.hl();
        let val = memory.read(addr);
        let a2 = self.a - self.a % 16 + val / 16;
        let v2 = (val % 16) * 16 + self.a % 16;
        self.a = a2;
        memory.write(addr, v2);
        let c = self.get_flag_c();
        self.f = mk_flags(bit7(a2), a2 == 0, bit5(a2), false, bit3(a2), parity8(a2), false, c);
        18
    }

    /// RETN: return and restore IFF1 from IFF2.
    pub fn retn(&mut self, memory: &Memory) -> (t: u8)
        requires
            memory.wf(),
        ensures
            (*final(self), memory@, t) == spec_retn(*old(self), memory@),
    {
        self.iff1 = self.iff2;
        let addr = self.pop(memory);
        self.pc = addr;
        14
    }

    /// RETI: on this core the same as RETN.
    pub fn reti(&mut self, memory: &Memory) -> (t: u8)
        requires
            memory.wf(),
        ensures
            (*final(self), memory@, t) == spec_retn(*old(self), memory@),
    {
        self.iff1 = self.iff2;
        let addr = self.pop(memory);
        self.pc = addr;
        14
    }
}

} // verus!
