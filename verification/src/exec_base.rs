//! The base instruction plane, decoded by the classic x/y/z octal split of
//! the opcode byte: x selects the quadrant, y and z name registers, pairs,
//! conditions and ALU operations inside it.

use vstd::prelude::*;

use crate::alu::{
    alu_acc_spec, alu_add16, alu_daa, alu_dec8, alu_inc8, bit3, bit5, mk_flags, rot_res,
    rota_flags,
};
use crate::cpu::{
    add16w, disp16, flag_c, flag_pv, flag_s, flag_z, flags_byte, hi8, lo8, pair, reg8_read,
    reg8_write, rp_read, rp_write, spec_ex_af, spec_ex_de_hl, spec_exx, spec_pop, spec_push,
    sub8w, wadd16, wsub8, Cpu,
};
use crate::memory::{mem_read_word, mem_write, mem_write_word, Memory};

verus! {

/// The branch condition named by a 3-bit code: NZ, Z, NC, C, PO, PE, P, M.
pub open spec fn cond_cc(f: u8, cc: u8) -> bool
    recommends
        cc < 8,
{
    if cc == 0 {
        !flag_z(f)
    } else if cc == 1 {
        flag_z(f)
    } else if cc == 2 {
        !flag_c(f)
    } else if cc == 3 {
        flag_c(f)
    } else if cc == 4 {
        !flag_pv(f)
    } else if cc == 5 {
        flag_pv(f)
    } else if cc == 6 {
        !flag_s(f)
    } else {
        flag_s(f)
    }
}

/// The register pair for PUSH/POP: BC, DE, HL or AF.
pub open spec fn rp2_read(cpu: Cpu, p: u8) -> u16
    recommends
        p < 4,
{
    if p == 3 {
        pair(cpu.a, cpu.f)
    } else {
        rp_read(cpu, p)
    }
}

/// The CPU with the PUSH/POP pair selected by `p` replaced.
pub open spec fn rp2_write(cpu: Cpu, p: u8, val: u16) -> Cpu
    recommends
        p < 4,
{
    if p == 3 {
        Cpu { a: hi8(val), f: lo8(val), ..cpu }
    } else {
        rp_write(cpu, p, val)
    }
}

/// Quadrant x=0 of the base plane: small miscellany, 16-bit loads and
/// arithmetic, INC/DEC, LD r,n, relative jumps and the accumulator
/// rotates and adjustments.
pub open spec fn base_x0_spec(cpu: Cpu, mem: Seq<u8>, op: u8) -> (Cpu, Seq<u8>, u8)
    recommends
        mem.len() == 0x10000,
{
    let y = (op / 8) % 8;
    let z = op % 8;
    let p = y / 2;
    let q = y % 2;
    let hl = pair(cpu.h, cpu.l);
    if z == 0 {
        if y == 0 {
            (cpu, mem, 4)
        } else if y == 1 {
            (spec_ex_af(cpu), mem, 4)
        } else if y == 2 {
            let d = mem[cpu.pc as int] as i8;
            let c1 = Cpu { pc: add16w(cpu.pc, 1), b: sub8w(cpu.b, 1), ..cpu };
            if c1.b != 0 {
                (Cpu { pc: disp16(c1.pc, d), ..c1 }, mem, 13)
            } else {
                (c1, mem, 8)
            }
        } else if y == 3 {
            let d = mem[cpu.pc as int] as i8;
            (Cpu { pc: disp16(add16w(cpu.pc, 1), d), ..cpu }, mem, 12)
        } else {
            let d = mem[cpu.pc as int] as i8;
            if cond_cc(cpu.f, (y - 4) as u8) {
                (Cpu { pc: disp16(add16w(cpu.pc, 1), d), ..cpu }, mem, 12)
            } else {
                (Cpu { pc: add16w(cpu.pc, 1), ..cpu }, mem, 7)
            }
        }
    } else if z == 1 {
        if q == 0 {
            let val = mem_read_word(mem, cpu.pc);
            (rp_write(Cpu { pc: add16w(cpu.pc, 2), ..cpu }, p, val), mem, 10)
        } else {
            let (res, f2) = alu_add16(cpu.f, hl, rp_read(cpu, p));
            (Cpu { h: hi8(res), l: lo8(res), f: f2, ..cpu }, mem, 11)
        }
    } else if z == 2 {
        if q == 0 {
            if p == 0 {
                (cpu, mem_write(mem, pair(cpu.b, cpu.c), cpu.a), 7)
            } else if p == 1 {
                (cpu, mem_write(mem, pair(cpu.d, cpu.e), cpu.a), 7)
            } else if p == 2 {
                let addr = mem_read_word(mem, cpu.pc);
                (Cpu { pc: add16w(cpu.pc, 2), ..cpu }, mem_write_word(mem, addr, hl), 16)
            } else {
                let addr = mem_read_word(mem, cpu.pc);
                (Cpu { pc: add16w(cpu.pc, 2), ..cpu }, mem_write(mem, addr, cpu.a), 13)
            }
        } else {
            if p == 0 {
                (Cpu { a: mem[pair(cpu.b, cpu.c) as int], ..cpu }, mem, 7)
            } else if p == 1 {
                (Cpu { a: mem[pair(cpu.d, cpu.e) as int], ..cpu }, mem, 7)
            } else if p == 2 {
                let addr = mem_read_word(mem, cpu.pc);
                let val = mem_read_word(mem, addr);
                (Cpu { pc: add16w(cpu.pc, 2), h: hi8(val), l: lo8(val), ..cpu }, mem, 16)
            } else {
                let addr = mem_read_word(mem, cpu.pc);
                (Cpu { pc: add16w(cpu.pc, 2), a: mem[addr as int], ..cpu }, mem, 13)
            }
        }
    } else if z == 3 {
        let rp = rp_read(cpu, p);
        if q == 0 {
            (rp_write(cpu, p, add16w(rp, 1)), mem, 6)
        } else {
            (rp_write(cpu, p, crate::cpu::sub16w(rp, 1)), mem, 6)
        }
    } else if z == 4 {
        if y == 6 {
            let (res, f2) = alu_inc8(cpu.f, mem[hl as int]);
            (Cpu { f: f2, ..cpu }, mem_write(mem, hl, res), 11)
        } else {
            let (res, f2) = alu_inc8(cpu.f, reg8_read(cpu, y));
            (reg8_write(Cpu { f: f2, ..cpu }, y, res), mem, 4)
        }
    } else if z == 5 {
        if y == 6 {
            let (res, f2) = alu_dec8(cpu.f, mem[hl as int]);
            (Cpu { f: f2, ..cpu }, mem_write(mem, hl, res), 11)
        } else {
            let (res, f2) = alu_dec8(cpu.f, reg8_read(cpu, y));
            (reg8_write(Cpu { f: f2, ..cpu }, y, res), mem, 4)
        }
    } else if z == 6 {
        let n = mem[cpu.pc as int];
        let c1 = Cpu { pc: add16w(cpu.pc, 1), ..cpu };
        if y == 6 {
            (c1, mem_write(mem, hl, n), 10)
        } else {
            (reg8_write(c1, y, n), mem, 7)
        }
    } else {
        if y < 4 {
            let (res, c) = rot_res(y, cpu.f, cpu.a);
            (Cpu { a: res, f: rota_flags(cpu.f, res, c), ..cpu }, mem, 4)
        } else if y == 4 {
            let (res, f2) = alu_daa(cpu.a, cpu.f);
            (Cpu { a: res, f: f2, ..cpu }, mem, 4)
        } else if y == 5 {
            let a2 = ((255 - cpu.a) as u8);
            let f2 = flags_byte(
                flag_s(cpu.f),
                flag_z(cpu.f),
                crate::cpu::flag_x(a2),
                true,
                crate::cpu::flag_y(a2),
                flag_pv(cpu.f),
                true,
                flag_c(cpu.f),
            );
            (Cpu { a: a2, f: f2, ..cpu }, mem, 4)
        } else if y == 6 {
            let f2 = flags_byte(
                flag_s(cpu.f),
                flag_z(cpu.f),
                crate::cpu::flag_x(cpu.a),
                false,
                crate::cpu::flag_y(cpu.a),
                flag_pv(cpu.f),
                false,
                true,
            );
            (Cpu { f: f2, ..cpu }, mem, 4)
        } else {
            let f2 = flags_byte(
                flag_s(cpu.f),
                flag_z(cpu.f),
                crate::cpu::flag_x(cpu.a),
                flag_c(cpu.f),
                crate::cpu::flag_y(cpu.a),
                flag_pv(cpu.f),
                false,
                !flag_c(cpu.f),
            );
            (Cpu { f: f2, ..cpu }, mem, 4)
        }
    }
}

/// Quadrant x=3 of the base plane: conditional control flow, the stack,
/// immediate ALU operations, exchanges, DI/EI and RST.  The four prefix
/// escapes never reach this function.
pub open spec fn base_x3_spec(cpu: Cpu, mem: Seq<u8>, op: u8) -> (Cpu, Seq<u8>, u8)
    recommends
        mem.len() == 0x10000,
{
    let y = (op / 8) % 8;
    let z = op % 8;
    let p = y / 2;
    let q = y % 2;
    let hl = pair(cpu.h, cpu.l);
    if z == 0 {
        if cond_cc(cpu.f, y) {
            let (c2, addr) = spec_pop(cpu, mem);
            (Cpu { pc: addr, ..c2 }, mem, 11)
        } else {
            (cpu, mem, 5)
        }
    } else if z == 1 {
        if q == 0 {
            let (c2, val) = spec_pop(cpu, mem);
            (rp2_write(c2, p, val), mem, 10)
        } else if p == 0 {
            let (c2, addr) = spec_pop(cpu, mem);
            (Cpu { pc: addr, ..c2 }, mem, 10)
        } else if p == 1 {
            (spec_exx(cpu), mem, 4)
        } else if p == 2 {
            (Cpu { pc: hl, ..cpu }, mem, 4)
        } else {
            (Cpu { sp: hl, ..cpu }, mem, 6)
        }
    } else if z == 2 {
        let addr = mem_read_word(mem, cpu.pc);
        if cond_cc(cpu.f, y) {
            (Cpu { pc: addr, ..cpu }, mem, 10)
        } else {
            (Cpu { pc: add16w(cpu.pc, 2), ..cpu }, mem, 10)
        }
    } else if z == 3 {
        if y == 0 {
            (Cpu { pc: mem_read_word(mem, cpu.pc), ..cpu }, mem, 10)
        } else if y == 2 {
            (Cpu { pc: add16w(cpu.pc, 1), ..cpu }, mem, 11)
        } else if y == 3 {
            (Cpu { pc: add16w(cpu.pc, 1), a: 0xFF, ..cpu }, mem, 11)
        } else if y == 4 {
            let w = mem_read_word(mem, cpu.sp);
            (Cpu { h: hi8(w), l: lo8(w), ..cpu }, mem_write_word(mem, cpu.sp, hl), 19)
        } else if y == 5 {
            (spec_ex_de_hl(cpu), mem, 4)
        } else if y == 6 {
            (Cpu { iff1: false, iff2: false, ..cpu }, mem, 4)
        } else if y == 7 {
            (Cpu { iff1: true, iff2: true, ei_pending: true, ..cpu }, mem, 4)
        } else {
            (cpu, mem, 4)
        }
    } else if z == 4 {
        let addr = mem_read_word(mem, cpu.pc);
        let c1 = Cpu { pc: add16w(cpu.pc, 2), ..cpu };
        if cond_cc(cpu.f, y) {
            let (c2, m2) = spec_push(c1, mem, c1.pc);
            (Cpu { pc: addr, ..c2 }, m2, 17)
        } else {
            (c1, mem, 10)
        }
    } else if z == 5 {
        if q == 0 {
            let (c2, m2) = spec_push(cpu, mem, rp2_read(cpu, p));
            (c2, m2, 11)
        } else if p == 0 {
            let addr = mem_read_word(mem, cpu.pc);
            let c1 = Cpu { pc: add16w(cpu.pc, 2), ..cpu };
            let (c2, m2) = spec_push(c1, mem, c1.pc);
            (Cpu { pc: addr, ..c2 }, m2, 17)
        } else {
            (cpu, mem, 4)
        }
    } else if z == 6 {
        let n = mem[cpu.pc as int];
        (alu_acc_spec(Cpu { pc: add16w(cpu.pc, 1), ..cpu }, y, n), mem, 7)
    } else {
        let (c2, m2) = spec_push(cpu, mem, cpu.pc);
        (Cpu { pc: (8 * y) as u16, ..c2 }, m2, 11)
    }
}

/// One base-plane instruction, from the state after the opcode fetch.
/// The four prefix escapes are handled by the caller and never reach
/// this function.
pub open spec fn base_spec(cpu: Cpu, mem: Seq<u8>, op: u8) -> (Cpu, Seq<u8>, u8)
    recommends
        mem.len() == 0x10000,
{
    let x = op / 64;
    let y = (op / 8) % 8;
    let z = op % 8;
    let hl = pair(cpu.h, cpu.l);
    if op == 0x76 {
        (Cpu { is_halted: true, ..cpu }, mem, 4)
    } else if x == 1 {
        if z == 6 {
            (reg8_write(cpu, y, mem[hl as int]), mem, 7)
        } else if y == 6 {
            (cpu, mem_write(mem, hl, reg8_read(cpu, z)), 7)
        } else {
            (reg8_write(cpu, y, reg8_read(cpu, z)), mem, 4)
        }
    } else if x == 2 {
        if z == 6 {
            (alu_acc_spec(cpu, y, mem[hl as int]), mem, 7)
        } else {
            (alu_acc_spec(cpu, y, reg8_read(cpu, z)), mem, 4)
        }
    } else if x == 0 {
        base_x0_spec(cpu, mem, op)
    } else {
        base_x3_spec(cpu, mem, op)
    }
}

impl Cpu {
    /// Tests the branch condition named by a 3-bit code.
    pub fn test_cond(&self, cc: u8) -> (r: bool)
        requires
            cc < 8,
        ensures
            r == cond_cc(self.f, cc),
    {
        if cc == 0 {
            !self.get_flag_z()
        } else if cc == 1 {
            self.get_flag_z()
        } else if cc == 2 {
            !self.get_flag_c()
        } else if cc == 3 {
            self.get_flag_c()
        } else if cc == 4 {
            !self.get_flag_pv()
        } else if cc == 5 {
            self.get_flag_pv()
        } else if cc == 6 {
            !self.get_flag_s()
        } else {
            self.get_flag_s()
        }
    }

    /// Reads the PUSH/POP pair selected by `p`: BC, DE, HL or AF.
    fn get_rp2(&self, p: u8) -> (r: u16)
        requires
            p < 4,
        ensures
            r == rp2_read(*self, p),
    {
        if p == 3 {
            self.af()
        } else {
            self.get_rp(p)
        }
    }

    /// Replaces the PUSH/POP pair selected by `p`.
    fn put_rp2(&mut self, p: u8, val: u16)
        requires
            p < 4,
        ensures
            *final(self) == rp2_write(*old(self), p, val),
    {
        if p == 3 {
            self.set_af(val);
        } else {
            self.put_rp(p, val);
        }
    }

    /// Quadrant x=0 of the base plane.
    #[verifier::rlimit(100)]
    fn exec_base_x0(&mut self, op: u8, memory: &mut Memory) -> (t: u8)
        requires
            old(memory).wf(),
            op / 64 == 0,
        ensures
            final(memory).wf(),
            (*final(self), final(memory)@, t) == base_x0_spec(*old(self), old(memory)@, op),
            t >= 4,
    {
        let y = (op / 8) % 8;
        let z = op % 8;
        let p = y / 2;
        let q = y % 2;
        if z == 0 {
            if y == 0 {
                4
            } else if y == 1 {
                self.ex_af_af();
                4
            } else if y == 2 {
                let d = self.fetch_byte(memory) as i8;
                self.b = wsub8(self.b, 1);
                if self.b != 0 {
                    self.pc = crate::cpu::disp_addr(self.pc, d);
                    13
                } else {
                    8
                }
            } else if y == 3 {
                let d = self.fetch_byte(memory) as i8;
                self.pc = crate::cpu::disp_addr(self.pc, d);
                12
            } else {
                let d = self.fetch_byte(memory) as i8;
                if self.test_cond(y - 4) {
                    self.pc = crate::cpu::disp_addr(self.pc, d);
                    12
                } else {
                    7
                }
            }
        } else if z == 1 {
            if q == 0 {
                let val = self.fetch_word(memory);
                self.put_rp(p, val);
                10
            } else {
                let hl = self.hl();
                let rr = self.get_rp(p);
                let res = self.alu_add16_val(hl, rr);
                self.set_hl(res);
                11
            }
        } else if z == 2 {
            if q == 0 {
                if p == 0 {
                    memory.write(self.bc(), self.a);
                    7
                } else if p == 1 {
                    memory.write(self.de(), self.a);
                    7
                } else if p == 2 {
                    let addr = self.fetch_word(memory);
                    memory.write_word(addr, self.hl());
                    16
                } else {
                    let addr = self.fetch_word(memory);
                    memory.write(addr, self.a);
                    13
                }
            } else {
                if p == 0 {
                    self.a = memory.read(self.bc());
                    7
                } else if p == 1 {
                    self.a = memory.read(self.de());
                    7
                } else if p == 2 {
                    let addr = self.fetch_word(memory);
                    let val = memory.read_word(addr);
                    self.set_hl(val);
                    16
                } else {
                    let addr = self.fetch_word(memory);
                    self.a = memory.read(addr);
                    13
                }
            }
        } else if z == 3 {
            let rp = self.get_rp(p);
            if q == 0 {
                self.put_rp(p, wadd16(rp, 1));
            } else {
                self.put_rp(p, crate::cpu::wsub16(rp, 1));
            }
            6
        } else if z == 4 {
            if y == 6 {
                let v = memory.read(self.hl());
                let res = self.alu_inc_val(v);
                memory.write(self.hl(), res);
                11
            } else {
                let v = self.read_reg(y, memory);
                let res = self.alu_inc_val(v);
                self.write_reg(y, res, memory);
                4
            }
        } else if z == 5 {
            if y == 6 {
                let v = memory.read(self.hl());
                let res = self.alu_dec_val(v);
                memory.write(self.hl(), res);
                11
            } else {
                let v = self.read_reg(y, memory);
                let res = self.alu_dec_val(v);
                self.write_reg(y, res, memory);
                4
            }
        } else if z == 6 {
            let n = self.fetch_byte(memory);
            if y == 6 {
                memory.write(self.hl(), n);
                10
            } else {
                self.write_reg(y, n, memory);
                7
            }
        } else {
            if y < 4 {
                self.alu_rota(y);
                4
            } else if y == 4 {
                self.alu_daa_a();
                4
            } else if y == 5 {
                let a2 = 255 - self.a;
                let s = self.get_flag_s();
                let zf = self.get_flag_z();
                let pv = self.get_flag_pv();
                let c = self.get_flag_c();
                self.f = mk_flags(s, zf, bit5(a2), true, bit3(a2), pv, true, c);
                self.a = a2;
                4
            } else if y == 6 {
                let s = self.get_flag_s();
                let zf = self.get_flag_z();
                let pv = self.get_flag_pv();
                let a = self.a;
                self.f = mk_flags(s, zf, bit5(a), false, bit3(a), pv, false, true);
                4
            } else {
                let s = self.get_flag_s();
                let zf = self.get_flag_z();
                let pv = self.get_flag_pv();
                let c = self.get_flag_c();
                let a = self.a;
                self.f = mk_flags(s, zf, bit5(a), c, bit3(a), pv, false, !c);
                4
            }
        }
    }

    /// Quadrant x=3 of the base plane.
    #[verifier::rlimit(100)]
    fn exec_base_x3(&mut self, op: u8, memory: &mut Memory) -> (t: u8)
        requires
            old(memory).wf(),
            op / 64 == 3,
            op != 0xCB && op != 0xDD && op != 0xED && op != 0xFD,
        ensures
            final(memory).wf(),
            (*final(self), final(memory)@, t) == base_x3_spec(*old(self), old(memory)@, op),
            t >= 4,
    {
        let y = (op / 8) % 8;
        let z = op % 8;
        let p = y / 2;
        let q = y % 2;
        if z == 0 {
            if self.test_cond(y) {
                let addr = self.pop(memory);
                self.pc = addr;
                11
            } else {
                5
            }
        } else if z == 1 {
            if q == 0 {
                let val = self.pop(memory);
                self.put_rp2(p, val);
                10
            } else if p == 0 {
                let addr = self.pop(memory);
                self.pc = addr;
                10
            } else if p == 1 {
                self.exx();
                4
            } else if p == 2 {
                self.pc = self.hl();
                4
            } else {
                self.sp = self.hl();
                6
            }
        } else if z == 2 {
            let addr = self.fetch_word(memory);
            if self.test_cond(y) {
                self.pc = addr;
            }
            10
        } else if z == 3 {
            if y == 0 {
                let addr = self.fetch_word(memory);
                self.pc = addr;
                10
            } else if y == 2 {
                let _n = self.fetch_byte(memory);
                11
            } else if y == 3 {
                let _n = self.fetch_byte(memory);
                self.a = 0xFF;
                11
            } else if y == 4 {
                let w = memory.read_word(self.sp);
                let hl = self.hl();
                memory.write_word(self.sp, hl);
                self.set_hl(w);
                19
            } else if y == 5 {
                self.ex_de_hl();
                4
            } else if y == 6 {
                self.iff1 = false;
                self.iff2 = false;
                4
            } else {
                self.iff1 = true;
                self.iff2 = true;
                self.ei_pending = true;
                4
            }
        } else if z == 4 {
            let addr = self.fetch_word(memory);
            if self.test_cond(y) {
                let ret = self.pc;
                self.push(ret, memory);
                self.pc = addr;
                17
            } else {
                10
            }
        } else if z == 5 {
            if q == 0 {
                let val = self.get_rp2(p);
                self.push(val, memory);
                11
            } else {
                let addr = self.fetch_word(memory);
                let ret = self.pc;
                self.push(ret, memory);
                self.pc = addr;
                17
            }
        } else if z == 6 {
            let n = self.fetch_byte(memory);
            self.alu_acc(y, n);
            7
        } else {
            let ret = self.pc;
            self.push(ret, memory);
            self.pc = (8 * y) as u16;
            11
        }
    }

    /// One base-plane instruction; PC is already past the opcode and R has
    /// been bumped once.  The prefix escapes are the caller's business.
    #[verifier::rlimit(100)]
    #[verifier::spinoff_prover]
    pub fn execute_base_instruction(&mut self, op: u8, memory: &mut Memory) -> (t: u8)
        requires
            old(memory).wf(),
            op != 0xCB && op != 0xDD && op != 0xED && op != 0xFD,
        ensures
            final(memory).wf(),
            (*final(self), final(memory)@, t) == base_spec(*old(self), old(memory)@, op),
            t >= 4,
    {
        let x = op / 64;
        let y = (op / 8) % 8;
        let z = op % 8;
        if op == 0x76 {
            self.is_halted = true;
            4
        } else if x == 1 {
            if z == 6 {
                let v = memory.read(self.hl());
                self.write_reg(y, v, memory);
                7
            } else if y == 6 {
                let v = self.read_reg(z, memory);
                memory.write(self.hl(), v);
                7
            } else {
                let v = self.read_reg(z, memory);
                self.write_reg(y, v, memory);
                4
            }
        } else if x == 2 {
            if z == 6 {
                let v = memory.read(self.hl());
                self.alu_acc(y, v);
                7
            } else {
                let v = self.read_reg(z, memory);
                self.alu_acc(y, v);
                4
            }
        } else if x == 0 {
            self.exec_base_x0(op, memory)
        } else {
            self.exec_base_x3(op, memory)
        }
    }
}

} // verus!
