//! The index-register instruction planes reached through the DD and FD
//! prefixes: the same decode with IX or IY standing in for HL, plus the
//! doubly-prefixed DDCB/FDCB plane that works on (IX+d) / (IY+d).
//!
//! Both prefixes share one implementation; `use_ix` selects the register.

use vstd::prelude::*;

use crate::alu::{
    alu_acc_spec, alu_add16, alu_dec8, alu_inc8, bit_flags, bit_put, put_bit_val,
    rot_flags, rot_res,
};
use crate::cpu::{
    add16w, disp16, hi8, lo8, pair, reg8_read, reg8_write, spec_pop, spec_push, sub16w, Cpu,
    OpcodeDiag,
};
use crate::memory::{mem_read_word, mem_write, Memory};

verus! {

/// The active index register.
pub open spec fn idx_get(cpu: Cpu, use_ix: bool) -> u16 {
    if use_ix {
        cpu.ix
    } else {
        cpu.iy
    }
}

/// The CPU with the active index register replaced.
pub open spec fn idx_with(cpu: Cpu, use_ix: bool, val: u16) -> Cpu {
    if use_ix {
        Cpu { ix: val, ..cpu }
    } else {
        Cpu { iy: val, ..cpu }
    }
}

/// The doubly-prefixed bit plane on (IX+d) / (IY+d): rotates and shifts,
/// BIT with X/Y from the high byte of the effective address, RES and SET.
/// `cpu` has PC past the displacement and sub-opcode.
pub open spec fn idx_cb_spec(cpu: Cpu, mem: Seq<u8>, op: u8, d: i8, use_ix: bool) -> (
    Cpu,
    Seq<u8>,
    u8,
)
    recommends
        mem.len() == 0x10000,
{
    let addr = disp16(idx_get(cpu, use_ix), d);
    let val = mem[addr as int];
    if op == 0x06 || op == 0x0E || op == 0x16 || op == 0x1E || op == 0x26 || op == 0x2E || op
        == 0x36 || op == 0x3E {
        let kind = (op / 8) % 8;
        let (res, c) = rot_res(kind, cpu.f, val);
        (Cpu { f: rot_flags(res, c), ..cpu }, mem_write(mem, addr, res), 23)
    } else if 0x46 <= op <= 0x7E {
        let n = (op / 8) % 8;
        (Cpu { f: bit_flags(cpu.f, n, val, hi8(addr)), ..cpu }, mem, 20)
    } else if 0x86 <= op <= 0xBE {
        let n = (op / 8) % 8;
        (cpu, mem_write(mem, addr, bit_put(val, n, false)), 23)
    } else if 0xC6 <= op <= 0xFE {
        let n = (op / 8) % 8;
        (cpu, mem_write(mem, addr, bit_put(val, n, true)), 23)
    } else {
        (idx_cb_unknown(cpu, op, use_ix), mem, 23)
    }
}

/// The DD/FD-prefixed opcodes below 0x80: index arithmetic and loads.
pub open spec fn idx_lo_spec(cpu: Cpu, mem: Seq<u8>, op: u8, use_ix: bool) -> (Cpu, Seq<u8>, u8)
    recommends
        mem.len() == 0x10000,
{
    let idx = idx_get(cpu, use_ix);
    if op == 0x09 || op == 0x19 || op == 0x29 || op == 0x39 {
        let rr = if op == 0x09 {
            pair(cpu.b, cpu.c)
        } else if op == 0x19 {
            pair(cpu.d, cpu.e)
        } else if op == 0x29 {
            idx
        } else {
            cpu.sp
        };
        let (res, f2) = alu_add16(cpu.f, idx, rr);
        (idx_with(Cpu { f: f2, ..cpu }, use_ix, res), mem, 15)
    } else if op == 0x21 {
        let val = mem_read_word(mem, cpu.pc);
        (idx_with(Cpu { pc: add16w(cpu.pc, 2), ..cpu }, use_ix, val), mem, 14)
    } else if op == 0x23 {
        (idx_with(cpu, use_ix, add16w(idx, 1)), mem, 10)
    } else if op == 0x2B {
        (idx_with(cpu, use_ix, sub16w(idx, 1)), mem, 10)
    } else if op == 0x34 {
        let d = mem[cpu.pc as int] as i8;
        let addr = disp16(idx, d);
        let (res, f2) = alu_inc8(cpu.f, mem[addr as int]);
        (Cpu { pc: add16w(cpu.pc, 1), f: f2, ..cpu }, mem_write(mem, addr, res), 23)
    } else if op == 0x35 {
        let d = mem[cpu.pc as int] as i8;
        let addr = disp16(idx, d);
        let (res, f2) = alu_dec8(cpu.f, mem[addr as int]);
        (Cpu { pc: add16w(cpu.pc, 1), f: f2, ..cpu }, mem_write(mem, addr, res), 23)
    } else if op == 0x36 {
        let d = mem[cpu.pc as int] as i8;
        let n = mem[add16w(cpu.pc, 1) as int];
        let addr = disp16(idx, d);
        (Cpu { pc: add16w(cpu.pc, 2), ..cpu }, mem_write(mem, addr, n), 19)
    } else if op == 0x46 || op == 0x4E || op == 0x56 || op == 0x5E || op == 0x66 || op == 0x6E
        || op == 0x7E {
        let d = mem[cpu.pc as int] as i8;
        let addr = disp16(idx, d);
        let reg = (op / 8) % 8;
        (reg8_write(Cpu { pc: add16w(cpu.pc, 1), ..cpu }, reg, mem[addr as int]), mem, 19)
    } else if 0x70 <= op <= 0x77 && op != 0x76 {
        let d = mem[cpu.pc as int] as i8;
        let addr = disp16(idx, d);
        let reg = op % 8;
        (Cpu { pc: add16w(cpu.pc, 1), ..cpu }, mem_write(mem, addr, reg8_read(cpu, reg)), 19)
    } else {
        (idx_unknown(cpu, op, use_ix), mem, 4)
    }
}

/// The DD/FD-prefixed opcodes from 0x80 up: accumulator arithmetic on
/// (IX+d)/(IY+d), the doubly-prefixed bit plane and the stack forms.
pub open spec fn idx_hi_spec(cpu: Cpu, mem: Seq<u8>, op: u8, use_ix: bool) -> (Cpu, Seq<u8>, u8)
    recommends
        mem.len() == 0x10000,
{
    let idx = idx_get(cpu, use_ix);
    if op == 0x86 || op == 0x8E || op == 0x96 || op == 0x9E || op == 0xA6 || op == 0xAE
        || op == 0xB6 || op == 0xBE {
        let d = mem[cpu.pc as int] as i8;
        let addr = disp16(idx, d);
        let y = (op / 8) % 8;
        (alu_acc_spec(Cpu { pc: add16w(cpu.pc, 1), ..cpu }, y, mem[addr as int]), mem, 19)
    } else if op == 0xCB {
        let d = mem[cpu.pc as int] as i8;
        let sub = mem[add16w(cpu.pc, 1) as int];
        idx_cb_spec(Cpu { pc: add16w(cpu.pc, 2), ..cpu }, mem, sub, d, use_ix)
    } else if op == 0xE1 {
        let (c2, val) = spec_pop(cpu, mem);
        (idx_with(c2, use_ix, val), mem, 14)
    } else if op == 0xE5 {
        let (c2, m2) = spec_push(cpu, mem, idx);
        (c2, m2, 15)
    } else if op == 0xE9 {
        (Cpu { pc: idx, ..cpu }, mem, 8)
    } else if op == 0xF9 {
        (Cpu { sp: idx, ..cpu }, mem, 10)
    } else {
        (idx_unknown(cpu, op, use_ix), mem, 4)
    }
}

/// One DD- or FD-prefixed instruction, from the state after the prefix and
/// opcode fetches.  Opcodes outside the supported set change nothing but
/// the diagnostic and cost a conservative 4 T-states.
pub open spec fn idx_spec(cpu: Cpu, mem: Seq<u8>, op: u8, use_ix: bool) -> (Cpu, Seq<u8>, u8)
    recommends
        mem.len() == 0x10000,
{
    if op < 0x80 {
        idx_lo_spec(cpu, mem, op, use_ix)
    } else {
        idx_hi_spec(cpu, mem, op, use_ix)
    }
}

/// An unrecognised DD- or FD-prefixed opcode: nothing changes but the
/// diagnostic naming the plane, the opcode and PC at the prefix byte.
pub open spec fn idx_unknown(cpu: Cpu, op: u8, use_ix: bool) -> Cpu {
    Cpu {
        last_diag: Some(
            OpcodeDiag {
                prefix: if use_ix {
                    0xDD
                } else {
                    0xFD
                },
                opcode: op,
                pc: sub16w(cpu.pc, 2),
            },
        ),
        ..cpu
    }
}

/// An unrecognised DDCB/FDCB sub-opcode: the diagnostic points at the
/// first prefix byte, four behind PC.
pub open spec fn idx_cb_unknown(cpu: Cpu, op: u8, use_ix: bool) -> Cpu {
    Cpu {
        last_diag: Some(
            OpcodeDiag {
                prefix: if use_ix {
                    0xDDCB
                } else {
                    0xFDCB
                },
                opcode: op,
                pc: sub16w(cpu.pc, 4),
            },
        ),
        ..cpu
    }
}

impl Cpu {
    /// The active index register.
    fn idx_read(&self, use_ix: bool) -> (r: u16)
        ensures
            r == idx_get(*self, use_ix),
    {
        if use_ix {
            self.ix
        } else {
            self.iy
        }
    }

    /// Replaces the active index register.
    fn idx_write(&mut self, use_ix: bool, val: u16)
        ensures
            *final(self) == idx_with(*old(self), use_ix, val),
    {
        if use_ix {
            self.ix = val;
        } else {
            self.iy = val;
        }
    }

    /// Fetches the displacement byte and forms the effective address.
    fn fetch_disp(&mut self, memory: &Memory, use_ix: bool) -> (addr: u16)
        requires
            memory.wf(),
        ensures
            addr == disp16(idx_get(*old(self), use_ix), memory@[old(self).pc as int] as i8),
            *final(self) == (Cpu { pc: add16w(old(self).pc, 1), ..*old(self) }),
    {
        let d = self.fetch_byte(memory) as i8;
        crate::cpu::disp_addr(self.idx_read(use_ix), d)
    }

    /// Dispatches one DD-prefixed (IX) opcode.
    pub fn execute_dd_instruction(&mut self, opcode: u8, memory: &mut Memory) -> (t: u8)
        requires
            old(memory).wf(),
        ensures
            final(memory).wf(),
            (*final(self), final(memory)@, t) == idx_spec(*old(self), old(memory)@, opcode, true),
    {
        self.execute_index_instruction(opcode, memory, true)
    }

    /// Dispatches one FD-prefixed (IY) opcode.
    pub fn execute_fd_instruction(&mut self, opcode: u8, memory: &mut Memory) -> (t: u8)
        requires
            old(memory).wf(),
        ensures
            final(memory).wf(),
            (*final(self), final(memory)@, t) == idx_spec(*old(self), old(memory)@, opcode, false),
    {
        self.execute_index_instruction(opcode, memory, false)
    }

    /// Dispatches one index-prefixed opcode; PC is already past the prefix
    /// and the opcode, R has been bumped twice.
    pub fn execute_index_instruction(&mut self, opcode: u8, memory: &mut Memory, use_ix: bool) -> (t:
        u8)
        requires
            old(memory).wf(),
        ensures
            final(memory).wf(),
            (*final(self), final(memory)@, t) == idx_spec(
                *old(self),
                old(memory)@,
                opcode,
                use_ix,
            ),
    {
        if opcode < 0x80 {
            self.exec_idx_lo(opcode, memory, use_ix)
        } else {
            self.exec_idx_hi(opcode, memory, use_ix)
        }
    }

    /// The index-prefixed opcodes below 0x80.
    #[verifier::rlimit(100)]
    #[verifier::spinoff_prover]
    fn exec_idx_lo(&mut self, opcode: u8, memory: &mut Memory, use_ix: bool) -> (t: u8)
        requires
            old(memory).wf(),
        ensures
            final(memory).wf(),
            (*final(self), final(memory)@, t) == idx_lo_spec(
                *old(self),
                old(memory)@,
                opcode,
                use_ix,
            ),
    {
        if opcode == 0x09 || opcode == 0x19 || opcode == 0x29 || opcode == 0x39 {
            let idx = self.idx_read(use_ix);
            let rr = if opcode == 0x09 {
                self.bc()
            } else if opcode == 0x19 {
                self.de()
            } else if opcode == 0x29 {
                idx
            } else {
                self.sp
            };
            let res = self.alu_add16_val(idx, rr);
            self.idx_write(use_ix, res);
            15
        } else if opcode == 0x21 {
            let val = self.fetch_word(memory);
            self.idx_write(use_ix, val);
            14
        } else if opcode == 0x23 {
            let idx = self.idx_read(use_ix);
            let v = crate::cpu::wadd16(idx, 1);
            self.idx_write(use_ix, v);
            10
        } else if opcode == 0x2B {
            let idx = self.idx_read(use_ix);
            let v = crate::cpu::wsub16(idx, 1);
            self.idx_write(use_ix, v);
            10
        } else if opcode == 0x34 {
            let addr = self.fetch_disp(memory, use_ix);
            let v = memory.read(addr);
            let res = self.alu_inc_val(v);
            memory.write(addr, res);
            23
        } else if opcode == 0x35 {
            let addr = self.fetch_disp(memory, use_ix);
            let v = memory.read(addr);
            let res = self.alu_dec_val(v);
            memory.write(addr, res);
            23
        } else if opcode == 0x36 {
            let addr = self.fetch_disp(memory, use_ix);
            let n = self.fetch_byte(memory);
            memory.write(addr, n);
            19
        } else if opcode == 0x46 || opcode == 0x4E || opcode == 0x56 || opcode == 0x5E || opcode
            == 0x66 || opcode == 0x6E || opcode == 0x7E {
            let addr = self.fetch_disp(memory, use_ix);
            let val = memory.read(addr);
            let reg = (opcode / 8) % 8;
            self.write_reg(reg, val, memory);
            19
        } else if 0x70 <= opcode && opcode <= 0x77 && opcode != 0x76 {
            let addr = self.fetch_disp(memory, use_ix);
            let reg = opcode % 8;
            let val = self.read_reg(reg, memory);
            memory.write(addr, val);
            19
        } else {
            self.note_unknown(
                if use_ix {
                    0xDD
                } else {
                    0xFD
                },
                opcode,
                2,
            );
            4
        }
    }

    /// The index-prefixed opcodes from 0x80 up.
    #[verifier::rlimit(100)]
    #[verifier::spinoff_prover]
    fn exec_idx_hi(&mut self, opcode: u8, memory: &mut Memory, use_ix: bool) -> (t: u8)
        requires
            old(memory).wf(),
        ensures
            final(memory).wf(),
            (*final(self), final(memory)@, t) == idx_hi_spec(
                *old(self),
                old(memory)@,
                opcode,
                use_ix,
            ),
    {
        if opcode == 0x86 || opcode == 0x8E || opcode == 0x96 || opcode == 0x9E || opcode
            == 0xA6 || opcode == 0xAE || opcode == 0xB6 || opcode == 0xBE {
            let addr = self.fetch_disp(memory, use_ix);
            let val = memory.read(addr);
            self.alu_acc((opcode / 8) % 8, val);
            19
        } else if opcode == 0xCB {
            let d = self.fetch_byte(memory) as i8;
            let sub = self.fetch_byte(memory);
            self.execute_index_cb_instruction(sub, d, memory, use_ix)
        } else if opcode == 0xE1 {
            let val = self.pop(memory);
            self.idx_write(use_ix, val);
            14
        } else if opcode == 0xE5 {
            let idx = self.idx_read(use_ix);
            self.push(idx, memory);
            15
        } else if opcode == 0xE9 {
            self.pc = self.idx_read(use_ix);
            8
        } else if opcode == 0xF9 {
            self.sp = self.idx_read(use_ix);
            10
        } else {
            self.note_unknown(
                if use_ix {
                    0xDD
                } else {
                    0xFD
                },
                opcode,
                2,
            );
            4
        }
    }

    /// Dispatches one DDCB/FDCB sub-opcode; the displacement has already
    /// been fetched.
    pub fn execute_index_cb_instruction(
        &mut self,
        opcode: u8,
        d: i8,
        memory: &mut Memory,
        use_ix: bool,
    ) -> (t: u8)
        requires
            old(memory).wf(),
        ensures
            final(memory).wf(),
            (*final(self), final(memory)@, t) == idx_cb_spec(
                *old(self),
                old(memory)@,
                opcode,
                d,
                use_ix,
            ),
    {
        let addr = crate::cpu::disp_addr(self.idx_read(use_ix), d);
        let val = memory.read(addr);
        if opcode == 0x06 || opcode == 0x0E || opcode == 0x16 || opcode == 0x1E || opcode == 0x26
            || opcode == 0x2E || opcode == 0x36 || opcode == 0x3E {
            let res = self.alu_rot_val((opcode / 8) % 8, val);
            memory.write(addr, res);
            23
        } else if 0x46 <= opcode && opcode <= 0x7E {
            let n = (opcode / 8) % 8;
            self.alu_bit(n, val, (addr / 256) as u8);
            20
        } else if 0x86 <= opcode && opcode <= 0xBE {
            let n = (opcode / 8) % 8;
            memory.write(addr, put_bit_val(val, n, false));
            23
        } else if 0xC6 <= opcode && opcode <= 0xFE {
            let n = (opcode / 8) % 8;
            memory.write(addr, put_bit_val(val, n, true));
            23
        } else {
            self.note_unknown(
                if use_ix {
                    0xDDCB
                } else {
                    0xFDCB
                },
                opcode,
                4,
            );
            23
        }
    }
}

/// Every index-prefixed instruction costs at least a NOP's 4 T-states.
pub proof fn lemma_idx_cycles(cpu: Cpu, mem: Seq<u8>, op: u8, use_ix: bool)
    ensures
        idx_spec(cpu, mem, op, use_ix).2 >= 4,
{
}

} // verus!
