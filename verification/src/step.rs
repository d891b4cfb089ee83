//! One instruction step: opcode fetch, refresh-register bump, prefix
//! handling and dispatch into the four instruction planes — and the
//! maskable-interrupt entry used at frame boundaries.

use vstd::prelude::*;

use crate::cpu::{add16w, pair, r_bump, spec_push, Cpu};
use crate::exec_base::base_spec;
use crate::exec_cb::cb_spec;
use crate::exec_ed::ed_spec;
use crate::exec_idx::idx_spec;
use crate::memory::{mem_read_word, Memory};

verus! {

/// What one `step` does.  A halted CPU idles for a NOP's 4 T-states.
/// Otherwise the opcode at PC is fetched (PC advances, R bumps, a pending
/// EI delay expires) and decoded; each prefix byte costs one more fetch
/// and R bump before its plane takes over.
#[verifier::opaque]
pub open spec fn step_spec(cpu: Cpu, mem: Seq<u8>) -> (Cpu, Seq<u8>, u8)
    recommends
        mem.len() == 0x10000,
{
    if cpu.is_halted {
        (cpu, mem, 4)
    } else {
        let op = mem[cpu.pc as int];
        let c1 = Cpu {
            pc: add16w(cpu.pc, 1),
            r: r_bump(cpu.r),
            ei_pending: false,
            last_diag: None,
            ..cpu
        };
        if op == 0xCB {
            let sub = mem[c1.pc as int];
            let c2 = Cpu { pc: add16w(c1.pc, 1), r: r_bump(c1.r), ..c1 };
            cb_spec(c2, mem, sub)
        } else if op == 0xDD {
            let sub = mem[c1.pc as int];
            let c2 = Cpu { pc: add16w(c1.pc, 1), r: r_bump(c1.r), ..c1 };
            idx_spec(c2, mem, sub, true)
        } else if op == 0xED {
            let sub = mem[c1.pc as int];
            let c2 = Cpu { pc: add16w(c1.pc, 1), r: r_bump(c1.r), ..c1 };
            ed_spec(c2, mem, sub)
        } else if op == 0xFD {
            let sub = mem[c1.pc as int];
            let c2 = Cpu { pc: add16w(c1.pc, 1), r: r_bump(c1.r), ..c1 };
            idx_spec(c2, mem, sub, false)
        } else {
            base_spec(c1, mem, op)
        }
    }
}

/// What accepting a maskable interrupt does.  With interrupts enabled and
/// no EI delay pending: the CPU leaves the halt state, both flip-flops
/// clear, PC is pushed, and execution continues at 0x0038 (IM 0/1) or at
/// the vector read from I*256 + 0xFF (IM 2).  Otherwise nothing happens
/// and no time passes.
pub open spec fn spec_interrupt(cpu: Cpu, mem: Seq<u8>) -> (Cpu, Seq<u8>, u8)
    recommends
        mem.len() == 0x10000,
{
    if cpu.iff1 && !cpu.ei_pending {
        let c1 = Cpu { is_halted: false, iff1: false, iff2: false, ..cpu };
        let (c2, m2) = spec_push(c1, mem, c1.pc);
        if cpu.interrupt_mode == 2 {
            (Cpu { pc: mem_read_word(m2, pair(cpu.i, 0xFF)), ..c2 }, m2, 19)
        } else {
            (Cpu { pc: 0x0038, ..c2 }, m2, 13)
        }
    } else {
        (cpu, mem, 0)
    }
}

impl Cpu {
    /// Executes one complete instruction and returns its T-state count;
    /// a halted CPU idles at 4 T-states per call without advancing.
    pub fn step(&mut self, memory: &mut Memory) -> (t: u8)
        requires
            old(memory).wf(),
        ensures
            final(memory).wf(),
            (*final(self), final(memory)@, t) == step_spec(*old(self), old(memory)@),
            t >= 4,
    {
        proof {
            reveal(step_spec);
        }
        if self.is_halted {
            return 4;
        }
        self.ei_pending = false;
        self.last_diag = None;
        let op = self.fetch_byte(memory);
        self.r = crate::cpu::bump_r(self.r);
        if op == 0xCB {
            let sub = self.fetch_byte(memory);
            self.r = crate::cpu::bump_r(self.r);
            self.execute_cb_instruction(sub, memory)
        } else if op == 0xDD {
            let sub = self.fetch_byte(memory);
            self.r = crate::cpu::bump_r(self.r);
            let ghost cprev = *self;
            let ghost mprev = memory@;
            let t = self.execute_index_instruction(sub, memory, true);
            proof {
                crate::exec_idx::lemma_idx_cycles(cprev, mprev, sub, true);
            }
            t
        } else if op == 0xED {
            let sub = self.fetch_byte(memory);
            self.r = crate::cpu::bump_r(self.r);
            self.execute_ed_instruction(sub, memory)
        } else if op == 0xFD {
            let sub = self.fetch_byte(memory);
            self.r = crate::cpu::bump_r(self.r);
            let ghost cprev = *self;
            let ghost mprev = memory@;
            let t = self.execute_index_instruction(sub, memory, false);
            proof {
                crate::exec_idx::lemma_idx_cycles(cprev, mprev, sub, false);
            }
            t
        } else {
            self.execute_base_instruction(op, memory)
        }
    }

    /// Delivers a maskable interrupt if the CPU will accept one; returns
    /// the T-states consumed, 0 when the interrupt is refused.
    pub fn interrupt(&mut self, memory: &mut Memory) -> (t: u8)
        requires
            old(memory).wf(),
        ensures
            final(memory).wf(),
            (*final(self), final(memory)@, t) == spec_interrupt(*old(self), old(memory)@),
    {
        if self.iff1 && !self.ei_pending {
            self.is_halted = false;
            self.iff1 = false;
            self.iff2 = false;
            let ret = self.pc;
            self.push(ret, memory);
            if self.interrupt_mode == 2 {
                let vec = 256 * (self.i as u16) + 0xFF;
                self.pc = memory.read_word(vec);
                19
            } else {
                self.pc = 0x0038;
                13
            }
        } else {
            0
        }
    }
}

} // verus!
