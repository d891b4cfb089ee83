//! The CB-prefixed bit/shift plane: rotates and shifts on registers and
//! (HL), BIT, RES and SET.

use vstd::prelude::*;

use crate::alu::{bit_flags, bit_put, put_bit_val, rot_flags, rot_res};
use crate::cpu::{hi8, pair, reg8_read, reg8_write, Cpu};
use crate::memory::{mem_write, Memory};

verus! {

/// One CB-plane instruction, from the state after the two opcode fetches.
/// The opcode splits into x (operation class), y (rotate kind or bit
/// number) and z (register slot, 6 meaning (HL)).
pub open spec fn cb_spec(cpu: Cpu, mem: Seq<u8>, op: u8) -> (Cpu, Seq<u8>, u8)
    recommends
        mem.len() == 0x10000,
{
    let x = op / 64;
    let y = (op / 8) % 8;
    let z = op % 8;
    let hl = pair(cpu.h, cpu.l);
    if x == 0 {
        if z == 6 {
            let (res, c) = rot_res(y, cpu.f, mem[hl as int]);
            (Cpu { f: rot_flags(res, c), ..cpu }, mem_write(mem, hl, res), 15)
        } else {
            let (res, c) = rot_res(y, cpu.f, reg8_read(cpu, z));
            (reg8_write(Cpu { f: rot_flags(res, c), ..cpu }, z, res), mem, 8)
        }
    } else if x == 1 {
        if z == 6 {
            (Cpu { f: bit_flags(cpu.f, y, mem[hl as int], hi8(hl)), ..cpu }, mem, 12)
        } else {
            let v = reg8_read(cpu, z);
            (Cpu { f: bit_flags(cpu.f, y, v, v), ..cpu }, mem, 8)
        }
    } else {
        let on = x == 3;
        if z == 6 {
            (cpu, mem_write(mem, hl, bit_put(mem[hl as int], y, on)), 15)
        } else {
            (reg8_write(cpu, z, bit_put(reg8_read(cpu, z), y, on)), mem, 8)
        }
    }
}

impl Cpu {
    /// Dispatches one CB-plane opcode; PC is already past the prefix and
    /// the opcode, R has been bumped twice.
    #[verifier::rlimit(60)]
    pub fn execute_cb_instruction(&mut self, opcode: u8, memory: &mut Memory) -> (t: u8)
        requires
            old(memory).wf(),
        ensures
            final(memory).wf(),
            (*final(self), final(memory)@, t) == cb_spec(*old(self), old(memory)@, opcode),
            t >= 4,
    {
        let x = opcode / 64;
        let y = (opcode / 8) % 8;
        let z = opcode % 8;
        if x == 0 {
            if z == 6 {
                let v = memory.read(self.hl());
                let res = self.alu_rot_val(y, v);
                memory.write(self.hl(), res);
                15
            } else {
                let v = self.read_reg(z, memory);
                let res = self.alu_rot_val(y, v);
                self.write_reg(z, res, memory);
                8
            }
        } else if x == 1 {
            if z == 6 {
                let v = memory.read(self.hl());
                let xy = (self.hl() / 256) as u8;
                self.alu_bit(y, v, xy);
                12
            } else {
                let v = self.read_reg(z, memory);
                self.alu_bit(y, v, v);
                8
            }
        } else {
            let on = x == 3;
            if z == 6 {
                let v = memory.read(self.hl());
                memory.write(self.hl(), put_bit_val(v, y, on));
                15
            } else {
                let v = self.read_reg(z, memory);
                self.write_reg(z, put_bit_val(v, y, on), memory);
                8
            }
        }
    }
}

} // verus!
