//! The orchestrator: owns the CPU, the memory and the framebuffer,
//! advances the CPU by whole instructions, counts T-states, and delivers
//! the 50 Hz maskable interrupt at each frame boundary.

use vstd::prelude::*;

use crate::cpu::{spec_reset, Cpu};
use crate::memory::{mem_write, Memory};
use crate::step::{spec_interrupt, step_spec};
use crate::video::{frame_pixel, Video};

verus! {

/// T-states in one 50 Hz frame at 3.5 MHz.
pub const CYCLES_PER_FRAME: u64 = 69888;

/// What one emulator step does to the stepped state (CPU, memory, total
/// cycles, frame cycles): one CPU instruction, the cycle bookkeeping, and
/// interrupt delivery when the frame counter wraps.
pub open spec fn emu_step_state(cpu: Cpu, mem: Seq<u8>, cycles: int, fcyc: int) -> (
    Cpu,
    Seq<u8>,
    int,
    int,
)
    recommends
        mem.len() == 0x10000,
{
    let (c2, m2, t2) = step_spec(cpu, mem);
    let fc = fcyc + t2;
    if fc >= 69888 {
        let (c3, m3, _ti) = spec_interrupt(c2, m2);
        (c3, m3, cycles + t2, fc - 69888)
    } else {
        (c2, m2, cycles + t2, fc)
    }
}

/// The stepped state after `k` emulator steps.
pub open spec fn run_steps(cpu: Cpu, mem: Seq<u8>, cycles: int, fcyc: int, k: nat) -> (
    Cpu,
    Seq<u8>,
    int,
    int,
)
    recommends
        mem.len() == 0x10000,
    decreases k,
{
    if k == 0 {
        (cpu, mem, cycles, fcyc)
    } else {
        let (c1, m1, cy1, f1) = run_steps(cpu, mem, cycles, fcyc, (k - 1) as nat);
        emu_step_state(c1, m1, cy1, f1)
    }
}

/// The machine: CPU, memory, framebuffer and the cycle bookkeeping.
pub struct Emulator {
    pub cpu: Cpu,
    pub memory: Memory,
    pub video: Video,
    pub cycles: u64,
    pub frame_cycles: u64,
}

impl Emulator {
    /// Memory and framebuffer keep their shapes and the frame counter
    /// stays inside one frame.
    pub open spec fn wf(&self) -> bool {
        self.memory.wf() && self.video.wf() && self.frame_cycles < 69888
    }

    /// A freshly reset machine around a 16 KiB ROM image.
    pub fn new(rom: Vec<u8>, debug_enabled: bool) -> (e: Emulator)
        requires
            rom@.len() == 0x4000,
        ensures
            e.wf(),
            e.cpu == spec_reset(),
            e.memory@ == rom@ + Seq::<u8>::new(0xC000, |i: int| 0u8),
            e.cycles == 0 && e.frame_cycles == 0,
            e.video.debug_enabled == debug_enabled,
    {
        Emulator {
            cpu: Cpu::new(),
            memory: Memory::new(rom),
            video: Video::new(debug_enabled),
            cycles: 0,
            frame_cycles: 0,
        }
    }

    /// Executes one instruction, accounts its T-states, and delivers a
    /// maskable interrupt when the frame counter wraps.
    #[verifier::rlimit(100)]
    #[verifier::spinoff_prover]
    pub fn step(&mut self) -> (t: u8)
        requires
            old(self).wf(),
            old(self).cycles + 256 < u64::MAX,
        ensures
            final(self).wf(),
            t >= 4,
            t == step_spec(old(self).cpu, old(self).memory@).2,
            final(self).video == old(self).video,
            (final(self).cpu, final(self).memory@, final(self).cycles as int, final(self).frame_cycles as int)
                == emu_step_state(
                old(self).cpu,
                old(self).memory@,
                old(self).cycles as int,
                old(self).frame_cycles as int,
            ),
    {
        let t = self.cpu.step(&mut self.memory);
        self.cycles = self.cycles + (t as u64);
        self.frame_cycles = self.frame_cycles + (t as u64);
        if self.frame_cycles >= CYCLES_PER_FRAME {
            self.frame_cycles = self.frame_cycles - CYCLES_PER_FRAME;
            self.cpu.interrupt(&mut self.memory);
        }
        t
    }

    /// Runs instructions until a frame's worth of T-states has elapsed or
    /// the CPU halts.
    #[verifier::rlimit(100)]
    #[verifier::spinoff_prover]
    pub fn run_frame(&mut self)
        requires
            old(self).wf(),
            old(self).cycles + 2 * 69888 < u64::MAX,
        ensures
            final(self).wf(),
            final(self).cycles >= old(self).cycles,
            final(self).cycles >= old(self).cycles + 69888 || final(self).cpu.is_halted,
            final(self).video == old(self).video,
            old(self).cpu.is_halted ==> *final(self) == *old(self),
            exists|k: nat|
                (final(self).cpu, final(self).memory@, final(self).cycles as int, final(self).frame_cycles as int)
                    == #[trigger] run_steps(
                    old(self).cpu,
                    old(self).memory@,
                    old(self).cycles as int,
                    old(self).frame_cycles as int,
                    k,
                ),
    {
        proof {
            assert((self.cpu, self.memory@, self.cycles as int, self.frame_cycles as int)
                == run_steps(
                self.cpu,
                self.memory@,
                self.cycles as int,
                self.frame_cycles as int,
                0,
            ));
        }
        let target: u64 = self.cycles + CYCLES_PER_FRAME;
        while self.cycles < target && !self.cpu.is_halted
            invariant
                self.wf(),
                self.video == old(self).video,
                old(self).cycles <= self.cycles,
                self.cycles <= target + 255,
                target == old(self).cycles + 69888,
                old(self).cycles + 2 * 69888 < u64::MAX,
                old(self).cpu.is_halted ==> *self == *old(self),
                exists|k: nat|
                    (self.cpu, self.memory@, self.cycles as int, self.frame_cycles as int)
                        == #[trigger] run_steps(
                        old(self).cpu,
                        old(self).memory@,
                        old(self).cycles as int,
                        old(self).frame_cycles as int,
                        k,
                    ),
            decreases target + 255 - self.cycles,
        {
            let ghost prev_cpu = self.cpu;
            let ghost prev_mem = self.memory@;
            let ghost prev_cy = self.cycles as int;
            let ghost prev_fc = self.frame_cycles as int;
            let _t = self.step();
            proof {
                let k = choose|k: nat|
                    (prev_cpu, prev_mem, prev_cy, prev_fc) == #[trigger] run_steps(
                        old(self).cpu,
                        old(self).memory@,
                        old(self).cycles as int,
                        old(self).frame_cycles as int,
                        k,
                    );
                assert(run_steps(
                    old(self).cpu,
                    old(self).memory@,
                    old(self).cycles as int,
                    old(self).frame_cycles as int,
                    k + 1,
                ) == emu_step_state(prev_cpu, prev_mem, prev_cy, prev_fc));
            }
        }
    }

    /// The CPU state.
    pub fn cpu(&self) -> (r: &Cpu)
        ensures
            r == &self.cpu,
    {
        &self.cpu
    }

    /// The memory.
    pub fn memory(&self) -> (r: &Memory)
        ensures
            r == &self.memory,
    {
        &self.memory
    }

    /// The framebuffer.
    pub fn video(&self) -> (r: &Video)
        ensures
            r == &self.video,
    {
        &self.video
    }

    /// Whether the CPU has executed HALT and waits for an interrupt.
    pub fn is_halted(&self) -> (r: bool)
        ensures
            r == self.cpu.is_halted,
    {
        self.cpu.is_halted
    }

    /// Total T-states executed since reset.
    pub fn total_cycles(&self) -> (r: u64)
        ensures
            r == self.cycles,
    {
        self.cycles
    }

    /// Puts the CPU back into its reset state; memory, screen and cycle
    /// counters are left alone.
    pub fn reset_cpu(&mut self)
        ensures
            *final(self) == (Emulator { cpu: spec_reset(), ..*old(self) }),
    {
        self.cpu = Cpu::new();
    }

    /// Renders the current memory snapshot into the framebuffer: every
    /// buffer pixel gets its `frame_pixel` value and the flash phase
    /// advances; nothing else moves.
    pub fn render_display(&mut self)
        requires
            old(self).wf(),
        ensures
            final(self).wf(),
            final(self).cpu == old(self).cpu,
            final(self).memory == old(self).memory,
            final(self).cycles == old(self).cycles,
            final(self).frame_cycles == old(self).frame_cycles,
            final(self).video.width == old(self).video.width,
            final(self).video.height == old(self).video.height,
            final(self).video.debug_enabled == old(self).video.debug_enabled,
            final(self).video.border_colour == old(self).video.border_colour,
            final(self).video.frame_count == (old(self).video.frame_count + 1) % 32,
            forall|idx: int|
                0 <= idx < final(self).video.buffer@.len()
                    ==> #[trigger] final(self).video.buffer@[idx] == frame_pixel(
                    old(self).memory@,
                    old(self).video.border_colour,
                    old(self).video.frame_count / 16 == 1,
                    idx % (old(self).video.width as int),
                    idx / (old(self).video.width as int),
                ),
    {
        self.video.render(&self.memory);
    }

    /// Latches a border colour.
    pub fn set_border_colour(&mut self, colour: u8)
        requires
            old(self).wf(),
        ensures
            final(self).wf(),
            *final(self) == (Emulator {
                video: (Video { border_colour: colour % 8, ..old(self).video }),
                ..*old(self)
            }),
    {
        self.video.set_border_colour(colour);
    }

    /// Writes one bitmap byte at byte-column `x` of scan line `y`,
    /// through the interleaved screen layout.
    pub fn write_to_screen(&mut self, x: usize, y: usize, pattern: u8)
        requires
            old(self).wf(),
        ensures
            final(self).wf(),
            final(self).cpu == old(self).cpu,
            final(self).video == old(self).video,
            final(self).cycles == old(self).cycles,
            final(self).frame_cycles == old(self).frame_cycles,
            x < 32 && y < 192 ==> final(self).memory@ == mem_write(
                old(self).memory@,
                (0x4000 + (y / 64) * 2048 + (y % 8) * 256 + ((y % 64) / 8) * 32 + x) as u16,
                pattern,
            ),
            !(x < 32 && y < 192) ==> final(self).memory@ == old(self).memory@,
    {
        if x < 32 && y < 192 {
            let third = y / 64;
            let line_in_third = y % 64;
            let scan = line_in_third / 8;
            let pixel_line = line_in_third % 8;
            let addr: u16 = (0x4000 + third * 2048 + pixel_line * 256 + scan * 32 + x) as u16;
            proof {
                assert((y % 64) % 8 == y % 8) by (nonlinear_arith);
            }
            self.memory.write(addr, pattern);
        }
    }

    /// Writes one attribute byte for the 8x8 cell at (x, y).
    pub fn set_attribute(&mut self, x: usize, y: usize, attr: u8)
        requires
            old(self).wf(),
        ensures
            final(self).wf(),
            final(self).cpu == old(self).cpu,
            final(self).video == old(self).video,
            final(self).cycles == old(self).cycles,
            final(self).frame_cycles == old(self).frame_cycles,
            x < 32 && y < 24 ==> final(self).memory@ == mem_write(
                old(self).memory@,
                (0x5800 + y * 32 + x) as u16,
                attr,
            ),
            !(x < 32 && y < 24) ==> final(self).memory@ == old(self).memory@,
    {
        if x < 32 && y < 24 {
            let addr: u16 = (0x5800 + y * 32 + x) as u16;
            self.memory.write(addr, attr);
        }
    }

    /// Clears the bitmap and fills every attribute cell with one colour.
    pub fn clear_screen(&mut self, ink: u8, paper: u8, bright: bool)
        requires
            old(self).wf(),
        ensures
            final(self).wf(),
            final(self).cpu == old(self).cpu,
            final(self).video == old(self).video,
            final(self).cycles == old(self).cycles,
            final(self).frame_cycles == old(self).frame_cycles,
            forall|a: int| 0x4000 <= a < 0x5800 ==> final(self).memory@[a] == 0,
            forall|a: int|
                0x5800 <= a < 0x5B00 ==> final(self).memory@[a] == Memory::attr_byte(
                    ink,
                    paper,
                    bright,
                    false,
                ),
            forall|a: int|
                0 <= a < 0x10000 && !(0x4000 <= a < 0x5B00) ==> final(self).memory@[a] == old(
                    self,
                ).memory@[a],
    {
        self.memory.clear_screen(ink, paper, bright, false);
    }
}

} // verus!
