//! Core of a ZX Spectrum 48K emulator: a cycle-counted Z80 interpreter,
//! the Spectrum memory map, and the bitmap-to-framebuffer translation.
//!
//! The host window, keyboard handling and ROM loading live outside this
//! library; everything here is pure computation over plain values.

pub mod alu;
pub mod cpu;
pub mod emulator;
pub mod exec_base;
pub mod exec_cb;
pub mod exec_ed;
pub mod exec_idx;
pub mod laws;
pub mod memory;
pub mod step;
pub mod video;

pub use emulator::Emulator;
