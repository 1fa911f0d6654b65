//! A Game Boy processor core.
//!
//! The crate interprets the instruction set of the Sharp LR35902 over a
//! flat 64 KiB memory: it fetches an opcode, runs the routine bound to
//! it, and reports the cycles the instruction took.
//!
//! - [`registers`]: the register file, the flags and the flag
//!   arithmetic.
//! - [`memorymap`]: the address space.
//! - [`state`]: the machine as a mathematical value, and the meaning of
//!   every instruction as a function on it.
//! - [`cpu`]: the processor, whose routines are proved to do what
//!   [`state`] says.
//! - [`laws`]: what holds of the machine whatever its state.
//! - [`cartridge`], [`header`], [`tile`], [`oam`], [`interrupts`]: what
//!   a ROM image and the video and interrupt registers hold.

pub mod cartridge;
pub mod cpu;
pub mod header;
pub mod interrupts;
pub mod laws;
pub mod memorymap;
pub mod oam;
pub mod registers;
pub mod state;
mod text;
pub mod tile;
