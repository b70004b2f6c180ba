//! Emulation core of an 8-bit handheld console: CPU interpreter, memory bus,
//! cartridge mappers and the line-scan picture processor.
use vstd::prelude::*;

pub mod registers;
pub mod memory;
pub mod cartridge;
pub mod io;
pub mod bus;
pub mod alu;
pub mod opcode;
pub mod instructions;
pub mod cpu;
pub mod ppu;
pub mod gameboy;

verus! {

} // verus!
