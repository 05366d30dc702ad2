//! Toolchain core for the Telda2 sixteen-bit machine: the instruction
//! encoding, the execution engine with its traps, and the two passes of the
//! assembler. The older standard machine is kept beside it.

pub mod alu;
pub mod context;
pub mod cpu;
pub mod engine;
pub mod frame;
pub mod image;
pub mod isa;
pub mod loader;
pub mod memory;
pub mod nibble;
pub mod registers;
pub mod source;
pub mod standard16;
