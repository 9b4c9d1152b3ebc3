//! Instruction-decode and machine-state core of an RV32I-class CPU model:
//! bit-exact field extraction for the six base instruction formats, an
//! opcode-driven decoder, a register file with a hardwired-zero register,
//! and a flat little-endian byte-addressable memory.

pub mod decoder;
pub mod instr;
pub mod mem;
pub mod regs;
