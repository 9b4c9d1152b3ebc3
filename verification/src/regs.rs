//! The register file: 32 general-purpose word registers, a program counter
//! and a status word.
//!
//! Register 0 is hardwired to zero: it always reads as `0`, and a write to
//! it is accepted but silently discarded — an architectural requirement,
//! not an error. Every other register is freely read and written. The
//! program counter is a plain word mutated by the fetch/execute loop;
//! [`Regs::pc_inc`] advances it by one instruction width.

use vstd::prelude::*;

verus! {

pub const ZERO: usize = 0;

/// return address
pub const RA: usize = 1;

/// stack pointer
pub const SP: usize = 2;

/// global pointer
pub const GP: usize = 3;

/// thread pointer
pub const TP: usize = 4;

/// temporary registers
pub const T0: usize = 5;

pub const T1: usize = 6;

pub const T2: usize = 7;

/// saved register 0
pub const S0: usize = 8;

/// frame pointer (same as s0)
pub const FP: usize = 8;

/// saved register 1
pub const S1: usize = 9;

/// return value or function argument 0
pub const A0: usize = 10;

/// return value or function argument 1
pub const A1: usize = 11;

/// function arguments
pub const A2: usize = 12;

pub const A3: usize = 13;

pub const A4: usize = 14;

pub const A5: usize = 15;

pub const A6: usize = 16;

pub const A7: usize = 17;

/// saved registers
pub const S2: usize = 18;

pub const S3: usize = 19;

pub const S4: usize = 20;

pub const S5: usize = 21;

pub const S6: usize = 22;

pub const S7: usize = 23;

pub const S8: usize = 24;

pub const S9: usize = 25;

pub const S10: usize = 26;

pub const S11: usize = 27;

/// temporary registers
pub const T3: usize = 28;

pub const T4: usize = 29;

pub const T5: usize = 30;

pub const T6: usize = 31;

/// What reading register `n` yields from stored words `x`: register 0
/// always reads as zero.
pub open spec fn reg_read(x: Seq<u32>, n: int) -> u32
    recommends
        0 <= n < x.len(),
{
    if n == 0 {
        0
    } else {
        x[n]
    }
}

/// The stored words after `val` is written to register `n`: a write to
/// register 0 is discarded.
pub open spec fn reg_write(x: Seq<u32>, n: int, val: u32) -> Seq<u32>
    recommends
        0 <= n < x.len(),
{
    if n == 0 {
        x
    } else {
        x.update(n, val)
    }
}

/// The register file of one hart, viewed as the sequence of its 32 stored
/// general-purpose words.
pub struct Regs {
    /// general purpose
    pub x: [u32; 32],
    /// program counter
    pub pc: u32,
    pub fsr: u32,
}

impl View for Regs {
    type V = Seq<u32>;

    open spec fn view(&self) -> Seq<u32> {
        self.x@
    }
}

impl Regs {
    /// Bytes per machine word: the fixed instruction width.
    pub const XPRLEN_BYTES: usize = 4;

    /// Number of general-purpose registers.
    pub const XPRLEN: usize = 32;

    /// A register file with every register, the program counter and the
    /// status word zero.
    pub fn new() -> (r: Regs)
        ensures
            r@.len() == 32,
            forall|n: int| 0 <= n < 32 ==> r@[n] == 0u32,
            r.pc == 0,
            r.fsr == 0,
    {
        Regs { x: [0; 32], pc: 0, fsr: 0 }
    }

    /// Read register `n`; register 0 always reads as zero.
    pub fn x(&self, n: usize) -> (r: u32)
        requires
            n < 32,
        ensures
            r == reg_read(self@, n as int),
    {
        if n == 0 {
            0
        } else {
            self.x[n]
        }
    }

    /// Write `val` to register `n`; a write to register 0 is a no-op.
    pub fn x_set(&mut self, n: usize, val: u32)
        requires
            n < 32,
        ensures
            final(self)@ == reg_write(old(self)@, n as int, val),
            final(self).pc == old(self).pc,
            final(self).fsr == old(self).fsr,
    {
        if n > 0 {
            self.x[n] = val;
        }
    }

    /// Advance the program counter by one instruction width.
    pub fn pc_inc(&mut self)
        requires
            old(self).pc + Regs::XPRLEN_BYTES <= u32::MAX,
        ensures
            final(self).pc == old(self).pc + Regs::XPRLEN_BYTES,
            final(self)@ == old(self)@,
            final(self).fsr == old(self).fsr,
    {
        self.pc = self.pc + (Regs::XPRLEN_BYTES as u32);
    }
}

/// Law: writing `val` to register `n` and then reading `n` yields `val`
/// for every register but 0, and 0 for register 0; and register 0 reads
/// as zero in every state.
pub proof fn lemma_reg_write_read(x: Seq<u32>, n: int, val: u32)
    requires
        0 <= n < x.len(),
    ensures
        reg_read(reg_write(x, n, val), n) == if n == 0 {
            0u32
        } else {
            val
        },
        reg_read(x, 0) == 0u32,
{
}

} // verus!
