//! Instruction formats and their bit-field accessors.
//!
//! An instruction is a raw 32-bit word; every operand field is a fixed bit
//! range of that word. Each format (R, R4, I, B, L, J) names which ranges
//! hold which fields. Extraction is total: it only reads bits, so it is
//! defined for every 32-bit word; whether the fields make sense for a given
//! opcode is the decoder's concern.

use vstd::prelude::*;

verus! {

/// Register-register format: rd, rs1, rs2 and a 10-bit function code.
#[derive(Clone, Copy, PartialEq, Eq, Structural, Debug)]
pub struct RType;

/// Three-source-register format: rd, rs1, rs2, rs3 and a 5-bit function code.
#[derive(Clone, Copy, PartialEq, Eq, Structural, Debug)]
pub struct R4Type;

/// Immediate format: rd, rs1, a 12-bit immediate and a 3-bit function code.
#[derive(Clone, Copy, PartialEq, Eq, Structural, Debug)]
pub struct IType;

/// Branch/store format: rs1, rs2, a split 12-bit immediate and funct3.
#[derive(Clone, Copy, PartialEq, Eq, Structural, Debug)]
pub struct BType;

/// Upper-immediate format: rd and a 20-bit immediate.
#[derive(Clone, Copy, PartialEq, Eq, Structural, Debug)]
pub struct LType;

/// Jump format: a single 25-bit offset.
#[derive(Clone, Copy, PartialEq, Eq, Structural, Debug)]
pub struct JType;

/// The closed set of instruction bit layouts.
#[derive(Clone, Copy, PartialEq, Eq, Structural, Debug)]
pub enum Format {
    R(RType),
    R4(R4Type),
    I(IType),
    B(BType),
    L(LType),
    J(JType),
}

/// A decoded instruction: the raw word, its 7-bit opcode, and the bit
/// layout selected for that opcode. The word itself stays the single
/// source of truth; operand fields are recomputed from `bits` on demand.
#[derive(Clone, Copy, PartialEq, Eq, Structural, Debug)]
pub struct Instr {
    pub bits: u32,
    pub opcode: u8,
    pub format: Format,
}

/// The opcode is the low 7 bits of the word.
pub open spec fn spec_opcode(w: u32) -> u8 {
    (w & 0x7f) as u8
}

/// `rd` occupies bits 31..=27.
pub open spec fn spec_rd(w: u32) -> u8 {
    ((w >> 27) & 0x1f) as u8
}

/// `rs1` occupies bits 26..=22.
pub open spec fn spec_rs1(w: u32) -> u8 {
    ((w >> 22) & 0x1f) as u8
}

/// `rs2` occupies bits 21..=17.
pub open spec fn spec_rs2(w: u32) -> u8 {
    ((w >> 17) & 0x1f) as u8
}

/// `rs3` occupies bits 16..=12.
pub open spec fn spec_rs3(w: u32) -> u8 {
    ((w >> 12) & 0x1f) as u8
}

/// `funct10` occupies bits 16..=7.
pub open spec fn spec_funct10(w: u32) -> u16 {
    ((w >> 7) & 0x3ff) as u16
}

/// `funct5` occupies bits 11..=7.
pub open spec fn spec_funct5(w: u32) -> u8 {
    ((w >> 7) & 0x1f) as u8
}

/// `funct3` occupies bits 9..=7.
pub open spec fn spec_funct3(w: u32) -> u8 {
    ((w >> 7) & 0x7) as u8
}

/// The I-format immediate occupies bits 21..=10 (12 bits).
pub open spec fn spec_imm_i(w: u32) -> u16 {
    ((w >> 10) & 0xfff) as u16
}

/// The B-format immediate is split: bits 31..=27 form its high 5 bits and
/// bits 16..=10 its low 7 bits, concatenated high-then-low into 12 bits.
/// The raw unsigned pattern is returned; sign handling is not done here.
pub open spec fn spec_imm_b(w: u32) -> u16 {
    ((((w >> 27) & 0x1f) << 7) | ((w >> 10) & 0x7f)) as u16
}

/// The upper immediate occupies bits 26..=7 (20 bits).
pub open spec fn spec_imm_lui(w: u32) -> u32 {
    (w >> 7) & 0xfffff
}

/// The jump offset occupies bits 31..=7 (25 bits).
pub open spec fn spec_jump_offset(w: u32) -> u32 {
    (w >> 7) & 0x1ffffff
}

const RD_MASK: u32 = 0b11111000000000000000000000000000;
const RS1_MASK: u32 = 0b00000111110000000000000000000000;
const RS2_MASK: u32 = 0b00000000001111100000000000000000;
const RS3_MASK: u32 = 0b00000000000000011111000000000000;
const IMM_I_MASK: u32 = 0b00000000001111111111110000000000;
const IMM_B117_MASK: u32 = 0b11111000000000000000000000000000;
const IMM_B60_MASK: u32 = 0b00000000000000011111110000000000;
const IMM_LUI_MASK: u32 = 0b00000111111111111111111110000000;
const FUNCT3_MASK: u32 = 0b00000000000000000000001110000000;
const FUNCT5_MASK: u32 = 0b00000000000000000000111110000000;
const FUNCT10_MASK: u32 = 0b00000000000000011111111110000000;
const JUMP_MASK: u32 = 0b11111111111111111111111110000000;
const OPCODE_MASK: u32 = 0b00000000000000000000000001111111;
const RD_SHIFT: u32 = 27;
const RS1_SHIFT: u32 = 22;
const RS2_SHIFT: u32 = 17;
const RS3_SHIFT: u32 = 12;
const IMM_I_SHIFT: u32 = 10;
// the high immediate bits land above the seven low ones
const IMM_B117_SHIFT: u32 = 20;
const IMM_B60_SHIFT: u32 = 10;
const IMM_LUI_SHIFT: u32 = 7;
const FUNCT3_SHIFT: u32 = 7;
const FUNCT5_SHIFT: u32 = 7;
const FUNCT10_SHIFT: u32 = 7;
const JUMP_SHIFT: u32 = 7;

/// Extract the 7-bit opcode from an instruction word.
pub fn opcode(i: u32) -> (r: u8)
    ensures
        r == spec_opcode(i),
{
    (i & OPCODE_MASK) as u8
}

fn rd(i: u32) -> (r: u8)
    ensures
        r == spec_rd(i),
{
    proof {
        assert(((i & RD_MASK) >> RD_SHIFT) as u8 == spec_rd(i)) by (bit_vector);
    }
    ((i & RD_MASK) >> RD_SHIFT) as u8
}

fn rs1(i: u32) -> (r: u8)
    ensures
        r == spec_rs1(i),
{
    proof {
        assert(((i & RS1_MASK) >> RS1_SHIFT) as u8 == spec_rs1(i)) by (bit_vector);
    }
    ((i & RS1_MASK) >> RS1_SHIFT) as u8
}

fn rs2(i: u32) -> (r: u8)
    ensures
        r == spec_rs2(i),
{
    proof {
        assert(((i & RS2_MASK) >> RS2_SHIFT) as u8 == spec_rs2(i)) by (bit_vector);
    }
    ((i & RS2_MASK) >> RS2_SHIFT) as u8
}

fn rs3(i: u32) -> (r: u8)
    ensures
        r == spec_rs3(i),
{
    proof {
        assert(((i & RS3_MASK) >> RS3_SHIFT) as u8 == spec_rs3(i)) by (bit_vector);
    }
    ((i & RS3_MASK) >> RS3_SHIFT) as u8
}

fn funct10(i: u32) -> (r: u16)
    ensures
        r == spec_funct10(i),
{
    proof {
        assert(((i & FUNCT10_MASK) >> FUNCT10_SHIFT) as u16 == spec_funct10(i)) by (bit_vector);
    }
    ((i & FUNCT10_MASK) >> FUNCT10_SHIFT) as u16
}

fn funct5(i: u32) -> (r: u8)
    ensures
        r == spec_funct5(i),
{
    proof {
        assert(((i & FUNCT5_MASK) >> FUNCT5_SHIFT) as u8 == spec_funct5(i)) by (bit_vector);
    }
    ((i & FUNCT5_MASK) >> FUNCT5_SHIFT) as u8
}

fn funct3(i: u32) -> (r: u8)
    ensures
        r == spec_funct3(i),
{
    proof {
        assert(((i & FUNCT3_MASK) >> FUNCT3_SHIFT) as u8 == spec_funct3(i)) by (bit_vector);
    }
    ((i & FUNCT3_MASK) >> FUNCT3_SHIFT) as u8
}

fn imm_i(i: u32) -> (r: u16)
    ensures
        r == spec_imm_i(i),
{
    proof {
        assert(((i & IMM_I_MASK) >> IMM_I_SHIFT) as u16 == spec_imm_i(i)) by (bit_vector);
    }
    ((i & IMM_I_MASK) >> IMM_I_SHIFT) as u16
}

fn imm_b(i: u32) -> (r: u16)
    ensures
        r == spec_imm_b(i),
{
    proof {
        assert((((i & IMM_B117_MASK) >> IMM_B117_SHIFT) | ((i & IMM_B60_MASK) >> IMM_B60_SHIFT))
            as u16 == spec_imm_b(i)) by (bit_vector);
    }
    (((i & IMM_B117_MASK) >> IMM_B117_SHIFT) | ((i & IMM_B60_MASK) >> IMM_B60_SHIFT)) as u16
}

fn imm_lui(i: u32) -> (r: u32)
    ensures
        r == spec_imm_lui(i),
{
    proof {
        assert((i & IMM_LUI_MASK) >> IMM_LUI_SHIFT == spec_imm_lui(i)) by (bit_vector);
    }
    (i & IMM_LUI_MASK) >> IMM_LUI_SHIFT
}

fn jump_offset(i: u32) -> (r: u32)
    ensures
        r == spec_jump_offset(i),
{
    proof {
        assert((i & JUMP_MASK) >> JUMP_SHIFT == spec_jump_offset(i)) by (bit_vector);
    }
    (i & JUMP_MASK) >> JUMP_SHIFT
}

impl RType {
    pub fn rd(&self, bits: u32) -> (r: u8)
        ensures
            r == spec_rd(bits),
    {
        rd(bits)
    }

    pub fn rs1(&self, bits: u32) -> (r: u8)
        ensures
            r == spec_rs1(bits),
    {
        rs1(bits)
    }

    pub fn rs2(&self, bits: u32) -> (r: u8)
        ensures
            r == spec_rs2(bits),
    {
        rs2(bits)
    }

    pub fn funct10(&self, bits: u32) -> (r: u16)
        ensures
            r == spec_funct10(bits),
    {
        funct10(bits)
    }
}

impl R4Type {
    pub fn rd(&self, bits: u32) -> (r: u8)
        ensures
            r == spec_rd(bits),
    {
        rd(bits)
    }

    pub fn rs1(&self, bits: u32) -> (r: u8)
        ensures
            r == spec_rs1(bits),
    {
        rs1(bits)
    }

    pub fn rs2(&self, bits: u32) -> (r: u8)
        ensures
            r == spec_rs2(bits),
    {
        rs2(bits)
    }

    pub fn rs3(&self, bits: u32) -> (r: u8)
        ensures
            r == spec_rs3(bits),
    {
        rs3(bits)
    }

    pub fn funct5(&self, bits: u32) -> (r: u8)
        ensures
            r == spec_funct5(bits),
    {
        funct5(bits)
    }
}

impl IType {
    pub fn rd(&self, bits: u32) -> (r: u8)
        ensures
            r == spec_rd(bits),
    {
        rd(bits)
    }

    pub fn rs1(&self, bits: u32) -> (r: u8)
        ensures
            r == spec_rs1(bits),
    {
        rs1(bits)
    }

    pub fn imm(&self, bits: u32) -> (r: u16)
        ensures
            r == spec_imm_i(bits),
    {
        imm_i(bits)
    }

    pub fn funct3(&self, bits: u32) -> (r: u8)
        ensures
            r == spec_funct3(bits),
    {
        funct3(bits)
    }
}

impl BType {
    pub fn rs1(&self, bits: u32) -> (r: u8)
        ensures
            r == spec_rs1(bits),
    {
        rs1(bits)
    }

    pub fn rs2(&self, bits: u32) -> (r: u8)
        ensures
            r == spec_rs2(bits),
    {
        rs2(bits)
    }

    pub fn imm(&self, bits: u32) -> (r: u16)
        ensures
            r == spec_imm_b(bits),
    {
        imm_b(bits)
    }

    pub fn funct3(&self, bits: u32) -> (r: u8)
        ensures
            r == spec_funct3(bits),
    {
        funct3(bits)
    }
}

impl LType {
    pub fn rd(&self, bits: u32) -> (r: u8)
        ensures
            r == spec_rd(bits),
    {
        rd(bits)
    }

    pub fn imm(&self, bits: u32) -> (r: u32)
        ensures
            r == spec_imm_lui(bits),
    {
        imm_lui(bits)
    }
}

impl JType {
    pub fn offset(&self, bits: u32) -> (r: u32)
        ensures
            r == spec_jump_offset(bits),
    {
        jump_offset(bits)
    }
}

} // verus!
