//! The decoder: from a raw 32-bit word to a typed [`Instr`].
//!
//! Only the 32-bit, non-compressed encoding space is supported: a word whose
//! low two bits are not `11` is rejected as [`DecodeError::UnsupportedEncoding`].
//! The opcode then selects the bit layout through a fixed opcode-to-format
//! table; an opcode with no table entry is rejected as
//! [`DecodeError::UnknownOpcode`]. Decoding is pure: it touches no register
//! or memory state.

use vstd::prelude::*;

use crate::instr::Format;
use crate::instr::IType;
use crate::instr::Instr;
use crate::instr::opcode;
use crate::instr::spec_opcode;

verus! {

/// Why a word could not be decoded.
#[derive(Clone, Copy, PartialEq, Eq, Structural, Debug)]
pub enum DecodeError {
    /// The word's low two bits are not `11`: a compressed or reserved
    /// encoding, outside the supported 32-bit encoding space.
    UnsupportedEncoding,
    /// The 7-bit opcode has no entry in the opcode-to-format table.
    UnknownOpcode,
}

/// Opcode of the LOAD instruction family.
pub const OP_LOAD: u8 = 0b0000011;

/// The opcode-to-format table: which bit layout a supported opcode selects.
/// Opcodes without an entry yield `None`.
pub open spec fn spec_format_of(op: u8) -> Option<Format> {
    if op == OP_LOAD {
        // loads use base+immediate addressing with a destination register
        Some(Format::I(IType))
    } else {
        None
    }
}

impl Instr {
    /// A well-formed instruction records the opcode of its own word, and
    /// carries exactly the format the table assigns to that opcode.
    pub open spec fn wf(self) -> bool {
        &&& self.opcode == spec_opcode(self.bits)
        &&& spec_format_of(self.opcode) == Some(self.format)
    }
}

/// The executable opcode-to-format table.
fn format_of(op: u8) -> (r: Option<Format>)
    ensures
        r == spec_format_of(op),
{
    if op == OP_LOAD {
        Some(Format::I(IType))
    } else {
        None
    }
}

/// Decode a raw instruction word.
///
/// Succeeds exactly on the words whose opcode has a table entry; every
/// table opcode has `11` as its low two bits, so a word outside the 32-bit
/// encoding space can never decode.
pub fn from(bits: u32) -> (r: Result<Instr, DecodeError>)
    ensures
        r is Ok <==> spec_format_of(spec_opcode(bits)) is Some,
        bits & 0b11 != 0b11 ==> r == Err::<Instr, DecodeError>(DecodeError::UnsupportedEncoding),
        bits & 0b11 == 0b11 && spec_format_of(spec_opcode(bits)) is None ==> r == Err::<
            Instr,
            DecodeError,
        >(DecodeError::UnknownOpcode),
        r matches Ok(i) ==> i.bits == bits && i.opcode == spec_opcode(bits) && i.wf(),
{
    let op = opcode(bits);
    proof {
        assert((op & 0b11 != 0b11) <==> (bits & 0b11 != 0b11)) by (bit_vector)
            requires
                op == (bits & 0x7f) as u8,
        ;
        assert(op & 0b11 != 0b11 ==> op != OP_LOAD) by (bit_vector);
    }
    if op & 0b11 != 0b11 {
        Err(DecodeError::UnsupportedEncoding)
    } else {
        match format_of(op) {
            Some(f) => Ok(Instr { bits, opcode: op, format: f }),
            None => Err(DecodeError::UnknownOpcode),
        }
    }
}

} // verus!
