use riscv_core::decoder::DecodeError;
use riscv_core::decoder::OP_LOAD;
use riscv_core::decoder::from;
use riscv_core::instr::Format;

#[test]
fn test_decode_load() {
    // rd=1, rs1=2, imm=16, funct3=0b010, opcode=LOAD
    let bits: u32 = (1 << 27) | (2 << 22) | (16 << 10) | (0b010 << 7) | OP_LOAD as u32;
    let i = from(bits).unwrap();
    assert_eq!(bits, i.bits);
    assert_eq!(OP_LOAD, i.opcode);
    match i.format {
        Format::I(f) => {
            assert_eq!(1, f.rd(i.bits));
            assert_eq!(2, f.rs1(i.bits));
            assert_eq!(16, f.imm(i.bits));
            assert_eq!(0b010, f.funct3(i.bits));
        }
        _ => panic!("Expecting IType format for LOAD"),
    }
}

#[test]
fn test_decode_opcode_is_low_seven_bits() {
    for word in [OP_LOAD as u32, 0xffff_ff83, 0x1234_5603] {
        let i = from(word).unwrap();
        assert_eq!((word & 0x7f) as u8, i.opcode);
    }
}

#[test]
fn test_decode_rejects_compressed_encodings() {
    // every choice of low two bits other than 11 is unsupported
    assert_eq!(Err(DecodeError::UnsupportedEncoding), from(0b00));
    assert_eq!(Err(DecodeError::UnsupportedEncoding), from(0b01));
    assert_eq!(Err(DecodeError::UnsupportedEncoding), from(0b10));
    assert_eq!(Err(DecodeError::UnsupportedEncoding), from(0xffff_fffe));
    assert_eq!(Err(DecodeError::UnsupportedEncoding), from(0xffff_fffd));
    assert_eq!(Err(DecodeError::UnsupportedEncoding), from((OP_LOAD as u32) & !0b11));
}

#[test]
fn test_decode_rejects_unknown_opcodes() {
    // low two bits 11, but no opcode-table entry
    assert_eq!(Err(DecodeError::UnknownOpcode), from(0b1111111));
    assert_eq!(Err(DecodeError::UnknownOpcode), from(0b0110011));
    assert_eq!(Err(DecodeError::UnknownOpcode), from(0x0000_0007));
}
