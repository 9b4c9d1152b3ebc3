use riscv_core::instr::BType;
use riscv_core::instr::Format;
use riscv_core::instr::IType;
use riscv_core::instr::Instr;
use riscv_core::instr::JType;
use riscv_core::instr::LType;
use riscv_core::instr::R4Type;
use riscv_core::instr::RType;
use riscv_core::instr::opcode;

#[test]
fn test_opcode() {
    let i = 0b1111111111111111111111110001010;
    let op = opcode(i);
    assert_eq!(0b1010, op);
}

#[test]
fn test_r_type() {
    let bits = 0b10101010101100111001100110000000;
    let i = Instr {
        bits,
        opcode: opcode(bits),
        format: Format::R(RType {}),
    };
    match i.format {
        Format::R(f) => {
            assert_eq!(0b10101, f.rd(i.bits));
            assert_eq!(0b01010, f.rs1(i.bits));
            assert_eq!(0b11001, f.rs2(i.bits));
            assert_eq!(0b1100110011, f.funct10(i.bits));
        }
        _ => panic!("Expecting RType format"),
    }
}

#[test]
fn test_r4_type() {
    let bits = 0b10101010101100111011100110000000;
    let i = Instr {
        bits,
        opcode: opcode(bits),
        format: Format::R4(R4Type {}),
    };
    match i.format {
        Format::R4(f) => {
            assert_eq!(0b10101, f.rd(i.bits));
            assert_eq!(0b01010, f.rs1(i.bits));
            assert_eq!(0b11001, f.rs2(i.bits));
            assert_eq!(0b11011, f.rs3(i.bits));
            assert_eq!(0b10011, f.funct5(i.bits));
        }
        _ => panic!("Expecting R4Type format"),
    }
}

#[test]
fn test_i_type() {
    let bits = 0b10101_01010_110011101110_011_0000000;
    let i = Instr {
        bits,
        opcode: opcode(bits),
        format: Format::I(IType {}),
    };
    match i.format {
        Format::I(f) => {
            assert_eq!(0b10101, f.rd(i.bits));
            assert_eq!(0b01010, f.rs1(i.bits));
            assert_eq!(0b110011101110, f.imm(i.bits));
            assert_eq!(0b011, f.funct3(i.bits));
        }
        _ => panic!("Expecting IType format"),
    }
}

#[test]
fn test_b_type() {
    let bits = 0b10101_01010_11001_1101110_011_0000000;
    let i = Instr {
        bits,
        opcode: opcode(bits),
        format: Format::B(BType {}),
    };
    match i.format {
        Format::B(f) => {
            assert_eq!(0b01010, f.rs1(i.bits));
            assert_eq!(0b11001, f.rs2(i.bits));
            assert_eq!(0b101011101110, f.imm(i.bits));
            assert_eq!(0b011, f.funct3(i.bits));
        }
        _ => panic!("Expecting BType format"),
    }
}

#[test]
fn test_l_type() {
    let bits = 0b10101_01010110011101110011_0000000;
    let i = Instr {
        bits,
        opcode: opcode(bits),
        format: Format::L(LType {}),
    };
    match i.format {
        Format::L(f) => {
            assert_eq!(0b10101, f.rd(i.bits));
            assert_eq!(0b01010110011101110011, f.imm(i.bits));
        }
        _ => panic!("Expecting LType format"),
    }
}

#[test]
fn test_j_type() {
    let bits = 0b1010101010110011101110011_0000000;
    let i = Instr {
        bits,
        opcode: opcode(bits),
        format: Format::J(JType {}),
    };
    match i.format {
        Format::J(f) => {
            assert_eq!(0b1010101010110011101110011, f.offset(i.bits));
        }
        _ => panic!("Expecting JType format"),
    }
}
