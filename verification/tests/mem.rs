use riscv_core::mem::Mem;
use riscv_core::mem::MemError;

#[test]
fn mem_test_creation() {
    let m = Mem::new(33);
    assert_eq!(33, m.len());
}

#[test]
fn test_read_write_u8() {
    let mut m = Mem::new(10);
    assert_eq!(0, m.read_u8(0).unwrap());
    m.write_u8(0, 123).unwrap();
    assert_eq!(123, m.read_u8(0).unwrap());
}

#[test]
fn test_read_write_u16() {
    let mut m = Mem::new(10);
    assert_eq!(0, m.read_u16(1).unwrap());
    m.write_u16(1, 12345).unwrap();
    assert_eq!(12345, m.read_u16(1).unwrap());
}

#[test]
fn test_read_write_u32() {
    let mut m = Mem::new(10);
    assert_eq!(0, m.read_u32(2).unwrap());
    m.write_u32(2, 0x12345678).unwrap();
    assert_eq!(0x12345678, m.read_u32(2).unwrap());
}

#[test]
fn test_little_endian_layout() {
    let mut m = Mem::new(8);
    m.write_u32(0, 0x0403_0201).unwrap();
    assert_eq!(0x01, m.read_u8(0).unwrap());
    assert_eq!(0x02, m.read_u8(1).unwrap());
    assert_eq!(0x03, m.read_u8(2).unwrap());
    assert_eq!(0x04, m.read_u8(3).unwrap());
    assert_eq!(0x0201, m.read_u16(0).unwrap());
    assert_eq!(0x0302, m.read_u16(1).unwrap());
}

#[test]
fn test_round_trip_every_valid_u32_offset() {
    let mut m = Mem::new(16);
    for addr in 0..=12 {
        m.write_u32(addr, 0xdead_beef).unwrap();
        assert_eq!(0xdead_beef, m.read_u32(addr).unwrap());
    }
}

#[test]
fn test_out_of_bounds_multi_byte_at_end() {
    let mut m = Mem::new(10);
    assert_eq!(Err(MemError::OutOfBounds), m.write_u32(9, 1));
    assert_eq!(Err(MemError::OutOfBounds), m.write_u16(9, 1));
    assert_eq!(Err(MemError::OutOfBounds), m.read_u32(9));
    assert_eq!(Err(MemError::OutOfBounds), m.read_u16(9));
    // a failed write leaves the store unchanged
    assert_eq!(0, m.read_u8(9).unwrap());
}

#[test]
fn test_out_of_bounds_u8() {
    let mut m = Mem::new(4);
    assert_eq!(Err(MemError::OutOfBounds), m.read_u8(4));
    assert_eq!(Err(MemError::OutOfBounds), m.write_u8(4, 1));
}

#[test]
fn test_boundary_accesses_succeed() {
    let mut m = Mem::new(8);
    m.write_u32(4, 0xa5a5_5a5a).unwrap();
    assert_eq!(0xa5a5_5a5a, m.read_u32(4).unwrap());
    m.write_u16(6, 0x7777).unwrap();
    assert_eq!(0x7777, m.read_u16(6).unwrap());
    m.write_u8(7, 9).unwrap();
    assert_eq!(9, m.read_u8(7).unwrap());
}

#[test]
fn test_empty_memory() {
    let mut m = Mem::new(0);
    assert_eq!(0, m.len());
    assert_eq!(Err(MemError::OutOfBounds), m.read_u8(0));
    assert_eq!(Err(MemError::OutOfBounds), m.write_u8(0, 1));
}
