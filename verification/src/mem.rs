//! Flat, little-endian, byte-addressable memory.
//!
//! A `Mem` is a fixed-length byte store, zero-initialized at creation.
//! Multi-byte accesses are little-endian (least-significant byte at the
//! lowest address) and may start at any byte offset; there is no alignment
//! requirement. Any access whose byte range reaches past the end of the
//! store fails with [`MemError::OutOfBounds`] and leaves the store
//! unchanged — never a silent wrap or truncation.

use vstd::prelude::*;

verus! {

/// Why a memory access failed.
#[derive(Clone, Copy, PartialEq, Eq, Structural, Debug)]
pub enum MemError {
    /// The access's byte range reaches past the end of the store.
    OutOfBounds,
}

/// A 16-bit value assembled little-endian from two bytes.
pub open spec fn le_u16(b0: u8, b1: u8) -> u16 {
    (b0 as u16) | ((b1 as u16) << 8)
}

/// A 32-bit value assembled little-endian from four bytes.
pub open spec fn le_u32(b0: u8, b1: u8, b2: u8, b3: u8) -> u32 {
    (b0 as u32) | ((b1 as u32) << 8) | ((b2 as u32) << 16) | ((b3 as u32) << 24)
}

/// The 16-bit value read little-endian at offset `a` of `s`.
pub open spec fn spec_read_u16(s: Seq<u8>, a: int) -> u16
    recommends
        0 <= a,
        a + 2 <= s.len(),
{
    le_u16(s[a], s[a + 1])
}

/// The byte store after a 16-bit value is written little-endian at offset `a`.
pub open spec fn spec_write_u16(s: Seq<u8>, a: int, val: u16) -> Seq<u8>
    recommends
        0 <= a,
        a + 2 <= s.len(),
{
    s.update(a, val as u8).update(a + 1, (val >> 8) as u8)
}

/// The 32-bit value read little-endian at offset `a` of `s`.
pub open spec fn spec_read_u32(s: Seq<u8>, a: int) -> u32
    recommends
        0 <= a,
        a + 4 <= s.len(),
{
    le_u32(s[a], s[a + 1], s[a + 2], s[a + 3])
}

/// The byte store after a 32-bit value is written little-endian at offset `a`.
pub open spec fn spec_write_u32(s: Seq<u8>, a: int, val: u32) -> Seq<u8>
    recommends
        0 <= a,
        a + 4 <= s.len(),
{
    s.update(a, val as u8).update(a + 1, (val >> 8) as u8).update(a + 2, (val >> 16) as u8).update(
        a + 3,
        (val >> 24) as u8,
    )
}

/// Little-endian memory: a flat byte store, viewed as the sequence of its
/// bytes.
pub struct Mem(Vec<u8>);

impl View for Mem {
    type V = Seq<u8>;

    closed spec fn view(&self) -> Seq<u8> {
        self.0@
    }
}

impl Mem {
    /// A store of `length` bytes, all zero.
    pub fn new(length: usize) -> (r: Mem)
        ensures
            r@.len() == length,
            forall|i: int| 0 <= i < length ==> r@[i] == 0u8,
    {
        let mut bytes: Vec<u8> = Vec::new();
        while bytes.len() < length
            invariant
                bytes@.len() <= length,
                forall|i: int| 0 <= i < bytes@.len() ==> bytes@[i] == 0u8,
            decreases length - bytes@.len(),
        {
            bytes.push(0);
        }
        Mem(bytes)
    }

    /// How many bytes the store holds.
    pub fn len(&self) -> (r: usize)
        ensures
            r == self@.len(),
    {
        self.0.len()
    }

    /// The byte at `addr`.
    pub fn read_u8(&self, addr: usize) -> (r: Result<u8, MemError>)
        ensures
            addr < self@.len() ==> r == Ok::<u8, MemError>(self@[addr as int]),
            addr >= self@.len() ==> r == Err::<u8, MemError>(MemError::OutOfBounds),
    {
        if addr < self.0.len() {
            Ok(self.0[addr])
        } else {
            Err(MemError::OutOfBounds)
        }
    }

    /// Store one byte at `addr`.
    pub fn write_u8(&mut self, addr: usize, val: u8) -> (r: Result<(), MemError>)
        ensures
            addr < old(self)@.len() ==> r == Ok::<(), MemError>(())
                && final(self)@ == old(self)@.update(addr as int, val),
            addr >= old(self)@.len() ==> r == Err::<(), MemError>(MemError::OutOfBounds)
                && final(self)@ == old(self)@,
    {
        if addr < self.0.len() {
            self.0[addr] = val;
            Ok(())
        } else {
            Err(MemError::OutOfBounds)
        }
    }

    /// The 16-bit value stored little-endian at `addr`.
    pub fn read_u16(&self, addr: usize) -> (r: Result<u16, MemError>)
        ensures
            addr + 2 <= self@.len() ==> r == Ok::<u16, MemError>(spec_read_u16(self@, addr as int)),
            addr + 2 > self@.len() ==> r == Err::<u16, MemError>(MemError::OutOfBounds),
    {
        if self.0.len() >= 2 && addr <= self.0.len() - 2 {
            let b0 = self.0[addr];
            let b1 = self.0[addr + 1];
            Ok((b0 as u16) | ((b1 as u16) << 8))
        } else {
            Err(MemError::OutOfBounds)
        }
    }

    /// Store a 16-bit value little-endian at `addr`.
    pub fn write_u16(&mut self, addr: usize, val: u16) -> (r: Result<(), MemError>)
        ensures
            addr + 2 <= old(self)@.len() ==> r == Ok::<(), MemError>(()) && final(self)@
                == spec_write_u16(old(self)@, addr as int, val),
            addr + 2 > old(self)@.len() ==> r == Err::<(), MemError>(MemError::OutOfBounds)
                && final(self)@ == old(self)@,
    {
        if self.0.len() >= 2 && addr <= self.0.len() - 2 {
            self.0[addr] = val as u8;
            self.0[addr + 1] = (val >> 8) as u8;
            Ok(())
        } else {
            Err(MemError::OutOfBounds)
        }
    }

    /// The 32-bit value stored little-endian at `addr`.
    pub fn read_u32(&self, addr: usize) -> (r: Result<u32, MemError>)
        ensures
            addr + 4 <= self@.len() ==> r == Ok::<u32, MemError>(spec_read_u32(self@, addr as int)),
            addr + 4 > self@.len() ==> r == Err::<u32, MemError>(MemError::OutOfBounds),
    {
        if self.0.len() >= 4 && addr <= self.0.len() - 4 {
            let b0 = self.0[addr];
            let b1 = self.0[addr + 1];
            let b2 = self.0[addr + 2];
            let b3 = self.0[addr + 3];
            Ok((b0 as u32) | ((b1 as u32) << 8) | ((b2 as u32) << 16) | ((b3 as u32) << 24))
        } else {
            Err(MemError::OutOfBounds)
        }
    }

    /// Store a 32-bit value little-endian at `addr`.
    pub fn write_u32(&mut self, addr: usize, val: u32) -> (r: Result<(), MemError>)
        ensures
            addr + 4 <= old(self)@.len() ==> r == Ok::<(), MemError>(()) && final(self)@
                == spec_write_u32(old(self)@, addr as int, val),
            addr + 4 > old(self)@.len() ==> r == Err::<(), MemError>(MemError::OutOfBounds)
                && final(self)@ == old(self)@,
    {
        if self.0.len() >= 4 && addr <= self.0.len() - 4 {
            self.0[addr] = val as u8;
            self.0[addr + 1] = (val >> 8) as u8;
            self.0[addr + 2] = (val >> 16) as u8;
            self.0[addr + 3] = (val >> 24) as u8;
            Ok(())
        } else {
            Err(MemError::OutOfBounds)
        }
    }
}

/// Law: a 16-bit value written little-endian at any in-range offset reads
/// back unchanged at the same offset and width.
pub proof fn lemma_write_read_u16(s: Seq<u8>, a: int, val: u16)
    requires
        0 <= a,
        a + 2 <= s.len(),
    ensures
        spec_read_u16(spec_write_u16(s, a, val), a) == val,
{
    assert(le_u16(val as u8, (val >> 8) as u8) == val) by (bit_vector);
}

/// Law: a 32-bit value written little-endian at any in-range offset reads
/// back unchanged at the same offset and width.
pub proof fn lemma_write_read_u32(s: Seq<u8>, a: int, val: u32)
    requires
        0 <= a,
        a + 4 <= s.len(),
    ensures
        spec_read_u32(spec_write_u32(s, a, val), a) == val,
{
    assert(le_u32(val as u8, (val >> 8) as u8, (val >> 16) as u8, (val >> 24) as u8) == val)
        by (bit_vector);
}

} // verus!
