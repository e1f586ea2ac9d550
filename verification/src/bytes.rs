//! Fixed-width integers as they lie in a byte buffer.

use vstd::prelude::*;

verus! {

/// The 16-bit little-endian number at `at`.
pub open spec fn le16(b: Seq<u8>, at: int) -> nat {
    (b[at] + 0x100 * b[at + 1]) as nat
}

/// The 32-bit little-endian number at `at`.
pub open spec fn le32(b: Seq<u8>, at: int) -> nat {
    (b[at] + 0x100 * b[at + 1] + 0x1_0000 * b[at + 2] + 0x100_0000 * b[at + 3]) as nat
}

/// The 64-bit little-endian number at `at`.
pub open spec fn le64(b: Seq<u8>, at: int) -> nat {
    le32(b, at) + 0x1_0000_0000 * le32(b, at + 4)
}

/// The 32-bit big-endian number at `at`.
pub open spec fn be32(b: Seq<u8>, at: int) -> nat {
    (0x100_0000 * b[at] + 0x1_0000 * b[at + 1] + 0x100 * b[at + 2] + b[at + 3]) as nat
}

/// Reads the 16-bit little-endian number at `at`.
pub fn read_le16(buf: &[u8], at: usize) -> (v: u16)
    requires
        at + 2 <= buf.len(),
    ensures
        v == le16(buf@, at as int),
{
    let b0: u16 = buf[at] as u16;
    let b1: u16 = buf[at + 1] as u16;
    b0 + 0x100 * b1
}

/// Reads the 32-bit little-endian number at `at`.
pub fn read_le32(buf: &[u8], at: usize) -> (v: u32)
    requires
        at + 4 <= buf.len(),
    ensures
        v == le32(buf@, at as int),
{
    let b0: u32 = buf[at] as u32;
    let b1: u32 = buf[at + 1] as u32;
    let b2: u32 = buf[at + 2] as u32;
    let b3: u32 = buf[at + 3] as u32;
    b0 + 0x100 * b1 + 0x1_0000 * b2 + 0x100_0000 * b3
}

/// Reads the 64-bit little-endian number at `at`.
pub fn read_le64(buf: &[u8], at: usize) -> (v: u64)
    requires
        at + 8 <= buf.len(),
    ensures
        v == le64(buf@, at as int),
{
    let lo: u64 = read_le32(buf, at) as u64;
    let hi: u64 = read_le32(buf, at + 4) as u64;
    lo + 0x1_0000_0000 * hi
}

/// Reads the 32-bit big-endian number at `at`.
pub fn read_be32(buf: &[u8], at: usize) -> (v: u32)
    requires
        at + 4 <= buf.len(),
    ensures
        v == be32(buf@, at as int),
{
    let b0: u32 = buf[at] as u32;
    let b1: u32 = buf[at + 1] as u32;
    let b2: u32 = buf[at + 2] as u32;
    let b3: u32 = buf[at + 3] as u32;
    0x100_0000 * b0 + 0x1_0000 * b1 + 0x100 * b2 + b3
}

} // verus!
