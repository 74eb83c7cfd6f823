//! Little-endian primitive reads from an immutable byte buffer.
//!
//! The spec functions state what a little-endian field at a given offset is
//! worth as an integer; the executable readers are proved to return exactly
//! that value. Eight-byte floating-point fields of the wire format are read
//! as `u64` bit patterns with [`le_u64_at`].

use vstd::prelude::*;

verus! {

/// The little-endian `u16` stored at `off`.
pub open spec fn le_u16_at(b: Seq<u8>, off: int) -> u16
    recommends
        0 <= off,
        off + 2 <= b.len(),
{
    (b[off] + b[off + 1] * 0x100) as u16
}

/// The little-endian `u32` stored at `off`.
pub open spec fn le_u32_at(b: Seq<u8>, off: int) -> u32
    recommends
        0 <= off,
        off + 4 <= b.len(),
{
    (b[off] + b[off + 1] * 0x100 + b[off + 2] * 0x1_0000 + b[off + 3] * 0x100_0000) as u32
}

/// The little-endian `u64` stored at `off`.
pub open spec fn le_u64_at(b: Seq<u8>, off: int) -> u64
    recommends
        0 <= off,
        off + 8 <= b.len(),
{
    (b[off] + b[off + 1] * 0x100 + b[off + 2] * 0x1_0000 + b[off + 3] * 0x100_0000
        + b[off + 4] * 0x1_0000_0000 + b[off + 5] * 0x100_0000_0000
        + b[off + 6] * 0x1_0000_0000_0000 + b[off + 7] * 0x100_0000_0000_0000) as u64
}

/// The product of two values that fit in 32 bits fits in 64 bits.
pub proof fn lemma_u32_mul_fits(a: u64, b: u64)
    requires
        a <= u32::MAX,
        b <= u32::MAX,
    ensures
        a * b <= u64::MAX,
{
    assert(a * b <= 0xFFFF_FFFF * 0xFFFF_FFFF) by (nonlinear_arith)
        requires
            a <= 0xFFFF_FFFF,
            b <= 0xFFFF_FFFF,
    ;
}

/// Read the byte at `off`.
pub fn read_u8(b: &Vec<u8>, off: usize) -> (r: u8)
    requires
        off < b@.len(),
    ensures
        r == b@[off as int],
{
    b[off]
}

/// Read the little-endian `u16` at `off`.
pub fn read_u16(b: &Vec<u8>, off: usize) -> (r: u16)
    requires
        off + 2 <= b@.len(),
    ensures
        r == le_u16_at(b@, off as int),
{
    // binding the length keeps the offsets provably within usize
    let _len: usize = b.len();
    let b0: u16 = b[off] as u16;
    let b1: u16 = b[off + 1] as u16;
    b0 + b1 * 0x100
}

/// Read the little-endian `u32` at `off`.
pub fn read_u32(b: &Vec<u8>, off: usize) -> (r: u32)
    requires
        off + 4 <= b@.len(),
    ensures
        r == le_u32_at(b@, off as int),
{
    let _len: usize = b.len();
    let b0: u32 = b[off] as u32;
    let b1: u32 = b[off + 1] as u32;
    let b2: u32 = b[off + 2] as u32;
    let b3: u32 = b[off + 3] as u32;
    b0 + b1 * 0x100 + b2 * 0x1_0000 + b3 * 0x100_0000
}

/// Read the little-endian `u64` at `off`.
pub fn read_u64(b: &Vec<u8>, off: usize) -> (r: u64)
    requires
        off + 8 <= b@.len(),
    ensures
        r == le_u64_at(b@, off as int),
{
    let _len: usize = b.len();
    let b0: u64 = b[off] as u64;
    let b1: u64 = b[off + 1] as u64;
    let b2: u64 = b[off + 2] as u64;
    let b3: u64 = b[off + 3] as u64;
    let b4: u64 = b[off + 4] as u64;
    let b5: u64 = b[off + 5] as u64;
    let b6: u64 = b[off + 6] as u64;
    let b7: u64 = b[off + 7] as u64;
    b0 + b1 * 0x100 + b2 * 0x1_0000 + b3 * 0x100_0000 + b4 * 0x1_0000_0000
        + b5 * 0x100_0000_0000 + b6 * 0x1_0000_0000_0000 + b7 * 0x100_0000_0000_0000
}

} // verus!
