//! Little-endian integer readers over byte buffers.
//!
//! The oracle feed, the conditional-market TWAP accounts and the proposal
//! action payloads are all fixed-offset little-endian layouts; these readers
//! give each fixed-width field an exact arithmetic meaning.

use vstd::prelude::*;

verus! {

/// Little-endian u16 at `off`: s[off] + 256 * s[off + 1].
pub open spec fn spec_le_u16_at(s: Seq<u8>, off: int) -> int
    recommends
        0 <= off,
        off + 2 <= s.len(),
{
    s[off] + s[off + 1] * 0x100
}

/// Little-endian u32 at `off`.
pub open spec fn spec_le_u32_at(s: Seq<u8>, off: int) -> int
    recommends
        0 <= off,
        off + 4 <= s.len(),
{
    s[off] + s[off + 1] * 0x100 + s[off + 2] * 0x1_0000 + s[off + 3] * 0x100_0000
}

/// Little-endian u64 at `off`.
pub open spec fn spec_le_u64_at(s: Seq<u8>, off: int) -> int
    recommends
        0 <= off,
        off + 8 <= s.len(),
{
    s[off] + s[off + 1] * 0x100 + s[off + 2] * 0x1_0000 + s[off + 3] * 0x100_0000 + s[off + 4]
        * 0x1_0000_0000 + s[off + 5] * 0x100_0000_0000 + s[off + 6] * 0x1_0000_0000_0000 + s[off
        + 7] * 0x100_0000_0000_0000
}

/// Little-endian u128 at `off`.
pub open spec fn spec_le_u128_at(s: Seq<u8>, off: int) -> int
    recommends
        0 <= off,
        off + 16 <= s.len(),
{
    spec_le_u64_at(s, off) + spec_le_u64_at(s, off + 8) * 0x1_0000_0000_0000_0000
}

/// Little-endian two's-complement i32 at `off`.
pub open spec fn spec_le_i32_at(s: Seq<u8>, off: int) -> int
    recommends
        0 <= off,
        off + 4 <= s.len(),
{
    let unsigned = spec_le_u32_at(s, off);
    if unsigned >= 0x8000_0000 {
        unsigned - 0x1_0000_0000
    } else {
        unsigned
    }
}

/// Little-endian two's-complement i64 at `off`.
pub open spec fn spec_le_i64_at(s: Seq<u8>, off: int) -> int
    recommends
        0 <= off,
        off + 8 <= s.len(),
{
    let unsigned = spec_le_u64_at(s, off);
    if unsigned >= 0x8000_0000_0000_0000 {
        unsigned - 0x1_0000_0000_0000_0000
    } else {
        unsigned
    }
}

/// Read a little-endian u16 from `data` at `off`.
pub fn le_u16_at(data: &[u8], off: usize) -> (r: u16)
    requires
        off + 2 <= data@.len(),
    ensures
        r == spec_le_u16_at(data@, off as int),
{
    (data[off] as u16) + (data[off + 1] as u16) * 0x100
}

/// Read a little-endian u32 from `data` at `off`.
pub fn le_u32_at(data: &[u8], off: usize) -> (r: u32)
    requires
        off + 4 <= data@.len(),
    ensures
        r == spec_le_u32_at(data@, off as int),
{
    (data[off] as u32) + (data[off + 1] as u32) * 0x100 + (data[off + 2] as u32) * 0x1_0000 + (
    data[off + 3] as u32) * 0x100_0000
}

/// Read a little-endian u64 from `data` at `off`.
pub fn le_u64_at(data: &[u8], off: usize) -> (r: u64)
    requires
        off + 8 <= data@.len(),
    ensures
        r == spec_le_u64_at(data@, off as int),
{
    (data[off] as u64) + (data[off + 1] as u64) * 0x100 + (data[off + 2] as u64) * 0x1_0000 + (
    data[off + 3] as u64) * 0x100_0000 + (data[off + 4] as u64) * 0x1_0000_0000 + (data[off
        + 5] as u64) * 0x100_0000_0000 + (data[off + 6] as u64) * 0x1_0000_0000_0000 + (data[off
        + 7] as u64) * 0x100_0000_0000_0000
}

/// Read a little-endian u128 from `data` at `off`.
pub fn le_u128_at(data: &[u8], off: usize) -> (r: u128)
    requires
        off + 16 <= data@.len(),
    ensures
        r == spec_le_u128_at(data@, off as int),
{
    let _len: usize = data.len();
    let low: u64 = le_u64_at(data, off);
    let high: u64 = le_u64_at(data, off + 8);
    (low as u128) + (high as u128) * 0x1_0000_0000_0000_0000
}

/// Read a little-endian two's-complement i32 from `data` at `off`.
pub fn le_i32_at(data: &[u8], off: usize) -> (r: i32)
    requires
        off + 4 <= data@.len(),
    ensures
        r == spec_le_i32_at(data@, off as int),
{
    let unsigned: u32 = le_u32_at(data, off);
    if unsigned <= i32::MAX as u32 {
        unsigned as i32
    } else {
        -((u32::MAX - unsigned) as i32) - 1
    }
}

/// Read a little-endian two's-complement i64 from `data` at `off`.
pub fn le_i64_at(data: &[u8], off: usize) -> (r: i64)
    requires
        off + 8 <= data@.len(),
    ensures
        r == spec_le_i64_at(data@, off as int),
{
    let unsigned: u64 = le_u64_at(data, off);
    if unsigned <= i64::MAX as u64 {
        unsigned as i64
    } else {
        -((u64::MAX - unsigned) as i64) - 1
    }
}

/// Copy 32 raw bytes out of `data` at `off`.
pub fn bytes32_at(data: &[u8], off: usize) -> (r: [u8; 32])
    requires
        off + 32 <= data@.len(),
    ensures
        forall|i: int| 0 <= i < 32 ==> r@[i] == data@[off + i],
{
    let n: usize = data.len();
    let mut out: [u8; 32] = [0u8; 32];
    let mut i: usize = 0;
    while i < 32
        invariant
            i <= 32,
            off + 32 <= n == data@.len(),
            forall|j: int| 0 <= j < i ==> out@[j] == data@[off + j],
        decreases 32 - i,
    {
        out[i] = data[off + i];
        i = i + 1;
    }
    out
}

} // verus!
