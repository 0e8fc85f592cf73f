//! Little-endian field readers for the fixed-layout external records the
//! protocol consumes (authorization entries, the price feed, the external
//! pool's state). Every reader demands that the slice is long enough; the
//! record decoders check the length first and fail on short input.

use vstd::prelude::*;

verus! {

/// Value of the two little-endian bytes at `off`.
pub open spec fn le_u16_at(s: Seq<u8>, off: int) -> int
    recommends
        0 <= off,
        off + 2 <= s.len(),
{
    s[off] + s[off + 1] * 0x100
}

/// Value of the eight little-endian bytes at `off`, read as unsigned.
pub open spec fn le_u64_at(s: Seq<u8>, off: int) -> int
    recommends
        0 <= off,
        off + 8 <= s.len(),
{
    s[off]
        + s[off + 1] * 0x100
        + s[off + 2] * 0x1_0000
        + s[off + 3] * 0x100_0000
        + s[off + 4] * 0x1_0000_0000
        + s[off + 5] * 0x100_0000_0000
        + s[off + 6] * 0x1_0000_0000_0000
        + s[off + 7] * 0x100_0000_0000_0000
}

/// Value of the eight little-endian bytes at `off`, read as a two's
/// complement signed integer.
pub open spec fn le_i64_at(s: Seq<u8>, off: int) -> int
    recommends
        0 <= off,
        off + 8 <= s.len(),
{
    let u = le_u64_at(s, off);
    if u >= 0x8000_0000_0000_0000 {
        u - 0x1_0000_0000_0000_0000
    } else {
        u
    }
}

pub fn read_u16_le(data: &[u8], off: usize) -> (r: u16)
    requires
        off + 2 <= data@.len(),
    ensures
        r == le_u16_at(data@, off as int),
{
    let b0 = data[off] as u16;
    let b1 = data[off + 1] as u16;
    b0 + b1 * 0x100
}

pub fn read_u64_le(data: &[u8], off: usize) -> (r: u64)
    requires
        off + 8 <= data@.len(),
    ensures
        r == le_u64_at(data@, off as int),
{
    let b0 = data[off] as u64;
    let b1 = data[off + 1] as u64;
    let b2 = data[off + 2] as u64;
    let b3 = data[off + 3] as u64;
    let b4 = data[off + 4] as u64;
    let b5 = data[off + 5] as u64;
    let b6 = data[off + 6] as u64;
    let b7 = data[off + 7] as u64;
    b0 + b1 * 0x100 + b2 * 0x1_0000 + b3 * 0x100_0000 + b4 * 0x1_0000_0000
        + b5 * 0x100_0000_0000 + b6 * 0x1_0000_0000_0000 + b7 * 0x100_0000_0000_0000
}

pub fn read_i64_le(data: &[u8], off: usize) -> (r: i64)
    requires
        off + 8 <= data@.len(),
    ensures
        r == le_i64_at(data@, off as int),
{
    let u = read_u64_le(data, off);
    if u >= 0x8000_0000_0000_0000u64 {
        let wide: i128 = (u as i128) - 0x1_0000_0000_0000_0000i128;
        wide as i64
    } else {
        u as i64
    }
}

/// Whether the 32 bytes at `off` equal the key, byte for byte.
pub open spec fn key_at(s: Seq<u8>, off: int, key: Seq<u8>) -> bool
    recommends
        0 <= off,
        off + 32 <= s.len(),
        key.len() == 32,
{
    s.subrange(off, off + 32) == key
}

pub fn read_key_matches(data: &[u8], off: usize, key: &[u8; 32]) -> (r: bool)
    requires
        off + 32 <= data@.len(),
    ensures
        r == key_at(data@, off as int, key@),
{
    let n = data.len();
    let mut i: usize = 0;
    while i < 32
        invariant
            i <= 32,
            off + 32 <= n,
            n == data@.len(),
            forall|k: int| 0 <= k < i ==> data@[off + k] == key@[k],
        decreases 32 - i,
    {
        if data[off + i] != key[i] {
            proof {
                assert(data@.subrange(off as int, off + 32)[i as int] != key@[i as int]);
            }
            return false;
        }
        i += 1;
    }
    proof {
        assert(data@.subrange(off as int, off + 32) =~= key@);
    }
    true
}

} // verus!
