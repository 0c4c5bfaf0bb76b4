//! Little-endian scalar reads and NUL-terminated fields of a wire payload.
use vstd::prelude::*;

use crate::text::{latin1, latin1_seq};

verus! {

/// The little-endian `u16` at byte `o`.
pub open spec fn le_u16(b: Seq<u8>, o: int) -> u16 {
    (b[o] + 256 * b[o + 1]) as u16
}

/// The little-endian `u32` at byte `o`.
pub open spec fn le_u32(b: Seq<u8>, o: int) -> u32 {
    (b[o] + 0x100 * b[o + 1] + 0x1_0000 * b[o + 2] + 0x100_0000 * b[o + 3]) as u32
}

/// The little-endian `u64` at byte `o`.
pub open spec fn le_u64(b: Seq<u8>, o: int) -> u64 {
    (le_u32(b, o) + 0x1_0000_0000 * le_u32(b, o + 4)) as u64
}

/// The little-endian two's-complement `i64` at byte `o`.
pub open spec fn le_i64(b: Seq<u8>, o: int) -> i64 {
    le_u64(b, o) as i64
}

/// The big-endian `u16` at byte `o`.
pub open spec fn be_u16(b: Seq<u8>, o: int) -> u16 {
    (256 * b[o] + b[o + 1]) as u16
}

/// Index of the first NUL in `i..hi`, if any.
pub open spec fn nul_in(b: Seq<u8>, i: int, hi: int) -> Option<int>
    decreases hi - i,
{
    if i < 0 || i >= hi || i >= b.len() {
        None
    } else if b[i] == 0 {
        Some(i)
    } else {
        nul_in(b, i + 1, hi)
    }
}

/// Index of the first NUL at or after `i`, if any.
pub open spec fn nul_from(b: Seq<u8>, i: int) -> Option<int> {
    nul_in(b, i, b.len() as int)
}

/// The little-endian `u16` at byte `o`.
pub fn rd_u16(b: &[u8], o: usize) -> (r: u16)
    requires
        o + 2 <= b@.len(),
    ensures
        r == le_u16(b@, o as int),
{
    b[o] as u16 + 256 * (b[o + 1] as u16)
}

/// The little-endian `u32` at byte `o`.
pub fn rd_u32(b: &[u8], o: usize) -> (r: u32)
    requires
        o + 4 <= b@.len(),
    ensures
        r == le_u32(b@, o as int),
{
    b[o] as u32 + 0x100 * (b[o + 1] as u32) + 0x1_0000 * (b[o + 2] as u32) + 0x100_0000 * (b[o
        + 3] as u32)
}

/// The little-endian `u64` at byte `o`.
pub fn rd_u64(b: &[u8], o: usize) -> (r: u64)
    requires
        o + 8 <= b@.len(),
    ensures
        r == le_u64(b@, o as int),
{
    let n = b.len();
    assert(o + 8 <= n);
    let lo = rd_u32(b, o) as u64;
    let hi = rd_u32(b, o + 4) as u64;
    lo + 0x1_0000_0000 * hi
}

/// The little-endian two's-complement `i64` at byte `o`.
pub fn rd_i64(b: &[u8], o: usize) -> (r: i64)
    requires
        o + 8 <= b@.len(),
    ensures
        r == le_i64(b@, o as int),
{
    rd_u64(b, o) as i64
}

/// The big-endian `u16` at byte `o`.
pub fn rd_u16_be(b: &[u8], o: usize) -> (r: u16)
    requires
        o + 2 <= b@.len(),
    ensures
        r == be_u16(b@, o as int),
{
    256 * (b[o] as u16) + b[o + 1] as u16
}

/// Index of the first NUL in `i..hi`.
pub fn find_nul_in(b: &[u8], i: usize, hi: usize) -> (r: Option<usize>)
    requires
        i <= hi <= b@.len(),
    ensures
        match r {
            Some(k) => nul_in(b@, i as int, hi as int) == Some(k as int) && i <= k < hi,
            None => nul_in(b@, i as int, hi as int) is None,
        },
{
    let mut k = i;
    while k < hi
        invariant
            i <= k <= hi <= b@.len(),
            nul_in(b@, i as int, hi as int) == nul_in(b@, k as int, hi as int),
        decreases hi - k,
    {
        if b[k] == 0 {
            return Some(k);
        }
        k = k + 1;
    }
    None
}

/// Index of the first NUL at or after `i`.
pub fn find_nul(b: &[u8], i: usize) -> (r: Option<usize>)
    requires
        i <= b@.len(),
    ensures
        match r {
            Some(k) => nul_from(b@, i as int) == Some(k as int) && i <= k < b@.len(),
            None => nul_from(b@, i as int) is None,
        },
{
    find_nul_in(b, i, b.len())
}

/// Latin-1 text of the bytes `lo..hi`.
pub fn latin1_range(b: &[u8], lo: usize, hi: usize) -> (s: String)
    requires
        lo <= hi <= b@.len(),
    ensures
        s@ == latin1_seq(b@.subrange(lo as int, hi as int)),
{
    let mut v: Vec<u8> = Vec::new();
    let mut i = lo;
    while i < hi
        invariant
            lo <= i <= hi <= b@.len(),
            v@ == b@.subrange(lo as int, i as int),
        decreases hi - i,
    {
        v.push(b[i]);
        i = i + 1;
        assert(v@ =~= b@.subrange(lo as int, i as int));
    }
    latin1(v.as_slice())
}

} // verus!
