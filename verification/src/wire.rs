//! Fixed-offset readers for the raw account buffers that reach the library.
//!
//! Records arrive as untrusted byte blobs; every field read is bounds-checked
//! by the caller through `requires`, and each reader's result is pinned to the
//! exact bytes it came from.

use vstd::prelude::*;

verus! {

/// The signed 64-bit value encoded little-endian in an 8-byte sequence.
pub open spec fn spec_i64_from_le_bytes(s: Seq<u8>) -> int {
    let u = vstd::bytes::spec_u64_from_le_bytes(s) as int;
    if u < 0x8000_0000_0000_0000 {
        u
    } else {
        u - 0x1_0000_0000_0000_0000
    }
}

/// Reads a little-endian signed 64-bit integer.
pub fn i64_from_le_bytes(s: &[u8]) -> (x: i64)
    requires
        s@.len() == 8,
    ensures
        x as int == spec_i64_from_le_bytes(s@),
{
    let u = vstd::bytes::u64_from_le_bytes(s);
    if u < 0x8000_0000_0000_0000u64 {
        u as i64
    } else {
        let neg: u64 = u64::MAX - u;
        -(neg as i64) - 1
    }
}

/// Copies a 32-byte field out of a larger buffer.
pub fn read_bytes32(data: &[u8], off: usize) -> (r: [u8; 32])
    requires
        off + 32 <= data@.len(),
    ensures
        r@ == data@.subrange(off as int, off as int + 32),
{
    let n: usize = data.len();
    let mut out: [u8; 32] = [0u8; 32];
    let mut i: usize = 0;
    while i < 32
        invariant
            0 <= i <= 32,
            off + 32 <= n == data@.len(),
            forall|j: int| 0 <= j < i ==> out@[j] == data@[off + j],
        decreases 32 - i,
    {
        out[i] = data[off + i];
        i += 1;
    }
    proof {
        assert(out@ =~= data@.subrange(off as int, off as int + 32));
    }
    out
}

/// Byte-wise equality of two 32-byte addresses.
pub fn bytes32_eq(a: &[u8; 32], b: &[u8; 32]) -> (r: bool)
    ensures
        r == (a@ == b@),
{
    let mut i: usize = 0;
    while i < 32
        invariant
            0 <= i <= 32,
            forall|j: int| 0 <= j < i ==> a@[j] == b@[j],
        decreases 32 - i,
    {
        if a[i] != b[i] {
            proof {
                assert(a@[i as int] != b@[i as int]);
            }
            return false;
        }
        i += 1;
    }
    proof {
        assert(a@ =~= b@);
    }
    true
}

} // verus!
