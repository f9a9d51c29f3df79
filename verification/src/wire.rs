//! Reading and writing the fixed-width fields of a message.

use vstd::bytes::{
    spec_u32_from_le_bytes, spec_u32_to_le_bytes, spec_u64_from_le_bytes, spec_u64_to_le_bytes,
    u32_from_le_bytes, u32_to_le_bytes, u64_from_le_bytes, u64_to_le_bytes,
};
use vstd::prelude::*;
use vstd::slice::slice_subrange;

verus! {

/// The `n` bytes of `b` that start at offset `at`.
pub open spec fn bytes_at(b: Seq<u8>, at: int, n: int) -> Seq<u8> {
    b.subrange(at, at + n)
}

/// The little-endian `u32` whose four bytes start at offset `at` of `b`.
pub open spec fn u32_at(b: Seq<u8>, at: int) -> u32 {
    spec_u32_from_le_bytes(bytes_at(b, at, 4))
}

/// The little-endian `u64` whose eight bytes start at offset `at` of `b`.
pub open spec fn u64_at(b: Seq<u8>, at: int) -> u64 {
    spec_u64_from_le_bytes(bytes_at(b, at, 8))
}

/// The four little-endian bytes of `v`.
pub open spec fn u32_bytes(v: u32) -> Seq<u8> {
    spec_u32_to_le_bytes(v)
}

/// The eight little-endian bytes of `v`.
pub open spec fn u64_bytes(v: u64) -> Seq<u8> {
    spec_u64_to_le_bytes(v)
}

pub(crate) fn read_u32(b: &[u8], at: usize) -> (v: u32)
    requires
        at + 4 <= b@.len(),
    ensures
        v == u32_at(b@, at as int),
{
    let len: usize = b.len();
    assert(at + 4 <= len);
    u32_from_le_bytes(slice_subrange(b, at, at + 4))
}

pub(crate) fn read_u64(b: &[u8], at: usize) -> (v: u64)
    requires
        at + 8 <= b@.len(),
    ensures
        v == u64_at(b@, at as int),
{
    let len: usize = b.len();
    assert(at + 8 <= len);
    u64_from_le_bytes(slice_subrange(b, at, at + 8))
}

pub(crate) fn read_array<const N: usize>(b: &[u8], at: usize) -> (out: [u8; N])
    requires
        at + N <= b@.len(),
    ensures
        out@ == bytes_at(b@, at as int, N as int),
{
    let len: usize = b.len();
    let mut out: [u8; N] = [0u8; N];
    let mut i: usize = 0;
    while i < N
        invariant
            i <= N,
            at + N <= len,
            len == b@.len(),
            forall|j: int| 0 <= j < i ==> out@[j] == b@[at + j],
        decreases N - i,
    {
        out[i] = b[at + i];
        i += 1;
    }
    out
}

pub(crate) fn read_tail(b: &[u8], at: usize) -> (out: Vec<u8>)
    requires
        at <= b@.len(),
    ensures
        out@ == b@.subrange(at as int, b@.len() as int),
{
    let mut out: Vec<u8> = Vec::new();
    let mut i: usize = at;
    while i < b.len()
        invariant
            at <= i <= b@.len(),
            out@ == b@.subrange(at as int, i as int),
        decreases b@.len() - i,
    {
        out.push(b[i]);
        i += 1;
    }
    out
}

pub(crate) fn write_bytes(out: &mut Vec<u8>, s: &[u8])
    ensures
        final(out)@ == old(out)@ + s@,
{
    let mut i: usize = 0;
    while i < s.len()
        invariant
            i <= s@.len(),
            out@ == old(out)@ + s@.subrange(0, i as int),
        decreases s@.len() - i,
    {
        out.push(s[i]);
        i += 1;
    }
}

pub(crate) fn write_u32(out: &mut Vec<u8>, v: u32)
    ensures
        final(out)@ == old(out)@ + u32_bytes(v),
{
    let bytes = u32_to_le_bytes(v);
    write_bytes(out, bytes.as_slice());
}

pub(crate) fn write_u64(out: &mut Vec<u8>, v: u64)
    ensures
        final(out)@ == old(out)@ + u64_bytes(v),
{
    let bytes = u64_to_le_bytes(v);
    write_bytes(out, bytes.as_slice());
}

} // verus!
