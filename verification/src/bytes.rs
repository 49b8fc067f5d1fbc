//! Fixed-width integers read from byte strings.

use vstd::prelude::*;

verus! {

/// The big-endian value of the two bytes at `at`.
pub open spec fn spec_be_u16(s: Seq<u8>, at: int) -> int {
    s[at] as int * 0x100 + s[at + 1] as int
}

/// The big-endian value of the four bytes at `at`.
pub open spec fn spec_be_u32(s: Seq<u8>, at: int) -> int {
    spec_be_u16(s, at) * 0x1_0000 + spec_be_u16(s, at + 2)
}

/// The big-endian value of the eight bytes at `at`.
pub open spec fn spec_be_u64(s: Seq<u8>, at: int) -> int {
    spec_be_u32(s, at) * 0x1_0000_0000 + spec_be_u32(s, at + 4)
}

/// The little-endian value of the four bytes at `at`.
pub open spec fn spec_le_u32(s: Seq<u8>, at: int) -> int {
    s[at] as int + s[at + 1] as int * 0x100 + s[at + 2] as int * 0x1_0000 + s[at + 3] as int
        * 0x100_0000
}

/// Reads a big-endian `u16` at `at`.
pub fn read_be_u16(s: &[u8], at: usize) -> (v: u16)
    requires
        at + 2 <= s.len(),
    ensures
        v == spec_be_u16(s@, at as int),
{
    let hi: u16 = s[at] as u16;
    let lo: u16 = s[at + 1] as u16;
    hi * 0x100 + lo
}

/// Reads a big-endian `u32` at `at`.
pub fn read_be_u32(s: &[u8], at: usize) -> (v: u32)
    requires
        at + 4 <= s.len(),
    ensures
        v == spec_be_u32(s@, at as int),
{
    let hi: u32 = read_be_u16(s, at) as u32;
    let lo: u32 = read_be_u16(s, at + 2) as u32;
    hi * 0x1_0000 + lo
}

/// Reads a big-endian `u64` at `at`.
pub fn read_be_u64(s: &[u8], at: usize) -> (v: u64)
    requires
        at + 8 <= s.len(),
    ensures
        v == spec_be_u64(s@, at as int),
{
    let hi: u64 = read_be_u32(s, at) as u64;
    let lo: u64 = read_be_u32(s, at + 4) as u64;
    hi * 0x1_0000_0000 + lo
}

/// Reads a little-endian `u32` at `at`.
pub fn read_le_u32(s: &[u8], at: usize) -> (v: u32)
    requires
        at + 4 <= s.len(),
    ensures
        v == spec_le_u32(s@, at as int),
{
    let b0: u32 = s[at] as u32;
    let b1: u32 = s[at + 1] as u32;
    let b2: u32 = s[at + 2] as u32;
    let b3: u32 = s[at + 3] as u32;
    b0 + b1 * 0x100 + b2 * 0x1_0000 + b3 * 0x100_0000
}

/// Copies the bytes of `s` from `start` up to `end` into a new vector.
pub fn copy_range(s: &[u8], start: usize, end: usize) -> (out: Vec<u8>)
    requires
        start <= end <= s.len(),
    ensures
        out@ == s@.subrange(start as int, end as int),
{
    let mut out: Vec<u8> = Vec::new();
    let mut i: usize = start;
    while i < end
        invariant
            start <= i <= end <= s.len(),
            out@ == s@.subrange(start as int, i as int),
        decreases end - i,
    {
        out.push(s[i]);
        i += 1;
        assert(out@ =~= s@.subrange(start as int, i as int));
    }
    out
}

} // verus!
