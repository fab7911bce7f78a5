//! Little-endian integers in byte buffers. Guest memory is read in this byte
//! order whatever the host is.

use vstd::prelude::*;

verus! {

/// The 16-bit value stored at `at`.
pub open spec fn u16_le(s: Seq<u8>, at: int) -> u16 {
    (s[at] as u16) | ((s[at + 1] as u16) << 8)
}

/// The 32-bit value stored at `at`.
pub open spec fn u32_le(s: Seq<u8>, at: int) -> u32 {
    (s[at] as u32) | ((s[at + 1] as u32) << 8) | ((s[at + 2] as u32) << 16) | ((s[at + 3] as u32)
        << 24)
}

/// The 64-bit value stored at `at`.
pub open spec fn u64_le(s: Seq<u8>, at: int) -> u64 {
    (u32_le(s, at) as u64) | ((u32_le(s, at + 4) as u64) << 32)
}

pub fn read_u16_le(buf: &[u8], at: usize) -> (v: u16)
    requires
        at + 2 <= buf@.len(),
    ensures
        v == u16_le(buf@, at as int),
{
    (buf[at] as u16) | ((buf[at + 1] as u16) << 8)
}

pub fn read_u32_le(buf: &[u8], at: usize) -> (v: u32)
    requires
        at + 4 <= buf@.len(),
    ensures
        v == u32_le(buf@, at as int),
{
    (buf[at] as u32) | ((buf[at + 1] as u32) << 8) | ((buf[at + 2] as u32) << 16) | ((buf[at
        + 3] as u32) << 24)
}

pub fn read_u64_le(buf: &[u8], at: usize) -> (v: u64)
    requires
        at + 8 <= buf@.len(),
    ensures
        v == u64_le(buf@, at as int),
{
    let len: usize = buf.len();
    assert(at + 8 <= len);
    (read_u32_le(buf, at) as u64) | ((read_u32_le(buf, at + 4) as u64) << 32)
}

} // verus!
