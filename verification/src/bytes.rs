//! Little-endian field access shared by the binary asset formats.
use vstd::prelude::*;

verus! {

/// The unsigned 16-bit little-endian value stored at `at`.
pub open spec fn le16(s: Seq<u8>, at: int) -> nat {
    s[at] as nat + 256 * (s[at + 1] as nat)
}

/// The unsigned 32-bit little-endian value stored at `at`.
pub open spec fn le32(s: Seq<u8>, at: int) -> nat {
    s[at] as nat + 256 * (s[at + 1] as nat) + 65536 * (s[at + 2] as nat) + 16777216 * (
    s[at + 3] as nat)
}

pub(crate) fn read_u32(data: &[u8], at: usize) -> (r: u32)
    requires
        at + 4 <= data@.len(),
    ensures
        r == le32(data@, at as int),
{
    data[at] as u32 + data[at + 1] as u32 * 256 + data[at + 2] as u32 * 65536 + data[at + 3] as u32
        * 16777216
}

pub(crate) fn read_u16(data: &[u8], at: usize) -> (r: u16)
    requires
        at + 2 <= data@.len(),
    ensures
        r == le16(data@, at as int),
{
    data[at] as u16 + data[at + 1] as u16 * 256
}

} // verus!
