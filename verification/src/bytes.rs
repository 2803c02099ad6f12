//! Little-endian integers and bounded reads on a byte sequence.
use vstd::prelude::*;

verus! {

/// The 16-bit little-endian integer at `at`.
pub open spec fn le_u16(s: Seq<u8>, at: int) -> u16 {
    (s[at] as int + 256 * (s[at + 1] as int)) as u16
}

/// The 32-bit little-endian integer at `at`.
pub open spec fn le_u32(s: Seq<u8>, at: int) -> u32 {
    (s[at] as int + 256 * (s[at + 1] as int) + 65536 * (s[at + 2] as int) + 16777216 * (s[at
        + 3] as int)) as u32
}

/// Whether `n` bytes can be read at `pos`.
pub open spec fn readable(s: Seq<u8>, pos: int, n: int) -> bool {
    0 <= pos && 0 <= n && pos + n <= s.len()
}

/// Decodes the 16-bit little-endian integer at `at`.
pub fn read_u16(data: &[u8], at: usize) -> (r: u16)
    requires
        at + 2 <= data@.len(),
    ensures
        r == le_u16(data@, at as int),
{
    let lo: u16 = data[at] as u16;
    let hi: u16 = data[at + 1] as u16;
    lo + 256 * hi
}

/// Decodes the 32-bit little-endian integer at `at`.
pub fn read_u32(data: &[u8], at: usize) -> (r: u32)
    requires
        at + 4 <= data@.len(),
    ensures
        r == le_u32(data@, at as int),
{
    let b0: u32 = data[at] as u32;
    let b1: u32 = data[at + 1] as u32;
    let b2: u32 = data[at + 2] as u32;
    let b3: u32 = data[at + 3] as u32;
    b0 + 256 * b1 + 65536 * b2 + 16777216 * b3
}

/// Tests whether `n` bytes can be read at `pos`.
pub fn can_read(data: &[u8], pos: u64, n: u64) -> (r: bool)
    ensures
        r == readable(data@, pos as int, n as int),
{
    let len: u64 = data.len() as u64;
    pos <= len && n <= len - pos
}

/// Copies the `n` bytes at `pos` out of the stream.
pub fn read_exact(data: &[u8], pos: u64, n: u64) -> (r: Vec<u8>)
    requires
        readable(data@, pos as int, n as int),
    ensures
        r@ == data@.subrange(pos as int, pos + n),
{
    let len: usize = data.len();
    let start: usize = pos as usize;
    let count: usize = n as usize;
    let mut out: Vec<u8> = Vec::new();
    let mut i: usize = 0;
    while i < count
        invariant
            i <= count,
            len == data@.len(),
            start + count <= len,
            out@ =~= data@.subrange(start as int, start + i),
        decreases count - i,
    {
        out.push(data[start + i]);
        i = i + 1;
    }
    out
}

} // verus!
