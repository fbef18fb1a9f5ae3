//! Little-endian encoding of integers into byte buffers, done by `byteorder`.

use byteorder::ByteOrder;
use vstd::prelude::*;

verus! {

/// The eight bytes of `n`, least significant first.
pub open spec fn le_bytes_u64(n: u64) -> Seq<u8> {
    seq![
        n as u8,
        (n >> 8u64) as u8,
        (n >> 16u64) as u8,
        (n >> 24u64) as u8,
        (n >> 32u64) as u8,
        (n >> 40u64) as u8,
        (n >> 48u64) as u8,
        (n >> 56u64) as u8,
    ]
}

/// The eight bytes of `n` in two's complement, least significant first.
pub open spec fn le_bytes_i64(n: i64) -> Seq<u8> {
    le_bytes_u64(n as u64)
}

/// The four bytes of `n`, least significant first.
pub open spec fn le_bytes_u32(n: u32) -> Seq<u8> {
    seq![n as u8, (n >> 8u32) as u8, (n >> 16u32) as u8, (n >> 24u32) as u8]
}

/// Calls `byteorder::LittleEndian::write_i64`, which copies the
/// little-endian bytes of `n` (of `n as u64`) over the first eight bytes of
/// `buf` and leaves the rest alone. It panics on a buffer shorter than eight
/// bytes, which `requires` leaves out.
#[verifier::external_body]
pub(crate) fn write_i64_le(buf: &mut [u8], n: i64)
    requires
        old(buf)@.len() >= 8,
    ensures
        final(buf)@ == le_bytes_i64(n) + old(buf)@.subrange(8, old(buf)@.len() as int),
{
    byteorder::LittleEndian::write_i64(buf, n)
}

/// Calls `byteorder::LittleEndian::write_u32`, which copies the
/// little-endian bytes of `n` over the first four bytes of `buf` and leaves
/// the rest alone. It panics on a buffer shorter than four bytes, which
/// `requires` leaves out.
#[verifier::external_body]
pub(crate) fn write_u32_le(buf: &mut [u8], n: u32)
    requires
        old(buf)@.len() >= 4,
    ensures
        final(buf)@ == le_bytes_u32(n) + old(buf)@.subrange(4, old(buf)@.len() as int),
{
    byteorder::LittleEndian::write_u32(buf, n)
}

} // verus!
