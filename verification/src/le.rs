//! Little-endian integers, as the binary form of a transaction id holds them.
//!
//! The conversions themselves are done by the `byteorder` crate, behind the
//! four wrappers at the end of this file. Their contracts are stated over the
//! spec functions defined here, and are trusted, not proved.

use byteorder::{ByteOrder, LittleEndian};
use vstd::prelude::*;

verus! {

/// The four bytes of `n`, least significant first.
pub open spec fn le_bytes_u32(n: u32) -> Seq<u8> {
    seq![
        (n & 0xff) as u8,
        ((n >> 8) & 0xff) as u8,
        ((n >> 16) & 0xff) as u8,
        ((n >> 24) & 0xff) as u8,
    ]
}

/// The number whose little-endian form starts `bytes` (its first four bytes).
pub open spec fn le_value_u32(bytes: Seq<u8>) -> u32 {
    (bytes[0] as u32) | (bytes[1] as u32) << 8 | (bytes[2] as u32) << 16 | (bytes[3] as u32) << 24
}

/// The four bytes of `n` in two's complement, least significant first.
pub open spec fn le_bytes_i32(n: i32) -> Seq<u8> {
    le_bytes_u32(n as u32)
}

/// The signed number whose little-endian form starts `bytes`.
pub open spec fn le_value_i32(bytes: Seq<u8>) -> i32 {
    le_value_u32(bytes) as i32
}

/// The eight bytes of `n`, least significant first.
pub open spec fn le_bytes_u64(n: u64) -> Seq<u8> {
    seq![
        (n & 0xff) as u8,
        ((n >> 8) & 0xff) as u8,
        ((n >> 16) & 0xff) as u8,
        ((n >> 24) & 0xff) as u8,
        ((n >> 32) & 0xff) as u8,
        ((n >> 40) & 0xff) as u8,
        ((n >> 48) & 0xff) as u8,
        ((n >> 56) & 0xff) as u8,
    ]
}

/// The number whose little-endian form starts `bytes` (its first eight bytes).
pub open spec fn le_value_u64(bytes: Seq<u8>) -> u64 {
    (bytes[0] as u64) | (bytes[1] as u64) << 8 | (bytes[2] as u64) << 16 | (bytes[3] as u64) << 24
        | (bytes[4] as u64) << 32 | (bytes[5] as u64) << 40 | (bytes[6] as u64) << 48 | (
    bytes[7] as u64) << 56
}

/// Reading back what was written gives the number that was written.
pub proof fn lemma_le_i32_value_of_bytes(n: i32)
    ensures
        le_bytes_i32(n).len() == 4,
        le_value_i32(le_bytes_i32(n)) == n,
{
    let u = n as u32;
    assert(((u & 0xff) as u8 as u32) | (((u >> 8) & 0xff) as u8 as u32) << 8 | (((u >> 16)
        & 0xff) as u8 as u32) << 16 | (((u >> 24) & 0xff) as u8 as u32) << 24 == u)
        by (bit_vector);
    assert(u as i32 == n) by (bit_vector)
        requires
            u == n as u32,
    ;
}

/// Writing what was read gives the four bytes that were read.
pub proof fn lemma_le_i32_bytes_of_value(bytes: Seq<u8>)
    requires
        bytes.len() == 4,
    ensures
        le_bytes_i32(le_value_i32(bytes)) == bytes,
{
    let b0 = bytes[0];
    let b1 = bytes[1];
    let b2 = bytes[2];
    let b3 = bytes[3];
    let u = le_value_u32(bytes);
    let n = u as i32;
    assert(n as u32 == u) by (bit_vector)
        requires
            n == u as i32,
    ;
    assert((u & 0xff) as u8 == b0 && ((u >> 8) & 0xff) as u8 == b1 && ((u >> 16) & 0xff) as u8
        == b2 && ((u >> 24) & 0xff) as u8 == b3) by (bit_vector)
        requires
            u == (b0 as u32) | (b1 as u32) << 8 | (b2 as u32) << 16 | (b3 as u32) << 24,
    ;
}

/// Reading back what was written gives the number that was written.
pub proof fn lemma_le_u64_value_of_bytes(n: u64)
    ensures
        le_bytes_u64(n).len() == 8,
        le_value_u64(le_bytes_u64(n)) == n,
{
    assert(((n & 0xff) as u8 as u64) | (((n >> 8) & 0xff) as u8 as u64) << 8 | (((n >> 16)
        & 0xff) as u8 as u64) << 16 | (((n >> 24) & 0xff) as u8 as u64) << 24 | (((n >> 32)
        & 0xff) as u8 as u64) << 32 | (((n >> 40) & 0xff) as u8 as u64) << 40 | (((n >> 48)
        & 0xff) as u8 as u64) << 48 | (((n >> 56) & 0xff) as u8 as u64) << 56 == n)
        by (bit_vector);
}

/// Writing what was read gives the eight bytes that were read.
pub proof fn lemma_le_u64_bytes_of_value(bytes: Seq<u8>)
    requires
        bytes.len() == 8,
    ensures
        le_bytes_u64(le_value_u64(bytes)) == bytes,
{
    let b0 = bytes[0];
    let b1 = bytes[1];
    let b2 = bytes[2];
    let b3 = bytes[3];
    let b4 = bytes[4];
    let b5 = bytes[5];
    let b6 = bytes[6];
    let b7 = bytes[7];
    let n = le_value_u64(bytes);
    assert((n & 0xff) as u8 == b0 && ((n >> 8) & 0xff) as u8 == b1 && ((n >> 16) & 0xff) as u8
        == b2 && ((n >> 24) & 0xff) as u8 == b3 && ((n >> 32) & 0xff) as u8 == b4 && ((n >> 40)
        & 0xff) as u8 == b5 && ((n >> 48) & 0xff) as u8 == b6 && ((n >> 56) & 0xff) as u8 == b7)
        by (bit_vector)
        requires
            n == (b0 as u64) | (b1 as u64) << 8 | (b2 as u64) << 16 | (b3 as u64) << 24 | (
            b4 as u64) << 32 | (b5 as u64) << 40 | (b6 as u64) << 48 | (b7 as u64) << 56,
    ;
}

/// Calls `byteorder::ByteOrder::write_i32` of `LittleEndian` on a buffer of
/// four bytes and hands the buffer back. Claimed, not proved: the buffer then
/// holds the two's complement of `n`, least significant byte first.
#[verifier::external_body]
pub(crate) fn write_i32_le(n: i32) -> (bytes: Vec<u8>)
    ensures
        bytes@ == le_bytes_i32(n),
{
    let mut buf = vec![0u8; 4];
    LittleEndian::write_i32(&mut buf, n);
    buf
}

/// Calls `byteorder::ByteOrder::read_i32` of `LittleEndian`. Claimed, not
/// proved: the result is the signed number that the first four bytes hold,
/// least significant byte first. With fewer than four bytes the call panics.
#[verifier::external_body]
pub(crate) fn read_i32_le(bytes: &[u8]) -> (n: i32)
    requires
        bytes@.len() >= 4,
    ensures
        n == le_value_i32(bytes@.subrange(0, 4)),
{
    LittleEndian::read_i32(bytes)
}

/// Calls `byteorder::ByteOrder::write_u64` of `LittleEndian` on a buffer of
/// eight bytes and hands the buffer back. Claimed, not proved: the buffer then
/// holds `n`, least significant byte first.
#[verifier::external_body]
pub(crate) fn write_u64_le(n: u64) -> (bytes: Vec<u8>)
    ensures
        bytes@ == le_bytes_u64(n),
{
    let mut buf = vec![0u8; 8];
    LittleEndian::write_u64(&mut buf, n);
    buf
}

/// Calls `byteorder::ByteOrder::read_u64` of `LittleEndian`. Claimed, not
/// proved: the result is the number that the first eight bytes hold, least
/// significant byte first. With fewer than eight bytes the call panics.
#[verifier::external_body]
pub(crate) fn read_u64_le(bytes: &[u8]) -> (n: u64)
    requires
        bytes@.len() >= 8,
    ensures
        n == le_value_u64(bytes@.subrange(0, 8)),
{
    LittleEndian::read_u64(bytes)
}

} // verus!
