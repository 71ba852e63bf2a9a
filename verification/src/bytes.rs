//! Fixed-width integers read out of byte buffers.
//!
//! The reads go through the `ByteOrder` readers of `byteorder`, which read
//! every header and table of the file formats handled here.

use byteorder::{BigEndian, ByteOrder, LittleEndian};
use vstd::prelude::*;

verus! {

/// The unsigned value of two bytes stored most significant first.
pub open spec fn be_u16_at(buf: Seq<u8>, pos: int) -> int {
    buf[pos] * 256 + buf[pos + 1]
}

/// The unsigned value of two bytes stored least significant first.
pub open spec fn le_u16_at(buf: Seq<u8>, pos: int) -> int {
    buf[pos + 1] * 256 + buf[pos]
}

/// The unsigned value of four bytes stored most significant first.
pub open spec fn be_u32_at(buf: Seq<u8>, pos: int) -> int {
    ((buf[pos] * 256 + buf[pos + 1]) * 256 + buf[pos + 2]) * 256 + buf[pos + 3]
}

/// The unsigned value of four bytes stored least significant first.
pub open spec fn le_u32_at(buf: Seq<u8>, pos: int) -> int {
    ((buf[pos + 3] * 256 + buf[pos + 2]) * 256 + buf[pos + 1]) * 256 + buf[pos]
}

/// A 16-bit unsigned value reinterpreted as two's complement.
pub open spec fn as_signed16(u: int) -> int {
    if u < 0x8000 { u } else { u - 0x10000 }
}

/// A 32-bit unsigned value reinterpreted as two's complement.
pub open spec fn as_signed32(u: int) -> int {
    if u < 0x8000_0000 { u } else { u - 0x1_0000_0000 }
}

/// An 8-bit unsigned value reinterpreted as two's complement.
pub open spec fn as_signed8(u: int) -> int {
    if u < 0x80 { u } else { u - 0x100 }
}

/// The value of the four bytes at `pos` in the given byte order.
pub open spec fn u32_at(buf: Seq<u8>, pos: int, big: bool) -> int {
    if big { be_u32_at(buf, pos) } else { le_u32_at(buf, pos) }
}

/// The value of the two bytes at `pos` in the given byte order.
pub open spec fn u16_at(buf: Seq<u8>, pos: int, big: bool) -> int {
    if big { be_u16_at(buf, pos) } else { le_u16_at(buf, pos) }
}

/// `BigEndian::read_u16` on the two bytes at `pos`: byteorder documents that
/// it reads an unsigned 16-bit integer, most significant byte first, and
/// panics only when fewer than two bytes are given.
#[verifier::external_body]
pub(crate) fn read_be_u16(buf: &[u8], pos: usize) -> (r: u16)
    requires
        pos + 2 <= buf.len(),
    ensures
        r == be_u16_at(buf@, pos as int),
{
    BigEndian::read_u16(&buf[pos..])
}

/// `LittleEndian::read_u16` on the two bytes at `pos`: an unsigned 16-bit
/// integer, least significant byte first.
#[verifier::external_body]
pub(crate) fn read_le_u16(buf: &[u8], pos: usize) -> (r: u16)
    requires
        pos + 2 <= buf.len(),
    ensures
        r == le_u16_at(buf@, pos as int),
{
    LittleEndian::read_u16(&buf[pos..])
}

/// `BigEndian::read_u32` on the four bytes at `pos`: an unsigned 32-bit
/// integer, most significant byte first.
#[verifier::external_body]
pub(crate) fn read_be_u32(buf: &[u8], pos: usize) -> (r: u32)
    requires
        pos + 4 <= buf.len(),
    ensures
        r == be_u32_at(buf@, pos as int),
{
    BigEndian::read_u32(&buf[pos..])
}

/// `LittleEndian::read_u32` on the four bytes at `pos`: an unsigned 32-bit
/// integer, least significant byte first.
#[verifier::external_body]
pub(crate) fn read_le_u32(buf: &[u8], pos: usize) -> (r: u32)
    requires
        pos + 4 <= buf.len(),
    ensures
        r == le_u32_at(buf@, pos as int),
{
    LittleEndian::read_u32(&buf[pos..])
}

/// `BigEndian::read_i16` on the two bytes at `pos`: byteorder defines it as
/// `read_u16` reinterpreted as two's complement.
#[verifier::external_body]
pub(crate) fn read_be_i16(buf: &[u8], pos: usize) -> (r: i16)
    requires
        pos + 2 <= buf.len(),
    ensures
        r == as_signed16(be_u16_at(buf@, pos as int)),
{
    BigEndian::read_i16(&buf[pos..])
}

/// `LittleEndian::read_i32` on the four bytes at `pos`: `read_u32`
/// reinterpreted as two's complement.
#[verifier::external_body]
pub(crate) fn read_le_i32(buf: &[u8], pos: usize) -> (r: i32)
    requires
        pos + 4 <= buf.len(),
    ensures
        r == as_signed32(le_u32_at(buf@, pos as int)),
{
    LittleEndian::read_i32(&buf[pos..])
}

/// `BigEndian::read_i32` on the four bytes at `pos`: `read_u32`
/// reinterpreted as two's complement.
#[verifier::external_body]
pub(crate) fn read_be_i32(buf: &[u8], pos: usize) -> (r: i32)
    requires
        pos + 4 <= buf.len(),
    ensures
        r == as_signed32(be_u32_at(buf@, pos as int)),
{
    BigEndian::read_i32(&buf[pos..])
}

/// Reads four bytes at `pos` as an unsigned value in the given byte order.
pub fn read_u32(buf: &[u8], pos: usize, big: bool) -> (r: u32)
    requires
        pos + 4 <= buf.len(),
    ensures
        r == u32_at(buf@, pos as int, big),
{
    if big { read_be_u32(buf, pos) } else { read_le_u32(buf, pos) }
}

/// Reads two bytes at `pos` as an unsigned value in the given byte order.
pub fn read_u16(buf: &[u8], pos: usize, big: bool) -> (r: u16)
    requires
        pos + 2 <= buf.len(),
    ensures
        r == u16_at(buf@, pos as int, big),
{
    if big { read_be_u16(buf, pos) } else { read_le_u16(buf, pos) }
}

/// Reads four bytes at `pos` as a signed value in the given byte order.
pub fn read_i32(buf: &[u8], pos: usize, big: bool) -> (r: i32)
    requires
        pos + 4 <= buf.len(),
    ensures
        r == as_signed32(u32_at(buf@, pos as int, big)),
{
    if big { read_be_i32(buf, pos) } else { read_le_i32(buf, pos) }
}

} // verus!
