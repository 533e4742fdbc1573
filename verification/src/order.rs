//! Byte orders, and the reading and writing of integers in them.
//!
//! [`ByteOrder`] is implemented by the two marker types of the `byteorder`
//! crate, [`LittleEndian`] and [`BigEndian`]; `byteorder::NativeEndian` is an
//! alias of the one that matches the target. The methods of the trait hand
//! the work to `byteorder` and state, over the functions of [`crate::bytes`],
//! which bytes are read and written.
//!
//! The private functions at the end of the file are the calls into
//! `byteorder`. Their contracts are believed, not proved: each says of one
//! function of `byteorder` what its documentation and its source say.
use crate::bytes::{
    be_bytes, be_value, bytes_of, le_bytes, le_value, signed_of, unsigned_of, value_of, Endian,
};
use byteorder::{BigEndian, LittleEndian};
use vstd::prelude::*;

verus! {

/// `byteorder::LittleEndian`: a type without values that stands for the
/// little-endian order.
#[verifier::external_type_specification]
#[verifier::external_body]
pub struct ExLittleEndian(LittleEndian);

/// `byteorder::BigEndian`: a type without values that stands for the
/// big-endian order.
#[verifier::external_type_specification]
#[verifier::external_body]
pub struct ExBigEndian(BigEndian);

/// A byte order, chosen at the type level.
///
/// Every method reads or writes at the start of `buf` and needs `buf` to be
/// at least as long as the integer is wide. A write leaves the bytes after
/// the integer as they were. Signed integers are stored in two's complement.
pub trait ByteOrder {
    /// The order that the type stands for.
    spec fn endian() -> Endian;

    /// Reads an unsigned 16 bit integer from the first 2 bytes of `buf`.
    fn read_u16(buf: &[u8]) -> (r: u16)
        requires
            buf@.len() >= 2,
        ensures
            r as nat == value_of(buf@.subrange(0, 2), Self::endian()),
    ;

    /// Writes an unsigned 16 bit integer to the first 2 bytes of `buf`.
    fn write_u16(buf: &mut [u8], n: u16)
        requires
            old(buf)@.len() >= 2,
        ensures
            final(buf)@ == bytes_of(n as nat, 2, Self::endian()) + old(buf)@.skip(2),
    ;

    /// Reads a signed 16 bit integer from the first 2 bytes of `buf`.
    fn read_i16(buf: &[u8]) -> (r: i16)
        requires
            buf@.len() >= 2,
        ensures
            r as int == signed_of(value_of(buf@.subrange(0, 2), Self::endian()), 2),
    ;

    /// Writes a signed 16 bit integer to the first 2 bytes of `buf`.
    fn write_i16(buf: &mut [u8], n: i16)
        requires
            old(buf)@.len() >= 2,
        ensures
            final(buf)@ == bytes_of(unsigned_of(n as int, 2), 2, Self::endian())
                + old(buf)@.skip(2),
    ;

    /// Reads an unsigned 32 bit integer from the first 4 bytes of `buf`.
    fn read_u32(buf: &[u8]) -> (r: u32)
        requires
            buf@.len() >= 4,
        ensures
            r as nat == value_of(buf@.subrange(0, 4), Self::endian()),
    ;

    /// Writes an unsigned 32 bit integer to the first 4 bytes of `buf`.
    fn write_u32(buf: &mut [u8], n: u32)
        requires
            old(buf)@.len() >= 4,
        ensures
            final(buf)@ == bytes_of(n as nat, 4, Self::endian()) + old(buf)@.skip(4),
    ;

    /// Reads a signed 32 bit integer from the first 4 bytes of `buf`.
    fn read_i32(buf: &[u8]) -> (r: i32)
        requires
            buf@.len() >= 4,
        ensures
            r as int == signed_of(value_of(buf@.subrange(0, 4), Self::endian()), 4),
    ;

    /// Writes a signed 32 bit integer to the first 4 bytes of `buf`.
    fn write_i32(buf: &mut [u8], n: i32)
        requires
            old(buf)@.len() >= 4,
        ensures
            final(buf)@ == bytes_of(unsigned_of(n as int, 4), 4, Self::endian())
                + old(buf)@.skip(4),
    ;

    /// Reads an unsigned 64 bit integer from the first 8 bytes of `buf`.
    fn read_u64(buf: &[u8]) -> (r: u64)
        requires
            buf@.len() >= 8,
        ensures
            r as nat == value_of(buf@.subrange(0, 8), Self::endian()),
    ;

    /// Writes an unsigned 64 bit integer to the first 8 bytes of `buf`.
    fn write_u64(buf: &mut [u8], n: u64)
        requires
            old(buf)@.len() >= 8,
        ensures
            final(buf)@ == bytes_of(n as nat, 8, Self::endian()) + old(buf)@.skip(8),
    ;

    /// Reads a signed 64 bit integer from the first 8 bytes of `buf`.
    fn read_i64(buf: &[u8]) -> (r: i64)
        requires
            buf@.len() >= 8,
        ensures
            r as int == signed_of(value_of(buf@.subrange(0, 8), Self::endian()), 8),
    ;

    /// Writes a signed 64 bit integer to the first 8 bytes of `buf`.
    fn write_i64(buf: &mut [u8], n: i64)
        requires
            old(buf)@.len() >= 8,
        ensures
            final(buf)@ == bytes_of(unsigned_of(n as int, 8), 8, Self::endian())
                + old(buf)@.skip(8),
    ;
}

impl ByteOrder for LittleEndian {
    open spec fn endian() -> Endian {
        Endian::Little
    }

    fn read_u16(buf: &[u8]) -> (r: u16) {
        le_read_u16(buf)
    }

    fn write_u16(buf: &mut [u8], n: u16) {
        le_write_u16(buf, n)
    }

    fn read_i16(buf: &[u8]) -> (r: i16) {
        le_read_i16(buf)
    }

    fn write_i16(buf: &mut [u8], n: i16) {
        le_write_i16(buf, n)
    }

    fn read_u32(buf: &[u8]) -> (r: u32) {
        le_read_u32(buf)
    }

    fn write_u32(buf: &mut [u8], n: u32) {
        le_write_u32(buf, n)
    }

    fn read_i32(buf: &[u8]) -> (r: i32) {
        le_read_i32(buf)
    }

    fn write_i32(buf: &mut [u8], n: i32) {
        le_write_i32(buf, n)
    }

    fn read_u64(buf: &[u8]) -> (r: u64) {
        le_read_u64(buf)
    }

    fn write_u64(buf: &mut [u8], n: u64) {
        le_write_u64(buf, n)
    }

    fn read_i64(buf: &[u8]) -> (r: i64) {
        le_read_i64(buf)
    }

    fn write_i64(buf: &mut [u8], n: i64) {
        le_write_i64(buf, n)
    }
}

impl ByteOrder for BigEndian {
    open spec fn endian() -> Endian {
        Endian::Big
    }

    fn read_u16(buf: &[u8]) -> (r: u16) {
        be_read_u16(buf)
    }

    fn write_u16(buf: &mut [u8], n: u16) {
        be_write_u16(buf, n)
    }

    fn read_i16(buf: &[u8]) -> (r: i16) {
        be_read_i16(buf)
    }

    fn write_i16(buf: &mut [u8], n: i16) {
        be_write_i16(buf, n)
    }

    fn read_u32(buf: &[u8]) -> (r: u32) {
        be_read_u32(buf)
    }

    fn write_u32(buf: &mut [u8], n: u32) {
        be_write_u32(buf, n)
    }

    fn read_i32(buf: &[u8]) -> (r: i32) {
        be_read_i32(buf)
    }

    fn write_i32(buf: &mut [u8], n: i32) {
        be_write_i32(buf, n)
    }

    fn read_u64(buf: &[u8]) -> (r: u64) {
        be_read_u64(buf)
    }

    fn write_u64(buf: &mut [u8], n: u64) {
        be_write_u64(buf, n)
    }

    fn read_i64(buf: &[u8]) -> (r: i64) {
        be_read_i64(buf)
    }

    fn write_i64(buf: &mut [u8], n: i64) {
        be_write_i64(buf, n)
    }
}

/// Calls `read_u16` of `byteorder::ByteOrder` for `LittleEndian`. Believed:
/// the result is the number that the first 2 bytes of `buf` denote, least
/// significant byte first. The call panics where `buf` is shorter.
#[verifier::external_body]
fn le_read_u16(buf: &[u8]) -> (r: u16)
    requires
        buf@.len() >= 2,
    ensures
        r as nat == le_value(buf@.subrange(0, 2)),
{
    <LittleEndian as byteorder::ByteOrder>::read_u16(buf)
}

/// Calls `write_u16` of `byteorder::ByteOrder` for `LittleEndian`. Believed:
/// the first 2 bytes of `buf` become the bytes of `n`, least significant byte
/// first, and the bytes after them stay. The call panics where `buf` is
/// shorter.
#[verifier::external_body]
fn le_write_u16(buf: &mut [u8], n: u16)
    requires
        old(buf)@.len() >= 2,
    ensures
        final(buf)@ == le_bytes(n as nat, 2) + old(buf)@.skip(2),
{
    <LittleEndian as byteorder::ByteOrder>::write_u16(buf, n)
}

/// Calls `read_i16` of `byteorder::ByteOrder` for `LittleEndian`. Believed:
/// the result is the two's-complement reading of the first 2 bytes of `buf`,
/// taken least significant byte first. The call panics where `buf` is
/// shorter.
#[verifier::external_body]
fn le_read_i16(buf: &[u8]) -> (r: i16)
    requires
        buf@.len() >= 2,
    ensures
        r as int == signed_of(le_value(buf@.subrange(0, 2)), 2),
{
    <LittleEndian as byteorder::ByteOrder>::read_i16(buf)
}

/// Calls `write_i16` of `byteorder::ByteOrder` for `LittleEndian`. Believed:
/// the first 2 bytes of `buf` become the two's-complement bytes of `n`, least
/// significant byte first, and the bytes after them stay. The call panics
/// where `buf` is shorter.
#[verifier::external_body]
fn le_write_i16(buf: &mut [u8], n: i16)
    requires
        old(buf)@.len() >= 2,
    ensures
        final(buf)@ == le_bytes(unsigned_of(n as int, 2), 2) + old(buf)@.skip(2),
{
    <LittleEndian as byteorder::ByteOrder>::write_i16(buf, n)
}

/// Calls `read_u32` of `byteorder::ByteOrder` for `LittleEndian`. Believed:
/// the result is the number that the first 4 bytes of `buf` denote, least
/// significant byte first. The call panics where `buf` is shorter.
#[verifier::external_body]
fn le_read_u32(buf: &[u8]) -> (r: u32)
    requires
        buf@.len() >= 4,
    ensures
        r as nat == le_value(buf@.subrange(0, 4)),
{
    <LittleEndian as byteorder::ByteOrder>::read_u32(buf)
}

/// Calls `write_u32` of `byteorder::ByteOrder` for `LittleEndian`. Believed:
/// the first 4 bytes of `buf` become the bytes of `n`, least significant byte
/// first, and the bytes after them stay. The call panics where `buf` is
/// shorter.
#[verifier::external_body]
fn le_write_u32(buf: &mut [u8], n: u32)
    requires
        old(buf)@.len() >= 4,
    ensures
        final(buf)@ == le_bytes(n as nat, 4) + old(buf)@.skip(4),
{
    <LittleEndian as byteorder::ByteOrder>::write_u32(buf, n)
}

/// Calls `read_i32` of `byteorder::ByteOrder` for `LittleEndian`. Believed:
/// the result is the two's-complement reading of the first 4 bytes of `buf`,
/// taken least significant byte first. The call panics where `buf` is
/// shorter.
#[verifier::external_body]
fn le_read_i32(buf: &[u8]) -> (r: i32)
    requires
        buf@.len() >= 4,
    ensures
        r as int == signed_of(le_value(buf@.subrange(0, 4)), 4),
{
    <LittleEndian as byteorder::ByteOrder>::read_i32(buf)
}

/// Calls `write_i32` of `byteorder::ByteOrder` for `LittleEndian`. Believed:
/// the first 4 bytes of `buf` become the two's-complement bytes of `n`, least
/// significant byte first, and the bytes after them stay. The call panics
/// where `buf` is shorter.
#[verifier::external_body]
fn le_write_i32(buf: &mut [u8], n: i32)
    requires
        old(buf)@.len() >= 4,
    ensures
        final(buf)@ == le_bytes(unsigned_of(n as int, 4), 4) + old(buf)@.skip(4),
{
    <LittleEndian as byteorder::ByteOrder>::write_i32(buf, n)
}

/// Calls `read_u64` of `byteorder::ByteOrder` for `LittleEndian`. Believed:
/// the result is the number that the first 8 bytes of `buf` denote, least
/// significant byte first. The call panics where `buf` is shorter.
#[verifier::external_body]
fn le_read_u64(buf: &[u8]) -> (r: u64)
    requires
        buf@.len() >= 8,
    ensures
        r as nat == le_value(buf@.subrange(0, 8)),
{
    <LittleEndian as byteorder::ByteOrder>::read_u64(buf)
}

/// Calls `write_u64` of `byteorder::ByteOrder` for `LittleEndian`. Believed:
/// the first 8 bytes of `buf` become the bytes of `n`, least significant byte
/// first, and the bytes after them stay. The call panics where `buf` is
/// shorter.
#[verifier::external_body]
fn le_write_u64(buf: &mut [u8], n: u64)
    requires
        old(buf)@.len() >= 8,
    ensures
        final(buf)@ == le_bytes(n as nat, 8) + old(buf)@.skip(8),
{
    <LittleEndian as byteorder::ByteOrder>::write_u64(buf, n)
}

/// Calls `read_i64` of `byteorder::ByteOrder` for `LittleEndian`. Believed:
/// the result is the two's-complement reading of the first 8 bytes of `buf`,
/// taken least significant byte first. The call panics where `buf` is
/// shorter.
#[verifier::external_body]
fn le_read_i64(buf: &[u8]) -> (r: i64)
    requires
        buf@.len() >= 8,
    ensures
        r as int == signed_of(le_value(buf@.subrange(0, 8)), 8),
{
    <LittleEndian as byteorder::ByteOrder>::read_i64(buf)
}

/// Calls `write_i64` of `byteorder::ByteOrder` for `LittleEndian`. Believed:
/// the first 8 bytes of `buf` become the two's-complement bytes of `n`, least
/// significant byte first, and the bytes after them stay. The call panics
/// where `buf` is shorter.
#[verifier::external_body]
fn le_write_i64(buf: &mut [u8], n: i64)
    requires
        old(buf)@.len() >= 8,
    ensures
        final(buf)@ == le_bytes(unsigned_of(n as int, 8), 8) + old(buf)@.skip(8),
{
    <LittleEndian as byteorder::ByteOrder>::write_i64(buf, n)
}

/// Calls `read_u16` of `byteorder::ByteOrder` for `BigEndian`. Believed: the
/// result is the number that the first 2 bytes of `buf` denote, most
/// significant byte first. The call panics where `buf` is shorter.
#[verifier::external_body]
fn be_read_u16(buf: &[u8]) -> (r: u16)
    requires
        buf@.len() >= 2,
    ensures
        r as nat == be_value(buf@.subrange(0, 2)),
{
    <BigEndian as byteorder::ByteOrder>::read_u16(buf)
}

/// Calls `write_u16` of `byteorder::ByteOrder` for `BigEndian`. Believed: the
/// first 2 bytes of `buf` become the bytes of `n`, most significant byte
/// first, and the bytes after them stay. The call panics where `buf` is
/// shorter.
#[verifier::external_body]
fn be_write_u16(buf: &mut [u8], n: u16)
    requires
        old(buf)@.len() >= 2,
    ensures
        final(buf)@ == be_bytes(n as nat, 2) + old(buf)@.skip(2),
{
    <BigEndian as byteorder::ByteOrder>::write_u16(buf, n)
}

/// Calls `read_i16` of `byteorder::ByteOrder` for `BigEndian`. Believed: the
/// result is the two's-complement reading of the first 2 bytes of `buf`,
/// taken most significant byte first. The call panics where `buf` is shorter.
#[verifier::external_body]
fn be_read_i16(buf: &[u8]) -> (r: i16)
    requires
        buf@.len() >= 2,
    ensures
        r as int == signed_of(be_value(buf@.subrange(0, 2)), 2),
{
    <BigEndian as byteorder::ByteOrder>::read_i16(buf)
}

/// Calls `write_i16` of `byteorder::ByteOrder` for `BigEndian`. Believed: the
/// first 2 bytes of `buf` become the two's-complement bytes of `n`, most
/// significant byte first, and the bytes after them stay. The call panics
/// where `buf` is shorter.
#[verifier::external_body]
fn be_write_i16(buf: &mut [u8], n: i16)
    requires
        old(buf)@.len() >= 2,
    ensures
        final(buf)@ == be_bytes(unsigned_of(n as int, 2), 2) + old(buf)@.skip(2),
{
    <BigEndian as byteorder::ByteOrder>::write_i16(buf, n)
}

/// Calls `read_u32` of `byteorder::ByteOrder` for `BigEndian`. Believed: the
/// result is the number that the first 4 bytes of `buf` denote, most
/// significant byte first. The call panics where `buf` is shorter.
#[verifier::external_body]
fn be_read_u32(buf: &[u8]) -> (r: u32)
    requires
        buf@.len() >= 4,
    ensures
        r as nat == be_value(buf@.subrange(0, 4)),
{
    <BigEndian as byteorder::ByteOrder>::read_u32(buf)
}

/// Calls `write_u32` of `byteorder::ByteOrder` for `BigEndian`. Believed: the
/// first 4 bytes of `buf` become the bytes of `n`, most significant byte
/// first, and the bytes after them stay. The call panics where `buf` is
/// shorter.
#[verifier::external_body]
fn be_write_u32(buf: &mut [u8], n: u32)
    requires
        old(buf)@.len() >= 4,
    ensures
        final(buf)@ == be_bytes(n as nat, 4) + old(buf)@.skip(4),
{
    <BigEndian as byteorder::ByteOrder>::write_u32(buf, n)
}

/// Calls `read_i32` of `byteorder::ByteOrder` for `BigEndian`. Believed: the
/// result is the two's-complement reading of the first 4 bytes of `buf`,
/// taken most significant byte first. The call panics where `buf` is shorter.
#[verifier::external_body]
fn be_read_i32(buf: &[u8]) -> (r: i32)
    requires
        buf@.len() >= 4,
    ensures
        r as int == signed_of(be_value(buf@.subrange(0, 4)), 4),
{
    <BigEndian as byteorder::ByteOrder>::read_i32(buf)
}

/// Calls `write_i32` of `byteorder::ByteOrder` for `BigEndian`. Believed: the
/// first 4 bytes of `buf` become the two's-complement bytes of `n`, most
/// significant byte first, and the bytes after them stay. The call panics
/// where `buf` is shorter.
#[verifier::external_body]
fn be_write_i32(buf: &mut [u8], n: i32)
    requires
        old(buf)@.len() >= 4,
    ensures
        final(buf)@ == be_bytes(unsigned_of(n as int, 4), 4) + old(buf)@.skip(4),
{
    <BigEndian as byteorder::ByteOrder>::write_i32(buf, n)
}

/// Calls `read_u64` of `byteorder::ByteOrder` for `BigEndian`. Believed: the
/// result is the number that the first 8 bytes of `buf` denote, most
/// significant byte first. The call panics where `buf` is shorter.
#[verifier::external_body]
fn be_read_u64(buf: &[u8]) -> (r: u64)
    requires
        buf@.len() >= 8,
    ensures
        r as nat == be_value(buf@.subrange(0, 8)),
{
    <BigEndian as byteorder::ByteOrder>::read_u64(buf)
}

/// Calls `write_u64` of `byteorder::ByteOrder` for `BigEndian`. Believed: the
/// first 8 bytes of `buf` become the bytes of `n`, most significant byte
/// first, and the bytes after them stay. The call panics where `buf` is
/// shorter.
#[verifier::external_body]
fn be_write_u64(buf: &mut [u8], n: u64)
    requires
        old(buf)@.len() >= 8,
    ensures
        final(buf)@ == be_bytes(n as nat, 8) + old(buf)@.skip(8),
{
    <BigEndian as byteorder::ByteOrder>::write_u64(buf, n)
}

/// Calls `read_i64` of `byteorder::ByteOrder` for `BigEndian`. Believed: the
/// result is the two's-complement reading of the first 8 bytes of `buf`,
/// taken most significant byte first. The call panics where `buf` is shorter.
#[verifier::external_body]
fn be_read_i64(buf: &[u8]) -> (r: i64)
    requires
        buf@.len() >= 8,
    ensures
        r as int == signed_of(be_value(buf@.subrange(0, 8)), 8),
{
    <BigEndian as byteorder::ByteOrder>::read_i64(buf)
}

/// Calls `write_i64` of `byteorder::ByteOrder` for `BigEndian`. Believed: the
/// first 8 bytes of `buf` become the two's-complement bytes of `n`, most
/// significant byte first, and the bytes after them stay. The call panics
/// where `buf` is shorter.
#[verifier::external_body]
fn be_write_i64(buf: &mut [u8], n: i64)
    requires
        old(buf)@.len() >= 8,
    ensures
        final(buf)@ == be_bytes(unsigned_of(n as int, 8), 8) + old(buf)@.skip(8),
{
    <BigEndian as byteorder::ByteOrder>::write_i64(buf, n)
}

} // verus!
