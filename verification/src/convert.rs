//! The conversion between a primitive value and its bytes in a byte order.
//!
//! [`EndianConvert`] is implemented for the integers of 16, 32 and 64 bits,
//! for the pointer-sized integers and for `bool`. Each implementation says
//! which bytes a value is stored as ([`EndianConvert::encode`]) and which
//! value a sequence of bytes stands for ([`EndianConvert::decode`]), and
//! proves that decoding undoes encoding.
use crate::bytes::{
    bytes_of, lemma_bytes_of_len, lemma_orders_mirror, lemma_radix_values, lemma_signed_of_unsigned,
    lemma_value_of_bound, lemma_value_of_bytes, signed_of, unsigned_of, value_of, Endian,
};
use crate::order::ByteOrder;
use vstd::prelude::*;

verus! {

/// Describes a value that can be converted to and from a specified byte order.
///
/// An implementation fixes the raw representation of the type and the two
/// directions of the conversion. The proof functions are laws that every
/// implementation has to prove.
pub trait EndianConvert: Sized {
    /// The raw representation: an array of bytes as wide as the value.
    type Unaligned: Copy + View<V = Seq<u8>>;

    /// The number of bytes of the raw representation.
    spec fn width() -> nat;

    /// The bytes that store `self` in the order `e`.
    spec fn encode(self, e: Endian) -> Seq<u8>;

    /// The value that `bytes` stand for in the order `e`.
    spec fn decode(bytes: Seq<u8>, e: Endian) -> Self;

    /// Every raw representation holds `width()` bytes.
    proof fn lemma_storage_len(raw: Self::Unaligned)
        ensures
            raw@.len() == Self::width(),
    ;

    /// A raw representation is nothing but its bytes.
    proof fn lemma_storage_ext(a: Self::Unaligned, b: Self::Unaligned)
        requires
            a@ == b@,
        ensures
            a == b,
    ;

    /// A value is stored in `width()` bytes, whatever the value and the order.
    proof fn lemma_encode_len(self, e: Endian)
        ensures
            self.encode(e).len() == Self::width(),
    ;

    /// Decoding the bytes of a value in the order in which they were encoded
    /// gives the value back.
    proof fn lemma_round_trip(self, e: Endian)
        ensures
            Self::decode(self.encode(e), e) == self,
    ;

    /// The big-endian bytes of a value are its little-endian bytes in reverse.
    proof fn lemma_mirror(self)
        ensures
            self.encode(Endian::Big) == self.encode(Endian::Little).reverse(),
    ;

    /// Converts a value from `B`
    fn from<B: ByteOrder>(s: &Self::Unaligned) -> (r: Self)
        ensures
            r == Self::decode(s@, B::endian()),
    ;

    /// Converts a value to `B`
    fn to<B: ByteOrder>(self) -> (r: Self::Unaligned)
        ensures
            r@ == self.encode(B::endian()),
    ;
}

impl EndianConvert for u16 {
    type Unaligned = [u8; 2];

    open spec fn width() -> nat {
        2
    }

    open spec fn encode(self, e: Endian) -> Seq<u8> {
        bytes_of(self as nat, 2, e)
    }

    open spec fn decode(bytes: Seq<u8>, e: Endian) -> u16 {
        value_of(bytes, e) as u16
    }

    proof fn lemma_storage_len(raw: [u8; 2]) {
    }

    proof fn lemma_storage_ext(a: [u8; 2], b: [u8; 2]) {
        assert(a =~= b);
    }

    proof fn lemma_encode_len(self, e: Endian) {
        lemma_bytes_of_len(self as nat, 2, e);
    }

    proof fn lemma_round_trip(self, e: Endian) {
        lemma_radix_values();
        lemma_value_of_bytes(self as nat, 2, e);
    }

    proof fn lemma_mirror(self) {
        lemma_orders_mirror(self as nat, 2);
    }

    fn from<B: ByteOrder>(s: &[u8; 2]) -> (r: u16) {
        proof {
            assert(s@.subrange(0, 2) =~= s@);
            lemma_value_of_bound(s@, B::endian());
            lemma_radix_values();
        }
        B::read_u16(s)
    }

    fn to<B: ByteOrder>(self) -> (r: [u8; 2]) {
        let mut s = [0u8; 2];
        B::write_u16(&mut s, self);
        proof {
            lemma_bytes_of_len(self as nat, 2, B::endian());
            assert(s@ =~= self.encode(B::endian()));
        }
        s
    }
}

impl EndianConvert for i16 {
    type Unaligned = [u8; 2];

    open spec fn width() -> nat {
        2
    }

    open spec fn encode(self, e: Endian) -> Seq<u8> {
        bytes_of(unsigned_of(self as int, 2), 2, e)
    }

    open spec fn decode(bytes: Seq<u8>, e: Endian) -> i16 {
        signed_of(value_of(bytes, e), 2) as i16
    }

    proof fn lemma_storage_len(raw: [u8; 2]) {
    }

    proof fn lemma_storage_ext(a: [u8; 2], b: [u8; 2]) {
        assert(a =~= b);
    }

    proof fn lemma_encode_len(self, e: Endian) {
        lemma_bytes_of_len(unsigned_of(self as int, 2), 2, e);
    }

    proof fn lemma_round_trip(self, e: Endian) {
        lemma_radix_values();
        lemma_signed_of_unsigned(self as int, 2);
        lemma_value_of_bytes(unsigned_of(self as int, 2), 2, e);
    }

    proof fn lemma_mirror(self) {
        lemma_orders_mirror(unsigned_of(self as int, 2), 2);
    }

    fn from<B: ByteOrder>(s: &[u8; 2]) -> (r: i16) {
        proof {
            assert(s@.subrange(0, 2) =~= s@);
            lemma_value_of_bound(s@, B::endian());
            lemma_radix_values();
        }
        B::read_i16(s)
    }

    fn to<B: ByteOrder>(self) -> (r: [u8; 2]) {
        let mut s = [0u8; 2];
        B::write_i16(&mut s, self);
        proof {
            lemma_bytes_of_len(unsigned_of(self as int, 2), 2, B::endian());
            assert(s@ =~= self.encode(B::endian()));
        }
        s
    }
}

impl EndianConvert for u32 {
    type Unaligned = [u8; 4];

    open spec fn width() -> nat {
        4
    }

    open spec fn encode(self, e: Endian) -> Seq<u8> {
        bytes_of(self as nat, 4, e)
    }

    open spec fn decode(bytes: Seq<u8>, e: Endian) -> u32 {
        value_of(bytes, e) as u32
    }

    proof fn lemma_storage_len(raw: [u8; 4]) {
    }

    proof fn lemma_storage_ext(a: [u8; 4], b: [u8; 4]) {
        assert(a =~= b);
    }

    proof fn lemma_encode_len(self, e: Endian) {
        lemma_bytes_of_len(self as nat, 4, e);
    }

    proof fn lemma_round_trip(self, e: Endian) {
        lemma_radix_values();
        lemma_value_of_bytes(self as nat, 4, e);
    }

    proof fn lemma_mirror(self) {
        lemma_orders_mirror(self as nat, 4);
    }

    fn from<B: ByteOrder>(s: &[u8; 4]) -> (r: u32) {
        proof {
            assert(s@.subrange(0, 4) =~= s@);
            lemma_value_of_bound(s@, B::endian());
            lemma_radix_values();
        }
        B::read_u32(s)
    }

    fn to<B: ByteOrder>(self) -> (r: [u8; 4]) {
        let mut s = [0u8; 4];
        B::write_u32(&mut s, self);
        proof {
            lemma_bytes_of_len(self as nat, 4, B::endian());
            assert(s@ =~= self.encode(B::endian()));
        }
        s
    }
}

impl EndianConvert for i32 {
    type Unaligned = [u8; 4];

    open spec fn width() -> nat {
        4
    }

    open spec fn encode(self, e: Endian) -> Seq<u8> {
        bytes_of(unsigned_of(self as int, 4), 4, e)
    }

    open spec fn decode(bytes: Seq<u8>, e: Endian) -> i32 {
        signed_of(value_of(bytes, e), 4) as i32
    }

    proof fn lemma_storage_len(raw: [u8; 4]) {
    }

    proof fn lemma_storage_ext(a: [u8; 4], b: [u8; 4]) {
        assert(a =~= b);
    }

    proof fn lemma_encode_len(self, e: Endian) {
        lemma_bytes_of_len(unsigned_of(self as int, 4), 4, e);
    }

    proof fn lemma_round_trip(self, e: Endian) {
        lemma_radix_values();
        lemma_signed_of_unsigned(self as int, 4);
        lemma_value_of_bytes(unsigned_of(self as int, 4), 4, e);
    }

    proof fn lemma_mirror(self) {
        lemma_orders_mirror(unsigned_of(self as int, 4), 4);
    }

    fn from<B: ByteOrder>(s: &[u8; 4]) -> (r: i32) {
        proof {
            assert(s@.subrange(0, 4) =~= s@);
            lemma_value_of_bound(s@, B::endian());
            lemma_radix_values();
        }
        B::read_i32(s)
    }

    fn to<B: ByteOrder>(self) -> (r: [u8; 4]) {
        let mut s = [0u8; 4];
        B::write_i32(&mut s, self);
        proof {
            lemma_bytes_of_len(unsigned_of(self as int, 4), 4, B::endian());
            assert(s@ =~= self.encode(B::endian()));
        }
        s
    }
}

impl EndianConvert for u64 {
    type Unaligned = [u8; 8];

    open spec fn width() -> nat {
        8
    }

    open spec fn encode(self, e: Endian) -> Seq<u8> {
        bytes_of(self as nat, 8, e)
    }

    open spec fn decode(bytes: Seq<u8>, e: Endian) -> u64 {
        value_of(bytes, e) as u64
    }

    proof fn lemma_storage_len(raw: [u8; 8]) {
    }

    proof fn lemma_storage_ext(a: [u8; 8], b: [u8; 8]) {
        assert(a =~= b);
    }

    proof fn lemma_encode_len(self, e: Endian) {
        lemma_bytes_of_len(self as nat, 8, e);
    }

    proof fn lemma_round_trip(self, e: Endian) {
        lemma_radix_values();
        lemma_value_of_bytes(self as nat, 8, e);
    }

    proof fn lemma_mirror(self) {
        lemma_orders_mirror(self as nat, 8);
    }

    fn from<B: ByteOrder>(s: &[u8; 8]) -> (r: u64) {
        proof {
            assert(s@.subrange(0, 8) =~= s@);
            lemma_value_of_bound(s@, B::endian());
            lemma_radix_values();
        }
        B::read_u64(s)
    }

    fn to<B: ByteOrder>(self) -> (r: [u8; 8]) {
        let mut s = [0u8; 8];
        B::write_u64(&mut s, self);
        proof {
            lemma_bytes_of_len(self as nat, 8, B::endian());
            assert(s@ =~= self.encode(B::endian()));
        }
        s
    }
}

impl EndianConvert for i64 {
    type Unaligned = [u8; 8];

    open spec fn width() -> nat {
        8
    }

    open spec fn encode(self, e: Endian) -> Seq<u8> {
        bytes_of(unsigned_of(self as int, 8), 8, e)
    }

    open spec fn decode(bytes: Seq<u8>, e: Endian) -> i64 {
        signed_of(value_of(bytes, e), 8) as i64
    }

    proof fn lemma_storage_len(raw: [u8; 8]) {
    }

    proof fn lemma_storage_ext(a: [u8; 8], b: [u8; 8]) {
        assert(a =~= b);
    }

    proof fn lemma_encode_len(self, e: Endian) {
        lemma_bytes_of_len(unsigned_of(self as int, 8), 8, e);
    }

    proof fn lemma_round_trip(self, e: Endian) {
        lemma_radix_values();
        lemma_signed_of_unsigned(self as int, 8);
        lemma_value_of_bytes(unsigned_of(self as int, 8), 8, e);
    }

    proof fn lemma_mirror(self) {
        lemma_orders_mirror(unsigned_of(self as int, 8), 8);
    }

    fn from<B: ByteOrder>(s: &[u8; 8]) -> (r: i64) {
        proof {
            assert(s@.subrange(0, 8) =~= s@);
            lemma_value_of_bound(s@, B::endian());
            lemma_radix_values();
        }
        B::read_i64(s)
    }

    fn to<B: ByteOrder>(self) -> (r: [u8; 8]) {
        let mut s = [0u8; 8];
        B::write_i64(&mut s, self);
        proof {
            lemma_bytes_of_len(unsigned_of(self as int, 8), 8, B::endian());
            assert(s@ =~= self.encode(B::endian()));
        }
        s
    }
}

/// The number of bytes of a pointer-sized integer on the target: 4 or 8. The
/// compiler fixes it, and with it the length of the array that stores `usize`
/// and `isize`.
pub const USIZE_BYTES: usize = (usize::BITS / 8) as usize;

/// The length of an array type as a number. Contracts take the width of the
/// pointer-sized integers from their storage type `[u8; USIZE_BYTES]` in this
/// way, so that they speak of the array that the compiler laid out.
pub open spec fn storage_len<const N: usize>() -> nat {
    N as nat
}

/// Reads a `usize` that is stored in `N` bytes, 4 or 8.
fn word_from<B: ByteOrder, const N: usize>(s: &[u8; N]) -> (r: usize)
    requires
        N == 4 || N == 8,
    ensures
        r == value_of(s@, B::endian()) as usize,
{
    proof {
        assert(s@.subrange(0, N as int) =~= s@);
    }
    if N == 8 {
        #[verifier::truncate]
        (B::read_u64(s) as usize)
    } else {
        B::read_u32(s) as usize
    }
}

/// Stores a `usize` in `N` bytes, 4 or 8. In 4 bytes only a value of 32 bits
/// can be stored.
fn word_to<B: ByteOrder, const N: usize>(v: usize) -> (r: [u8; N])
    requires
        N == 8 || (N == 4 && v <= u32::MAX),
    ensures
        r@ == bytes_of(v as nat, N as nat, B::endian()),
{
    let mut s = [0u8; N];
    if N == 8 {
        B::write_u64(&mut s, v as u64);
    } else {
        B::write_u32(&mut s, v as u32);
    }
    proof {
        lemma_bytes_of_len(v as nat, N as nat, B::endian());
        assert(s@ =~= bytes_of(v as nat, N as nat, B::endian()));
    }
    s
}

/// Reads an `isize` that is stored in `N` bytes, 4 or 8.
fn signed_word_from<B: ByteOrder, const N: usize>(s: &[u8; N]) -> (r: isize)
    requires
        N == 4 || N == 8,
    ensures
        r == signed_of(value_of(s@, B::endian()), N as nat) as isize,
{
    proof {
        assert(s@.subrange(0, N as int) =~= s@);
    }
    if N == 8 {
        #[verifier::truncate]
        (B::read_i64(s) as isize)
    } else {
        B::read_i32(s) as isize
    }
}

/// Stores an `isize` in `N` bytes, 4 or 8. In 4 bytes only a value of 32 bits
/// can be stored.
fn signed_word_to<B: ByteOrder, const N: usize>(v: isize) -> (r: [u8; N])
    requires
        N == 8 || (N == 4 && i32::MIN <= v <= i32::MAX),
    ensures
        r@ == bytes_of(unsigned_of(v as int, N as nat), N as nat, B::endian()),
{
    let mut s = [0u8; N];
    if N == 8 {
        B::write_i64(&mut s, v as i64);
    } else {
        B::write_i32(&mut s, v as i32);
    }
    proof {
        lemma_bytes_of_len(unsigned_of(v as int, N as nat), N as nat, B::endian());
        assert(s@ =~= bytes_of(unsigned_of(v as int, N as nat), N as nat, B::endian()));
    }
    s
}

impl EndianConvert for usize {
    type Unaligned = [u8; USIZE_BYTES];

    open spec fn width() -> nat {
        storage_len::<USIZE_BYTES>()
    }

    open spec fn encode(self, e: Endian) -> Seq<u8> {
        bytes_of(self as nat, Self::width(), e)
    }

    open spec fn decode(bytes: Seq<u8>, e: Endian) -> usize {
        value_of(bytes, e) as usize
    }

    proof fn lemma_storage_len(raw: [u8; USIZE_BYTES]) {
    }

    proof fn lemma_storage_ext(a: [u8; USIZE_BYTES], b: [u8; USIZE_BYTES]) {
        assert(a =~= b);
    }

    proof fn lemma_encode_len(self, e: Endian) {
        lemma_bytes_of_len(self as nat, Self::width(), e);
    }

    proof fn lemma_round_trip(self, e: Endian) {
        lemma_radix_values();
        lemma_value_of_bytes(self as nat, Self::width(), e);
    }

    proof fn lemma_mirror(self) {
        lemma_orders_mirror(self as nat, Self::width());
    }

    fn from<B: ByteOrder>(s: &[u8; USIZE_BYTES]) -> (r: usize) {
        word_from::<B, USIZE_BYTES>(s)
    }

    fn to<B: ByteOrder>(self) -> (r: [u8; USIZE_BYTES]) {
        word_to::<B, USIZE_BYTES>(self)
    }
}

impl EndianConvert for isize {
    type Unaligned = [u8; USIZE_BYTES];

    open spec fn width() -> nat {
        storage_len::<USIZE_BYTES>()
    }

    open spec fn encode(self, e: Endian) -> Seq<u8> {
        bytes_of(unsigned_of(self as int, Self::width()), Self::width(), e)
    }

    open spec fn decode(bytes: Seq<u8>, e: Endian) -> isize {
        signed_of(value_of(bytes, e), Self::width()) as isize
    }

    proof fn lemma_storage_len(raw: [u8; USIZE_BYTES]) {
    }

    proof fn lemma_storage_ext(a: [u8; USIZE_BYTES], b: [u8; USIZE_BYTES]) {
        assert(a =~= b);
    }

    proof fn lemma_encode_len(self, e: Endian) {
        lemma_bytes_of_len(unsigned_of(self as int, Self::width()), Self::width(), e);
    }

    proof fn lemma_round_trip(self, e: Endian) {
        lemma_radix_values();
        lemma_signed_of_unsigned(self as int, Self::width());
        lemma_value_of_bytes(unsigned_of(self as int, Self::width()), Self::width(), e);
    }

    proof fn lemma_mirror(self) {
        lemma_orders_mirror(unsigned_of(self as int, Self::width()), Self::width());
    }

    fn from<B: ByteOrder>(s: &[u8; USIZE_BYTES]) -> (r: isize) {
        signed_word_from::<B, USIZE_BYTES>(s)
    }

    fn to<B: ByteOrder>(self) -> (r: [u8; USIZE_BYTES]) {
        signed_word_to::<B, USIZE_BYTES>(self)
    }
}

/// A `bool` is stored in one byte, the same in every order: `true` as 1 and
/// `false` as 0. Every byte but 0 reads as `true`.
impl EndianConvert for bool {
    type Unaligned = [u8; 1];

    open spec fn width() -> nat {
        1
    }

    open spec fn encode(self, e: Endian) -> Seq<u8> {
        seq![if self { 1u8 } else { 0u8 }]
    }

    open spec fn decode(bytes: Seq<u8>, e: Endian) -> bool {
        bytes[0] != 0
    }

    proof fn lemma_storage_len(raw: [u8; 1]) {
    }

    proof fn lemma_storage_ext(a: [u8; 1], b: [u8; 1]) {
        assert(a =~= b);
    }

    proof fn lemma_encode_len(self, e: Endian) {
    }

    proof fn lemma_round_trip(self, e: Endian) {
    }

    proof fn lemma_mirror(self) {
        assert(self.encode(Endian::Big) =~= self.encode(Endian::Little).reverse());
    }

    fn from<B: ByteOrder>(s: &[u8; 1]) -> (r: bool) {
        s[0] != 0
    }

    fn to<B: ByteOrder>(self) -> (r: [u8; 1]) {
        if self {
            [1u8]
        } else {
            [0u8]
        }
    }
}

} // verus!
