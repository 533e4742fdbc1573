//! Byte sequences read as numbers.
//!
//! A fixed-width integer is stored as the digits of its value in base 256.
//! The two byte orders differ only in the direction in which the digits are
//! written down. Nothing in this module is compiled: it gives the meaning of
//! the byte layouts that the rest of the crate produces, and proves that
//! reading what was written gives the number back.
use vstd::prelude::*;

verus! {

/// The direction in which the bytes of a number are laid out.
#[derive(Clone, Copy, Debug, PartialEq, Eq, Structural)]
pub enum Endian {
    /// Least significant byte first.
    Little,
    /// Most significant byte first.
    Big,
}

/// The number of values that `width` bytes can tell apart: 256 to the power
/// of `width`.
pub open spec fn radix(width: nat) -> nat
    decreases width,
{
    if width == 0 {
        1
    } else {
        256 * radix((width - 1) as nat)
    }
}

/// The number that `bytes` denotes when the first byte is the least
/// significant one.
pub open spec fn le_value(bytes: Seq<u8>) -> nat
    decreases bytes.len(),
{
    if bytes.len() == 0 {
        0
    } else {
        bytes[0] as nat + 256 * le_value(bytes.drop_first())
    }
}

/// The `width` lowest digits of `n` in base 256, least significant first.
pub open spec fn le_bytes(n: nat, width: nat) -> Seq<u8>
    decreases width,
{
    if width == 0 {
        Seq::empty()
    } else {
        seq![(n % 256) as u8] + le_bytes(n / 256, (width - 1) as nat)
    }
}

/// The number that `bytes` denotes when the first byte is the most
/// significant one.
pub open spec fn be_value(bytes: Seq<u8>) -> nat {
    le_value(bytes.reverse())
}

/// The `width` lowest digits of `n` in base 256, most significant first.
pub open spec fn be_bytes(n: nat, width: nat) -> Seq<u8> {
    le_bytes(n, width).reverse()
}

/// The number that `bytes` denotes in the order `e`.
pub open spec fn value_of(bytes: Seq<u8>, e: Endian) -> nat {
    match e {
        Endian::Little => le_value(bytes),
        Endian::Big => be_value(bytes),
    }
}

/// The `width` bytes that store `n` in the order `e`.
pub open spec fn bytes_of(n: nat, width: nat, e: Endian) -> Seq<u8> {
    match e {
        Endian::Little => le_bytes(n, width),
        Endian::Big => be_bytes(n, width),
    }
}

/// The two's-complement reading of the unsigned number `n` of `width` bytes:
/// the upper half of the range stands for the negative numbers.
pub open spec fn signed_of(n: nat, width: nat) -> int {
    if 2 * n < radix(width) {
        n as int
    } else {
        n - radix(width)
    }
}

/// The unsigned number of `width` bytes that stands for `v` in two's
/// complement.
pub open spec fn unsigned_of(v: int, width: nat) -> nat {
    if v >= 0 {
        v as nat
    } else {
        (v + radix(width)) as nat
    }
}

/// Whether `v` is in the range of a signed integer of `width` bytes.
pub open spec fn fits_signed(v: int, width: nat) -> bool {
    -(radix(width) as int) <= 2 * v < radix(width) as int
}

/// The values of `radix` at the widths of the primitive integers.
pub proof fn lemma_radix_values()
    ensures
        radix(0) == 1,
        radix(1) == 0x100,
        radix(2) == 0x1_0000,
        radix(4) == 0x1_0000_0000,
        radix(8) == 0x1_0000_0000_0000_0000,
{
    reveal_with_fuel(radix, 9);
}

/// `le_bytes` yields exactly `width` bytes.
pub proof fn lemma_le_bytes_len(n: nat, width: nat)
    ensures
        le_bytes(n, width).len() == width,
    decreases width,
{
    if width > 0 {
        lemma_le_bytes_len(n / 256, (width - 1) as nat);
    }
}

/// A sequence of bytes denotes a number below `radix` of its length.
pub proof fn lemma_le_value_bound(bytes: Seq<u8>)
    ensures
        le_value(bytes) < radix(bytes.len()),
    decreases bytes.len(),
{
    if bytes.len() > 0 {
        lemma_le_value_bound(bytes.drop_first());
    }
}

/// Reading what was written gives the number back, as long as it fits in
/// `width` bytes.
pub proof fn lemma_le_value_of_bytes(n: nat, width: nat)
    requires
        n < radix(width),
    ensures
        le_value(le_bytes(n, width)) == n,
    decreases width,
{
    if width > 0 {
        let rest = le_bytes(n / 256, (width - 1) as nat);
        lemma_le_value_of_bytes(n / 256, (width - 1) as nat);
        assert(le_bytes(n, width).drop_first() =~= rest);
    }
}

/// `bytes_of` yields exactly `width` bytes, in either order.
pub proof fn lemma_bytes_of_len(n: nat, width: nat, e: Endian)
    ensures
        bytes_of(n, width, e).len() == width,
{
    lemma_le_bytes_len(n, width);
}

/// In either order a sequence of bytes denotes a number below `radix` of its
/// length.
pub proof fn lemma_value_of_bound(bytes: Seq<u8>, e: Endian)
    ensures
        value_of(bytes, e) < radix(bytes.len()),
{
    lemma_le_value_bound(bytes);
    lemma_le_value_bound(bytes.reverse());
}

/// In either order, reading what was written gives the number back, as long
/// as it fits in `width` bytes.
pub proof fn lemma_value_of_bytes(n: nat, width: nat, e: Endian)
    requires
        n < radix(width),
    ensures
        value_of(bytes_of(n, width, e), e) == n,
{
    lemma_le_value_of_bytes(n, width);
    assert(le_bytes(n, width).reverse().reverse() =~= le_bytes(n, width));
}

/// The two orders store the same bytes, one in the reverse direction of the
/// other.
pub proof fn lemma_orders_mirror(n: nat, width: nat)
    ensures
        bytes_of(n, width, Endian::Big) == bytes_of(n, width, Endian::Little).reverse(),
        bytes_of(n, width, Endian::Little) == bytes_of(n, width, Endian::Big).reverse(),
{
    assert(le_bytes(n, width).reverse().reverse() =~= le_bytes(n, width));
}

/// Two's complement loses nothing: a signed number in range comes back from
/// the unsigned number that stands for it, and that number fits the width.
pub proof fn lemma_signed_of_unsigned(v: int, width: nat)
    requires
        width > 0,
        fits_signed(v, width),
    ensures
        unsigned_of(v, width) < radix(width),
        signed_of(unsigned_of(v, width), width) == v,
{
}

} // verus!
