//! The container that keeps a primitive in a fixed byte order.
use crate::bytes::Endian;
use crate::convert::EndianConvert;
use crate::order::ByteOrder;
use core::fmt::{Debug, Formatter};
use core::hash::{Hash, Hasher};
use core::marker::PhantomData;
use vstd::prelude::*;
use vstd::std_specs::convert::{FromSpecImpl, IntoSpecImpl};

verus! {

/// A POD container for a primitive that stores a value in the specified endianness
/// in memory, and transforms on `get`/`set`
///
/// `B` is the byte order and `T` the primitive. `Alignment` decides the
/// alignment of the container: with `T` it is aligned as `T` is, with `()` it
/// can stand at any address. The container is as large as `T` in either case,
/// because it holds nothing but the bytes of the value.
///
/// The view of a container is the sequence of the bytes it holds.
pub struct EndianPrimitive<B, T: EndianConvert, Alignment = ()> {
    _alignment: [Alignment; 0],
    value: T::Unaligned,
    _phantom: PhantomData<B>,
}

impl<B, T: EndianConvert, A> View for EndianPrimitive<B, T, A> {
    type V = Seq<u8>;

    closed spec fn view(&self) -> Seq<u8> {
        self.value@
    }
}

impl<B: ByteOrder, T: EndianConvert, A> EndianPrimitive<B, T, A> {
    /// The bytes that a container of this byte order holds for `v`.
    pub open spec fn stored(v: T) -> Seq<u8> {
        v.encode(B::endian())
    }

    /// The container that holds the bytes of `v`. There is one: `new`
    /// returns it.
    pub open spec fn holding(v: T) -> Self {
        choose|r: Self| r@ == Self::stored(v)
    }

    /// The native value that the bytes of the container stand for.
    pub open spec fn value(&self) -> T {
        T::decode(self@, B::endian())
    }

    /// Creates a new value
    pub fn new(v: T) -> (r: Self)
        ensures
            r == Self::holding(v),
            r@ == Self::stored(v),
            r.value() == v,
    {
        let r = EndianPrimitive {
            _alignment: [],
            value: EndianConvert::to::<B>(v),
            _phantom: PhantomData,
        };
        proof {
            v.lemma_round_trip(B::endian());
            Self::lemma_view_ext(r, Self::holding(v));
        }
        r
    }

    /// Transforms to the native value
    pub fn get(&self) -> (v: T)
        ensures
            v == self.value(),
    {
        EndianConvert::from::<B>(&self.value)
    }

    /// Transforms from a native value
    ///
    /// The bytes held before are overwritten as a whole.
    pub fn set(&mut self, v: T)
        ensures
            *final(self) == Self::holding(v),
            final(self)@ == Self::stored(v),
            final(self).value() == v,
    {
        self.value = EndianConvert::to::<B>(v);
        proof {
            v.lemma_round_trip(B::endian());
            Self::lemma_view_ext(*self, Self::holding(v));
        }
    }

    /// Gets the inner untransformed value
    pub fn raw(&self) -> (r: &T::Unaligned)
        ensures
            r@ == self@,
    {
        &self.value
    }

    /// A mutable reference to the inner untransformed value
    ///
    /// What is written through the reference is what the container holds
    /// afterwards.
    pub fn raw_mut(&mut self) -> (r: &mut T::Unaligned)
        ensures
            r@ == old(self)@,
            final(self)@ == final(r)@,
    {
        &mut self.value
    }

    /// A container is nothing but its bytes: two containers of one type that
    /// hold the same bytes are equal.
    pub proof fn lemma_view_ext(a: Self, b: Self)
        requires
            a@ == b@,
        ensures
            a == b,
    {
        T::lemma_storage_ext(a.value, b.value);
        assert(a._alignment =~= b._alignment);
    }

    /// A container holds as many bytes as the primitive is wide, whatever its
    /// byte order and its alignment.
    pub proof fn lemma_size(a: Self)
        ensures
            a@.len() == T::width(),
    {
        T::lemma_storage_len(a.value);
    }

    /// Writing the same value twice leaves what writing it once leaves:
    /// `once` stands for a container after one `set(v)` and `twice` for it
    /// after a second.
    pub proof fn lemma_set_idempotent(once: Self, twice: Self, v: T)
        requires
            once@ == Self::stored(v),
            twice@ == Self::stored(v),
        ensures
            twice == once,
            twice@ == once@,
            twice.value() == once.value(),
    {
        Self::lemma_view_ext(once, twice);
    }

    /// Containers of any two byte orders and alignments that hold the same
    /// value decode to that value, though one holds the bytes of the other in
    /// reverse where the orders differ.
    pub proof fn lemma_cross_order<B2: ByteOrder, A2>(
        a: Self,
        b: EndianPrimitive<B2, T, A2>,
        v: T,
    )
        requires
            a@ == Self::stored(v),
            b@ == EndianPrimitive::<B2, T, A2>::stored(v),
        ensures
            a.value() == v,
            b.value() == v,
            B::endian() == B2::endian() ==> a@ == b@,
            B::endian() != B2::endian() ==> a@ == b@.reverse(),
    {
        v.lemma_round_trip(B::endian());
        v.lemma_round_trip(B2::endian());
        v.lemma_mirror();
        assert(v.encode(Endian::Little).reverse().reverse() =~= v.encode(Endian::Little));
    }
}

impl<B: ByteOrder, T: Default + EndianConvert, A> Default for EndianPrimitive<B, T, A> {
    /// The container that holds the default value of `T`.
    fn default() -> (r: Self)
        ensures
            call_ensures(T::default, (), r.value()),
            r == Self::holding(r.value()),
            r@ == Self::stored(r.value()),
    {
        Self::new(Default::default())
    }
}

impl<B: ByteOrder, T: EndianConvert, A> From<T> for EndianPrimitive<B, T, A> {
    /// The same as `new`.
    fn from(v: T) -> (r: Self)
        ensures
            r@ == Self::stored(v),
            r.value() == v,
    {
        Self::new(v)
    }
}

impl<B: ByteOrder, T: EndianConvert, A> FromSpecImpl<T> for EndianPrimitive<B, T, A> {
    open spec fn obeys_from_spec() -> bool {
        true
    }

    open spec fn from_spec(v: T) -> Self {
        Self::holding(v)
    }
}

impl<B, T: EndianConvert, A> Clone for EndianPrimitive<B, T, A> {
    /// Copies the bytes.
    fn clone(&self) -> (r: Self)
        ensures
            r == *self,
    {
        let r = EndianPrimitive { _alignment: [], value: self.value, _phantom: PhantomData };
        proof {
            assert(r._alignment =~= self._alignment);
        }
        r
    }
}

impl<B, T: EndianConvert, A: Copy> Copy for EndianPrimitive<B, T, A> {
}

/// Calls `Hash::hash` of a raw representation. Nothing is stated of what the
/// hasher receives: that is up to the `Hash` impl of the representation,
/// which for an array of bytes is std's.
#[verifier::external_body]
fn hash_raw<R: Hash, H: Hasher>(raw: &R, h: &mut H) {
    raw.hash(h)
}

/// The hash is that of the bytes held, not that of the native value. Two
/// containers of different byte orders that compare equal therefore hash
/// differently, unless the bytes of the value read the same in both
/// directions.
impl<B, T: EndianConvert + Hash, A> Hash for EndianPrimitive<B, T, A> where T::Unaligned: Hash {
    fn hash<H: Hasher>(&self, h: &mut H) {
        hash_raw(&self.value, h)
    }
}

/// `core::fmt::Formatter`: where a value is rendered to. Carried through,
/// never looked into.
#[verifier::external_type_specification]
#[verifier::external_body]
pub struct ExFormatter<'a>(Formatter<'a>);

/// `core::fmt::Error`: the error of a rendering that failed.
#[verifier::external_type_specification]
#[verifier::external_body]
pub struct ExFmtError(core::fmt::Error);

/// Calls `Debug::fmt` of `T`. Nothing is stated of what reaches the
/// formatter nor of the result: both are up to the `Debug` impl of `T`.
#[verifier::external_body]
fn debug_fmt<T: Debug>(v: &T, f: &mut Formatter<'_>) -> (r: Result<(), core::fmt::Error>) {
    v.fmt(f)
}

impl<B: ByteOrder, T: Debug + EndianConvert, A> Debug for EndianPrimitive<B, T, A> {
    /// Renders the native value, not the bytes.
    fn fmt(&self, f: &mut Formatter<'_>) -> (r: Result<(), core::fmt::Error>) {
        let v = self.get();
        debug_fmt(&v, f)
    }
}

} // verus!
