//! Equality and order of containers.
//!
//! Containers compare by the native values that they hold, never by their
//! bytes. So a container can be compared with one of another byte order, of
//! another alignment, or of another primitive that its own primitive can be
//! compared with.
use crate::convert::EndianConvert;
use crate::order::ByteOrder;
use crate::primitive::EndianPrimitive;
use core::cmp::Ordering;
use vstd::prelude::*;
use vstd::std_specs::cmp::{OrdSpec, PartialEqSpec, PartialOrdSpec};

verus! {

impl<
    ARHS,
    A,
    BRHS: ByteOrder,
    RHS: EndianConvert,
    B: ByteOrder,
    T: EndianConvert + PartialEq<RHS>,
> PartialEq<EndianPrimitive<BRHS, RHS, ARHS>> for EndianPrimitive<B, T, A> {
    fn eq(&self, other: &EndianPrimitive<BRHS, RHS, ARHS>) -> (r: bool) {
        self.get().eq(&other.get())
    }
}

impl<
    ARHS,
    A,
    BRHS: ByteOrder,
    RHS: EndianConvert,
    B: ByteOrder,
    T: EndianConvert + PartialEq<RHS>,
> vstd::std_specs::cmp::PartialEqSpecImpl<EndianPrimitive<BRHS, RHS, ARHS>>
    for EndianPrimitive<B, T, A> {
    open spec fn obeys_eq_spec() -> bool {
        T::obeys_eq_spec()
    }

    open spec fn eq_spec(&self, other: &EndianPrimitive<BRHS, RHS, ARHS>) -> bool {
        self.value().eq_spec(&other.value())
    }
}

impl<A, B: ByteOrder, T: EndianConvert + Eq> Eq for EndianPrimitive<B, T, A> {
}

impl<
    ARHS,
    A,
    BRHS: ByteOrder,
    RHS: EndianConvert,
    B: ByteOrder,
    T: EndianConvert + PartialOrd<RHS>,
> PartialOrd<EndianPrimitive<BRHS, RHS, ARHS>> for EndianPrimitive<B, T, A> {
    fn partial_cmp(&self, other: &EndianPrimitive<BRHS, RHS, ARHS>) -> (r: Option<Ordering>) {
        self.get().partial_cmp(&other.get())
    }
}

impl<
    ARHS,
    A,
    BRHS: ByteOrder,
    RHS: EndianConvert,
    B: ByteOrder,
    T: EndianConvert + PartialOrd<RHS>,
> vstd::std_specs::cmp::PartialOrdSpecImpl<EndianPrimitive<BRHS, RHS, ARHS>>
    for EndianPrimitive<B, T, A> {
    open spec fn obeys_partial_cmp_spec() -> bool {
        T::obeys_partial_cmp_spec()
    }

    open spec fn partial_cmp_spec(&self, other: &EndianPrimitive<BRHS, RHS, ARHS>) -> Option<
        Ordering,
    > {
        self.value().partial_cmp_spec(&other.value())
    }
}

impl<B: ByteOrder, T: EndianConvert + Ord, A> EndianPrimitive<B, T, A> {
    /// Compares the native values of two containers of one type.
    pub fn cmp(&self, other: &Self) -> (r: Ordering)
        ensures
            T::obeys_cmp_spec() ==> r == self.value().cmp_spec(&other.value()),
    {
        self.get().cmp(&other.get())
    }
}

/// A little-endian and a big-endian container that hold the same value, or
/// two containers of any other byte orders and alignments, compare as the
/// value compares with itself: equal, for every primitive whose `==` is
/// reflexive.
pub proof fn lemma_cross_order_eq<
    B1: ByteOrder,
    B2: ByteOrder,
    A1,
    A2,
    T: EndianConvert + PartialEq,
>(
    a: EndianPrimitive<B1, T, A1>,
    b: EndianPrimitive<B2, T, A2>,
    v: T,
)
    requires
        a@ == EndianPrimitive::<B1, T, A1>::stored(v),
        b@ == EndianPrimitive::<B2, T, A2>::stored(v),
    ensures
        a.eq_spec(&b) == v.eq_spec(&v),
{
    EndianPrimitive::<B1, T, A1>::lemma_cross_order::<B2, A2>(a, b, v);
}

} // verus!
