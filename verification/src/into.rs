//! The way back from a container to the native value, for each primitive.
use crate::order::ByteOrder;
use crate::primitive::EndianPrimitive;
use vstd::prelude::*;
use vstd::std_specs::convert::IntoSpecImpl;

verus! {

impl<B: ByteOrder, A> Into<u16> for EndianPrimitive<B, u16, A> {
    /// The same as `get`.
    fn into(self) -> (r: u16) {
        self.get()
    }
}

impl<B: ByteOrder, A> IntoSpecImpl<u16> for EndianPrimitive<B, u16, A> {
    open spec fn obeys_into_spec() -> bool {
        true
    }

    open spec fn into_spec(self) -> u16 {
        self.value()
    }
}

impl<B: ByteOrder, A> Into<i16> for EndianPrimitive<B, i16, A> {
    /// The same as `get`.
    fn into(self) -> (r: i16) {
        self.get()
    }
}

impl<B: ByteOrder, A> IntoSpecImpl<i16> for EndianPrimitive<B, i16, A> {
    open spec fn obeys_into_spec() -> bool {
        true
    }

    open spec fn into_spec(self) -> i16 {
        self.value()
    }
}

impl<B: ByteOrder, A> Into<i32> for EndianPrimitive<B, i32, A> {
    /// The same as `get`.
    fn into(self) -> (r: i32) {
        self.get()
    }
}

impl<B: ByteOrder, A> IntoSpecImpl<i32> for EndianPrimitive<B, i32, A> {
    open spec fn obeys_into_spec() -> bool {
        true
    }

    open spec fn into_spec(self) -> i32 {
        self.value()
    }
}

impl<B: ByteOrder, A> Into<u32> for EndianPrimitive<B, u32, A> {
    /// The same as `get`.
    fn into(self) -> (r: u32) {
        self.get()
    }
}

impl<B: ByteOrder, A> IntoSpecImpl<u32> for EndianPrimitive<B, u32, A> {
    open spec fn obeys_into_spec() -> bool {
        true
    }

    open spec fn into_spec(self) -> u32 {
        self.value()
    }
}

impl<B: ByteOrder, A> Into<i64> for EndianPrimitive<B, i64, A> {
    /// The same as `get`.
    fn into(self) -> (r: i64) {
        self.get()
    }
}

impl<B: ByteOrder, A> IntoSpecImpl<i64> for EndianPrimitive<B, i64, A> {
    open spec fn obeys_into_spec() -> bool {
        true
    }

    open spec fn into_spec(self) -> i64 {
        self.value()
    }
}

impl<B: ByteOrder, A> Into<u64> for EndianPrimitive<B, u64, A> {
    /// The same as `get`.
    fn into(self) -> (r: u64) {
        self.get()
    }
}

impl<B: ByteOrder, A> IntoSpecImpl<u64> for EndianPrimitive<B, u64, A> {
    open spec fn obeys_into_spec() -> bool {
        true
    }

    open spec fn into_spec(self) -> u64 {
        self.value()
    }
}

impl<B: ByteOrder, A> Into<usize> for EndianPrimitive<B, usize, A> {
    /// The same as `get`.
    fn into(self) -> (r: usize) {
        self.get()
    }
}

impl<B: ByteOrder, A> IntoSpecImpl<usize> for EndianPrimitive<B, usize, A> {
    open spec fn obeys_into_spec() -> bool {
        true
    }

    open spec fn into_spec(self) -> usize {
        self.value()
    }
}

impl<B: ByteOrder, A> Into<isize> for EndianPrimitive<B, isize, A> {
    /// The same as `get`.
    fn into(self) -> (r: isize) {
        self.get()
    }
}

impl<B: ByteOrder, A> IntoSpecImpl<isize> for EndianPrimitive<B, isize, A> {
    open spec fn obeys_into_spec() -> bool {
        true
    }

    open spec fn into_spec(self) -> isize {
        self.value()
    }
}

impl<B: ByteOrder, A> Into<bool> for EndianPrimitive<B, bool, A> {
    /// The same as `get`.
    fn into(self) -> (r: bool) {
        self.get()
    }
}

impl<B: ByteOrder, A> IntoSpecImpl<bool> for EndianPrimitive<B, bool, A> {
    open spec fn obeys_into_spec() -> bool {
        true
    }

    open spec fn into_spec(self) -> bool {
        self.value()
    }
}

} // verus!
