//! Unaligned type aliases
use crate::primitive::EndianPrimitive;
use vstd::prelude::*;

verus! {

/// A type alias for unaligned little endian primitives
pub type Le<T> = EndianPrimitive<byteorder::LittleEndian, T, ()>;

/// A type alias for unaligned big endian primitives
pub type Be<T> = EndianPrimitive<byteorder::BigEndian, T, ()>;

/// A type alias for unaligned native endian primitives
pub type Native<T> = EndianPrimitive<byteorder::NativeEndian, T, ()>;

} // verus!
