//! Aligned type aliases
use crate::primitive::EndianPrimitive;
use vstd::prelude::*;

verus! {

/// A type alias for little endian primitives
pub type Le<T> = EndianPrimitive<byteorder::LittleEndian, T, T>;

/// A type alias for big endian primitives
pub type Be<T> = EndianPrimitive<byteorder::BigEndian, T, T>;

/// A type alias for native endian primitives
pub type Native<T> = EndianPrimitive<byteorder::NativeEndian, T, T>;

} // verus!
