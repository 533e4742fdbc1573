//! Provides types that assist with byte order conversions of primitive data
//! types.
//!
//! An [`EndianPrimitive`] holds the bytes of a primitive value in a byte order
//! that its type fixes, and hands the value out in the order of the machine.
//! A structure made of such containers has the same layout in memory on every
//! machine, so it can be written to a file or a socket as it stands.
//!
//! ```
//! use byteorder_pod::unaligned::{Be, Le};
//!
//! let id: Le<u16> = From::from(0x2055);
//! let tag: Be<u32> = From::from(0xdeadbeef);
//!
//! assert_eq!(id.raw(), &[0x55, 0x20]);
//! assert_eq!(tag.raw(), &[0xde, 0xad, 0xbe, 0xef]);
//! assert_eq!(tag.get(), 0xdeadbeef);
//! ```
pub mod aligned;
pub mod bytes;
pub mod compare;
pub mod convert;
pub mod into;
pub mod order;
pub mod primitive;
pub mod unaligned;

pub use bytes::Endian;
pub use convert::EndianConvert;
pub use order::ByteOrder;
pub use primitive::EndianPrimitive;
