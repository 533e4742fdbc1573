use byteorder_pod::aligned;
use byteorder_pod::unaligned::{Be, Le, Native};
use byteorder::{BigEndian, LittleEndian};
use byteorder_pod::{EndianConvert, EndianPrimitive};
use std::cmp::Ordering;
use std::collections::hash_map::DefaultHasher;
use std::hash::{Hash, Hasher};

fn hash_of<T: Hash>(v: &T) -> u64 {
    let mut h = DefaultHasher::new();
    v.hash(&mut h);
    h.finish()
}

#[test]
fn exact_bytes_of_each_primitive() {
    assert_eq!(Le::<u16>::new(0x2055).raw(), &[0x55, 0x20]);
    assert_eq!(Be::<u16>::new(0x2055).raw(), &[0x20, 0x55]);
    assert_eq!(Le::<i16>::new(-2).raw(), &[0xfe, 0xff]);
    assert_eq!(Be::<i16>::new(-2).raw(), &[0xff, 0xfe]);
    assert_eq!(Le::<u32>::new(0xdeadbeef).raw(), &[0xef, 0xbe, 0xad, 0xde]);
    assert_eq!(Be::<u32>::new(0xdeadbeef).raw(), &[0xde, 0xad, 0xbe, 0xef]);
    assert_eq!(Le::<i32>::new(i32::MIN).raw(), &[0, 0, 0, 0x80]);
    assert_eq!(Be::<i32>::new(i32::MIN).raw(), &[0x80, 0, 0, 0]);
    assert_eq!(Le::<u64>::new(0x0102030405060708).raw(), &[8, 7, 6, 5, 4, 3, 2, 1]);
    assert_eq!(Be::<u64>::new(0x0102030405060708).raw(), &[1, 2, 3, 4, 5, 6, 7, 8]);
    assert_eq!(Le::<i64>::new(-1).raw(), &[0xff; 8]);
    assert_eq!(Be::<i64>::new(i64::MAX).raw(), &[0x7f, 0xff, 0xff, 0xff, 0xff, 0xff, 0xff, 0xff]);
    assert_eq!(Le::<bool>::new(true).raw(), &[1]);
    assert_eq!(Be::<bool>::new(false).raw(), &[0]);
}

#[test]
fn pointer_sized_integers_use_the_width_of_the_target() {
    let v: usize = 0x0102_0304;
    assert_eq!(&Le::<usize>::new(v).raw()[..], &v.to_le_bytes()[..]);
    assert_eq!(&Be::<usize>::new(v).raw()[..], &v.to_be_bytes()[..]);
    assert_eq!(&Le::<usize>::new(usize::MAX).raw()[..], &usize::MAX.to_le_bytes()[..]);
    let s: isize = -0x0102_0304;
    assert_eq!(&Le::<isize>::new(s).raw()[..], &s.to_le_bytes()[..]);
    assert_eq!(&Be::<isize>::new(s).raw()[..], &s.to_be_bytes()[..]);
    assert_eq!(Be::<isize>::new(isize::MIN).get(), isize::MIN);
    assert_eq!(Le::<isize>::new(isize::MAX).get(), isize::MAX);
    assert_eq!(Be::<usize>::new(usize::MAX).get(), usize::MAX);
}

#[test]
fn native_order_is_the_order_of_the_machine() {
    assert_eq!(Native::<u16>::new(0x1234).raw(), &0x1234u16.to_ne_bytes());
    assert_eq!(Native::<u32>::new(0x12345678).raw(), &0x12345678u32.to_ne_bytes());
    assert_eq!(Native::<i64>::new(-3).raw(), &(-3i64).to_ne_bytes());
    assert_eq!(aligned::Native::<u64>::new(77).get(), 77);
}

#[test]
fn round_trip_u16_exhaustive() {
    for v in 0..=u16::MAX {
        assert_eq!(Le::<u16>::new(v).get(), v);
        assert_eq!(Be::<u16>::new(v).get(), v);
        assert_eq!(Native::<u16>::new(v).get(), v);
    }
}

#[test]
fn round_trip_i16_exhaustive() {
    for v in i16::MIN..=i16::MAX {
        assert_eq!(Le::<i16>::new(v).get(), v);
        assert_eq!(Be::<i16>::new(v).get(), v);
        assert_eq!(Native::<i16>::new(v).get(), v);
    }
}

#[test]
fn round_trip_bool_exhaustive() {
    for v in [false, true] {
        assert_eq!(Le::<bool>::new(v).get(), v);
        assert_eq!(Be::<bool>::new(v).get(), v);
        assert_eq!(Native::<bool>::new(v).get(), v);
    }
}

#[test]
fn round_trip_wide_integers_sampled() {
    for v in [0u32, 1, 0xff, 0x100, 0x8000_0000, 0xdead_beef, u32::MAX] {
        assert_eq!(Le::<u32>::new(v).get(), v);
        assert_eq!(Be::<u32>::new(v).get(), v);
    }
    for v in [i32::MIN, -0x0102_0304, -1, 0, 1, 0x7f, i32::MAX] {
        assert_eq!(Le::<i32>::new(v).get(), v);
        assert_eq!(Be::<i32>::new(v).get(), v);
    }
    for v in [0u64, 1, 0xffff_ffff, 0x1_0000_0000, 0x8000_0000_0000_0000, u64::MAX] {
        assert_eq!(Le::<u64>::new(v).get(), v);
        assert_eq!(Be::<u64>::new(v).get(), v);
    }
    for v in [i64::MIN, -0x0102_0304_0506_0708, -1, 0, 1, i64::MAX] {
        assert_eq!(Le::<i64>::new(v).get(), v);
        assert_eq!(Be::<i64>::new(v).get(), v);
    }
}

#[test]
fn every_byte_pattern_is_an_integer() {
    let mut w = Be::<u16>::new(0);
    for hi in 0..=255u8 {
        for lo in [0u8, 1, 0x7f, 0x80, 0xff] {
            *w.raw_mut() = [hi, lo];
            assert_eq!(w.get(), (hi as u16) * 256 + (lo as u16));
            assert_eq!(Be::<u16>::new(w.get()).raw(), &[hi, lo]);
        }
    }
}

#[test]
fn any_nonzero_byte_is_true() {
    let mut w = Le::<bool>::new(false);
    assert!(!w.get());
    for b in 1..=255u8 {
        w.raw_mut()[0] = b;
        assert!(w.get());
        assert_eq!(w.raw(), &[b]);
    }
    w.raw_mut()[0] = 0;
    assert!(!w.get());
    w.raw_mut()[0] = 2;
    w.set(true);
    assert_eq!(w.raw(), &[1]);
}

#[test]
fn cross_order_equality() {
    let le = Le::<u32>::new(0x0102_0304);
    let be = Be::<u32>::new(0x0102_0304);
    assert!(le == be);
    assert!(be == le);
    assert_ne!(le.raw(), be.raw());
    let mut mirrored = *be.raw();
    mirrored.reverse();
    assert_eq!(le.raw(), &mirrored);

    // A value whose bytes read the same in both directions.
    assert_eq!(Le::<u32>::new(0).raw(), Be::<u32>::new(0).raw());
    assert!(Le::<u32>::new(0) == Be::<u32>::new(0));

    // Alignment does not matter either.
    assert!(aligned::Le::<i64>::new(-9) == Be::<i64>::new(-9));
    assert!(Le::<u32>::new(1) != Be::<u32>::new(0x0100_0000));
}

#[test]
fn order_follows_the_native_value() {
    // As bytes the little-endian 0x0100 is below the little-endian 0x0001.
    let small = Le::<u16>::new(0x0001);
    let large = Le::<u16>::new(0x0100);
    assert!(small < large);
    assert!(large > small);
    assert!(small <= Be::<u16>::new(0x0001));
    assert!(Be::<i32>::new(-1) < Le::<i32>::new(0));
    assert_eq!(small.partial_cmp(&large), Some(Ordering::Less));
    assert_eq!(large.partial_cmp(&Be::<u16>::new(0x0100)), Some(Ordering::Equal));
    assert_eq!(small.cmp(&large), Ordering::Less);
    assert_eq!(large.cmp(&small), Ordering::Greater);
    assert_eq!(large.cmp(&large), Ordering::Equal);
}

#[test]
fn default_is_the_default_of_the_primitive() {
    assert_eq!(Le::<u16>::default().get(), u16::default());
    assert_eq!(Be::<i64>::default().get(), i64::default());
    assert_eq!(Native::<usize>::default().get(), usize::default());
    assert_eq!(aligned::Le::<bool>::default().get(), bool::default());
    assert_eq!(Be::<u32>::default().raw(), &[0; 4]);
}

#[test]
fn set_twice_is_set_once() {
    let mut once = Be::<u32>::new(7);
    once.set(0xcafe_f00d);
    let mut twice = Be::<u32>::new(9);
    twice.set(0xcafe_f00d);
    twice.set(0xcafe_f00d);
    assert_eq!(once.raw(), twice.raw());
    assert_eq!(once.get(), twice.get());
    assert_eq!(twice.raw(), &[0xca, 0xfe, 0xf0, 0x0d]);
}

#[test]
fn set_overwrites_every_byte() {
    let mut w = Le::<u64>::new(u64::MAX);
    w.set(1);
    assert_eq!(w.raw(), &[1, 0, 0, 0, 0, 0, 0, 0]);
    assert_eq!(w.get(), 1);
}

#[test]
fn conversions_agree_with_new_and_get() {
    let a: Le<u16> = From::from(0x2055);
    let b: Le<u16> = 0x2055.into();
    assert!(a == Le::<u16>::new(0x2055));
    assert_eq!(a.raw(), b.raw());

    let x: u16 = a.into();
    assert_eq!(x, 0x2055);
    let y: i16 = Be::<i16>::new(-5).into();
    assert_eq!(y, -5);
    let z: i32 = Le::<i32>::new(-6).into();
    assert_eq!(z, -6);
    let u: u32 = Be::<u32>::new(6).into();
    assert_eq!(u, 6);
    let l: i64 = Le::<i64>::new(i64::MIN).into();
    assert_eq!(l, i64::MIN);
    let m: u64 = Be::<u64>::new(u64::MAX).into();
    assert_eq!(m, u64::MAX);
    let p: usize = Le::<usize>::new(12).into();
    assert_eq!(p, 12);
    let q: isize = Be::<isize>::new(-12).into();
    assert_eq!(q, -12);
    let t: bool = Le::<bool>::new(true).into();
    assert!(t);
}

#[test]
fn a_copy_is_independent() {
    let a = Be::<u16>::new(3);
    let mut b = a;
    let c = a.clone();
    b.set(4);
    assert_eq!(a.get(), 3);
    assert_eq!(b.get(), 4);
    assert_eq!(c.raw(), a.raw());
}

#[test]
fn hash_is_that_of_the_bytes() {
    let le = Le::<u32>::new(1);
    let be = Be::<u32>::new(1);
    assert_eq!(hash_of(&le), hash_of(le.raw()));
    assert_eq!(hash_of(&be), hash_of(be.raw()));
    assert_eq!(hash_of(&le), hash_of(&aligned::Le::<u32>::new(1)));
    // Equal, but hashed differently.
    assert!(le == be);
    assert_ne!(hash_of(&le), hash_of(&be));
    assert_eq!(hash_of(&Le::<u32>::new(0)), hash_of(&Be::<u32>::new(0)));
}

#[test]
fn debug_renders_the_native_value() {
    assert_eq!(format!("{:?}", Be::<u16>::new(0x0102)), "258");
    assert_eq!(format!("{:?}", Le::<i32>::new(-7)), "-7");
    assert_eq!(format!("{:?}", Le::<bool>::new(true)), "true");
    assert_eq!(format!("{:#x}", 0), "0x0");
    assert_eq!(format!("{:x?}", Le::<u16>::new(255)), "ff");
}

#[test]
fn explicit_type_parameters() {
    let w: EndianPrimitive<byteorder::BigEndian, u16> = EndianPrimitive::new(0x0102);
    assert_eq!(w.raw(), &[1, 2]);
    let n: EndianPrimitive<byteorder::NetworkEndian, u32, u32> = EndianPrimitive::new(1);
    assert_eq!(n.raw(), &[0, 0, 0, 1]);
}

#[test]
fn conversion_without_a_container() {
    assert_eq!(<u16 as EndianConvert>::to::<LittleEndian>(0x0102), [2, 1]);
    assert_eq!(<u16 as EndianConvert>::to::<BigEndian>(0x0102), [1, 2]);
    assert_eq!(<u16 as EndianConvert>::from::<LittleEndian>(&[2, 1]), 0x0102);
    assert_eq!(<i32 as EndianConvert>::from::<BigEndian>(&[0xff, 0xff, 0xff, 0xfe]), -2);
    assert_eq!(
        <i64 as EndianConvert>::to::<BigEndian>(-2),
        [0xff, 0xff, 0xff, 0xff, 0xff, 0xff, 0xff, 0xfe]
    );
    assert_eq!(<bool as EndianConvert>::to::<BigEndian>(true), [1]);
    assert!(<bool as EndianConvert>::from::<LittleEndian>(&[0x80]));
    assert!(!<bool as EndianConvert>::from::<LittleEndian>(&[0]));
    assert_eq!(
        &<usize as EndianConvert>::to::<BigEndian>(258)[..],
        &258usize.to_be_bytes()[..]
    );
    assert_eq!(
        <isize as EndianConvert>::from::<LittleEndian>(&(-258isize).to_le_bytes()),
        -258
    );
}
