use byteorder::{BigEndian, LittleEndian};
use byteorder_pod::ByteOrder;

#[test]
fn little_endian_u16() {
    let mut buf = [0xaa; 4];
    <LittleEndian as ByteOrder>::write_u16(&mut buf, 0x1234);
    assert_eq!(buf, [0x34, 0x12, 0xaa, 0xaa]);
    assert_eq!(<LittleEndian as ByteOrder>::read_u16(&[0x01, 0x02, 0x03]), 0x0201);
}

#[test]
fn little_endian_i16() {
    let mut buf = [0xaa; 4];
    <LittleEndian as ByteOrder>::write_i16(&mut buf, -2);
    assert_eq!(buf, [0xfe, 0xff, 0xaa, 0xaa]);
    assert_eq!(<LittleEndian as ByteOrder>::read_i16(&[0x00, 0x80, 0x03]), i16::MIN);
    assert_eq!(<LittleEndian as ByteOrder>::read_i16(&[0xff, 0x7f]), i16::MAX);
}

#[test]
fn little_endian_u32() {
    let mut buf = [0xaa; 6];
    <LittleEndian as ByteOrder>::write_u32(&mut buf, 0xdeadbeef);
    assert_eq!(buf, [0xef, 0xbe, 0xad, 0xde, 0xaa, 0xaa]);
    assert_eq!(<LittleEndian as ByteOrder>::read_u32(&[1, 2, 3, 4, 5]), 0x04030201);
}

#[test]
fn little_endian_i32() {
    let mut buf = [0xaa; 6];
    <LittleEndian as ByteOrder>::write_i32(&mut buf, -0x01020304);
    assert_eq!(buf, [0xfc, 0xfc, 0xfd, 0xfe, 0xaa, 0xaa]);
    assert_eq!(<LittleEndian as ByteOrder>::read_i32(&[0, 0, 0, 0x80, 5]), i32::MIN);
    assert_eq!(<LittleEndian as ByteOrder>::read_i32(&[0xff, 0xff, 0xff, 0xff]), -1);
}

#[test]
fn little_endian_u64() {
    let mut buf = [0xaa; 9];
    <LittleEndian as ByteOrder>::write_u64(&mut buf, 0x0102030405060708);
    assert_eq!(buf, [8, 7, 6, 5, 4, 3, 2, 1, 0xaa]);
    assert_eq!(
        <LittleEndian as ByteOrder>::read_u64(&[8, 7, 6, 5, 4, 3, 2, 1, 0xaa]),
        0x0102030405060708
    );
}

#[test]
fn little_endian_i64() {
    let mut buf = [0xaa; 9];
    <LittleEndian as ByteOrder>::write_i64(&mut buf, -2);
    assert_eq!(buf, [0xfe, 0xff, 0xff, 0xff, 0xff, 0xff, 0xff, 0xff, 0xaa]);
    assert_eq!(
        <LittleEndian as ByteOrder>::read_i64(&[0, 0, 0, 0, 0, 0, 0, 0x80, 0xaa]),
        i64::MIN
    );
}

#[test]
fn big_endian_u16() {
    let mut buf = [0xaa; 4];
    <BigEndian as ByteOrder>::write_u16(&mut buf, 0x1234);
    assert_eq!(buf, [0x12, 0x34, 0xaa, 0xaa]);
    assert_eq!(<BigEndian as ByteOrder>::read_u16(&[0x01, 0x02, 0x03]), 0x0102);
}

#[test]
fn big_endian_i16() {
    let mut buf = [0xaa; 4];
    <BigEndian as ByteOrder>::write_i16(&mut buf, -2);
    assert_eq!(buf, [0xff, 0xfe, 0xaa, 0xaa]);
    assert_eq!(<BigEndian as ByteOrder>::read_i16(&[0x80, 0x00, 0x03]), i16::MIN);
    assert_eq!(<BigEndian as ByteOrder>::read_i16(&[0x7f, 0xff]), i16::MAX);
}

#[test]
fn big_endian_u32() {
    let mut buf = [0xaa; 6];
    <BigEndian as ByteOrder>::write_u32(&mut buf, 0xdeadbeef);
    assert_eq!(buf, [0xde, 0xad, 0xbe, 0xef, 0xaa, 0xaa]);
    assert_eq!(<BigEndian as ByteOrder>::read_u32(&[1, 2, 3, 4, 5]), 0x01020304);
}

#[test]
fn big_endian_i32() {
    let mut buf = [0xaa; 6];
    <BigEndian as ByteOrder>::write_i32(&mut buf, -0x01020304);
    assert_eq!(buf, [0xfe, 0xfd, 0xfc, 0xfc, 0xaa, 0xaa]);
    assert_eq!(<BigEndian as ByteOrder>::read_i32(&[0x80, 0, 0, 0, 5]), i32::MIN);
    assert_eq!(<BigEndian as ByteOrder>::read_i32(&[0xff, 0xff, 0xff, 0xff]), -1);
}

#[test]
fn big_endian_u64() {
    let mut buf = [0xaa; 9];
    <BigEndian as ByteOrder>::write_u64(&mut buf, 0x0102030405060708);
    assert_eq!(buf, [1, 2, 3, 4, 5, 6, 7, 8, 0xaa]);
    assert_eq!(
        <BigEndian as ByteOrder>::read_u64(&[1, 2, 3, 4, 5, 6, 7, 8, 0xaa]),
        0x0102030405060708
    );
}

#[test]
fn big_endian_i64() {
    let mut buf = [0xaa; 9];
    <BigEndian as ByteOrder>::write_i64(&mut buf, -2);
    assert_eq!(buf, [0xff, 0xff, 0xff, 0xff, 0xff, 0xff, 0xff, 0xfe, 0xaa]);
    assert_eq!(
        <BigEndian as ByteOrder>::read_i64(&[0x80, 0, 0, 0, 0, 0, 0, 0, 0xaa]),
        i64::MIN
    );
}
