//! Byte order: big-endian join and split for each buffer width.

use dc_load_control_loop_rs::codec::{
    from_u16, from_u32, from_u32_full, into_u16, into_u32, into_u32_full,
};

#[test]
fn u16_join_is_big_endian() {
    assert_eq!(into_u16([0xab, 0xcd]), 0xabcd);
    assert_eq!(into_u16([0x00, 0x01]), 0x0001);
    assert_eq!(into_u16([0x01, 0x00]), 0x0100);
}

#[test]
fn u16_split_is_big_endian() {
    assert_eq!(from_u16(0xabcd), [0xab, 0xcd]);
    assert_eq!(from_u16(0x0001), [0x00, 0x01]);
}

#[test]
fn u16_round_trip() {
    for v in [0x0000u16, 0x0001, 0x8000, 0x0cd0, 0xffff] {
        assert_eq!(into_u16(from_u16(v)), v);
    }
    assert_eq!(from_u16(into_u16([0x12, 0x34])), [0x12, 0x34]);
}

#[test]
fn u24_join_is_big_endian_with_zero_top_byte() {
    assert_eq!(into_u32([0x12, 0x34, 0x56]), 0x123456);
    assert_eq!(into_u32([0xff, 0xff, 0xff]), 0xffffff);
    assert!(into_u32([0xff, 0xff, 0xff]) < 0x1000000);
}

#[test]
fn u24_split_takes_the_three_low_bytes() {
    assert_eq!(from_u32(0x123456), [0x12, 0x34, 0x56]);
    assert_eq!(from_u32(0x800000), [0x80, 0x00, 0x00]);
    // A 32-bit value is silently truncated to its low three bytes.
    assert_eq!(from_u32(0xab123456), [0x12, 0x34, 0x56]);
}

#[test]
fn u24_round_trip() {
    for v in [0x000000u32, 0x800000, 0x500000, 0xffffff] {
        assert_eq!(into_u32(from_u32(v)), v);
    }
    assert_eq!(from_u32(into_u32([0xab, 0xcd, 0xef])), [0xab, 0xcd, 0xef]);
}

#[test]
fn u32_join_and_split_are_big_endian() {
    assert_eq!(into_u32_full([0x12, 0x34, 0x56, 0x78]), 0x12345678);
    assert_eq!(from_u32_full(0x12345678), [0x12, 0x34, 0x56, 0x78]);
    assert_eq!(into_u32_full(from_u32_full(0xdeadbeef)), 0xdeadbeef);
}
