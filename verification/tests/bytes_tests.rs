use verotype::bytes::{push_u16_be, push_u32_be, to_i16, to_i32, to_i64, to_i8};

#[test]
fn words_are_reinterpreted_as_signed() {
    assert_eq!(to_i8(0), 0);
    assert_eq!(to_i8(0x7f), 127);
    assert_eq!(to_i8(0x80), -128);
    assert_eq!(to_i8(0xff), -1);
    assert_eq!(to_i16(0), 0);
    assert_eq!(to_i16(0x8000), -32768);
    assert_eq!(to_i16(0x7fff), 32767);
    assert_eq!(to_i16(0xff9c), -100);
    assert_eq!(to_i32(0xffff_ffff), -1);
    assert_eq!(to_i32(0x7fff_ffff), i32::MAX);
    assert_eq!(to_i32(0x8000_0000), i32::MIN);
    assert_eq!(to_i64(0x8000_0000_0000_0000), i64::MIN);
    assert_eq!(to_i64(u64::MAX), -1);
    assert_eq!(to_i64(0x7fff_ffff_ffff_ffff), i64::MAX);
}

#[test]
fn reinterpreting_agrees_with_a_cast() {
    for raw in [0u16, 1, 0x7ffe, 0x7fff, 0x8000, 0x8001, 0xfffe, 0xffff] {
        assert_eq!(to_i16(raw), raw as i16);
    }
    for raw in 0u8..=255 {
        assert_eq!(to_i8(raw), raw as i8);
    }
    for raw in [0u32, 0x7fff_ffff, 0x8000_0000, 0x8000_0001, u32::MAX] {
        assert_eq!(to_i32(raw), raw as i32);
    }
    for raw in [0u64, 0x7fff_ffff_ffff_ffff, 0x8000_0000_0000_0000, 0x8000_0000_0000_0001, u64::MAX] {
        assert_eq!(to_i64(raw), raw as i64);
    }
}

#[test]
fn numbers_are_written_most_significant_byte_first() {
    let mut out: Vec<u8> = vec![9];
    push_u16_be(&mut out, 0x1234);
    push_u32_be(&mut out, 0xdead_beef);
    assert_eq!(out, vec![9, 0x12, 0x34, 0xde, 0xad, 0xbe, 0xef]);
}

#[test]
fn writing_agrees_with_the_standard_library() {
    for value in [0u16, 1, 0x00ff, 0x0100, 0x8000, 0xfffe, u16::MAX] {
        let mut out: Vec<u8> = Vec::new();
        push_u16_be(&mut out, value);
        assert_eq!(out, value.to_be_bytes().to_vec());
    }
    for value in [0u32, 1, 0x0001_0000, 0x7474_6366, 0x8000_0000, u32::MAX] {
        let mut out: Vec<u8> = Vec::new();
        push_u32_be(&mut out, value);
        assert_eq!(out, value.to_be_bytes().to_vec());
    }
}
