use binrw::BinWrite;
use rustbolt_world::codec::{NullString, WireEncode};
use rustbolt_world::entities::{ObjectGuid, PackedObjectGuid, Position};
use rustbolt_world::protocol::server::{header_size, ServerMessageHeader};
use rustbolt_world::wire::{
    get_i32_le, get_null_string, get_u16_be, get_u16_le, get_u32_le, get_u64_le, put_bool_u32, put_bool_u8,
    put_i32_le, put_null_string, put_u16_be, put_u16_le, put_u32_le, put_u64_le,
};

fn binrw_le<T: for<'a> BinWrite<Args<'a> = ()>>(value: &T) -> Vec<u8> {
    let mut cursor = std::io::Cursor::new(Vec::new());
    value.write_le(&mut cursor).unwrap();
    cursor.into_inner()
}

#[test]
fn integers_are_little_endian() {
    let mut out = Vec::new();
    put_u16_le(&mut out, 0x1234);
    put_u32_le(&mut out, 0x1234_5678);
    put_u64_le(&mut out, 0x0102_0304_0506_0708);
    put_i32_le(&mut out, -2);
    assert_eq!(
        out,
        vec![0x34, 0x12, 0x78, 0x56, 0x34, 0x12, 8, 7, 6, 5, 4, 3, 2, 1, 0xFE, 0xFF, 0xFF, 0xFF]
    );
}

#[test]
fn integers_match_binrw_layout() {
    let mut out = Vec::new();
    put_u32_le(&mut out, 0xDEAD_BEEF);
    assert_eq!(out, binrw_le(&0xDEAD_BEEFu32));
    let mut out = Vec::new();
    put_u64_le(&mut out, 0x1122_3344_5566_7788);
    assert_eq!(out, binrw_le(&0x1122_3344_5566_7788u64));
    let mut out = Vec::new();
    put_i32_le(&mut out, -123456);
    assert_eq!(out, binrw_le(&-123456i32));
}

#[test]
fn big_endian_u16() {
    let mut out = Vec::new();
    put_u16_be(&mut out, 0x0102);
    assert_eq!(out, vec![1, 2]);
    assert_eq!(get_u16_be(&out, 0), 0x0102);
}

#[test]
fn reads_give_back_writes() {
    let mut out = Vec::new();
    put_u16_le(&mut out, 65535);
    put_u32_le(&mut out, 4_000_000_000);
    put_u64_le(&mut out, u64::MAX - 5);
    put_i32_le(&mut out, i32::MIN);
    assert_eq!(get_u16_le(&out, 0), 65535);
    assert_eq!(get_u32_le(&out, 2), 4_000_000_000);
    assert_eq!(get_u64_le(&out, 6), u64::MAX - 5);
    assert_eq!(get_i32_le(&out, 14), i32::MIN);
}

#[test]
fn booleans_take_one_or_four_bytes() {
    let mut out = Vec::new();
    put_bool_u8(&mut out, true);
    put_bool_u8(&mut out, false);
    put_bool_u32(&mut out, true);
    assert_eq!(out, vec![1, 0, 1, 0, 0, 0]);
}

#[test]
fn null_string_matches_binrw() {
    let mut out = Vec::new();
    NullString(b"Hello".to_vec()).encode_into(&mut out);
    assert_eq!(out, binrw_le(&binrw::NullString::from("Hello")));
    let mut out = Vec::new();
    NullString::empty().encode_into(&mut out);
    assert_eq!(out, vec![0]);
}

#[test]
fn null_string_roundtrip() {
    let mut out = Vec::new();
    put_null_string(&mut out, &b"abc".to_vec());
    out.extend_from_slice(&[9, 9]);
    let (s, next) = get_null_string(&out, 0).unwrap();
    assert_eq!(s, b"abc".to_vec());
    assert_eq!(next, 4);
}

#[test]
fn null_string_without_terminator_is_absent() {
    assert!(get_null_string(&[1, 2, 3], 0).is_none());
    assert!(get_null_string(&[1, 2, 3], 3).is_none());
}

#[test]
fn guid_travels_as_u64() {
    let mut out = Vec::new();
    ObjectGuid { raw: 0xF130_0000_0000_0005 }.encode_into(&mut out);
    assert_eq!(out, vec![5, 0, 0, 0, 0, 0, 0x30, 0xF1]);
    assert_eq!(ObjectGuid::zero().raw(), 0);
}

#[test]
fn packed_guid_keeps_nonzero_bytes() {
    let mut out = Vec::new();
    PackedObjectGuid { raw: 0xF130_0000_0000_0005 }.encode_into(&mut out);
    assert_eq!(out, vec![0xC1, 0x05, 0x30, 0xF1]);
    let mut out = Vec::new();
    PackedObjectGuid { raw: 0 }.encode_into(&mut out);
    assert_eq!(out, vec![0]);
    let mut out = Vec::new();
    ObjectGuid { raw: 0x12 }.as_packed().encode_into(&mut out);
    assert_eq!(out, vec![0x01, 0x12]);
    let mut out = Vec::new();
    PackedObjectGuid { raw: u64::MAX }.encode_into(&mut out);
    assert_eq!(out, vec![0xFF, 0xFF, 0xFF, 0xFF, 0xFF, 0xFF, 0xFF, 0xFF, 0xFF]);
}

#[test]
fn position_is_four_floats() {
    let p = Position { x: 1.5f32.to_bits(), y: (-2.0f32).to_bits(), z: 0, o: 3.25f32.to_bits() };
    let mut out = Vec::new();
    p.encode_into(&mut out);
    let mut expected = Vec::new();
    for f in [1.5f32, -2.0, 0.0, 3.25] {
        expected.extend_from_slice(&f.to_le_bytes());
    }
    assert_eq!(out, expected);
}

#[test]
fn server_header_is_size_then_opcode() {
    let mut out = Vec::new();
    ServerMessageHeader { size: 0x0102, opcode: 0x01F6 }.encode_into(&mut out);
    assert_eq!(out, vec![0x01, 0x02, 0xF6, 0x01]);
    assert_eq!(header_size(10), 12);
    assert_eq!(header_size(0), 2);
}

#[test]
fn server_header_reads_back() {
    let mut out = Vec::new();
    ServerMessageHeader { size: 300, opcode: 0x00A9 }.encode_into(&mut out);
    assert_eq!(get_u16_be(&out, 0), 300);
    assert_eq!(get_u16_le(&out, 2), 0x00A9);
}
