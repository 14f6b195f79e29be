use byte_order_codec::{
    pack_le_u32, pack_native_u32, unpack_le_u32, unpack_native_u32, LengthMismatch, U32b,
};

#[test]
fn test_pack() {
    assert_eq!(U32b([123, 0, 0, 0]), pack_le_u32(123));
}

#[test]
fn test_unpack() {
    assert_eq!(123, unpack_le_u32(U32b([123, 0, 0, 0])));

    let b = [123, 0, 0, 0, 0u8];
    assert_eq!(123, unpack_le_u32(U32b::from(&b[0..4])));
}

#[test]
fn le_round_trip() {
    for v in [0u32, 1, 123, 0x0100, 0xFFFF, 0x01020304, 0xDEADBEEF, u32::MAX] {
        assert_eq!(v, unpack_le_u32(pack_le_u32(v)));
    }
}

#[test]
fn native_round_trip() {
    for v in [0u32, 1, 123, 0x0100, 0xFFFF, 0x01020304, 0xDEADBEEF, u32::MAX] {
        assert_eq!(v, unpack_native_u32(pack_native_u32(v)));
    }
}

#[test]
fn wire_format_is_little_endian() {
    assert_eq!([123, 0, 0, 0], pack_le_u32(123).0);
    assert_eq!(123u32.to_le_bytes(), pack_le_u32(123).0);
}

#[test]
fn slice_construction_matches_direct_construction() {
    let s = [123, 0, 0, 0, 0u8];
    assert_eq!(Ok(U32b([123, 0, 0, 0])), U32b::try_from_slice(&s[0..4]));
    assert_eq!(U32b([123, 0, 0, 0]), U32b::from(&s[0..4]));
}

#[test]
fn slice_of_wrong_length_is_rejected() {
    let s = [123, 0, 0, 0, 0u8];
    assert_eq!(Err(LengthMismatch { actual: 3 }), U32b::try_from_slice(&s[0..3]));
    assert_eq!(Err(LengthMismatch { actual: 5 }), U32b::try_from_slice(&s[0..5]));
    assert_eq!(Err(LengthMismatch { actual: 0 }), U32b::try_from_slice(&s[0..0]));
}

#[test]
fn equality_is_byte_for_byte() {
    assert_eq!(U32b([1, 2, 3, 4]), U32b([1, 2, 3, 4]));
    assert_ne!(U32b([1, 2, 3, 4]), U32b([1, 2, 3, 5]));
    assert_ne!(U32b([0, 2, 3, 4]), U32b([1, 2, 3, 4]));
}

#[test]
fn end_to_end_scenario() {
    let packed = pack_le_u32(0x01020304);
    assert_eq!([0x04, 0x03, 0x02, 0x01], packed.0);
    assert_eq!(0x01020304, unpack_le_u32(packed));
}
