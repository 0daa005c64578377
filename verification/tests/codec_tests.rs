use sun_registry::state::{
    u32_to_u8_3, u32_to_u8_3_lsb, u64_to_u8_7, u8_3_to_u32, u8_3_to_u32_lsb, u8_7_to_u64, Key, Tag,
};

#[test]
fn be3_round_trips() {
    for n in [0u32, 1, 0x3D, 20, 255, 256, 65_535, 65_536, 12_345_678, 16_777_215] {
        assert_eq!(u8_3_to_u32(u32_to_u8_3(n)), n);
    }
}

#[test]
fn lsb3_round_trips() {
    for n in [0u32, 1, 0x3D, 20, 255, 256, 65_535, 65_536, 12_345_678, 16_777_215] {
        assert_eq!(u8_3_to_u32_lsb(u32_to_u8_3_lsb(n)), n);
    }
}

#[test]
fn be7_round_trips() {
    for n in [
        0u64,
        1,
        255,
        256,
        0x04_DE_5F_1E_AC_C0_40,
        0x04_8F_6A_2A_AA_61_80,
        0xFF_FF_FF_FF_FF_FF_FF,
    ] {
        assert_eq!(u8_7_to_u64(u64_to_u8_7(n)), n);
    }
}

#[test]
fn be3_exact_layout() {
    assert_eq!(u32_to_u8_3(0x3D), [0x00, 0x00, 0x3D]);
    assert_eq!(u32_to_u8_3(0x010203), [0x01, 0x02, 0x03]);
    assert_eq!(u8_3_to_u32([0x01, 0x02, 0x03]), 0x010203);
}

#[test]
fn lsb3_exact_layout() {
    assert_eq!(u32_to_u8_3_lsb(0x3D), [0x3D, 0x00, 0x00]);
    assert_eq!(u32_to_u8_3_lsb(0x010203), [0x03, 0x02, 0x01]);
    assert_eq!(u8_3_to_u32_lsb([0x14, 0x00, 0x00]), 20);
}

#[test]
fn be7_exact_layout() {
    assert_eq!(
        u64_to_u8_7(0x04_DE_5F_1E_AC_C0_40),
        [0x04, 0xDE, 0x5F, 0x1E, 0xAC, 0xC0, 0x40]
    );
    assert_eq!(u8_7_to_u64([0x04, 0xDE, 0x5F, 0x1E, 0xAC, 0xC0, 0x40]), 0x04_DE_5F_1E_AC_C0_40);
}

#[test]
fn tag_accessors() {
    let key = Key { value: [0u8; 16], version: 1 };
    let tag = Tag {
        id: [0x04, 0x8F, 0x6A, 0x2A, 0xAA, 0x61, 0x80],
        change_key: key,
        mac_read_key: key,
        count: [0x14, 0x00, 0x00],
    };
    assert_eq!(tag.count(), 20);
    assert_eq!(tag.uid(), 0x04_8F_6A_2A_AA_61_80);
}
