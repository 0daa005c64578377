use std::convert::TryInto;
use sun_registry::validate::{build_sv2_message, mac_message, verify_sun};

#[test]
fn mac_calculation_spec() {
    // key is 00000000000000000000000000000000
    let key: [u8; 16] = [0x00; 16];
    // count is 3D0000
    let count: [u8; 3] = [0x3D, 0x00, 0x00];
    // uid is 04DE5F1EACC040
    let uid: [u8; 7] = [0x04, 0xDE, 0x5F, 0x1E, 0xAC, 0xC0, 0x40];

    let constructed_sv2_message =
        build_sv2_message(uid.as_slice().try_into().unwrap(), count.try_into().unwrap());

    // expected message is 3CC30001008004DE5F1EACC0403D0000
    let expected_sv2_message: [u8; 16] = [
        0x3C, 0xC3, 0x00, 0x01, 0x00, 0x80, 0x04, 0xDE, 0x5F, 0x1E, 0xAC, 0xC0, 0x40, 0x3D, 0x00,
        0x00,
    ];
    assert_eq!(expected_sv2_message, constructed_sv2_message);

    // expected mac message is 3FB5F6E3A807A03D5E3570ACE393776F
    let expected_macd_message: [u8; 16] = [
        0x3F, 0xB5, 0xF6, 0xE3, 0xA8, 0x07, 0xA0, 0x3D, 0x5E, 0x35, 0x70, 0xAC, 0xE3, 0x93, 0x77,
        0x6F,
    ];
    let macd_message = mac_message(key, constructed_sv2_message.to_vec()).unwrap();
    let macd_message_sized: [u8; 16] = macd_message.as_slice().try_into().unwrap();
    assert_eq!(expected_macd_message, macd_message_sized);

    let macd_full_sun = mac_message(macd_message_sized, Vec::new()).unwrap();
    let truncated_sun: [u8; 8] = [
        macd_full_sun[1],
        macd_full_sun[3],
        macd_full_sun[5],
        macd_full_sun[7],
        macd_full_sun[9],
        macd_full_sun[11],
        macd_full_sun[13],
        macd_full_sun[15],
    ];

    // expected SUN message is 94EED9EE65337086
    let expected_sun: [u8; 8] = [0x94, 0xEE, 0xD9, 0xEE, 0x65, 0x33, 0x70, 0x86];
    assert_eq!(expected_sun, truncated_sun.as_slice());

    // make sure function also validates same input
    verify_sun(key, uid.as_slice().try_into().unwrap(), count, expected_sun).unwrap();
}

#[test]
fn mac_calculation() {
    let key: [u8; 16] = [0x00; 16];

    // count in LSB-first transmission order
    let count: [u8; 3] = [0x14, 0x00, 0x00];
    let expected_response: [u8; 8] =
        base16::decode(b"5A05F24AB8AC29EC").unwrap().as_slice().try_into().unwrap();
    let uid: [u8; 7] = [0x04, 0x8F, 0x6A, 0x2A, 0xAA, 0x61, 0x80];

    verify_sun(
        key,
        uid.as_slice().try_into().unwrap(),
        count,
        expected_response.as_slice().try_into().unwrap(),
    )
    .unwrap();
}

#[test]
fn truncation_selects_odd_bytes() {
    let full: Vec<u8> = (0u8..16u8).collect();
    let truncated = sun_registry::validate::truncate_mac(&full);
    assert_eq!(truncated, [1, 3, 5, 7, 9, 11, 13, 15]);
}

#[test]
fn verify_sun_rejects_wrong_signature() {
    let key: [u8; 16] = [0x00; 16];
    let count: [u8; 3] = [0x14, 0x00, 0x00];
    let uid: [u8; 7] = [0x04, 0x8F, 0x6A, 0x2A, 0xAA, 0x61, 0x80];
    // one bit flipped in the known-good signature
    let bad: [u8; 8] = [0x5B, 0x05, 0xF2, 0x4A, 0xB8, 0xAC, 0x29, 0xEC];
    let r = verify_sun(key, uid, count, bad);
    assert_eq!(r, Err(sun_registry::errors::Error::SignatureInvalid));
}
