use std::convert::TryInto;
use sun_registry::errors::Error;
use sun_registry::msg::{ExecuteMsg, InstantiateMsg, QueryMsg};
use sun_registry::registry::Registry;
use sun_registry::state::{u32_to_u8_3_lsb, u8_7_to_u64, Key, Tag};
use sun_registry::validate::{build_sv2_message, mac_message, truncate_mac};

const UID: [u8; 7] = [0x04, 0x8F, 0x6A, 0x2A, 0xAA, 0x61, 0x80];

fn zero_key() -> Key {
    Key { value: [0x00; 16], version: 0 }
}

fn sample_tag(id: [u8; 7], count: u32) -> Tag {
    Tag { id, change_key: zero_key(), mac_read_key: zero_key(), count: u32_to_u8_3_lsb(count) }
}

/// The signature a genuine tag would emit: the truncated two-stage CMAC
/// chain, computed through the library's own MAC engine.
fn genuine_signature(key: [u8; 16], uid: [u8; 7], count: u32) -> [u8; 8] {
    let sv2 = build_sv2_message(uid, u32_to_u8_3_lsb(count));
    let macd_sv2 = mac_message(key, sv2.to_vec()).unwrap();
    let macd_sized: [u8; 16] = macd_sv2.as_slice().try_into().unwrap();
    let full_sun = mac_message(macd_sized, Vec::new()).unwrap();
    truncate_mac(&full_sun)
}

fn registry_with_tag(count: u32) -> Registry {
    let mut reg = Registry::new("creator".to_string());
    let admin = "creator".to_string();
    reg.try_register(&admin, sample_tag(UID, count)).unwrap();
    reg
}

#[test]
fn registry_initialization() {
    // initialization carries no payload; the caller becomes the admin
    let _init = InstantiateMsg {};
    let reg = Registry::new("creator".to_string());
    let value = reg.query(QueryMsg::GetAdmin);
    assert_eq!("creator", value.admin);
    assert_eq!(reg.tags.len(), 0);
}

#[test]
fn anti_replay() {
    let mut reg = registry_with_tag(20);

    let any: [u8; 8] = [0xAB; 8];
    assert_eq!(reg.try_validate(UID, 20, any), Err(Error::Replay));
    assert_eq!(reg.try_validate(UID, 19, any), Err(Error::Replay));

    let good = genuine_signature([0x00; 16], UID, 21);
    assert_eq!(reg.try_validate(UID, 21, good), Ok(()));
    assert_eq!(reg.tags[0].count(), 21);
}

#[test]
fn range_guard() {
    let mut reg = registry_with_tag(20);
    let any: [u8; 8] = [0xAB; 8];
    assert_eq!(reg.try_validate(UID, 16_777_216, any), Err(Error::Range));
    assert_eq!(reg.tags[0].count(), 20);
}

#[test]
fn idempotent_rejection() {
    let mut reg = registry_with_tag(20);
    let good_but_stale = genuine_signature([0x00; 16], UID, 20);
    assert_eq!(reg.try_validate(UID, 20, good_but_stale), Err(Error::Replay));
    assert_eq!(reg.try_validate(UID, 20, good_but_stale), Err(Error::Replay));
    assert_eq!(reg.tags[0].count(), 20);
}

#[test]
fn registration_uniqueness() {
    let mut reg = registry_with_tag(0);
    let admin = "creator".to_string();
    let r = reg.try_register(&admin, sample_tag(UID, 5));
    assert_eq!(r, Err(Error::Conflict));
    assert_eq!(reg.tags.len(), 1);
    assert_eq!(reg.tags[0].count(), 0);
}

#[test]
fn registration_authorization() {
    let mut reg = Registry::new("creator".to_string());
    let intruder = "mallory".to_string();
    let r = reg.try_register(&intruder, sample_tag(UID, 0));
    assert_eq!(r, Err(Error::Authorization));
    assert_eq!(reg.tags.len(), 0);
}

#[test]
fn validate_unknown_id() {
    let mut reg = Registry::new("creator".to_string());
    let any: [u8; 8] = [0xAB; 8];
    assert_eq!(reg.try_validate(UID, 1, any), Err(Error::NotFound));
}

#[test]
fn signature_mismatch_rejected() {
    let mut reg = registry_with_tag(20);
    let bad: [u8; 8] = [0xAB; 8];
    assert_eq!(reg.try_validate(UID, 21, bad), Err(Error::SignatureInvalid));
    assert_eq!(reg.tags[0].count(), 20);
}

#[test]
fn execute_dispatch() {
    let mut reg = Registry::new("creator".to_string());
    let admin = "creator".to_string();

    let r = reg.execute(&admin, ExecuteMsg::Register { tag: sample_tag(UID, 20) });
    assert_eq!(r, Ok(()));

    let good = genuine_signature([0x00; 16], UID, 21);
    let id = u8_7_to_u64(UID);
    let r = reg.execute(&admin, ExecuteMsg::Validate { id, count: 21, signature: good });
    assert_eq!(r, Ok(()));
    assert_eq!(reg.tags[0].count(), 21);

    // an identifier above 2^56 can name no 7-byte id
    let r = reg.execute(
        &admin,
        ExecuteMsg::Validate { id: 1 << 56, count: 22, signature: good },
    );
    assert_eq!(r, Err(Error::NotFound));
}

#[test]
fn error_messages() {
    assert_eq!(Error::Authorization.message(), "Only the contract admin can register new tags");
    assert_eq!(Error::Conflict.message(), "Tag with ID already registered");
    assert_eq!(Error::NotFound.message(), "Tag with ID not found");
    assert_eq!(Error::Range.message(), "Count maximum has been exceeded");
    assert_eq!(Error::Replay.message(), "Count is older than latest seen");
    assert_eq!(Error::SignatureInvalid.message(), "Provided signature is invalid");
    assert_eq!(Error::Configuration.message(), "Invalid MAC key length");
}
