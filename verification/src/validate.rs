//! The SUN authentication pipeline: message building, the CMAC-AES128
//! engine, and signature verification.
//!
//! A submission is authentic when the 8-byte signature equals the
//! truncation of a two-stage MAC chain: the tag's key MACs the fixed
//! 16-byte SV2 message, and the resulting 16 bytes, used as a fresh key,
//! MAC the empty message. The odd-indexed bytes of that second MAC form
//! the expected signature.

use vstd::prelude::*;
use aes::Aes128;
use cmac::{Cmac, KeyInit, Mac};
use crate::errors::Error;

verus! {

/// The 16-byte CMAC-AES128 tag of `message` under `key`.
///
/// The MAC is a pure function of the key and message bytes; its value is
/// left unstated and is pinned down only by the published test vectors.
pub uninterp spec fn cmac_of(key: Seq<u8>, message: Seq<u8>) -> Seq<u8>;

/// The fixed 16-byte authentication payload: a 6-byte protocol prefix,
/// the 7-byte tag identifier, and the 3-byte counter in transmission
/// (least-significant-byte-first) order.
pub open spec fn sv2_spec(uid: Seq<u8>, count_lsb: Seq<u8>) -> Seq<u8>
    recommends
        uid.len() == 7,
        count_lsb.len() == 3,
{
    seq![0x3cu8, 0xc3u8, 0x00u8, 0x01u8, 0x00u8, 0x80u8] + uid + count_lsb
}

/// The odd-indexed bytes of a 16-byte MAC, in order: the 8-byte compact
/// signature.
pub open spec fn truncate_spec(full: Seq<u8>) -> Seq<u8>
    recommends
        full.len() == 16,
{
    seq![full[1], full[3], full[5], full[7], full[9], full[11], full[13], full[15]]
}

/// The signature a genuine tag with key `key` emits for `uid` and the
/// counter bytes `count_lsb`: the truncated second stage of the MAC chain.
pub open spec fn sun_signature(key: Seq<u8>, uid: Seq<u8>, count_lsb: Seq<u8>) -> Seq<u8> {
    truncate_spec(cmac_of(cmac_of(key, sv2_spec(uid, count_lsb)), Seq::<u8>::empty()))
}

/// Relies on `Cmac<Aes128>` of the cmac crate: the CMAC is computed from
/// the key and message bytes alone, and its output is one AES block, 16
/// bytes. `new_from_slice` cannot fail here, as it rejects only keys
/// whose length is not 16.
#[verifier::external_body]
fn cmac_aes128(key: &[u8; 16], message: &[u8]) -> (r: Vec<u8>)
    ensures
        r@ == cmac_of(key@, message@),
        r@.len() == 16,
{
    let mut mac = Cmac::<Aes128>::new_from_slice(key.as_slice())
        .expect("a 16-byte key always fits AES-128");
    mac.update(message);
    mac.finalize().into_bytes().to_vec()
}

/// Assemble the canonical 16-byte SV2 message from the protocol prefix,
/// the tag identifier, and the counter in transmission order.
pub fn build_sv2_message(uid: [u8; 7], count_lsb: [u8; 3]) -> (r: [u8; 16])
    ensures
        r@ == sv2_spec(uid@, count_lsb@),
{
    let message: [u8; 16] = [
        0x3c, 0xc3, 0x00, 0x01, 0x00, 0x80,
        uid[0], uid[1], uid[2], uid[3], uid[4], uid[5], uid[6],
        count_lsb[0], count_lsb[1], count_lsb[2],
    ];
    proof {
        assert(message@ =~= sv2_spec(uid@, count_lsb@));
    }
    message
}

/// Compute the 16-byte CMAC-AES128 tag of `message` under `key`.
///
/// With a key fixed at 16 bytes the engine cannot be misconfigured, so
/// the result is always `Ok`.
pub fn mac_message(key: [u8; 16], message: Vec<u8>) -> (r: Result<Vec<u8>, Error>)
    ensures
        r matches Ok(m) && m@ == cmac_of(key@, message@) && m@.len() == 16,
{
    Ok(cmac_aes128(&key, message.as_slice()))
}

/// Select the odd-indexed bytes of a 16-byte MAC as the compact signature.
pub fn truncate_mac(full: &Vec<u8>) -> (r: [u8; 8])
    requires
        full@.len() == 16,
    ensures
        r@ == truncate_spec(full@),
{
    let r: [u8; 8] = [full[1], full[3], full[5], full[7], full[9], full[11], full[13], full[15]];
    proof {
        assert(r@ =~= truncate_spec(full@));
    }
    r
}

/// Compare two 8-byte signatures by accumulating byte differences, so the
/// time taken does not depend on the position of a mismatch.
fn sig_eq(a: &[u8; 8], b: &[u8; 8]) -> (r: bool)
    ensures
        r == (a@ == b@),
{
    let a0 = a[0];
    let a1 = a[1];
    let a2 = a[2];
    let a3 = a[3];
    let a4 = a[4];
    let a5 = a[5];
    let a6 = a[6];
    let a7 = a[7];
    let b0 = b[0];
    let b1 = b[1];
    let b2 = b[2];
    let b3 = b[3];
    let b4 = b[4];
    let b5 = b[5];
    let b6 = b[6];
    let b7 = b[7];
    let diff: u8 = (a0 ^ b0) | (a1 ^ b1) | (a2 ^ b2) | (a3 ^ b3) | (a4 ^ b4) | (a5 ^ b5) | (a6
        ^ b6) | (a7 ^ b7);
    let r = diff == 0;
    proof {
        assert(((a0 ^ b0) | (a1 ^ b1) | (a2 ^ b2) | (a3 ^ b3) | (a4 ^ b4) | (a5 ^ b5) | (a6 ^ b6)
            | (a7 ^ b7)) == 0 <==> (a0 == b0 && a1 == b1 && a2 == b2 && a3 == b3 && a4 == b4 && a5
            == b5 && a6 == b6 && a7 == b7)) by (bit_vector);
        if r {
            assert(a@ =~= b@);
        }
    }
    r
}

/// Verify a Secure Unique NFC message: accept exactly when `signature`
/// equals the truncated two-stage MAC chain over the SV2 message of
/// `uid` and `count`.
pub fn verify_sun(key: [u8; 16], uid: [u8; 7], count: [u8; 3], signature: [u8; 8]) -> (r: Result<
    (),
    Error,
>)
    ensures
        r is Ok <==> sun_signature(key@, uid@, count@) == signature@,
        r is Err ==> r == Result::<(), Error>::Err(Error::SignatureInvalid),
{
    let sv2 = build_sv2_message(uid, count);
    let macd_sv2 = match mac_message(key, slice_to_vec(sv2.as_slice())) {
        Ok(m) => m,
        Err(e) => {
            return Err(e);
        },
    };
    let macd_sized = vec_to_key16(&macd_sv2);
    let full_sun = match mac_message(macd_sized, Vec::new()) {
        Ok(m) => m,
        Err(e) => {
            return Err(e);
        },
    };
    let truncated_sun = truncate_mac(&full_sun);
    if !sig_eq(&truncated_sun, &signature) {
        return Err(Error::SignatureInvalid);
    }
    Ok(())
}

/// Copy a byte slice into a vector.
fn slice_to_vec(s: &[u8]) -> (r: Vec<u8>)
    ensures
        r@ == s@,
{
    let mut r: Vec<u8> = Vec::new();
    let mut i: usize = 0;
    while i < s.len()
        invariant
            i <= s@.len(),
            r@ == s@.subrange(0, i as int),
        decreases s@.len() - i,
    {
        r.push(s[i]);
        proof {
            assert(r@ =~= s@.subrange(0, i + 1));
        }
        i = i + 1;
    }
    proof {
        assert(r@ =~= s@);
    }
    r
}

/// Repack a 16-byte vector as a fixed-size key array.
fn vec_to_key16(v: &Vec<u8>) -> (r: [u8; 16])
    requires
        v@.len() == 16,
    ensures
        r@ == v@,
{
    let r: [u8; 16] = [
        v[0], v[1], v[2], v[3], v[4], v[5], v[6], v[7], v[8], v[9], v[10], v[11], v[12], v[13],
        v[14], v[15],
    ];
    proof {
        assert(r@ =~= v@);
    }
    r
}

} // verus!
