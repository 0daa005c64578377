//! Data model of the tag registry and the fixed-width byte codecs.
//!
//! Counters travel as 3-byte values and tag identifiers as 7-byte values.
//! The codecs here convert between those byte arrays and the machine
//! integers the logic computes with. Two orientations exist: the
//! big-endian form (`u32_to_u8_3` / `u8_3_to_u32` and the 7-byte pair),
//! and the least-significant-byte-first form used for the counter both in
//! the authentication message and in storage (`u32_to_u8_3_lsb` /
//! `u8_3_to_u32_lsb`).

use vstd::prelude::*;
use vstd::arithmetic::div_mod::{
    lemma_div_denominator, lemma_div_pos_is_pos, lemma_fundamental_div_mod,
    lemma_mod_division_less_than_divisor, lemma_multiply_divide_lt,
};

verus! {

/// The 24-bit value held by a 3-byte array read most-significant byte first.
pub open spec fn be3_value(b: Seq<u8>) -> int
    recommends
        b.len() == 3,
{
    b[0] * 0x1_0000 + b[1] * 0x100 + b[2]
}

/// The 3-byte big-endian serialization of a value below 2^24.
pub open spec fn be3_of(n: int) -> Seq<u8>
    recommends
        0 <= n < 0x100_0000,
{
    seq![(n / 0x1_0000) as u8, ((n / 0x100) % 0x100) as u8, (n % 0x100) as u8]
}

/// The 24-bit value held by a 3-byte array read least-significant byte first.
pub open spec fn le3_value(b: Seq<u8>) -> int
    recommends
        b.len() == 3,
{
    b[2] * 0x1_0000 + b[1] * 0x100 + b[0]
}

/// The 3-byte least-significant-byte-first serialization of a value below 2^24.
pub open spec fn le3_of(n: int) -> Seq<u8>
    recommends
        0 <= n < 0x100_0000,
{
    seq![(n % 0x100) as u8, ((n / 0x100) % 0x100) as u8, (n / 0x1_0000) as u8]
}

/// The 56-bit value held by a 7-byte array read most-significant byte first.
pub open spec fn be7_value(b: Seq<u8>) -> int
    recommends
        b.len() == 7,
{
    b[0] * 0x1_0000_0000_0000 + b[1] * 0x100_0000_0000 + b[2] * 0x1_0000_0000
        + b[3] * 0x100_0000 + b[4] * 0x1_0000 + b[5] * 0x100 + b[6]
}

/// The 7-byte big-endian serialization of a value below 2^56.
pub open spec fn be7_of(n: int) -> Seq<u8>
    recommends
        0 <= n < 0x100_0000_0000_0000,
{
    seq![
        (n / 0x1_0000_0000_0000) as u8,
        ((n / 0x100_0000_0000) % 0x100) as u8,
        ((n / 0x1_0000_0000) % 0x100) as u8,
        ((n / 0x100_0000) % 0x100) as u8,
        ((n / 0x1_0000) % 0x100) as u8,
        ((n / 0x100) % 0x100) as u8,
        (n % 0x100) as u8,
    ]
}

/// A quotient by a power of 256 equals iterated quotients by 256.
proof fn lemma_digit_split(n: int)
    requires
        0 <= n,
    ensures
        n / 0x1_0000 == (n / 0x100) / 0x100,
        n / 0x100_0000 == (n / 0x1_0000) / 0x100,
        n / 0x1_0000_0000 == (n / 0x100_0000) / 0x100,
        n / 0x100_0000_0000 == (n / 0x1_0000_0000) / 0x100,
        n / 0x1_0000_0000_0000 == (n / 0x100_0000_0000) / 0x100,
{
    lemma_div_denominator(n, 0x100, 0x100);
    lemma_div_denominator(n, 0x1_0000, 0x100);
    lemma_div_denominator(n, 0x100_0000, 0x100);
    lemma_div_denominator(n, 0x1_0000_0000, 0x100);
    lemma_div_denominator(n, 0x100_0000_0000, 0x100);
}

/// Decoding the 3-byte big-endian serialization of `n` yields `n` again.
pub proof fn lemma_be3_roundtrip(n: int)
    requires
        0 <= n < 0x100_0000,
    ensures
        be3_value(be3_of(n)) == n,
        0 <= n / 0x1_0000 < 0x100,
{
    lemma_fundamental_div_mod(n, 0x100);
    lemma_fundamental_div_mod(n / 0x100, 0x100);
    lemma_digit_split(n);
    lemma_div_pos_is_pos(n, 0x1_0000);
    lemma_multiply_divide_lt(n, 0x1_0000, 0x100);
    lemma_mod_division_less_than_divisor(n, 0x100);
    lemma_mod_division_less_than_divisor(n / 0x100, 0x100);
    lemma_div_pos_is_pos(n, 0x100);
}

/// Decoding the 3-byte least-significant-byte-first serialization of `n`
/// yields `n` again.
pub proof fn lemma_le3_roundtrip(n: int)
    requires
        0 <= n < 0x100_0000,
    ensures
        le3_value(le3_of(n)) == n,
{
    lemma_be3_roundtrip(n);
    assert(le3_value(le3_of(n)) == be3_value(be3_of(n)));
}

/// Decoding the 7-byte big-endian serialization of `n` yields `n` again.
pub proof fn lemma_be7_roundtrip(n: int)
    requires
        0 <= n < 0x100_0000_0000_0000,
    ensures
        be7_value(be7_of(n)) == n,
        0 <= n / 0x1_0000_0000_0000 < 0x100,
{
    lemma_fundamental_div_mod(n, 0x100);
    lemma_fundamental_div_mod(n / 0x100, 0x100);
    lemma_fundamental_div_mod(n / 0x1_0000, 0x100);
    lemma_fundamental_div_mod(n / 0x100_0000, 0x100);
    lemma_fundamental_div_mod(n / 0x1_0000_0000, 0x100);
    lemma_fundamental_div_mod(n / 0x100_0000_0000, 0x100);
    lemma_digit_split(n);
    lemma_div_pos_is_pos(n, 0x1_0000_0000_0000);
    lemma_multiply_divide_lt(n, 0x1_0000_0000_0000, 0x100);
    lemma_mod_division_less_than_divisor(n, 0x100);
    lemma_mod_division_less_than_divisor(n / 0x100, 0x100);
    lemma_mod_division_less_than_divisor(n / 0x1_0000, 0x100);
    lemma_mod_division_less_than_divisor(n / 0x100_0000, 0x100);
    lemma_mod_division_less_than_divisor(n / 0x1_0000_0000, 0x100);
    lemma_mod_division_less_than_divisor(n / 0x100_0000_0000, 0x100);
    lemma_div_pos_is_pos(n, 0x100);
    lemma_div_pos_is_pos(n / 0x100, 0x100);
    lemma_div_pos_is_pos(n / 0x1_0000, 0x100);
    lemma_div_pos_is_pos(n / 0x100_0000, 0x100);
    lemma_div_pos_is_pos(n / 0x1_0000_0000, 0x100);
}

/// Serialize a counter value below 2^24 as 3 bytes, most-significant first.
pub fn u32_to_u8_3(input: u32) -> (r: [u8; 3])
    requires
        input < 0x100_0000,
    ensures
        r@ == be3_of(input as int),
        be3_value(r@) == input,
{
    proof {
        lemma_be3_roundtrip(input as int);
    }
    let b0: u8 = (input / 0x1_0000) as u8;
    let b1: u8 = ((input / 0x100) % 0x100) as u8;
    let b2: u8 = (input % 0x100) as u8;
    let r: [u8; 3] = [b0, b1, b2];
    proof {
        assert(r@ =~= be3_of(input as int));
    }
    r
}

/// Read a 3-byte array as a most-significant-byte-first counter value.
pub fn u8_3_to_u32(input: [u8; 3]) -> (r: u32)
    ensures
        r == be3_value(input@),
        r < 0x100_0000,
{
    (input[0] as u32) * 0x1_0000 + (input[1] as u32) * 0x100 + (input[2] as u32)
}

/// Serialize a counter value below 2^24 as 3 bytes, least-significant first.
pub fn u32_to_u8_3_lsb(input: u32) -> (r: [u8; 3])
    requires
        input < 0x100_0000,
    ensures
        r@ == le3_of(input as int),
        le3_value(r@) == input,
{
    proof {
        lemma_be3_roundtrip(input as int);
        lemma_le3_roundtrip(input as int);
    }
    let b0: u8 = (input % 0x100) as u8;
    let b1: u8 = ((input / 0x100) % 0x100) as u8;
    let b2: u8 = (input / 0x1_0000) as u8;
    let r: [u8; 3] = [b0, b1, b2];
    proof {
        assert(r@ =~= le3_of(input as int));
    }
    r
}

/// Read a 3-byte array as a least-significant-byte-first counter value.
pub fn u8_3_to_u32_lsb(input: [u8; 3]) -> (r: u32)
    ensures
        r == le3_value(input@),
        r < 0x100_0000,
{
    (input[2] as u32) * 0x1_0000 + (input[1] as u32) * 0x100 + (input[0] as u32)
}

/// Serialize an identifier value below 2^56 as 7 bytes, most-significant first.
pub fn u64_to_u8_7(input: u64) -> (r: [u8; 7])
    requires
        input < 0x100_0000_0000_0000,
    ensures
        r@ == be7_of(input as int),
        be7_value(r@) == input,
{
    proof {
        lemma_be7_roundtrip(input as int);
    }
    let b0: u8 = (input / 0x1_0000_0000_0000) as u8;
    let b1: u8 = ((input / 0x100_0000_0000) % 0x100) as u8;
    let b2: u8 = ((input / 0x1_0000_0000) % 0x100) as u8;
    let b3: u8 = ((input / 0x100_0000) % 0x100) as u8;
    let b4: u8 = ((input / 0x1_0000) % 0x100) as u8;
    let b5: u8 = ((input / 0x100) % 0x100) as u8;
    let b6: u8 = (input % 0x100) as u8;
    let r: [u8; 7] = [b0, b1, b2, b3, b4, b5, b6];
    proof {
        assert(r@ =~= be7_of(input as int));
    }
    r
}

/// Read a 7-byte array as a most-significant-byte-first identifier value.
pub fn u8_7_to_u64(input: [u8; 7]) -> (r: u64)
    ensures
        r == be7_value(input@),
        r < 0x100_0000_0000_0000,
{
    (input[0] as u64) * 0x1_0000_0000_0000 + (input[1] as u64) * 0x100_0000_0000
        + (input[2] as u64) * 0x1_0000_0000 + (input[3] as u64) * 0x100_0000
        + (input[4] as u64) * 0x1_0000 + (input[5] as u64) * 0x100 + (input[6] as u64)
}

/// A secret held by a tag: a 16-byte value and a version marker reserved
/// for future key rotation (no operation reads the version).
#[derive(Clone, Copy, Debug, PartialEq, Eq)]
pub struct Key {
    pub value: [u8; 16],
    pub version: u8,
}

/// A registered tag: its 7-byte identifier, two secrets, and the last
/// accepted counter value as 3 bytes, least-significant byte first.
/// `change_key` is carried for forward compatibility; only `mac_read_key`
/// is read by validation.
#[derive(Clone, Copy, Debug, PartialEq, Eq)]
pub struct Tag {
    pub id: [u8; 7],
    pub change_key: Key,
    pub mac_read_key: Key,
    pub count: [u8; 3],
}

impl Tag {
    /// The last accepted counter value of this tag.
    pub fn count(&self) -> (r: u32)
        ensures
            r == le3_value(self.count@),
            r < 0x100_0000,
    {
        u8_3_to_u32_lsb(self.count)
    }

    /// The numeric form of this tag's 7-byte identifier.
    pub fn uid(&self) -> (r: u64)
        ensures
            r == be7_value(self.id@),
            r < 0x100_0000_0000_0000,
    {
        u8_7_to_u64(self.id)
    }
}

/// The registry singleton: the administrator's identity, set once at
/// initialization and never mutated by any operation.
#[derive(Clone, Debug, PartialEq, Eq)]
pub struct State {
    pub admin: String,
}

} // verus!
