//! How register values lie on the wire.
//!
//! Every register holds one value of one to four bytes. Integers are
//! little-endian, signed ones in two's complement, and a boolean is the low
//! bit of a single byte. An encoded value always fills four bytes, the unused
//! ones being zero; a decoder is handed exactly the bytes of the register.
use vstd::prelude::*;

verus! {

/// The encoding of a boolean.
pub open spec fn bool_to_bytes(v: bool) -> Seq<u8> {
    seq![if v { 1u8 } else { 0u8 }, 0u8, 0u8, 0u8]
}

/// The boolean held by a one-byte register: its low bit.
pub open spec fn bool_from_bytes(bytes: Seq<u8>) -> bool {
    bytes[0] % 2 == 1
}

/// The encoding of an unsigned byte.
pub open spec fn u8_to_bytes(v: u8) -> Seq<u8> {
    seq![v, 0u8, 0u8, 0u8]
}

/// The unsigned byte held by a one-byte register.
pub open spec fn u8_from_bytes(bytes: Seq<u8>) -> u8 {
    bytes[0]
}

/// The encoding of a signed byte.
pub open spec fn i8_to_bytes(v: i8) -> Seq<u8> {
    seq![(if v < 0 { v + 256 } else { v as int }) as u8, 0u8, 0u8, 0u8]
}

/// The signed byte held by a one-byte register.
pub open spec fn i8_from_bytes(bytes: Seq<u8>) -> i8 {
    (if bytes[0] >= 128 { bytes[0] - 256 } else { bytes[0] as int }) as i8
}

/// The encoding of an unsigned 16-bit value.
pub open spec fn u16_to_bytes(v: u16) -> Seq<u8> {
    seq![(v % 256) as u8, (v / 256) as u8, 0u8, 0u8]
}

/// The unsigned value held by a two-byte register.
pub open spec fn u16_from_bytes(bytes: Seq<u8>) -> u16 {
    (bytes[0] + 256 * bytes[1]) as u16
}

/// The encoding of a signed 16-bit value.
pub open spec fn i16_to_bytes(v: i16) -> Seq<u8> {
    u16_to_bytes((if v < 0 { v + 0x1_0000 } else { v as int }) as u16)
}

/// The signed value held by a two-byte register.
pub open spec fn i16_from_bytes(bytes: Seq<u8>) -> i16 {
    let raw = u16_from_bytes(bytes);
    (if raw >= 0x8000 { raw - 0x1_0000 } else { raw as int }) as i16
}

/// The encoding of an unsigned 32-bit value.
pub open spec fn u32_to_bytes(v: u32) -> Seq<u8> {
    seq![
        (v % 256) as u8,
        (v / 0x100 % 256) as u8,
        (v / 0x1_0000 % 256) as u8,
        (v / 0x100_0000) as u8,
    ]
}

/// The unsigned value held by a four-byte register.
pub open spec fn u32_from_bytes(bytes: Seq<u8>) -> u32 {
    (bytes[0] + 0x100 * bytes[1] + 0x1_0000 * bytes[2] + 0x100_0000 * bytes[3]) as u32
}

/// The encoding of a signed 32-bit value.
pub open spec fn i32_to_bytes(v: i32) -> Seq<u8> {
    u32_to_bytes((if v < 0 { v + 0x1_0000_0000 } else { v as int }) as u32)
}

/// The signed value held by a four-byte register.
pub open spec fn i32_from_bytes(bytes: Seq<u8>) -> i32 {
    let raw = u32_from_bytes(bytes);
    (if raw >= 0x8000_0000 { raw - 0x1_0000_0000 } else { raw as int }) as i32
}

/// Encodes a boolean.
pub fn serialize_bool(v: bool) -> (r: [u8; 4])
    ensures
        r@ == bool_to_bytes(v),
{
    let r: [u8; 4] = [if v { 1 } else { 0 }, 0, 0, 0];
    assert(r@ =~= bool_to_bytes(v));
    r
}

/// Decodes a boolean, ignoring all but the low bit.
pub fn deserialize_bool(data: &[u8]) -> (r: bool)
    requires
        data@.len() == 1,
    ensures
        r == bool_from_bytes(data@),
{
    let b: u8 = data[0];
    assert((b & 1 == 1) == (b % 2 == 1)) by (bit_vector);
    b & 1 == 1
}

/// Encodes an unsigned byte.
pub fn serialize_u8(v: u8) -> (r: [u8; 4])
    ensures
        r@ == u8_to_bytes(v),
{
    let r: [u8; 4] = [v, 0, 0, 0];
    assert(r@ =~= u8_to_bytes(v));
    r
}

/// Decodes an unsigned byte.
pub fn deserialize_u8(data: &[u8]) -> (r: u8)
    requires
        data@.len() == 1,
    ensures
        r == u8_from_bytes(data@),
{
    data[0]
}

/// Encodes a signed byte.
pub fn serialize_i8(v: i8) -> (r: [u8; 4])
    ensures
        r@ == i8_to_bytes(v),
{
    let b: u8 = #[verifier::truncate] (v as u8);
    assert(b == (if v < 0 { v + 256 } else { v as int })) by (bit_vector)
        requires
            b == v as u8,
    ;
    let r: [u8; 4] = [b, 0, 0, 0];
    assert(r@ =~= i8_to_bytes(v));
    r
}

/// Decodes a signed byte.
pub fn deserialize_i8(data: &[u8]) -> (r: i8)
    requires
        data@.len() == 1,
    ensures
        r == i8_from_bytes(data@),
{
    let b: u8 = data[0];
    let r: i8 = #[verifier::truncate] (b as i8);
    assert(r == (if b >= 128 { b - 256 } else { b as int })) by (bit_vector)
        requires
            r == b as i8,
    ;
    r
}

/// Encodes an unsigned 16-bit value.
pub fn serialize_u16(v: u16) -> (r: [u8; 4])
    ensures
        r@ == u16_to_bytes(v),
{
    let low: u8 = #[verifier::truncate] (v as u8);
    let high: u8 = #[verifier::truncate] ((v >> 8) as u8);
    assert(low == v % 256 && high == v / 256) by (bit_vector)
        requires
            low == v as u8,
            high == (v >> 8) as u8,
    ;
    let r: [u8; 4] = [low, high, 0, 0];
    assert(r@ =~= u16_to_bytes(v));
    r
}

/// Decodes an unsigned 16-bit value.
pub fn deserialize_u16(data: &[u8]) -> (r: u16)
    requires
        data@.len() == 2,
    ensures
        r == u16_from_bytes(data@),
{
    let low: u8 = data[0];
    let high: u8 = data[1];
    let r: u16 = low as u16 | (high as u16) << 8;
    assert(r == low + 256 * high) by (bit_vector)
        requires
            r == low as u16 | (high as u16) << 8,
    ;
    r
}

/// Encodes a signed 16-bit value.
pub fn serialize_i16(v: i16) -> (r: [u8; 4])
    ensures
        r@ == i16_to_bytes(v),
{
    let raw: u16 = #[verifier::truncate] (v as u16);
    assert(raw == (if v < 0 { v + 0x1_0000 } else { v as int })) by (bit_vector)
        requires
            raw == v as u16,
    ;
    serialize_u16(raw)
}

/// Decodes a signed 16-bit value.
pub fn deserialize_i16(data: &[u8]) -> (r: i16)
    requires
        data@.len() == 2,
    ensures
        r == i16_from_bytes(data@),
{
    let raw: u16 = deserialize_u16(data);
    let r: i16 = #[verifier::truncate] (raw as i16);
    assert(r == (if raw >= 0x8000 { raw - 0x1_0000 } else { raw as int })) by (bit_vector)
        requires
            r == raw as i16,
    ;
    r
}

/// Encodes an unsigned 32-bit value.
pub fn serialize_u32(v: u32) -> (r: [u8; 4])
    ensures
        r@ == u32_to_bytes(v),
{
    let b0: u8 = #[verifier::truncate] (v as u8);
    let b1: u8 = #[verifier::truncate] ((v >> 8) as u8);
    let b2: u8 = #[verifier::truncate] ((v >> 16) as u8);
    let b3: u8 = #[verifier::truncate] ((v >> 24) as u8);
    assert(b0 == v % 256 && b1 == v / 0x100 % 256 && b2 == v / 0x1_0000 % 256 && b3 == v
        / 0x100_0000) by (bit_vector)
        requires
            b0 == v as u8,
            b1 == (v >> 8) as u8,
            b2 == (v >> 16) as u8,
            b3 == (v >> 24) as u8,
    ;
    let r: [u8; 4] = [b0, b1, b2, b3];
    assert(r@ =~= u32_to_bytes(v));
    r
}

/// Decodes an unsigned 32-bit value.
pub fn deserialize_u32(data: &[u8]) -> (r: u32)
    requires
        data@.len() == 4,
    ensures
        r == u32_from_bytes(data@),
{
    let b0: u8 = data[0];
    let b1: u8 = data[1];
    let b2: u8 = data[2];
    let b3: u8 = data[3];
    let r: u32 = b0 as u32 | (b1 as u32) << 8 | (b2 as u32) << 16 | (b3 as u32) << 24;
    assert(r == b0 + 0x100 * b1 + 0x1_0000 * b2 + 0x100_0000 * b3) by (bit_vector)
        requires
            r == b0 as u32 | (b1 as u32) << 8 | (b2 as u32) << 16 | (b3 as u32) << 24,
    ;
    r
}

/// Encodes a signed 32-bit value.
pub fn serialize_i32(v: i32) -> (r: [u8; 4])
    ensures
        r@ == i32_to_bytes(v),
{
    let raw: u32 = #[verifier::truncate] (v as u32);
    assert(raw == (if v < 0 { v + 0x1_0000_0000 } else { v as int })) by (bit_vector)
        requires
            raw == v as u32,
    ;
    serialize_u32(raw)
}

/// Decodes a signed 32-bit value.
pub fn deserialize_i32(data: &[u8]) -> (r: i32)
    requires
        data@.len() == 4,
    ensures
        r == i32_from_bytes(data@),
{
    let raw: u32 = deserialize_u32(data);
    let r: i32 = #[verifier::truncate] (raw as i32);
    assert(r == (if raw >= 0x8000_0000 { raw - 0x1_0000_0000 } else { raw as int })) by (bit_vector)
        requires
            r == raw as i32,
    ;
    r
}

/// A boolean survives encoding and decoding.
pub proof fn lemma_bool_round_trip(v: bool)
    ensures
        bool_to_bytes(v).len() == 4,
        bool_from_bytes(bool_to_bytes(v).subrange(0, 1)) == v,
{
}

/// An unsigned byte survives encoding and decoding.
pub proof fn lemma_u8_round_trip(v: u8)
    ensures
        u8_to_bytes(v).len() == 4,
        u8_from_bytes(u8_to_bytes(v).subrange(0, 1)) == v,
{
}

/// A signed byte survives encoding and decoding.
pub proof fn lemma_i8_round_trip(v: i8)
    ensures
        i8_to_bytes(v).len() == 4,
        i8_from_bytes(i8_to_bytes(v).subrange(0, 1)) == v,
{
}

/// An unsigned 16-bit value survives encoding and decoding.
pub proof fn lemma_u16_round_trip(v: u16)
    ensures
        u16_to_bytes(v).len() == 4,
        u16_from_bytes(u16_to_bytes(v).subrange(0, 2)) == v,
{
}

/// A signed 16-bit value survives encoding and decoding.
pub proof fn lemma_i16_round_trip(v: i16)
    ensures
        i16_to_bytes(v).len() == 4,
        i16_from_bytes(i16_to_bytes(v).subrange(0, 2)) == v,
{
    let raw = (if v < 0 { v + 0x1_0000 } else { v as int }) as u16;
    lemma_u16_round_trip(raw);
}

/// An unsigned 32-bit value survives encoding and decoding.
pub proof fn lemma_u32_round_trip(v: u32)
    ensures
        u32_to_bytes(v).len() == 4,
        u32_from_bytes(u32_to_bytes(v).subrange(0, 4)) == v,
{
}

/// A signed 32-bit value survives encoding and decoding.
pub proof fn lemma_i32_round_trip(v: i32)
    ensures
        i32_to_bytes(v).len() == 4,
        i32_from_bytes(i32_to_bytes(v).subrange(0, 4)) == v,
{
    let raw = (if v < 0 { v + 0x1_0000_0000 } else { v as int }) as u32;
    lemma_u32_round_trip(raw);
}

} // verus!
