//! Fixed-layout records shared with the kernel-resident filter.
//!
//! Both sides of the kernel/user boundary copy these records as raw bytes,
//! so size, field order and byte order are part of the contract. The verdict
//! records that arrive over the ring channel are decoded here with an
//! explicit length check and byte-by-byte little-endian reads, so that a
//! slice of the wrong length fails the single record and nothing is ever
//! read out of bounds.

use vstd::prelude::*;

verus! {

/// Number of bytes in one verdict record as the kernel filter lays it out:
/// a 32-bit address followed by a 32-bit action code.
pub const RECORD_SIZE: usize = 8;

/// Action code the filter emits for a packet it let through.
pub const ACTION_ALLOW: u32 = 1;

/// Action code the filter emits for a packet it dropped.
pub const ACTION_DENY: u32 = 0;

/// One blocklist entry: a mutable 64-bit counter and its baseline value.
/// The layout is shared with the kernel program, which updates `value`
/// atomically on the packet path.
#[derive(Copy, Clone, PartialEq, Eq, Structural, Debug)]
pub struct EbpfAtomicI64 {
    pub value: i64,
    pub zero: i64,
}

impl Default for EbpfAtomicI64 {
    /// A zeroed entry, the state a key is seeded with.
    fn default() -> (r: EbpfAtomicI64)
        ensures
            r.value == 0,
            r.zero == 0,
    {
        EbpfAtomicI64 { value: 0, zero: 0 }
    }
}

/// One verdict record: the destination address of a packet and the action
/// code the filter chose for it.
#[derive(Copy, Clone, PartialEq, Eq, Structural, Debug)]
pub struct PacketLog {
    pub ipv4_address: u32,
    pub action: u32,
}

/// A drained record whose length did not match [`RECORD_SIZE`]; the record
/// is discarded and draining goes on.
#[derive(Copy, Clone, PartialEq, Eq, Structural, Debug)]
pub struct RecordDecodeError {
    pub actual_len: usize,
}

/// The 32-bit value stored little-endian in a four-byte sequence.
pub open spec fn spec_le_u32(b: Seq<u8>) -> u32
    recommends
        b.len() == 4,
{
    (b[0] + b[1] * 0x100 + b[2] * 0x10000 + b[3] * 0x1000000) as u32
}

/// The four little-endian bytes of a 32-bit value.
pub open spec fn spec_le_bytes(x: u32) -> Seq<u8> {
    seq![
        (x as int % 0x100) as u8,
        (x as int / 0x100 % 0x100) as u8,
        (x as int / 0x10000 % 0x100) as u8,
        (x as int / 0x1000000) as u8,
    ]
}

/// The record held in a correctly sized byte sequence: address first,
/// action second, both little-endian.
pub open spec fn spec_decode_record(b: Seq<u8>) -> PacketLog
    recommends
        b.len() == RECORD_SIZE,
{
    PacketLog {
        ipv4_address: spec_le_u32(b.subrange(0, 4)),
        action: spec_le_u32(b.subrange(4, 8)),
    }
}

/// The byte layout of a record, as the kernel filter writes it.
pub open spec fn spec_encode_record(r: PacketLog) -> Seq<u8> {
    spec_le_bytes(r.ipv4_address) + spec_le_bytes(r.action)
}

/// Little-endian read of four bytes starting at `off`.
fn le_u32_at(bytes: &[u8], off: usize) -> (r: u32)
    requires
        off + 4 <= bytes@.len(),
    ensures
        r == spec_le_u32(bytes@.subrange(off as int, off as int + 4)),
{
    let b0 = bytes[off] as u32;
    let b1 = bytes[off + 1] as u32;
    let b2 = bytes[off + 2] as u32;
    let b3 = bytes[off + 3] as u32;
    let r = b0 + b1 * 0x100 + b2 * 0x10000 + b3 * 0x1000000;
    proof {
        let s = bytes@.subrange(off as int, off as int + 4);
        assert(s[0] == bytes@[off as int]);
        assert(s[1] == bytes@[off as int + 1]);
        assert(s[2] == bytes@[off as int + 2]);
        assert(s[3] == bytes@[off as int + 3]);
    }
    r
}

/// Decode one drained record. Succeeds exactly on slices of the fixed
/// record size; a slice of any other length fails with the length it had,
/// so a single malformed record never stops the drain loop.
pub fn decode_record(bytes: &[u8]) -> (r: Result<PacketLog, RecordDecodeError>)
    ensures
        r is Ok <==> bytes@.len() == RECORD_SIZE,
        r matches Ok(rec) ==> rec == spec_decode_record(bytes@),
        r matches Err(e) ==> e.actual_len == bytes@.len(),
{
    if bytes.len() != RECORD_SIZE {
        return Err(RecordDecodeError { actual_len: bytes.len() });
    }
    let ipv4_address = le_u32_at(bytes, 0);
    let action = le_u32_at(bytes, 4);
    Ok(PacketLog { ipv4_address, action })
}

/// Append the four little-endian bytes of `x`.
fn push_le_u32(out: &mut Vec<u8>, x: u32)
    ensures
        final(out)@ == old(out)@ + spec_le_bytes(x),
{
    out.push((x % 0x100) as u8);
    out.push((x / 0x100 % 0x100) as u8);
    out.push((x / 0x10000 % 0x100) as u8);
    out.push((x / 0x1000000) as u8);
    proof {
        assert(final(out)@ =~= old(out)@ + spec_le_bytes(x));
    }
}

/// Encode a record in the exact byte layout the kernel filter uses.
pub fn encode_record(rec: &PacketLog) -> (out: Vec<u8>)
    ensures
        out@ == spec_encode_record(*rec),
        out@.len() == RECORD_SIZE,
{
    let mut out: Vec<u8> = Vec::new();
    push_le_u32(&mut out, rec.ipv4_address);
    push_le_u32(&mut out, rec.action);
    proof {
        assert(out@ =~= spec_encode_record(*rec));
    }
    out
}

/// The host value of an address given in dotted-quad order: `a` is the
/// most significant byte, as the kernel's address extraction expects.
pub open spec fn spec_ipv4_value(a: u8, b: u8, c: u8, d: u8) -> u32 {
    (a * 0x1000000 + b * 0x10000 + c * 0x100 + d) as u32
}

/// Build the table key for the address `a.b.c.d`.
pub fn ipv4_from_octets(a: u8, b: u8, c: u8, d: u8) -> (r: u32)
    ensures
        r == spec_ipv4_value(a, b, c, d),
{
    (a as u32) * 0x1000000 + (b as u32) * 0x10000 + (c as u32) * 0x100 + (d as u32)
}

/// The little-endian byte layout is faithful: reading back the four
/// bytes of a value yields the value.
pub proof fn lemma_le_u32_round_trip(x: u32)
    ensures
        spec_le_u32(spec_le_bytes(x)) == x,
{
    let i = x as int;
    vstd::arithmetic::div_mod::lemma_fundamental_div_mod(i, 0x100);
    vstd::arithmetic::div_mod::lemma_fundamental_div_mod(i / 0x100, 0x100);
    vstd::arithmetic::div_mod::lemma_fundamental_div_mod(i / 0x10000, 0x100);
    assert(i / 0x100 / 0x100 == i / 0x10000) by {
        vstd::arithmetic::div_mod::lemma_div_denominator(i, 0x100, 0x100);
    }
    assert(i / 0x10000 / 0x100 == i / 0x1000000) by {
        vstd::arithmetic::div_mod::lemma_div_denominator(i, 0x10000, 0x100);
    }
}

/// The codec round-trips: a record encoded in the shared byte layout
/// decodes to the same address and action.
pub proof fn lemma_record_round_trip(r: PacketLog)
    ensures
        spec_decode_record(spec_encode_record(r)) == r,
{
    lemma_le_u32_round_trip(r.ipv4_address);
    lemma_le_u32_round_trip(r.action);
    assert(spec_encode_record(r).subrange(0, 4) =~= spec_le_bytes(r.ipv4_address));
    assert(spec_encode_record(r).subrange(4, 8) =~= spec_le_bytes(r.action));
}

/// Decoding reads nothing but the bytes: equal slices decode to the
/// same address and the same action.
pub proof fn lemma_decode_deterministic(a: Seq<u8>, b: Seq<u8>)
    requires
        a == b,
    ensures
        spec_decode_record(a) == spec_decode_record(b),
{
}

} // verus!
