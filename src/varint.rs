//! Base-128 varints, the integer encoding of protobuf messages.
use vstd::prelude::*;

verus! {

#[verifier::external_type_specification]
#[verifier::external_body]
pub struct ExDecodeError(prost::DecodeError);

/// The varint bytes of `v`: seven bits per byte, least significant group
/// first, the high bit set on every byte but the last.
pub open spec fn varint_bytes(v: nat) -> Seq<u8>
    decreases v,
{
    if v < 128 {
        seq![v as u8]
    } else {
        seq![(v % 128 + 128) as u8] + varint_bytes(v / 128)
    }
}

/// Reads a varint from the start of `s`, where `depth` bytes of it were
/// already read: the value and the number of bytes it takes. A varint has
/// at most ten bytes, and its tenth byte is at most 1, so that the value
/// fits in 64 bits.
pub open spec fn varint_parse_at(s: Seq<u8>, depth: nat) -> Option<(nat, nat)>
    decreases 10 - depth,
{
    if depth >= 10 || s.len() == 0 {
        None
    } else if s[0] < 128 {
        if depth == 9 && s[0] >= 2 {
            None
        } else {
            Some((s[0] as nat, 1nat))
        }
    } else {
        match varint_parse_at(s.drop_first(), depth + 1) {
            Some((v, n)) => Some((v * 128 + (s[0] - 128) as nat, n + 1)),
            None => None,
        }
    }
}

pub open spec fn varint_parse(s: Seq<u8>) -> Option<(nat, nat)> {
    varint_parse_at(s, 0)
}

/// Largest value plus one that a varint starting at `depth` can hold.
pub open spec fn varint_bound(depth: nat) -> nat
    decreases 10 - depth,
{
    if depth >= 9 {
        2
    } else {
        128 * varint_bound(depth + 1)
    }
}

/// Relies on `prost::encoding::encode_varint`: appends the varint bytes of
/// the value.
#[verifier::external_body]
pub(crate) fn put_varint(value: u64, buf: &mut Vec<u8>)
    ensures
        final(buf)@ == old(buf)@ + varint_bytes(value as nat),
{
    prost::encoding::encode_varint(value, buf)
}

/// Relies on `prost::encoding::decode_varint`: reads one varint from the
/// front of the slice and hands back the bytes after it.
#[verifier::external_body]
pub(crate) fn take_varint<'a>(buf: &'a [u8]) -> (r: (Result<u64, prost::DecodeError>, &'a [u8]))
    ensures
        match varint_parse(buf@) {
            Some((v, n)) => r.0 == Ok::<u64, prost::DecodeError>(v as u64) && r.1@ == buf@.skip(
                n as int,
            ),
            None => r.0 is Err,
        },
{
    let mut rest = buf;
    let value = prost::encoding::decode_varint(&mut rest);
    (value, rest)
}

pub proof fn lemma_varint_bytes_len(v: nat)
    ensures
        1 <= varint_bytes(v).len(),
        v < 128 <==> varint_bytes(v).len() == 1,
    decreases v,
{
    if v >= 128 {
        lemma_varint_bytes_len(v / 128);
    }
}

pub proof fn lemma_varint_parse_len(s: Seq<u8>, depth: nat)
    ensures
        varint_parse_at(s, depth) matches Some((v, n)) ==> 1 <= n <= s.len() && v < varint_bound(
            depth,
        ),
    decreases 10 - depth,
{
    lemma_varint_bound_min(depth);
    if depth < 10 && s.len() > 0 && s[0] >= 128 {
        lemma_varint_parse_len(s.drop_first(), depth + 1);
    }
}

pub proof fn lemma_varint_bound_min(depth: nat)
    ensures
        depth < 9 ==> varint_bound(depth) >= 256,
        varint_bound(depth) >= 2,
    decreases 10 - depth,
{
    if depth < 9 {
        lemma_varint_bound_min(depth + 1);
    }
}

/// A varint read from the start of a message fits in 64 bits.
pub proof fn lemma_varint_parse_fits(s: Seq<u8>)
    ensures
        varint_parse(s) matches Some((v, n)) ==> 1 <= n <= s.len() && v < 0x1_0000_0000_0000_0000,
{
    lemma_varint_parse_len(s, 0);
    reveal_with_fuel(varint_bound, 10);
}

/// Reading back the varint bytes of a value that fits yields the value
/// and stops right after them.
pub proof fn lemma_varint_round_trip_at(v: nat, depth: nat, rest: Seq<u8>)
    requires
        depth < 10,
        v < varint_bound(depth),
    ensures
        varint_parse_at(varint_bytes(v) + rest, depth) == Some((v, varint_bytes(v).len())),
    decreases v,
{
    let s = varint_bytes(v) + rest;
    if v < 128 {
        assert(s[0] == v as u8);
    } else {
        if depth >= 9 {
            assert(false);
        }
        assert(v / 128 < varint_bound(depth + 1));
        lemma_varint_round_trip_at(v / 128, depth + 1, rest);
        assert(s.drop_first() =~= varint_bytes(v / 128) + rest);
    }
}

pub proof fn lemma_varint_round_trip(v: u64, rest: Seq<u8>)
    ensures
        varint_parse(varint_bytes(v as nat) + rest) == Some((v as nat, varint_bytes(v as nat).len())),
{
    reveal_with_fuel(varint_bound, 10);
    lemma_varint_round_trip_at(v as nat, 0, rest);
}

} // verus!
