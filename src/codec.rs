//! Reading request frames back, as a server does, and the proof that a
//! request frame reads back as the header and payload it was made from.
use vstd::prelude::*;
use vstd::slice::{slice_subrange, slice_to_vec};
use crate::error::IpcError;
use crate::frame::{be_bytes, be_value, i32_from_be, lemma_be_round_trip, sized};
use crate::proto::{
    request_header_fields_bytes, request_header_from, request_header_ok, OperationProto, RpcKind,
    RpcRequestHeaderProto,
};
use crate::varint::{lemma_varint_bytes_len, lemma_varint_round_trip, varint_bytes};
use crate::wire::{
    bytes_field, delimited, key_bytes, last_field, lemma_unzigzag_zigzag, parse_delimited,
    parse_field, parse_fields, parse_value, take_delimited, then_fields, varint_field,
    zigzag, WireValue,
};

verus! {

/// What reading a request frame gives: the header's fields and the
/// payload; `None` where the frame is malformed.
pub open spec fn request_frame_parts(frame: Seq<u8>) -> Option<(Seq<(nat, WireValue)>, Seq<u8>)> {
    if frame.len() < 4 || be_value(frame) as int != frame.len() - 4 {
        None
    } else {
        match parse_delimited(frame.skip(4)) {
            Some((hb, k)) => match parse_fields(hb) {
                Some(fs) => if request_header_ok(fs) {
                    Some((fs, frame.skip(4).skip(k as int)))
                } else {
                    None
                },
                None => None,
            },
            None => None,
        }
    }
}

/// Reads a request frame: its length, its header and its payload.
pub fn decode_request_frame(frame: &[u8]) -> (r: Result<(RpcRequestHeaderProto, Vec<u8>), IpcError>)
    ensures
        match request_frame_parts(frame@) {
            Some((fs, payload)) => r matches Ok((h, p)) && request_header_from(fs, h) && p@
                == payload,
            None => r == Err::<(RpcRequestHeaderProto, Vec<u8>), IpcError>(IpcError::Protocol),
        },
{
    if frame.len() < 4 {
        return Err(IpcError::Protocol);
    }
    let length = i32_from_be(frame);
    if length < 0 || length as usize != frame.len() - 4 {
        return Err(IpcError::Protocol);
    }
    let body = slice_subrange(frame, 4, frame.len());
    assert(body@ =~= frame@.skip(4));
    let (hb, rest) = match take_delimited(body) {
        Some(p) => p,
        None => return Err(IpcError::Protocol),
    };
    let header = RpcRequestHeaderProto::decode(hb)?;
    Ok((header, slice_to_vec(rest)))
}

proof fn lemma_parse_fields_step(s: Seq<u8>, tag: nat, v: WireValue, k: nat)
    requires
        parse_field(s) == Some((tag, v, k)),
        0 < k <= s.len(),
    ensures
        parse_fields(s) == then_fields(seq![(tag, v)], parse_fields(s.skip(k as int))),
{
}

/// A varint field reads back as its tag and value, then the fields after it.
pub proof fn lemma_parse_varint_field(tag: nat, v: u64, rest: Seq<u8>)
    requires
        tag < 0x1000,
    ensures
        parse_fields(varint_field(tag, v as nat) + rest) == then_fields(
            seq![(tag, WireValue::Varint(v))],
            parse_fields(rest),
        ),
{
    let kb = key_bytes(tag, 0);
    let vb = varint_bytes(v as nat);
    let s = varint_field(tag, v as nat) + rest;
    assert(s =~= kb + (vb + rest));
    lemma_varint_round_trip((tag * 8) as u64, vb + rest);
    assert(s.skip(kb.len() as int) =~= vb + rest);
    lemma_varint_round_trip(v, rest);
    assert((vb + rest).skip(vb.len() as int) =~= rest);
    assert(((tag * 8) as nat) % 8 == 0 && ((tag * 8) as nat) / 8 == tag);
    assert(parse_value(0, vb + rest) == Some((WireValue::Varint(v), vb.len())));
    lemma_varint_bytes_len(tag * 8);
    lemma_varint_bytes_len(v as nat);
    assert(s.skip((kb.len() + vb.len()) as int) =~= rest);
    lemma_parse_fields_step(s, tag, WireValue::Varint(v), kb.len() + vb.len());
}

/// Bytes behind their length read back as those bytes.
pub proof fn lemma_parse_delimited(b: Seq<u8>, rest: Seq<u8>)
    requires
        b.len() < 0x1_0000_0000_0000_0000,
    ensures
        parse_delimited(delimited(b) + rest) == Some((b, delimited(b).len())),
        (delimited(b) + rest).skip(delimited(b).len() as int) == rest,
{
    let lb = varint_bytes(b.len());
    let s = delimited(b) + rest;
    assert(s =~= lb + (b + rest));
    lemma_varint_round_trip(b.len() as u64, b + rest);
    lemma_varint_bytes_len(b.len());
    assert(s.subrange(lb.len() as int, (lb.len() + b.len()) as int) =~= b);
    assert(s.skip(delimited(b).len() as int) =~= rest);
}

/// A bytes field reads back as its tag and bytes, then the fields after
/// it.
pub proof fn lemma_parse_bytes_field(tag: nat, b: Seq<u8>, rest: Seq<u8>)
    requires
        tag < 0x1000,
        b.len() < 0x1_0000_0000_0000_0000,
    ensures
        parse_fields(bytes_field(tag, b) + rest) == then_fields(
            seq![(tag, WireValue::Bytes(b))],
            parse_fields(rest),
        ),
{
    let kb = key_bytes(tag, 2);
    let db = delimited(b);
    let s = bytes_field(tag, b) + rest;
    assert(s =~= kb + (db + rest));
    lemma_varint_round_trip((tag * 8 + 2) as u64, db + rest);
    assert(s.skip(kb.len() as int) =~= db + rest);
    lemma_parse_delimited(b, rest);
    assert(((tag * 8 + 2) as nat) % 8 == 2 && ((tag * 8 + 2) as nat) / 8 == tag);
    let lb = varint_bytes(b.len());
    assert(db + rest =~= lb + (b + rest));
    lemma_varint_round_trip(b.len() as u64, b + rest);
    assert((db + rest).subrange(lb.len() as int, (lb.len() + b.len()) as int) =~= b);
    assert(parse_value(2, db + rest) == Some((WireValue::Bytes(b), db.len())));
    lemma_varint_bytes_len(tag * 8 + 2);
    lemma_varint_bytes_len(b.len());
    assert(s.skip((kb.len() + db.len()) as int) =~= rest);
    lemma_parse_fields_step(s, tag, WireValue::Bytes(b), kb.len() + db.len());
}

/// The fields of an encoded request header.
pub open spec fn request_header_fields(
    rpc_kind: RpcKind,
    rpc_op: OperationProto,
    call_id: i32,
    client_id: Seq<u8>,
    retry_count: i32,
) -> Seq<(nat, WireValue)> {
    seq![
        (1nat, WireValue::Varint(rpc_kind.code())),
        (2nat, WireValue::Varint(rpc_op.code())),
        (3nat, WireValue::Varint(zigzag(call_id) as u64)),
        (4nat, WireValue::Bytes(client_id)),
        (5nat, WireValue::Varint(zigzag(retry_count) as u64)),
    ]
}

/// `g` holds exactly the given header values.
pub open spec fn holds_header(
    g: RpcRequestHeaderProto,
    rpc_kind: RpcKind,
    rpc_op: OperationProto,
    call_id: i32,
    client_id: Seq<u8>,
    retry_count: i32,
) -> bool {
    g.rpc_kind == rpc_kind && g.rpc_op == rpc_op && g.call_id == call_id && g.client_id@
        == client_id && g.retry_count == retry_count
}

/// An encoded request header splits into its five fields, which read
/// back as the header's values.
pub proof fn lemma_request_header_round_trip(
    rpc_kind: RpcKind,
    rpc_op: OperationProto,
    call_id: i32,
    client_id: Seq<u8>,
    retry_count: i32,
)
    requires
        client_id.len() < 0x1_0000_0000_0000_0000,
    ensures
        ({
            let fs = request_header_fields(rpc_kind, rpc_op, call_id, client_id, retry_count);
            &&& parse_fields(request_header_fields_bytes(rpc_kind, rpc_op, call_id, client_id, retry_count))
                == Some(fs)
            &&& request_header_ok(fs)
            &&& forall|g: RpcRequestHeaderProto|
                request_header_from(fs, g) ==> holds_header(g, rpc_kind, rpc_op, call_id, client_id, retry_count)
        }),
{
    let f1 = varint_field(1, rpc_kind.code() as nat);
    let f2 = varint_field(2, rpc_op.code() as nat);
    let f3 = varint_field(3, zigzag(call_id));
    let f4 = bytes_field(4, client_id);
    let f5 = varint_field(5, zigzag(retry_count));
    let e = Seq::<u8>::empty();
    let bytes = request_header_fields_bytes(rpc_kind, rpc_op, call_id, client_id, retry_count);
    assert(bytes =~= f1 + (f2 + (f3 + (f4 + (f5 + e)))));
    assert(parse_fields(e) == Some(Seq::<(nat, WireValue)>::empty()));
    lemma_parse_varint_field(5, zigzag(retry_count) as u64, e);
    lemma_parse_bytes_field(4, client_id, f5 + e);
    lemma_parse_varint_field(3, zigzag(call_id) as u64, f4 + (f5 + e));
    lemma_parse_varint_field(2, rpc_op.code(), f3 + (f4 + (f5 + e)));
    lemma_parse_varint_field(1, rpc_kind.code(), f2 + (f3 + (f4 + (f5 + e))));
    let fs = request_header_fields(rpc_kind, rpc_op, call_id, client_id, retry_count);
    assert(parse_fields(bytes) =~~= Some(fs)) by {
        assert(seq![(1nat, WireValue::Varint(rpc_kind.code()))] + (seq![
            (2nat, WireValue::Varint(rpc_op.code())),
        ] + (seq![(3nat, WireValue::Varint(zigzag(call_id) as u64))] + (seq![
            (4nat, WireValue::Bytes(client_id)),
        ] + (seq![(5nat, WireValue::Varint(zigzag(retry_count) as u64))] + Seq::empty()))))
            =~= fs);
    }
    reveal_with_fuel(last_field, 6);
    assert(last_field(fs, 1) == Some(WireValue::Varint(rpc_kind.code())));
    assert(last_field(fs, 2) == Some(WireValue::Varint(rpc_op.code())));
    assert(last_field(fs, 3) == Some(WireValue::Varint(zigzag(call_id) as u64)));
    assert(last_field(fs, 4) == Some(WireValue::Bytes(client_id)));
    assert(last_field(fs, 5) == Some(WireValue::Varint(zigzag(retry_count) as u64)));
    lemma_unzigzag_zigzag(call_id);
    lemma_unzigzag_zigzag(retry_count);
}

/// Round trip of the wire framing: a request frame, the header and the
/// payload behind their length, reads back as that header's values and
/// that payload, byte for byte.
pub proof fn lemma_request_frame_round_trip(
    rpc_kind: RpcKind,
    rpc_op: OperationProto,
    call_id: i32,
    client_id: Seq<u8>,
    retry_count: i32,
    payload: Seq<u8>,
)
    requires
        delimited(request_header_fields_bytes(rpc_kind, rpc_op, call_id, client_id, retry_count)).len()
            + payload.len() <= i32::MAX,
    ensures
        ({
            let fs = request_header_fields(rpc_kind, rpc_op, call_id, client_id, retry_count);
            let hb = request_header_fields_bytes(rpc_kind, rpc_op, call_id, client_id, retry_count);
            &&& request_frame_parts(sized(delimited(hb) + payload)) == Some((fs, payload))
            &&& forall|g: RpcRequestHeaderProto|
                request_header_from(fs, g) ==> holds_header(g, rpc_kind, rpc_op, call_id, client_id, retry_count)
        }),
{
    let hb = request_header_fields_bytes(rpc_kind, rpc_op, call_id, client_id, retry_count);
    let body = delimited(hb) + payload;
    let frame = sized(body);
    lemma_be_round_trip(body.len() as i32);
    assert(frame.skip(4) =~= body);
    assert(frame.len() == 4 + body.len());
    lemma_parse_delimited(hb, payload);
    lemma_request_header_round_trip(rpc_kind, rpc_op, call_id, client_id, retry_count);
    assert(be_value(frame) == be_value(be_bytes(body.len() as i32))) by {
        assert(frame[0] == be_bytes(body.len() as i32)[0]);
        assert(frame[1] == be_bytes(body.len() as i32)[1]);
        assert(frame[2] == be_bytes(body.len() as i32)[2]);
        assert(frame[3] == be_bytes(body.len() as i32)[3]);
    }
}

} // verus!
