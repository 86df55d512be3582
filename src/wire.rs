//! Fields of protobuf messages: how they are written, and how a message
//! body splits back into fields.
use vstd::prelude::*;
use vstd::slice::{slice_subrange, slice_to_vec};
use crate::varint::{
    lemma_varint_parse_fits, put_varint, take_varint, varint_bytes, varint_parse,
};

verus! {

/// The key of a field: its tag and its wire type.
pub open spec fn key_bytes(tag: nat, wire_type: nat) -> Seq<u8> {
    varint_bytes(tag * 8 + wire_type)
}

/// A field of wire type 0 holding `v`.
pub open spec fn varint_field(tag: nat, v: nat) -> Seq<u8> {
    key_bytes(tag, 0) + varint_bytes(v)
}

/// Bytes preceded by their length as a varint.
pub open spec fn delimited(b: Seq<u8>) -> Seq<u8> {
    varint_bytes(b.len()) + b
}

/// A field of wire type 2 holding `b`.
pub open spec fn bytes_field(tag: nat, b: Seq<u8>) -> Seq<u8> {
    key_bytes(tag, 2) + delimited(b)
}

/// The zigzag form of a signed 32-bit value: 0, -1, 1, -2, ... become
/// 0, 1, 2, 3, ...
pub open spec fn zigzag(v: i32) -> nat {
    if v >= 0 {
        (2 * v) as nat
    } else {
        (-2 * v - 1) as nat
    }
}

/// The signed value of a zigzag varint, read from its low 32 bits.
pub open spec fn unzigzag(n: u64) -> i32 {
    let m = n as int % 0x1_0000_0000;
    if m % 2 == 0 {
        (m / 2) as i32
    } else {
        (-(m / 2) - 1) as i32
    }
}

/// Number of bytes of the varint at the start of `s`.
pub open spec fn varint_len(s: Seq<u8>) -> nat {
    match varint_parse(s) {
        Some((_, n)) => n,
        None => 0,
    }
}

/// The value of a field, as read from the wire.
pub ghost enum WireValue {
    Varint(u64),
    Bytes(Seq<u8>),
    Fixed,
}

/// Reads the value of a field of the given wire type from the start of
/// `s`: the value and the number of bytes it takes.
pub open spec fn parse_value(wire_type: nat, s: Seq<u8>) -> Option<(WireValue, nat)> {
    if wire_type == 0 {
        match varint_parse(s) {
            Some((v, n)) => Some((WireValue::Varint(v as u64), n)),
            None => None,
        }
    } else if wire_type == 2 {
        match varint_parse(s) {
            Some((len, n)) => if n + len <= s.len() {
                Some((WireValue::Bytes(s.subrange(n as int, (n + len) as int)), n + len))
            } else {
                None
            },
            None => None,
        }
    } else if wire_type == 1 {
        if s.len() >= 8 {
            Some((WireValue::Fixed, 8nat))
        } else {
            None
        }
    } else if wire_type == 5 {
        if s.len() >= 4 {
            Some((WireValue::Fixed, 4nat))
        } else {
            None
        }
    } else {
        None
    }
}

/// Reads one field from the start of `s`: its tag, its value and the
/// number of bytes it takes.
pub open spec fn parse_field(s: Seq<u8>) -> Option<(nat, WireValue, nat)> {
    match varint_parse(s) {
        Some((key, n)) => match parse_value(key % 8, s.skip(n as int)) {
            Some((v, m)) => Some((key / 8, v, n + m)),
            None => None,
        },
        None => None,
    }
}

/// The fields of a message body, in order; `None` where the body does not
/// split into fields.
pub open spec fn parse_fields(s: Seq<u8>) -> Option<Seq<(nat, WireValue)>>
    decreases s.len(),
{
    if s.len() == 0 {
        Some(Seq::empty())
    } else {
        match parse_field(s) {
            Some((t, v, k)) => if 0 < k <= s.len() {
                match parse_fields(s.skip(k as int)) {
                    Some(fs) => Some(seq![(t, v)] + fs),
                    None => None,
                }
            } else {
                None
            },
            None => None,
        }
    }
}

/// The value of the last field with tag `tag`.
pub open spec fn last_field(fs: Seq<(nat, WireValue)>, tag: nat) -> Option<WireValue>
    decreases fs.len(),
{
    if fs.len() == 0 {
        None
    } else if fs.last().0 == tag {
        Some(fs.last().1)
    } else {
        last_field(fs.drop_last(), tag)
    }
}

/// `done` followed by the fields of what remains, if it splits.
pub open spec fn then_fields(
    done: Seq<(nat, WireValue)>,
    rest: Option<Seq<(nat, WireValue)>>,
) -> Option<Seq<(nat, WireValue)>> {
    match rest {
        Some(fs) => Some(done + fs),
        None => None,
    }
}

/// A field value as read by [`next_field`].
pub enum FieldValue {
    Varint(u64),
    Bytes(Vec<u8>),
    Fixed,
}

impl View for FieldValue {
    type V = WireValue;

    open spec fn view(&self) -> WireValue {
        match self {
            FieldValue::Varint(v) => WireValue::Varint(*v),
            FieldValue::Bytes(b) => WireValue::Bytes(b@),
            FieldValue::Fixed => WireValue::Fixed,
        }
    }
}

pub(crate) fn put_bytes(buf: &mut Vec<u8>, b: &[u8])
    ensures
        final(buf)@ == old(buf)@ + b@,
{
    let mut i: usize = 0;
    while i < b.len()
        invariant
            i <= b@.len(),
            buf@ == old(buf)@ + b@.subrange(0, i as int),
        decreases b@.len() - i,
    {
        buf.push(b[i]);
        i = i + 1;
        assert(buf@ =~= old(buf)@ + b@.subrange(0, i as int));
    }
    assert(b@.subrange(0, b@.len() as int) =~= b@);
}

pub(crate) fn put_varint_field(buf: &mut Vec<u8>, tag: u64, v: u64)
    requires
        1 <= tag < 0x1000,
    ensures
        final(buf)@ == old(buf)@ + varint_field(tag as nat, v as nat),
{
    put_varint(tag * 8, buf);
    put_varint(v, buf);
    assert(buf@ =~= old(buf)@ + varint_field(tag as nat, v as nat));
}

pub(crate) fn put_delimited(buf: &mut Vec<u8>, b: &[u8])
    ensures
        final(buf)@ == old(buf)@ + delimited(b@),
{
    put_varint(b.len() as u64, buf);
    put_bytes(buf, b);
    assert(buf@ =~= old(buf)@ + delimited(b@));
}

/// `b` preceded by its length.
pub fn length_delimited(b: &[u8]) -> (r: Vec<u8>)
    ensures
        r@ == delimited(b@),
{
    let mut out: Vec<u8> = Vec::new();
    put_delimited(&mut out, b);
    assert(out@ =~= delimited(b@));
    out
}

pub(crate) fn put_bytes_field(buf: &mut Vec<u8>, tag: u64, b: &[u8])
    requires
        1 <= tag < 0x1000,
    ensures
        final(buf)@ == old(buf)@ + bytes_field(tag as nat, b@),
{
    put_varint(tag * 8 + 2, buf);
    put_delimited(buf, b);
    assert(buf@ =~= old(buf)@ + bytes_field(tag as nat, b@));
}

pub(crate) fn zigzag_of(v: i32) -> (r: u64)
    ensures
        r as nat == zigzag(v),
        r < 0x1_0000_0000,
{
    if v >= 0 {
        (v as u64) * 2
    } else {
        ((-(v as i64)) * 2 - 1) as u64
    }
}

pub(crate) fn unzigzag_of(n: u64) -> (r: i32)
    ensures
        r == unzigzag(n),
{
    let m: u64 = n % 0x1_0000_0000;
    if m % 2 == 0 {
        (m / 2) as i32
    } else {
        (-((m / 2) as i64) - 1) as i32
    }
}

pub proof fn lemma_unzigzag_zigzag(v: i32)
    ensures
        unzigzag(zigzag(v) as u64) == v,
{
}

/// Reads one field from the front of a non-empty body.
pub(crate) fn next_field<'a>(buf: &'a [u8]) -> (r: Option<(u64, FieldValue, &'a [u8])>)
    ensures
        match parse_field(buf@) {
            Some((t, v, k)) => r matches Some((tag, value, rest)) && tag == t && value@ == v
                && rest@ == buf@.skip(k as int) && 0 < k <= buf@.len(),
            None => r is None,
        },
{
    let (key, rest) = take_varint(buf);
    proof {
        lemma_varint_parse_fits(buf@);
    }
    let key = match key {
        Ok(k) => k,
        Err(_) => return None,
    };
    let ghost n = varint_len(buf@);
    assert(rest@ == buf@.skip(n as int));
    let wire_type = key % 8;
    let tag = key / 8;
    if wire_type == 0 {
        let (v, rest2) = take_varint(rest);
        proof {
            lemma_varint_parse_fits(rest@);
        }
        match v {
            Ok(v) => {
                assert(rest2@ =~= buf@.skip((n + varint_len(rest@)) as int));
                Some((tag, FieldValue::Varint(v), rest2))
            },
            Err(_) => None,
        }
    } else if wire_type == 2 {
        let (len, rest2) = take_varint(rest);
        proof {
            lemma_varint_parse_fits(rest@);
        }
        match len {
            Ok(len) => {
                if len > rest2.len() as u64 {
                    return None;
                }
                let len = len as usize;
                let body = slice_to_vec(slice_subrange(rest2, 0, len));
                let rest3 = slice_subrange(rest2, len, rest2.len());
                let ghost m = varint_len(rest@);
                assert(body@ =~= rest@.subrange(m as int, (m + len) as int));
                assert(rest3@ =~= buf@.skip((n + m + len) as int));
                Some((tag, FieldValue::Bytes(body), rest3))
            },
            Err(_) => None,
        }
    } else if wire_type == 1 {
        if rest.len() >= 8 {
            let rest2 = slice_subrange(rest, 8, rest.len());
            assert(rest2@ =~= buf@.skip((n + 8) as int));
            Some((tag, FieldValue::Fixed, rest2))
        } else {
            None
        }
    } else if wire_type == 5 {
        if rest.len() >= 4 {
            let rest2 = slice_subrange(rest, 4, rest.len());
            assert(rest2@ =~= buf@.skip((n + 4) as int));
            Some((tag, FieldValue::Fixed, rest2))
        } else {
            None
        }
    } else {
        None
    }
}

pub open spec fn slot_view(o: Option<FieldValue>) -> Option<WireValue> {
    match o {
        Some(v) => Some(v@),
        None => None,
    }
}

/// Splits a message body into fields and keeps, for each tag below
/// `slots`, the value of its last field.
pub(crate) fn collect_fields(buf: &[u8], slots: usize) -> (r: Option<Vec<Option<FieldValue>>>)
    ensures
        match parse_fields(buf@) {
            None => r is None,
            Some(fs) => r matches Some(v) && v@.len() == slots && forall|t: int|
                0 <= t < slots ==> slot_view(#[trigger] v@[t]) == last_field(fs, t as nat),
        },
{
    let mut v: Vec<Option<FieldValue>> = Vec::new();
    let mut i: usize = 0;
    while i < slots
        invariant
            i <= slots,
            v@.len() == i,
            forall|t: int| 0 <= t < i ==> (#[trigger] v@[t]) is None,
        decreases slots - i,
    {
        v.push(None);
        i = i + 1;
    }
    let mut rest = buf;
    let ghost mut done: Seq<(nat, WireValue)> = Seq::empty();
    assert(then_fields(done, parse_fields(buf@)) == parse_fields(buf@)) by {
        if let Some(fs) = parse_fields(buf@) {
            assert(done + fs =~= fs);
        }
    }
    while rest.len() > 0
        invariant
            parse_fields(buf@) == then_fields(done, parse_fields(rest@)),
            v@.len() == slots,
            forall|t: int| 0 <= t < slots ==> slot_view(#[trigger] v@[t]) == last_field(done, t as nat),
        decreases rest@.len(),
    {
        match next_field(rest) {
            None => {
                return None;
            },
            Some((tag, value, rest2)) => {
                let ghost f = (tag as nat, value@);
                proof {
                    let old_done = done;
                    done = done.push(f);
                    assert(done.drop_last() =~= old_done);
                    if let Some(fs) = parse_fields(rest2@) {
                        assert(old_done + (seq![f] + fs) =~= done + fs);
                    }
                }
                if tag < slots as u64 {
                    v.set(tag as usize, Some(value));
                }
                rest = rest2;
            },
        }
    }
    proof {
        assert(done + Seq::<(nat, WireValue)>::empty() =~= done);
    }
    Some(v)
}

/// Reads bytes preceded by their length from the start of `s`: the bytes
/// and the number of bytes taken in all.
pub open spec fn parse_delimited(s: Seq<u8>) -> Option<(Seq<u8>, nat)> {
    match varint_parse(s) {
        Some((len, n)) => if n + len <= s.len() {
            Some((s.subrange(n as int, (n + len) as int), n + len))
        } else {
            None
        },
        None => None,
    }
}

/// Reads bytes preceded by their length from the front of `buf`, and
/// hands back the bytes after them.
pub(crate) fn take_delimited<'a>(buf: &'a [u8]) -> (r: Option<(&'a [u8], &'a [u8])>)
    ensures
        match parse_delimited(buf@) {
            Some((b, k)) => r matches Some((body, rest)) && body@ == b && rest@ == buf@.skip(
                k as int,
            ),
            None => r is None,
        },
{
    let (len, rest) = take_varint(buf);
    proof {
        lemma_varint_parse_fits(buf@);
    }
    match len {
        Ok(len) => {
            if len > rest.len() as u64 {
                return None;
            }
            let len = len as usize;
            let body = slice_subrange(rest, 0, len);
            let rest2 = slice_subrange(rest, len, rest.len());
            let ghost n = varint_len(buf@);
            assert(body@ =~= buf@.subrange(n as int, (n + len) as int));
            assert(rest2@ =~= buf@.skip((n + len) as int));
            Some((body, rest2))
        },
        Err(_) => None,
    }
}

} // verus!
