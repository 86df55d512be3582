//! The messages of the RPC protocol and of the namenode protocol that this
//! client writes and reads, with their protobuf encodings.
use vstd::prelude::*;
use vstd::utf8::encode_utf8;
use crate::error::IpcError;
use crate::wire::{
    bytes_field, collect_fields, delimited, last_field, parse_fields, put_bytes_field,
    put_delimited, put_varint_field, slot_view, unzigzag, unzigzag_of, varint_field, zigzag,
    zigzag_of, FieldValue, WireValue,
};

verus! {

/// The engine that serialises a call's payload.
#[derive(Clone, Copy, PartialEq, Eq, Debug, Structural)]
pub enum RpcKind {
    /// Used for built in calls by tests.
    RpcBuiltin,
    RpcWritable,
    RpcProtocolBuffer,
}

impl RpcKind {
    /// The number of this kind on the wire.
    pub open spec fn code(self) -> u64 {
        match self {
            RpcKind::RpcBuiltin => 0,
            RpcKind::RpcWritable => 1,
            RpcKind::RpcProtocolBuffer => 2,
        }
    }

    pub fn to_code(&self) -> (r: u64)
        ensures
            r == self.code(),
    {
        match self {
            RpcKind::RpcBuiltin => 0,
            RpcKind::RpcWritable => 1,
            RpcKind::RpcProtocolBuffer => 2,
        }
    }
}

/// Which part of a call a request frame carries.
#[derive(Clone, Copy, PartialEq, Eq, Debug, Structural)]
pub enum OperationProto {
    RpcFinalPacket,
    RpcContinuationPacket,
    RpcCloseConnection,
}

impl OperationProto {
    pub open spec fn code(self) -> u64 {
        match self {
            OperationProto::RpcFinalPacket => 0,
            OperationProto::RpcContinuationPacket => 1,
            OperationProto::RpcCloseConnection => 2,
        }
    }

    pub fn to_code(&self) -> (r: u64)
        ensures
            r == self.code(),
    {
        match self {
            OperationProto::RpcFinalPacket => 0,
            OperationProto::RpcContinuationPacket => 1,
            OperationProto::RpcCloseConnection => 2,
        }
    }
}

/// The status a server gives a call.
#[derive(Clone, Copy, PartialEq, Eq, Debug, Structural)]
pub enum RpcStatusProto {
    Success,
    Error,
    Fatal,
}

impl RpcStatusProto {
    pub open spec fn code(self) -> u64 {
        match self {
            RpcStatusProto::Success => 0,
            RpcStatusProto::Error => 1,
            RpcStatusProto::Fatal => 2,
        }
    }

    pub fn to_code(&self) -> (r: u64)
        ensures
            r == self.code(),
    {
        match self {
            RpcStatusProto::Success => 0,
            RpcStatusProto::Error => 1,
            RpcStatusProto::Fatal => 2,
        }
    }
}

pub open spec fn rpc_kind_of(n: u64) -> Option<RpcKind> {
    if n == 0 {
        Some(RpcKind::RpcBuiltin)
    } else if n == 1 {
        Some(RpcKind::RpcWritable)
    } else if n == 2 {
        Some(RpcKind::RpcProtocolBuffer)
    } else {
        None
    }
}

pub open spec fn operation_of(n: u64) -> Option<OperationProto> {
    if n == 0 {
        Some(OperationProto::RpcFinalPacket)
    } else if n == 1 {
        Some(OperationProto::RpcContinuationPacket)
    } else if n == 2 {
        Some(OperationProto::RpcCloseConnection)
    } else {
        None
    }
}

pub open spec fn status_of(n: u64) -> Option<RpcStatusProto> {
    if n == 0 {
        Some(RpcStatusProto::Success)
    } else if n == 1 {
        Some(RpcStatusProto::Error)
    } else if n == 2 {
        Some(RpcStatusProto::Fatal)
    } else {
        None
    }
}

/// An optional field of wire type 2: nothing where it is absent.
pub open spec fn opt_bytes_field(tag: nat, b: Option<Seq<u8>>) -> Seq<u8> {
    match b {
        Some(b) => bytes_field(tag, b),
        None => Seq::empty(),
    }
}

pub open spec fn opt_string_bytes(s: Option<String>) -> Option<Seq<u8>> {
    match s {
        Some(s) => Some(encode_utf8(s@)),
        None => None,
    }
}

pub open spec fn opt_vec_bytes(b: Option<Vec<u8>>) -> Option<Seq<u8>> {
    match b {
        Some(b) => Some(b@),
        None => None,
    }
}

fn put_string_field(buf: &mut Vec<u8>, tag: u64, s: &String)
    requires
        1 <= tag < 0x1000,
    ensures
        final(buf)@ == old(buf)@ + bytes_field(tag as nat, encode_utf8(s@)),
{
    put_bytes_field(buf, tag, s.as_str().as_bytes());
}

fn put_opt_string_field(buf: &mut Vec<u8>, tag: u64, s: &Option<String>)
    requires
        1 <= tag < 0x1000,
    ensures
        final(buf)@ == old(buf)@ + opt_bytes_field(tag as nat, opt_string_bytes(*s)),
{
    match s {
        Some(s) => put_string_field(buf, tag, s),
        None => {
            assert(buf@ =~= old(buf)@ + Seq::<u8>::empty());
        },
    }
}

fn put_opt_bytes_field(buf: &mut Vec<u8>, tag: u64, b: &Option<Vec<u8>>)
    requires
        1 <= tag < 0x1000,
    ensures
        final(buf)@ == old(buf)@ + opt_bytes_field(tag as nat, opt_vec_bytes(*b)),
{
    match b {
        Some(b) => put_bytes_field(buf, tag, b.as_slice()),
        None => {
            assert(buf@ =~= old(buf)@ + Seq::<u8>::empty());
        },
    }
}

/// The header of every request frame.
#[derive(Clone, Debug)]
pub struct RpcRequestHeaderProto {
    pub rpc_kind: RpcKind,
    pub rpc_op: OperationProto,
    /// Sequence number of the call, sent back in its response.
    pub call_id: i32,
    /// Globally unique client id.
    pub client_id: Vec<u8>,
    pub retry_count: i32,
}

/// The body of a request header with these fields.
pub open spec fn request_header_fields_bytes(
    rpc_kind: RpcKind,
    rpc_op: OperationProto,
    call_id: i32,
    client_id: Seq<u8>,
    retry_count: i32,
) -> Seq<u8> {
    varint_field(1, rpc_kind.code() as nat) + varint_field(2, rpc_op.code() as nat) + varint_field(
        3,
        zigzag(call_id),
    ) + bytes_field(4, client_id) + varint_field(5, zigzag(retry_count))
}

pub open spec fn request_header_bytes(h: RpcRequestHeaderProto) -> Seq<u8> {
    request_header_fields_bytes(h.rpc_kind, h.rpc_op, h.call_id, h.client_id@, h.retry_count)
}

impl RpcRequestHeaderProto {
    pub fn encode(&self) -> (r: Vec<u8>)
        ensures
            r@ == request_header_bytes(*self),
    {
        let mut buf: Vec<u8> = Vec::new();
        put_varint_field(&mut buf, 1, self.rpc_kind.to_code());
        put_varint_field(&mut buf, 2, self.rpc_op.to_code());
        put_varint_field(&mut buf, 3, zigzag_of(self.call_id));
        put_bytes_field(&mut buf, 4, self.client_id.as_slice());
        put_varint_field(&mut buf, 5, zigzag_of(self.retry_count));
        assert(buf@ =~= request_header_bytes(*self));
        buf
    }

    pub fn encode_length_delimited(&self) -> (r: Vec<u8>)
        ensures
            r@ == delimited(request_header_bytes(*self)),
    {
        let body = self.encode();
        let mut buf: Vec<u8> = Vec::new();
        put_delimited(&mut buf, body.as_slice());
        assert(buf@ =~= delimited(request_header_bytes(*self)));
        buf
    }
}

/// The header that names the remote method of a protocol-buffer call.
#[derive(Clone, Debug)]
pub struct RequestHeaderProto {
    pub method_name: String,
    pub declaring_class_protocol_name: String,
    pub client_protocol_version: u64,
}

pub open spec fn method_header_bytes(h: RequestHeaderProto) -> Seq<u8> {
    bytes_field(1, encode_utf8(h.method_name@)) + bytes_field(
        2,
        encode_utf8(h.declaring_class_protocol_name@),
    ) + varint_field(3, h.client_protocol_version as nat)
}

impl RequestHeaderProto {
    pub fn encode(&self) -> (r: Vec<u8>)
        ensures
            r@ == method_header_bytes(*self),
    {
        let mut buf: Vec<u8> = Vec::new();
        put_string_field(&mut buf, 1, &self.method_name);
        put_string_field(&mut buf, 2, &self.declaring_class_protocol_name);
        put_varint_field(&mut buf, 3, self.client_protocol_version);
        assert(buf@ =~= method_header_bytes(*self));
        buf
    }
}

/// Who makes the calls of a connection.
#[derive(Clone, Debug)]
pub struct UserInformationProto {
    pub effective_user: Option<String>,
    pub real_user: Option<String>,
}

pub open spec fn user_info_bytes(u: UserInformationProto) -> Seq<u8> {
    opt_bytes_field(1, opt_string_bytes(u.effective_user)) + opt_bytes_field(
        2,
        opt_string_bytes(u.real_user),
    )
}

impl UserInformationProto {
    pub fn encode(&self) -> (r: Vec<u8>)
        ensures
            r@ == user_info_bytes(*self),
    {
        let mut buf: Vec<u8> = Vec::new();
        put_opt_string_field(&mut buf, 1, &self.effective_user);
        put_opt_string_field(&mut buf, 2, &self.real_user);
        assert(buf@ =~= user_info_bytes(*self));
        buf
    }
}

/// The context sent once on each new connection.
#[derive(Clone, Debug)]
pub struct IpcConnectionContextProto {
    pub user_info: Option<UserInformationProto>,
    pub protocol: Option<String>,
}

pub open spec fn opt_user_info_bytes(u: Option<UserInformationProto>) -> Option<Seq<u8>> {
    match u {
        Some(u) => Some(user_info_bytes(u)),
        None => None,
    }
}

pub open spec fn connection_context_bytes(c: IpcConnectionContextProto) -> Seq<u8> {
    opt_bytes_field(2, opt_user_info_bytes(c.user_info)) + opt_bytes_field(
        3,
        opt_string_bytes(c.protocol),
    )
}

impl IpcConnectionContextProto {
    pub fn encode(&self) -> (r: Vec<u8>)
        ensures
            r@ == connection_context_bytes(*self),
    {
        let mut buf: Vec<u8> = Vec::new();
        match &self.user_info {
            Some(u) => {
                let b = u.encode();
                put_bytes_field(&mut buf, 2, b.as_slice());
            },
            None => {},
        }
        put_opt_string_field(&mut buf, 3, &self.protocol);
        assert(buf@ =~= connection_context_bytes(*self));
        buf
    }

    pub fn encode_length_delimited(&self) -> (r: Vec<u8>)
        ensures
            r@ == delimited(connection_context_bytes(*self)),
    {
        let body = self.encode();
        let mut buf: Vec<u8> = Vec::new();
        put_delimited(&mut buf, body.as_slice());
        assert(buf@ =~= delimited(connection_context_bytes(*self)));
        buf
    }
}

/// The header of every response frame.
#[derive(Clone, Debug)]
pub struct RpcResponseHeaderProto {
    pub call_id: u32,
    pub status: RpcStatusProto,
    pub exception_class_name: Option<Vec<u8>>,
    pub error_msg: Option<Vec<u8>>,
}

pub open spec fn response_header_bytes(h: RpcResponseHeaderProto) -> Seq<u8> {
    varint_field(1, h.call_id as nat) + varint_field(2, h.status.code() as nat) + opt_bytes_field(
        4,
        opt_vec_bytes(h.exception_class_name),
    ) + opt_bytes_field(5, opt_vec_bytes(h.error_msg))
}

impl RpcResponseHeaderProto {
    pub fn encode(&self) -> (r: Vec<u8>)
        ensures
            r@ == response_header_bytes(*self),
    {
        let mut buf: Vec<u8> = Vec::new();
        put_varint_field(&mut buf, 1, self.call_id as u64);
        put_varint_field(&mut buf, 2, self.status.to_code());
        put_opt_bytes_field(&mut buf, 4, &self.exception_class_name);
        put_opt_bytes_field(&mut buf, 5, &self.error_msg);
        assert(buf@ =~= response_header_bytes(*self));
        buf
    }

    pub fn encode_length_delimited(&self) -> (r: Vec<u8>)
        ensures
            r@ == delimited(response_header_bytes(*self)),
    {
        let body = self.encode();
        let mut buf: Vec<u8> = Vec::new();
        put_delimited(&mut buf, body.as_slice());
        assert(buf@ =~= delimited(response_header_bytes(*self)));
        buf
    }
}

/// The permission message of the namenode protocol.
#[derive(Clone, Copy, PartialEq, Eq, Debug, Structural)]
pub struct FsPermissionProto {
    pub perm: u32,
}

pub open spec fn permission_bytes(p: FsPermissionProto) -> Seq<u8> {
    varint_field(1, p.perm as nat)
}

impl FsPermissionProto {
    pub fn encode(&self) -> (r: Vec<u8>)
        ensures
            r@ == permission_bytes(*self),
    {
        let mut buf: Vec<u8> = Vec::new();
        put_varint_field(&mut buf, 1, self.perm as u64);
        buf
    }
}

/// The request of the namenode's `mkdirs` method.
#[derive(Clone, Debug)]
pub struct MkdirsRequestProto {
    pub src: String,
    pub masked: FsPermissionProto,
    pub create_parent: bool,
    pub unmasked: Option<FsPermissionProto>,
}

pub open spec fn opt_permission_bytes(p: Option<FsPermissionProto>) -> Option<Seq<u8>> {
    match p {
        Some(p) => Some(permission_bytes(p)),
        None => None,
    }
}

pub open spec fn mkdirs_request_bytes(m: MkdirsRequestProto) -> Seq<u8> {
    bytes_field(1, encode_utf8(m.src@)) + bytes_field(2, permission_bytes(m.masked))
        + varint_field(3, if m.create_parent { 1 } else { 0 }) + opt_bytes_field(
        4,
        opt_permission_bytes(m.unmasked),
    )
}

impl MkdirsRequestProto {
    pub fn encode(&self) -> (r: Vec<u8>)
        ensures
            r@ == mkdirs_request_bytes(*self),
    {
        let mut buf: Vec<u8> = Vec::new();
        put_string_field(&mut buf, 1, &self.src);
        let masked = self.masked.encode();
        put_bytes_field(&mut buf, 2, masked.as_slice());
        put_varint_field(&mut buf, 3, if self.create_parent { 1 } else { 0 });
        match &self.unmasked {
            Some(u) => {
                let b = u.encode();
                put_bytes_field(&mut buf, 4, b.as_slice());
            },
            None => {},
        }
        assert(buf@ =~= mkdirs_request_bytes(*self));
        buf
    }
}

/// The response of the namenode's `mkdirs` method.
#[derive(Clone, Copy, PartialEq, Eq, Debug, Structural)]
pub struct MkdirsResponseProto {
    pub result: bool,
}

pub open spec fn mkdirs_response_bytes(m: MkdirsResponseProto) -> Seq<u8> {
    varint_field(1, if m.result { 1 } else { 0 })
}

impl MkdirsResponseProto {
    pub fn encode(&self) -> (r: Vec<u8>)
        ensures
            r@ == mkdirs_response_bytes(*self),
    {
        let mut buf: Vec<u8> = Vec::new();
        put_varint_field(&mut buf, 1, if self.result { 1 } else { 0 });
        buf
    }
}

/// A varint field's value; `default` where the field is absent, `None`
/// where it has another wire type.
pub open spec fn varint_or(w: Option<WireValue>, default: u64) -> Option<u64> {
    match w {
        None => Some(default),
        Some(WireValue::Varint(n)) => Some(n),
        Some(_) => None,
    }
}

/// A bytes field's value; empty where the field is absent, `None` where it
/// has another wire type.
pub open spec fn bytes_or_empty(w: Option<WireValue>) -> Option<Seq<u8>> {
    match w {
        None => Some(Seq::empty()),
        Some(WireValue::Bytes(b)) => Some(b),
        Some(_) => None,
    }
}

/// An optional bytes field; `None` where it has another wire type.
pub open spec fn opt_bytes_of(w: Option<WireValue>) -> Option<Option<Seq<u8>>> {
    match w {
        None => Some(None),
        Some(WireValue::Bytes(b)) => Some(Some(b)),
        Some(_) => None,
    }
}

fn varint_slot(w: Option<FieldValue>, default: u64) -> (r: Option<u64>)
    ensures
        r == varint_or(slot_view(w), default),
{
    match w {
        None => Some(default),
        Some(FieldValue::Varint(n)) => Some(n),
        Some(_) => None,
    }
}

fn bytes_slot(w: Option<FieldValue>) -> (r: Option<Vec<u8>>)
    ensures
        match bytes_or_empty(slot_view(w)) {
            Some(b) => r matches Some(v) && v@ == b,
            None => r is None,
        },
{
    match w {
        None => Some(Vec::new()),
        Some(FieldValue::Bytes(b)) => Some(b),
        Some(_) => None,
    }
}

fn opt_bytes_slot(w: Option<FieldValue>) -> (r: Option<Option<Vec<u8>>>)
    ensures
        match opt_bytes_of(slot_view(w)) {
            Some(b) => r matches Some(v) && opt_vec_bytes(v) == b,
            None => r is None,
        },
{
    match w {
        None => Some(None),
        Some(FieldValue::Bytes(b)) => Some(Some(b)),
        Some(_) => None,
    }
}

fn rpc_kind_from(n: u64) -> (r: Option<RpcKind>)
    ensures
        r == rpc_kind_of(n),
{
    if n == 0 {
        Some(RpcKind::RpcBuiltin)
    } else if n == 1 {
        Some(RpcKind::RpcWritable)
    } else if n == 2 {
        Some(RpcKind::RpcProtocolBuffer)
    } else {
        None
    }
}

fn operation_from(n: u64) -> (r: Option<OperationProto>)
    ensures
        r == operation_of(n),
{
    if n == 0 {
        Some(OperationProto::RpcFinalPacket)
    } else if n == 1 {
        Some(OperationProto::RpcContinuationPacket)
    } else if n == 2 {
        Some(OperationProto::RpcCloseConnection)
    } else {
        None
    }
}

fn status_from(n: u64) -> (r: Option<RpcStatusProto>)
    ensures
        r == status_of(n),
{
    if n == 0 {
        Some(RpcStatusProto::Success)
    } else if n == 1 {
        Some(RpcStatusProto::Error)
    } else if n == 2 {
        Some(RpcStatusProto::Fatal)
    } else {
        None
    }
}

/// Whether the fields make a request header: every known field has its
/// wire type and the kind and operation are known numbers. An absent
/// field takes its default: kind and operation 0, call id 0, no client id
/// and a retry count of -1.
pub open spec fn request_header_ok(fs: Seq<(nat, WireValue)>) -> bool {
    &&& varint_or(last_field(fs, 1), 0) matches Some(k) && rpc_kind_of(k) is Some
    &&& varint_or(last_field(fs, 2), 0) matches Some(o) && operation_of(o) is Some
    &&& varint_or(last_field(fs, 3), 0) is Some
    &&& bytes_or_empty(last_field(fs, 4)) is Some
    &&& varint_or(last_field(fs, 5), 1) is Some
}

/// `h` is the request header that the fields give.
pub open spec fn request_header_from(fs: Seq<(nat, WireValue)>, h: RpcRequestHeaderProto) -> bool {
    &&& rpc_kind_of(varint_or(last_field(fs, 1), 0)->0) == Some(h.rpc_kind)
    &&& operation_of(varint_or(last_field(fs, 2), 0)->0) == Some(h.rpc_op)
    &&& unzigzag(varint_or(last_field(fs, 3), 0)->0) == h.call_id
    &&& bytes_or_empty(last_field(fs, 4)) == Some(h.client_id@)
    &&& unzigzag(varint_or(last_field(fs, 5), 1)->0) == h.retry_count
}

impl RpcRequestHeaderProto {
    /// Reads a request header from its message body.
    pub fn decode(buf: &[u8]) -> (r: Result<RpcRequestHeaderProto, IpcError>)
        ensures
            match parse_fields(buf@) {
                Some(fs) => if request_header_ok(fs) {
                    r matches Ok(h) && request_header_from(fs, h)
                } else {
                    r == Err::<RpcRequestHeaderProto, IpcError>(IpcError::Protocol)
                },
                None => r == Err::<RpcRequestHeaderProto, IpcError>(IpcError::Protocol),
            },
    {
        let mut slots = match collect_fields(buf, 6) {
            Some(v) => v,
            None => return Err(IpcError::Protocol),
        };
        let ghost fs = parse_fields(buf@)->0;
        let ghost s = slots@;
        assert(slot_view(s[5]) == last_field(fs, 5));
        assert(slot_view(s[4]) == last_field(fs, 4));
        assert(slot_view(s[3]) == last_field(fs, 3));
        assert(slot_view(s[2]) == last_field(fs, 2));
        assert(slot_view(s[1]) == last_field(fs, 1));
        let retry = varint_slot(slots.pop().unwrap(), 1);
        let client_id = bytes_slot(slots.pop().unwrap());
        let call_id = varint_slot(slots.pop().unwrap(), 0);
        let op = varint_slot(slots.pop().unwrap(), 0);
        let kind = varint_slot(slots.pop().unwrap(), 0);
        let kind = match kind {
            Some(k) => rpc_kind_from(k),
            None => None,
        };
        let op = match op {
            Some(o) => operation_from(o),
            None => None,
        };
        match (kind, op, call_id, client_id, retry) {
            (Some(kind), Some(op), Some(call_id), Some(client_id), Some(retry)) => Ok(
                RpcRequestHeaderProto {
                    rpc_kind: kind,
                    rpc_op: op,
                    call_id: unzigzag_of(call_id),
                    client_id,
                    retry_count: unzigzag_of(retry),
                },
            ),
            _ => Err(IpcError::Protocol),
        }
    }
}

/// Whether the fields make a response header: every known field has its
/// wire type and the status is a known number.
pub open spec fn response_header_ok(fs: Seq<(nat, WireValue)>) -> bool {
    &&& varint_or(last_field(fs, 1), 0) is Some
    &&& varint_or(last_field(fs, 2), 0) matches Some(st) && status_of(st) is Some
    &&& opt_bytes_of(last_field(fs, 4)) is Some
    &&& opt_bytes_of(last_field(fs, 5)) is Some
}

/// `h` is the response header that the fields give; the call id is read
/// from the low 32 bits of its field.
pub open spec fn response_header_from(fs: Seq<(nat, WireValue)>, h: RpcResponseHeaderProto) -> bool {
    &&& h.call_id as int == varint_or(last_field(fs, 1), 0)->0 as int % 0x1_0000_0000
    &&& status_of(varint_or(last_field(fs, 2), 0)->0) == Some(h.status)
    &&& opt_bytes_of(last_field(fs, 4)) == Some(opt_vec_bytes(h.exception_class_name))
    &&& opt_bytes_of(last_field(fs, 5)) == Some(opt_vec_bytes(h.error_msg))
}

impl RpcResponseHeaderProto {
    /// Reads a response header from its message body.
    pub fn decode(buf: &[u8]) -> (r: Result<RpcResponseHeaderProto, IpcError>)
        ensures
            match parse_fields(buf@) {
                Some(fs) => if response_header_ok(fs) {
                    r matches Ok(h) && response_header_from(fs, h)
                } else {
                    r == Err::<RpcResponseHeaderProto, IpcError>(IpcError::Protocol)
                },
                None => r == Err::<RpcResponseHeaderProto, IpcError>(IpcError::Protocol),
            },
    {
        let mut slots = match collect_fields(buf, 6) {
            Some(v) => v,
            None => return Err(IpcError::Protocol),
        };
        let ghost fs = parse_fields(buf@)->0;
        let ghost s = slots@;
        assert(slot_view(s[5]) == last_field(fs, 5));
        assert(slot_view(s[4]) == last_field(fs, 4));
        assert(slot_view(s[2]) == last_field(fs, 2));
        assert(slot_view(s[1]) == last_field(fs, 1));
        let error_msg = opt_bytes_slot(slots.pop().unwrap());
        let exception_class_name = opt_bytes_slot(slots.pop().unwrap());
        let _ = slots.pop();
        let status = varint_slot(slots.pop().unwrap(), 0);
        let call_id = varint_slot(slots.pop().unwrap(), 0);
        let status = match status {
            Some(st) => status_from(st),
            None => None,
        };
        match (call_id, status, exception_class_name, error_msg) {
            (Some(call_id), Some(status), Some(exception_class_name), Some(error_msg)) => Ok(
                RpcResponseHeaderProto {
                    call_id: (call_id % 0x1_0000_0000) as u32,
                    status,
                    exception_class_name,
                    error_msg,
                },
            ),
            _ => Err(IpcError::Protocol),
        }
    }
}

/// Whether the fields make a `mkdirs` response: its result, if present,
/// is a varint.
pub open spec fn mkdirs_response_ok(fs: Seq<(nat, WireValue)>) -> bool {
    varint_or(last_field(fs, 1), 0) is Some
}

impl MkdirsResponseProto {
    /// What reading a `mkdirs` response from `buf` yields.
    pub open spec fn spec_decode(buf: Seq<u8>) -> Result<MkdirsResponseProto, IpcError> {
        match parse_fields(buf) {
            Some(fs) => if mkdirs_response_ok(fs) {
                Ok(MkdirsResponseProto { result: varint_or(last_field(fs, 1), 0)->0 != 0 })
            } else {
                Err(IpcError::Decode)
            },
            None => Err(IpcError::Decode),
        }
    }

    /// Reads a `mkdirs` response from its message body.
    pub fn decode(buf: &[u8]) -> (r: Result<MkdirsResponseProto, IpcError>)
        ensures
            match parse_fields(buf@) {
                Some(fs) => if mkdirs_response_ok(fs) {
                    r == Ok::<MkdirsResponseProto, IpcError>(
                        MkdirsResponseProto { result: varint_or(last_field(fs, 1), 0)->0 != 0 },
                    )
                } else {
                    r == Err::<MkdirsResponseProto, IpcError>(IpcError::Decode)
                },
                None => r == Err::<MkdirsResponseProto, IpcError>(IpcError::Decode),
            },
    {
        let mut slots = match collect_fields(buf, 2) {
            Some(v) => v,
            None => return Err(IpcError::Decode),
        };
        let ghost fs = parse_fields(buf@)->0;
        assert(slot_view(slots@[1]) == last_field(fs, 1));
        match varint_slot(slots.pop().unwrap(), 0) {
            Some(n) => Ok(MkdirsResponseProto { result: n != 0 }),
            None => Err(IpcError::Decode),
        }
    }
}

} // verus!
