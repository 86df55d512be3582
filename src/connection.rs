//! One connection to one endpoint, without its socket: the handshake and
//! request bytes it writes, and the calls it multiplexes, which responses
//! complete by call id.
use vstd::prelude::*;
use std::collections::HashMap;
use crate::call::Call;
use crate::connection_id::{ConnectionId, ConnectionIdView};
use crate::error::{same_error, IpcError};
use crate::frame::{
    be_value, connection_header, i32_from_be, length_verdict, preamble, prepend_buf_size, sized, AuthProtocol,
    ResponseLength, ResponseReader, CONNECTION_CONTEXT_CALL_ID, INVALID_RETRY_COUNT,
};
use vstd::utf8::encode_utf8;
use crate::proto::{
    connection_context_bytes, opt_bytes_field, opt_string_bytes, request_header_fields_bytes, response_header_ok, varint_or,
    OperationProto, RpcKind, RpcResponseHeaderProto,
};
use crate::proto_util::{context_users, opt_str_view, ProtoUtil};
use crate::wire::{bytes_field, delimited, last_field, parse_delimited, parse_fields, put_bytes, take_delimited};

verus! {

broadcast use vstd::std_specs::hash::group_hash_axioms;

/// Everything a connection holds but its socket.
pub ghost struct ConnectionView {
    pub serial: u64,
    pub remote_id: ConnectionIdView,
    pub protocol: Seq<char>,
    pub auth_method: Seq<char>,
    pub auth_protocol: AuthProtocol,
    pub service_class: u8,
    pub max_response_length: i32,
    pub first_response: bool,
    pub calls: Map<i32, Call>,
    pub failure: Option<IpcError>,
    pub last_activity: u64,
    pub pending_read: ReadState,
}

/// What the reader of a connection reads next.
#[derive(Clone, Copy, PartialEq, Eq, Debug, Structural)]
pub enum ReadState {
    /// The four-byte length of the next response frame.
    Length,
    /// A response body of this many bytes.
    Body(usize),
    /// The four bytes that follow a remote-exception length, to discard.
    Sentinel,
}

/// How many bytes the reader takes in the read state `s`.
pub open spec fn read_len(s: ReadState) -> nat {
    match s {
        ReadState::Length => 4,
        ReadState::Body(n) => n as nat,
        ReadState::Sentinel => 4,
    }
}

/// Whether a connection has been idle at `now`: no call is active and the
/// last activity is more than the idle time ago.
pub open spec fn idle_at(c: ConnectionView, now: u64) -> bool {
    c.calls.len() == 0 && now as int - c.last_activity as int > c.remote_id.max_idle_time as int
}

/// The call id that a response header gives: the low 32 bits of its
/// field.
pub open spec fn response_call_id(fs: Seq<(nat, crate::wire::WireValue)>) -> int {
    varint_or(last_field(fs, 1), 0)->0 as int % 0x1_0000_0000
}

/// `new` is the call `old` completed with the response `body`.
pub open spec fn completed_with(new: Call, old: Call, body: Vec<u8>) -> bool {
    &&& new.done
    &&& new.rpc_response == Some(body)
    &&& new.id == old.id
    &&& new.retry == old.retry
    &&& new.rpc_request == old.rpc_request
    &&& new.error == old.error
    &&& new.rpc_kind == old.rpc_kind
}

/// `after` is `before` with the response `body` handed to the call `id`:
/// that call is complete, and every other call is as it was.
pub open spec fn delivered(before: Map<i32, Call>, after: Map<i32, Call>, id: i32, body: Vec<u8>) -> bool {
    &&& after.dom() == before.dom()
    &&& completed_with(after[id], before[id], body)
    &&& forall|k: i32| k != id && before.contains_key(k) ==> after[k] == before[k]
}

/// Responses complete only the call they name, in whatever order they
/// come: after the response for `b` and then the one for `a`, each call
/// holds its own response.
pub proof fn lemma_out_of_order_delivery(
    m0: Map<i32, Call>,
    m1: Map<i32, Call>,
    m2: Map<i32, Call>,
    a: i32,
    b: i32,
    body_a: Vec<u8>,
    body_b: Vec<u8>,
)
    requires
        a != b,
        m0.contains_key(a),
        m0.contains_key(b),
        delivered(m0, m1, b, body_b),
        delivered(m1, m2, a, body_a),
    ensures
        m2[a].rpc_response == Some(body_a),
        m2[b].rpc_response == Some(body_b),
        m2[a].id == m0[a].id,
        m2[b].id == m0[b].id,
        m2.dom() == m0.dom(),
{
}

/// The frame that carries a request: the request header, then the
/// payload, behind their total length.
pub open spec fn request_frame(
    rpc_kind: RpcKind,
    call_id: i32,
    client_id: Seq<u8>,
    retry_count: i32,
    payload: Seq<u8>,
) -> Seq<u8> {
    sized(
        delimited(
            request_header_fields_bytes(
                rpc_kind,
                OperationProto::RpcFinalPacket,
                call_id,
                client_id,
                retry_count,
            ),
        ) + payload,
    )
}

/// The UTF-8 bytes of an optional string.
pub open spec fn opt_utf8(s: Option<Seq<char>>) -> Option<Seq<u8>> {
    match s {
        Some(s) => Some(encode_utf8(s)),
        None => None,
    }
}

/// The body of the context a connection sends: its user, as its
/// authentication method requires, and its protocol.
pub open spec fn context_body(v: ConnectionView) -> Seq<u8> {
    let users = context_users(Some(v.remote_id.ticket), v.auth_method);
    bytes_field(2, opt_bytes_field(1, opt_utf8(users.0)) + opt_bytes_field(2, opt_utf8(users.1)))
        + bytes_field(3, encode_utf8(v.protocol))
}

/// The header and the context of the connection-context frame, each
/// behind its length.
pub open spec fn context_frame_body(client_id: Seq<u8>, v: ConnectionView) -> Seq<u8> {
    delimited(
        request_header_fields_bytes(
            RpcKind::RpcProtocolBuffer,
            OperationProto::RpcFinalPacket,
            CONNECTION_CONTEXT_CALL_ID,
            client_id,
            INVALID_RETRY_COUNT,
        ),
    ) + delimited(context_body(v))
}

proof fn lemma_opt_string_bytes(s: Option<String>)
    ensures
        opt_string_bytes(s) == opt_utf8(opt_str_view(s)),
{
}

/// `after` is `before` once the response body `body` came, with the
/// outcome `r`: on a live connection the call the header names, if it is
/// registered, is completed; an unreadable header fails the connection;
/// a failed connection completes nothing.
pub open spec fn received(
    before: ConnectionView,
    after: ConnectionView,
    body: Vec<u8>,
    r: Result<Option<i32>, IpcError>,
) -> bool {
    match before.failure {
        Some(e) => (r matches Err(x) && same_error(x, e)) && after.calls == before.calls
            && after.failure == before.failure,
        None => match parse_delimited(body@) {
            Some((hb, _)) => match parse_fields(hb) {
                Some(fs) => if response_header_ok(fs) {
                    let id = response_call_id(fs);
                    if id <= i32::MAX && before.calls.contains_key(id as i32) {
                        r == Ok::<Option<i32>, IpcError>(Some(id as i32)) && delivered(
                            before.calls,
                            after.calls,
                            id as i32,
                            body,
                        ) && after.failure == before.failure
                    } else {
                        r == Ok::<Option<i32>, IpcError>(None) && after.calls
                            == before.calls && after.failure == before.failure
                    }
                } else {
                    r == Err::<Option<i32>, IpcError>(IpcError::Protocol) && after.failure is Some
                        && after.calls == before.calls
                },
                None => r == Err::<Option<i32>, IpcError>(IpcError::Protocol) && after.failure is Some
                    && after.calls == before.calls,
            },
            None => r == Err::<Option<i32>, IpcError>(IpcError::Protocol) && after.failure is Some
                && after.calls == before.calls,
        }
    }
}

/// The state of a call asked after by [`Connection::poll_call`].
#[derive(Debug)]
pub enum CallPoll {
    /// No call of that id is registered.
    Unknown,
    /// The call waits for its response.
    Pending,
    /// The call is over: its response, or the failure of the connection.
    Done(Result<Vec<u8>, IpcError>),
}

/// The calls and the handshake of one connection.
pub struct Connection {
    serial: u64,
    remote_id: ConnectionId,
    protocol_name: String,
    auth_method: String,
    auth_protocol: AuthProtocol,
    service_class: u8,
    reader: ResponseReader,
    calls: HashMap<i32, Call>,
    failure: Option<IpcError>,
    last_activity: u64,
    pending_read: ReadState,
}

impl View for Connection {
    type V = ConnectionView;

    closed spec fn view(&self) -> ConnectionView {
        ConnectionView {
            serial: self.serial,
            remote_id: self.remote_id@,
            protocol: self.protocol_name@,
            auth_method: self.auth_method@,
            auth_protocol: self.auth_protocol,
            service_class: self.service_class,
            max_response_length: self.reader.max_response_length,
            first_response: self.reader.first_response,
            calls: self.calls@,
            failure: self.failure,
            last_activity: self.last_activity,
            pending_read: self.pending_read,
        }
    }
}

impl Connection {
    /// A connection to `remote_id` that speaks `protocol_name`, made at
    /// `now`. Negotiated authentication is chosen where `try_sasl` holds.
    pub fn new(
        serial: u64,
        remote_id: ConnectionId,
        protocol_name: &str,
        service_class: u8,
        max_response_length: i32,
        try_sasl: bool,
        now: u64,
    ) -> (r: Connection)
        ensures
            r@.serial == serial,
            r@.remote_id == remote_id@,
            r@.protocol == protocol_name@,
            r@.auth_method == Seq::<char>::empty(),
            r@.auth_protocol == if try_sasl { AuthProtocol::Sasl } else { AuthProtocol::Simple },
            r@.service_class == service_class,
            r@.max_response_length == max_response_length,
            r@.first_response,
            r@.calls == Map::<i32, Call>::empty(),
            r@.failure is None,
            r@.last_activity == now,
            r@.pending_read == ReadState::Length,
    {
        Connection {
            serial,
            remote_id,
            protocol_name: protocol_name.to_owned(),
            auth_method: String::new(),
            auth_protocol: if try_sasl {
                AuthProtocol::Sasl
            } else {
                AuthProtocol::Simple
            },
            service_class,
            reader: ResponseReader::new(max_response_length),
            calls: HashMap::new(),
            failure: None,
            last_activity: now,
            pending_read: ReadState::Length,
        }
    }

    pub fn serial(&self) -> (r: u64)
        ensures
            r == self@.serial,
    {
        self.serial
    }

    pub fn remote_id(&self) -> (r: &ConnectionId)
        ensures
            r@ == self@.remote_id,
    {
        &self.remote_id
    }

    pub fn protocol_name(&self) -> (r: &str)
        ensures
            r@ == self@.protocol,
    {
        self.protocol_name.as_str()
    }

    /// Whether the connection may still send: it has not failed.
    pub fn is_usable(&self) -> (r: bool)
        ensures
            r == self@.failure is None,
    {
        self.failure.is_none()
    }

    /// Whether the connection may be torn down at `now`.
    pub fn is_idle(&self, now: u64) -> (r: bool)
        ensures
            r == idle_at(self@, now),
    {
        self.calls.len() == 0 && now as i128 - self.last_activity as i128
            > self.remote_id.get_max_idle_time() as i128
    }

    /// Closes the connection: every call still registered fails with the
    /// first error that closed it.
    pub fn close(&mut self, error: IpcError)
        ensures
            final(self)@ == (ConnectionView {
                failure: if old(self)@.failure is Some {
                    old(self)@.failure
                } else {
                    Some(error)
                },
                ..old(self)@
            }),
    {
        if self.failure.is_none() {
            self.failure = Some(error);
        }
    }

    /// The connection-context frame: its header, with the call id of
    /// connection contexts, then the context, behind their length. It
    /// fails only where the frame is too long for its length field.
    pub fn connection_context_frame(&self, client_id: &[u8]) -> (r: Result<Vec<u8>, IpcError>)
        ensures
            context_frame_body(client_id@, self@).len() <= i32::MAX ==> (r matches Ok(f) && f@
                == sized(context_frame_body(client_id@, self@))),
            context_frame_body(client_id@, self@).len() > i32::MAX ==> r == Err::<Vec<u8>, IpcError>(
                IpcError::Protocol,
            ),
    {
        let message = ProtoUtil::make_ipc_connection_context(
            Some(self.protocol_name.as_str()),
            Some(self.remote_id.get_ticket()),
            self.auth_method.as_str(),
        );
        let header = ProtoUtil::make_rpc_request_header(
            RpcKind::RpcProtocolBuffer,
            OperationProto::RpcFinalPacket,
            CONNECTION_CONTEXT_CALL_ID,
            INVALID_RETRY_COUNT,
            client_id,
            None,
        );
        let mut buf = header.encode_length_delimited();
        let body = message.encode_length_delimited();
        proof {
            let u = message.user_info->0;
            lemma_opt_string_bytes(u.effective_user);
            lemma_opt_string_bytes(u.real_user);
            lemma_opt_string_bytes(message.protocol);
            assert(connection_context_bytes(message) =~= context_body(self@));
        }
        put_bytes(&mut buf, body.as_slice());
        assert(buf@ =~= context_frame_body(client_id@, self@));
        if buf.len() > 0x7fff_ffff {
            return Err(IpcError::Protocol);
        }
        Ok(prepend_buf_size(buf))
    }

    /// The bytes that open the connection: the preamble, then the
    /// connection-context frame. Negotiated authentication is not
    /// available, so choosing it fails the connection with an
    /// authentication error.
    pub fn setup_iostreams(&mut self, client_id: &[u8]) -> (r: Result<Vec<u8>, IpcError>)
        ensures
            old(self)@.auth_protocol == AuthProtocol::Sasl ==> r == Err::<Vec<u8>, IpcError>(
                IpcError::Auth,
            ) && final(self)@.failure is Some && final(self)@.calls == old(self)@.calls,
            old(self)@.auth_protocol == AuthProtocol::Simple ==> final(self)@ == old(self)@ && if context_frame_body(
                client_id@,
                old(self)@,
            ).len() <= i32::MAX {
                r matches Ok(b) && b@ == preamble(old(self)@.service_class, AuthProtocol::Simple)
                    + sized(context_frame_body(client_id@, old(self)@))
            } else {
                r == Err::<Vec<u8>, IpcError>(IpcError::Protocol)
            },
    {
        if self.auth_protocol == AuthProtocol::Sasl {
            self.close(IpcError::Auth);
            return Err(IpcError::Auth);
        }
        let mut out = connection_header(self.service_class, self.auth_protocol);
        let context = self.connection_context_frame(client_id)?;
        put_bytes(&mut out, context.as_slice());
        Ok(out)
    }

    /// Registers a call under its id: from now on a response may come for
    /// it.
    pub fn add_call(&mut self, call: Call)
        ensures
            final(self)@ == (ConnectionView {
                calls: old(self)@.calls.insert(call.id, call),
                ..old(self)@
            }),
    {
        let id = call.id;
        self.calls.insert(id, call);
    }

    /// The frame that sends the registered call `id`, stamped at `now`.
    /// A failed connection sends nothing.
    pub fn send_rpc_request(&mut self, id: i32, client_id: &[u8], now: u64) -> (r: Result<
        Vec<u8>,
        IpcError,
    >)
        requires
            old(self)@.calls.contains_key(id),
        ensures
            old(self)@.failure matches Some(e) ==> r matches Err(x) && same_error(x, e)
                && final(self)@ == old(self)@,
            old(self)@.failure is None ==> {
                let c = old(self)@.calls[id];
                let f = request_frame(c.rpc_kind, c.id, client_id@, c.retry, c.rpc_request@);
                if f.len() - 4 <= i32::MAX {
                    r matches Ok(b) && b@ == f && final(self)@ == (ConnectionView {
                        last_activity: now,
                        ..old(self)@
                    })
                } else {
                    r == Err::<Vec<u8>, IpcError>(IpcError::Protocol) && final(self)@
                        == old(self)@
                }
            },
    {
        if let Some(e) = &self.failure {
            return Err(e.clone_error());
        }
        let call = self.calls.get(&id).unwrap();
        let header = ProtoUtil::make_rpc_request_header(
            call.rpc_kind,
            OperationProto::RpcFinalPacket,
            call.id,
            call.retry,
            client_id,
            call.alignment_context,
        );
        let mut buf = header.encode_length_delimited();
        put_bytes(&mut buf, call.rpc_request.as_slice());
        if buf.len() > 0x7fff_ffff {
            return Err(IpcError::Protocol);
        }
        let out = prepend_buf_size(buf);
        self.last_activity = now;
        Ok(out)
    }

    /// Judges the length of the next response frame; the number of body
    /// bytes to read. A bad length, or a remote exception announced by the
    /// first one, fails the connection.
    pub fn receive_length(&mut self, length: i32) -> (r: Result<usize, IpcError>)
        ensures
            final(self)@.pending_read == old(self)@.pending_read,
            match length_verdict(old(self)@.first_response, old(self)@.max_response_length, length) {
                Ok(ResponseLength::Body(n)) => r == Ok::<usize, IpcError>(n) && final(self)@ == (
                ConnectionView { first_response: false, ..old(self)@ }),
                Ok(ResponseLength::RemoteException) => r matches Err(e)
                    && crate::frame::is_bare_remote_error(e) && final(self)@.failure is Some
                    && final(self)@.calls == old(self)@.calls,
                Err(e) => r == Err::<usize, IpcError>(e) && final(self)@.failure is Some
                    && final(self)@.calls == old(self)@.calls,
            },
    {
        match self.reader.check_length(length) {
            Ok(ResponseLength::Body(n)) => Ok(n),
            Ok(ResponseLength::RemoteException) => {
                self.close(IpcError::Remote { exception_class: Vec::new(), message: Vec::new() });
                Err(IpcError::Remote { exception_class: Vec::new(), message: Vec::new() })
            },
            Err(e) => {
                self.close(e.clone_error());
                Err(e)
            },
        }
    }

    /// Hands a response body to the call it answers, found by the call id
    /// of its header, unless the connection has failed; the id of that call, or `None` where no such call is
    /// registered (it was abandoned) and the response is dropped. A header
    /// that cannot be read fails the connection.
    pub fn receive_response(&mut self, body: Vec<u8>, now: u64) -> (r: Result<Option<i32>, IpcError>)
        ensures
            received(old(self)@, final(self)@, body, r),
            final(self)@.pending_read == old(self)@.pending_read,
    {
        if let Some(e) = &self.failure {
            return Err(e.clone_error());
        }
        let header = match take_delimited(body.as_slice()) {
            Some((hb, _)) => RpcResponseHeaderProto::decode(hb),
            None => Err(IpcError::Protocol),
        };
        let header = match header {
            Ok(h) => h,
            Err(_) => {
                self.close(IpcError::Protocol);
                return Err(IpcError::Protocol);
            },
        };
        self.last_activity = now;
        if header.call_id > 0x7fff_ffff {
            return Ok(None);
        }
        let id = header.call_id as i32;
        match self.calls.remove(&id) {
            Some(mut call) => {
                call.done = true;
                call.rpc_response = Some(body);
                self.calls.insert(id, call);
                assert(self.calls@.dom() =~= old(self).calls@.dom());
                Ok(Some(id))
            },
            None => {
                assert(self.calls@ =~= old(self).calls@);
                Ok(None)
            },
        }
    }

    /// How many bytes the reader of the connection reads next.
    pub fn next_read_len(&self) -> (r: usize)
        ensures
            r as nat == read_len(self@.pending_read),
    {
        match self.pending_read {
            ReadState::Length => 4,
            ReadState::Body(n) => n,
            ReadState::Sentinel => 4,
        }
    }

    /// Takes the bytes the reader read, as many as
    /// [`Connection::next_read_len`] asked for: a length, which decides
    /// what is read next; a body, which goes to its call; or the four
    /// bytes after a remote-exception length, which are dropped. The id of
    /// the call a body completed, if any.
    pub fn on_read(&mut self, bytes: Vec<u8>, now: u64) -> (r: Result<Option<i32>, IpcError>)
        requires
            bytes@.len() == read_len(old(self)@.pending_read),
        ensures
            match old(self)@.pending_read {
                ReadState::Length => match length_verdict(
                    old(self)@.first_response,
                    old(self)@.max_response_length,
                    be_value(bytes@),
                ) {
                    Ok(ResponseLength::Body(n)) => r == Ok::<Option<i32>, IpcError>(None)
                        && final(self)@ == (ConnectionView {
                        first_response: false,
                        pending_read: ReadState::Body(n),
                        ..old(self)@
                    }),
                    Ok(ResponseLength::RemoteException) => (r matches Err(e)
                        && crate::frame::is_bare_remote_error(e)) && final(self)@.failure is Some
                        && final(self)@.calls == old(self)@.calls && final(self)@.pending_read
                        == ReadState::Sentinel,
                    Err(e) => r == Err::<Option<i32>, IpcError>(e) && final(self)@.failure is Some
                        && final(self)@.calls == old(self)@.calls && final(self)@.pending_read
                        == ReadState::Length,
                },
                ReadState::Body(_) => received(old(self)@, final(self)@, bytes, r)
                    && final(self)@.pending_read == ReadState::Length,
                ReadState::Sentinel => r == Ok::<Option<i32>, IpcError>(None) && final(self)@ == (
                ConnectionView { pending_read: ReadState::Length, ..old(self)@ }),
            },
    {
        match self.pending_read {
            ReadState::Length => {
                let length = i32_from_be(bytes.as_slice());
                match self.receive_length(length) {
                    Ok(n) => {
                        self.pending_read = ReadState::Body(n);
                        Ok(None)
                    },
                    Err(IpcError::Remote { exception_class, message }) => {
                        self.pending_read = ReadState::Sentinel;
                        Err(IpcError::Remote { exception_class, message })
                    },
                    Err(e) => Err(e),
                }
            },
            ReadState::Body(_) => {
                let r = self.receive_response(bytes, now);
                self.pending_read = ReadState::Length;
                r
            },
            ReadState::Sentinel => {
                self.pending_read = ReadState::Length;
                Ok(None)
            },
        }
    }

    /// Asks after the call `id`. A call that is over leaves the
    /// connection: with its response, or with the error that closed the
    /// connection.
    pub fn poll_call(&mut self, id: i32) -> (r: CallPoll)
        ensures
            !old(self)@.calls.contains_key(id) ==> r is Unknown && final(self)@ == old(self)@,
            old(self)@.calls.contains_key(id) ==> {
                let c = old(self)@.calls[id];
                if c.done && c.rpc_response is Some {
                    r matches CallPoll::Done(Ok(b)) && c.rpc_response == Some(b)
                        && final(self)@ == (ConnectionView {
                        calls: old(self)@.calls.remove(id),
                        ..old(self)@
                    })
                } else if old(self)@.failure is Some {
                    r matches CallPoll::Done(Err(e)) && same_error(e, old(self)@.failure->0)
                        && final(self)@ == (ConnectionView {
                        calls: old(self)@.calls.remove(id),
                        ..old(self)@
                    })
                } else {
                    r is Pending && final(self)@ == old(self)@
                }
            },
    {
        let (finished, failed) = match self.calls.get(&id) {
            None => return CallPoll::Unknown,
            Some(c) => (c.done && c.rpc_response.is_some(), self.failure.is_some()),
        };
        if !finished && !failed {
            return CallPoll::Pending;
        }
        let call = self.calls.remove(&id).unwrap();
        if finished {
            match call.rpc_response {
                Some(b) => CallPoll::Done(Ok(b)),
                None => CallPoll::Pending,
            }
        } else {
            match &self.failure {
                Some(e) => CallPoll::Done(Err(e.clone_error())),
                None => CallPoll::Pending,
            }
        }
    }

    /// Drops the call `id`, whose caller gave up on it: a response that
    /// comes for it later is dropped too.
    pub fn cancel_call(&mut self, id: i32)
        ensures
            final(self)@ == (ConnectionView { calls: old(self)@.calls.remove(id), ..old(self)@ }),
    {
        self.calls.remove(&id);
    }
}

} // verus!
