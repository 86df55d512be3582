//! The protocol engine: turns a named method of a remote interface and
//! its request into request bytes, and response bytes into the reply.
use vstd::prelude::*;
use crate::call::AlignmentState;
use crate::client::{client_settings, Client};
use crate::conf::Configuration;
use crate::connection_id::{connection_id_of, ConnectionId, ConnectionIdView, RetryPolicy, ServerAddress};
use crate::error::IpcError;
use crate::proto::{
    method_header_bytes, response_header_ok, RequestHeaderProto, RpcResponseHeaderProto,
    RpcStatusProto, status_of, varint_or,
};
use crate::security::UserGroupInformation;
use crate::wire::{delimited, last_field, parse_delimited, parse_fields, put_delimited, take_delimited, WireValue};

verus! {

/// The name and version of a remote interface.
#[derive(Clone, Debug)]
pub struct ProtocolInfo {
    pub protocol_name: String,
    pub protocol_version: u64,
}

/// Service class of ordinary calls.
pub const RPC_SERVICE_CLASS_DEFAULT: u8 = 0;

/// Whether the response header `fs` reports success.
pub open spec fn reports_success(fs: Seq<(nat, WireValue)>) -> bool {
    status_of(varint_or(last_field(fs, 2), 0)->0) == Some(RpcStatusProto::Success)
}

/// A diagnostic field of a response header; empty where it is absent.
pub open spec fn diagnostic(w: Option<WireValue>) -> Seq<u8> {
    match w {
        Some(WireValue::Bytes(b)) => b,
        _ => Seq::empty(),
    }
}

/// The identity an invoker gets from the outcome `id` of building the
/// endpoint's identity and from the settings `props` its client reads; or
/// the first error.
pub open spec fn invoker_identity(
    id: Result<ConnectionIdView, IpcError>,
    props: Seq<(Seq<char>, Seq<char>)>,
) -> Result<ConnectionIdView, IpcError> {
    match id {
        Err(e) => Err(e),
        Ok(v) => match client_settings(props) {
            Err(e) => Err(e),
            Ok(_) => Ok(v),
        },
    }
}

/// `r` is an invoker for the interface `name` of version `version`, with
/// the identity that `invoker_identity` gives and the alignment hook
/// `alignment`; or that identity's error.
pub open spec fn made_invoker(
    r: Result<Invoker, IpcError>,
    id: Result<ConnectionIdView, IpcError>,
    props: Seq<(Seq<char>, Seq<char>)>,
    name: Seq<char>,
    version: u64,
    alignment: Option<AlignmentState>,
) -> bool {
    match invoker_identity(id, props) {
        Err(e) => r == Err::<Invoker, IpcError>(e),
        Ok(v) => r matches Ok(inv) && inv.remote_view() == v && inv.protocol().protocol_name@ == name
            && inv.protocol().protocol_version == version && inv.alignment_view() == alignment,
    }
}

/// The client-side invoker of the methods of one remote interface at one
/// endpoint.
pub struct Invoker {
    remote_id: ConnectionId,
    client: Client,
    protocol: ProtocolInfo,
    alignment_context: Option<AlignmentState>,
}

impl Invoker {
    /// An invoker for the endpoint `addr` seen by `ticket`.
    pub fn from_socket_addr(
        addr: &ServerAddress,
        ticket: &UserGroupInformation,
        conf: &Configuration,
        rpc_timeout: i32,
        connection_retry_policy: Option<RetryPolicy>,
        protocol: ProtocolInfo,
        alignment_context: Option<AlignmentState>,
    ) -> (r: Result<Invoker, IpcError>)
        ensures
            made_invoker(
                r,
                connection_id_of(addr@, ticket@, rpc_timeout, connection_retry_policy, conf@),
                conf@,
                protocol.protocol_name@,
                protocol.protocol_version,
                alignment_context,
            ),
    {
        let connection_id = ConnectionId::get_connection_id(
            addr,
            ticket,
            rpc_timeout,
            connection_retry_policy,
            conf,
        )?;
        Invoker::from_connection_id(connection_id, conf, protocol, alignment_context)
    }

    /// An invoker for the endpoint of `conn_id`.
    pub fn from_connection_id(
        conn_id: ConnectionId,
        conf: &Configuration,
        protocol: ProtocolInfo,
        alignment_context: Option<AlignmentState>,
    ) -> (r: Result<Invoker, IpcError>)
        ensures
            made_invoker(
                r,
                Ok(conn_id@),
                conf@,
                protocol.protocol_name@,
                protocol.protocol_version,
                alignment_context,
            ),
    {
        let client = Client::new("value_class", conf)?;
        Ok(Invoker { remote_id: conn_id, client, protocol, alignment_context })
    }

    pub closed spec fn protocol(&self) -> ProtocolInfo {
        self.protocol
    }

    pub closed spec fn remote_view(&self) -> crate::connection_id::ConnectionIdView {
        self.remote_id@
    }

    pub fn remote_id(&self) -> (r: &ConnectionId)
        ensures
            r@ == self.remote_view(),
    {
        &self.remote_id
    }

    pub closed spec fn client_view(&self) -> crate::client::ClientView {
        self.client@
    }

    pub closed spec fn alignment_view(&self) -> Option<AlignmentState> {
        self.alignment_context
    }

    pub fn client(&self) -> (r: &Client)
        ensures
            r@ == self.client_view(),
    {
        &self.client
    }

    pub fn client_mut(&mut self) -> (r: &mut Client) {
        &mut self.client
    }

    pub fn protocol_name(&self) -> (r: &str)
        ensures
            r@ == self.protocol().protocol_name@,
    {
        self.protocol.protocol_name.as_str()
    }

    pub fn alignment_context(&self) -> (r: Option<AlignmentState>)
        ensures
            r == self.alignment_view(),
    {
        self.alignment_context
    }

    /// The header naming `method` of this interface.
    pub fn construct_rpc_request_header(&self, method: &str) -> (r: RequestHeaderProto)
        ensures
            r.method_name@ == method@,
            r.declaring_class_protocol_name@ == self.protocol().protocol_name@,
            r.client_protocol_version == self.protocol().protocol_version,
    {
        RequestHeaderProto {
            method_name: method.to_owned(),
            declaring_class_protocol_name: self.protocol.protocol_name.clone(),
            client_protocol_version: self.protocol.protocol_version,
        }
    }

    /// The payload of a call of `method` with the request message body
    /// `request`: the method header, then the request, each behind its
    /// length.
    pub fn construct_rpc_request(&self, method: &str, request: &[u8]) -> (r: Vec<u8>)
        ensures
            exists|h: RequestHeaderProto|
                h.method_name@ == method@ && h.declaring_class_protocol_name@
                    == self.protocol().protocol_name@ && h.client_protocol_version
                    == self.protocol().protocol_version && r@ == delimited(
                    #[trigger] method_header_bytes(h),
                ) + delimited(request@),
    {
        let header = self.construct_rpc_request_header(method);
        let hb = header.encode();
        let mut out: Vec<u8> = Vec::new();
        put_delimited(&mut out, hb.as_slice());
        put_delimited(&mut out, request);
        assert(out@ =~= delimited(method_header_bytes(header)) + delimited(request@));
        out
    }

    /// The reply message body of a response body, whose header must
    /// report success; otherwise the error the header reports.
    pub fn get_return_message(buf: &[u8]) -> (r: Result<Vec<u8>, IpcError>)
        ensures
            match parse_delimited(buf@) {
                None => r == Err::<Vec<u8>, IpcError>(IpcError::Protocol),
                Some((hb, k)) => match parse_fields(hb) {
                    None => r == Err::<Vec<u8>, IpcError>(IpcError::Protocol),
                    Some(fs) => if !response_header_ok(fs) {
                        r == Err::<Vec<u8>, IpcError>(IpcError::Protocol)
                    } else if reports_success(fs) {
                        match parse_delimited(buf@.skip(k as int)) {
                            Some((body, _)) => r matches Ok(b) && b@ == body,
                            None => r == Err::<Vec<u8>, IpcError>(IpcError::Decode),
                        }
                    } else {
                        r matches Err(IpcError::Remote { exception_class, message })
                            && exception_class@ == diagnostic(last_field(fs, 4))
                            && message@ == diagnostic(last_field(fs, 5))
                    },
                },
            },
    {
        let (hb, rest) = match take_delimited(buf) {
            Some(p) => p,
            None => return Err(IpcError::Protocol),
        };
        let header = RpcResponseHeaderProto::decode(hb)?;
        match header.status {
            RpcStatusProto::Success => match take_delimited(rest) {
                Some((body, _)) => Ok(vstd::slice::slice_to_vec(body)),
                None => Err(IpcError::Decode),
            },
            _ => Err(
                IpcError::Remote {
                    exception_class: match header.exception_class_name {
                        Some(c) => c,
                        None => Vec::new(),
                    },
                    message: match header.error_msg {
                        Some(m) => m,
                        None => Vec::new(),
                    },
                },
            ),
        }
    }
}

} // verus!
