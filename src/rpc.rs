//! Making proxies: invokers for a remote interface at an endpoint.
use vstd::prelude::*;
use crate::call::AlignmentState;
use crate::client::Client;
use crate::conf::Configuration;
use crate::connection_id::{connection_id_of, RetryPolicy, ServerAddress};
use crate::engine::{invoker_identity, made_invoker, Invoker, ProtocolInfo};
use crate::error::IpcError;
use crate::hdfs::{SecurityUtil, CLIENT_NAMENODE_PROTOCOL_NAME};
use crate::text::Text;
use crate::security::UserGroupInformation;
use vstd::utf8::encode_utf8;

verus! {

/// A simple RPC mechanism.
pub struct RPC;

impl RPC {
    /// Get the protocol name.
    pub fn get_protocol_name(info: &ProtocolInfo) -> (r: &str)
        ensures
            r@ == info.protocol_name@,
    {
        info.protocol_name.as_str()
    }

    /// Get the protocol version.
    pub fn get_protocol_version(info: &ProtocolInfo) -> (r: u64)
        ensures
            r == info.protocol_version,
    {
        info.protocol_version
    }

    /// A proxy for `protocol` at `addr`, made by the protocol-buffer
    /// engine.
    pub fn get_protocol_proxy(
        addr: &ServerAddress,
        ticket: &UserGroupInformation,
        conf: &Configuration,
        rpc_timeout: i32,
        connection_retry_policy: Option<RetryPolicy>,
        protocol: ProtocolInfo,
        alignment_context: Option<AlignmentState>,
    ) -> (r: Result<Invoker, IpcError>)
        ensures
            made_invoker(
                r,
                connection_id_of(addr@, ticket@, rpc_timeout, connection_retry_policy, conf@),
                conf@,
                protocol.protocol_name@,
                protocol.protocol_version,
                alignment_context,
            ),
    {
        ProtobufRpcEngine2::get_proxy(
            addr,
            ticket,
            conf,
            rpc_timeout,
            connection_retry_policy,
            protocol,
            alignment_context,
        )
    }
}

/// The engine of protocol-buffer calls.
pub struct ProtobufRpcEngine2;

impl ProtobufRpcEngine2 {
    /// A client-side proxy for `protocol` at `addr`.
    pub fn get_proxy(
        addr: &ServerAddress,
        ticket: &UserGroupInformation,
        conf: &Configuration,
        rpc_timeout: i32,
        connection_retry_policy: Option<RetryPolicy>,
        protocol: ProtocolInfo,
        alignment_context: Option<AlignmentState>,
    ) -> (r: Result<Invoker, IpcError>)
        ensures
            made_invoker(
                r,
                connection_id_of(addr@, ticket@, rpc_timeout, connection_retry_policy, conf@),
                conf@,
                protocol.protocol_name@,
                protocol.protocol_version,
                alignment_context,
            ),
    {
        Invoker::from_socket_addr(
            addr,
            ticket,
            conf,
            rpc_timeout,
            connection_retry_policy,
            protocol,
            alignment_context,
        )
    }
}

/// The name and version of the namenode's client protocol.
pub fn client_namenode_protocol_info() -> (r: ProtocolInfo)
    ensures
        r.protocol_name@ == CLIENT_NAMENODE_PROTOCOL_NAME@,
        r.protocol_version == 1,
{
    ProtocolInfo { protocol_name: CLIENT_NAMENODE_PROTOCOL_NAME.to_owned(), protocol_version: 1 }
}

/// A proxy, with the service of its delegation tokens and its address.
pub struct ProxyAndInfo {
    pub proxy: Invoker,
    pub dt_service: Text,
    pub address: ServerAddress,
}

/// Makes proxies of the namenode's client protocol.
pub struct NameNodeProxiesClient;

impl NameNodeProxiesClient {
    /// A proxy of the client protocol for the namenode at `nn_addr`, with
    /// the service key of its tokens.
    pub fn create_proxy_with_client_protocol(
        conf: &Configuration,
        nn_addr: &ServerAddress,
        ugi: &UserGroupInformation,
    ) -> (r: Result<ProxyAndInfo, IpcError>)
        requires
            encode_utf8(nn_addr.host@).len() <= 0x7fff_0000,
        ensures
            match invoker_identity(connection_id_of(nn_addr@, ugi@, 3000, None, conf@), conf@) {
                Err(e) => r == Err::<ProxyAndInfo, IpcError>(e),
                Ok(v) => r matches Ok(p) && p.address@ == nn_addr@ && p.dt_service@ == encode_utf8(
                    nn_addr.host@,
                ) + seq![58u8] + crate::hdfs::decimal_digits(nn_addr.port as nat)
                    && p.proxy.remote_view() == v && p.proxy.protocol().protocol_name@
                    == CLIENT_NAMENODE_PROTOCOL_NAME@ && p.proxy.protocol().protocol_version == 1
                    && p.proxy.alignment_view() is None,
            },
    {
        let dt_service = SecurityUtil::build_token_service(nn_addr);
        let proxy = NameNodeProxiesClient::create_non_ha_proxy_with_client_protocol(
            nn_addr,
            conf,
            ugi,
            true,
        )?;
        Ok(ProxyAndInfo { proxy, dt_service, address: nn_addr.copy() })
    }

    /// A proxy of the client protocol for a namenode without high
    /// availability.
    pub fn create_non_ha_proxy_with_client_protocol(
        address: &ServerAddress,
        conf: &Configuration,
        ugi: &UserGroupInformation,
        with_retries: bool,
    ) -> (r: Result<Invoker, IpcError>)
        ensures
            made_invoker(
                r,
                connection_id_of(address@, ugi@, 3000, None, conf@),
                conf@,
                CLIENT_NAMENODE_PROTOCOL_NAME@,
                1,
                None,
            ),
    {
        NameNodeProxiesClient::create_proxy_with_alignment_context(
            address,
            conf,
            ugi,
            with_retries,
            None,
        )
    }

    /// As [`NameNodeProxiesClient::create_non_ha_proxy_with_client_protocol`],
    /// with an alignment hook. Calls are tried once; retrying proxies are
    /// not available.
    pub fn create_proxy_with_alignment_context(
        address: &ServerAddress,
        conf: &Configuration,
        ugi: &UserGroupInformation,
        with_retries: bool,
        alignment_context: Option<AlignmentState>,
    ) -> (r: Result<Invoker, IpcError>)
        ensures
            made_invoker(
                r,
                connection_id_of(address@, ugi@, 3000, None, conf@),
                conf@,
                CLIENT_NAMENODE_PROTOCOL_NAME@,
                1,
                alignment_context,
            ),
    {
        RPC::get_protocol_proxy(
            address,
            ugi,
            conf,
            Client::get_timeout(conf),
            None,
            client_namenode_protocol_info(),
            alignment_context,
        )
    }
}

} // verus!
