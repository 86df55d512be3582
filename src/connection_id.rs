//! The identity of a logical endpoint: the key under which connections are
//! pooled.
use vstd::prelude::*;
use crate::conf::{conf_bool, conf_int, Configuration};
use crate::error::IpcError;
use crate::keys::{
    IPC_CLIENT_CONNECTION_MAXIDLETIME_DEFAULT, IPC_CLIENT_CONNECTION_MAXIDLETIME_KEY,
    IPC_CLIENT_CONNECT_MAX_RETRIES_ON_SASL_DEFAULT, IPC_CLIENT_CONNECT_MAX_RETRIES_ON_SASL_KEY,
    IPC_CLIENT_CONNECT_MAX_RETRIES_ON_SOCKET_TIMEOUTS_DEFAULT,
    IPC_CLIENT_CONNECT_MAX_RETRIES_ON_SOCKET_TIMEOUTS_KEY, IPC_CLIENT_LOW_LATENCY,
    IPC_CLIENT_LOW_LATENCY_DEFAULT, IPC_CLIENT_PING_DEFAULT, IPC_CLIENT_PING_KEY,
    IPC_CLIENT_TCPNODELAY_DEFAULT, IPC_CLIENT_TCPNODELAY_KEY, IPC_PING_INTERVAL_DEFAULT,
    IPC_PING_INTERVAL_KEY,
};
use crate::security::UserGroupInformation;
use crate::text::str_equal;

verus! {

/// The address of a server: a host and a port.
#[derive(Clone, Debug)]
pub struct ServerAddress {
    pub host: String,
    pub port: u16,
}

impl View for ServerAddress {
    type V = (Seq<char>, u16);

    open spec fn view(&self) -> (Seq<char>, u16) {
        (self.host@, self.port)
    }
}

impl ServerAddress {
    pub fn new(host: &str, port: u16) -> (r: ServerAddress)
        ensures
            r@ == (host@, port),
    {
        ServerAddress { host: host.to_owned(), port }
    }

    pub fn copy(&self) -> (r: ServerAddress)
        ensures
            r@ == self@,
    {
        ServerAddress { host: self.host.clone(), port: self.port }
    }

    pub fn same_as(&self, other: &ServerAddress) -> (r: bool)
        ensures
            r == (self@ == other@),
    {
        self.port == other.port && str_equal(self.host.as_str(), other.host.as_str())
    }
}

/// What to do when connecting fails.
#[derive(Clone, Copy, PartialEq, Eq, Debug, Structural)]
pub enum RetryPolicy {
    /// Fail at the first failure.
    TryOnceThenFail,
    /// Try again, up to `max_retries` times, after `sleep_millis`.
    RetryUpToMaximumCountWithFixedSleep { max_retries: i32, sleep_millis: i64 },
}

impl RetryPolicy {
    /// Whether to try again after `retries` failed attempts.
    pub fn should_retry(&self, retries: i32) -> (r: bool)
        ensures
            r == match *self {
                RetryPolicy::TryOnceThenFail => false,
                RetryPolicy::RetryUpToMaximumCountWithFixedSleep { max_retries, .. } => retries
                    < max_retries,
            },
    {
        match self {
            RetryPolicy::TryOnceThenFail => false,
            RetryPolicy::RetryUpToMaximumCountWithFixedSleep { max_retries, .. } => retries
                < *max_retries,
        }
    }
}

/// Every field of a connection identity; two identities with equal
/// fields share connections.
pub ghost struct ConnectionIdView {
    pub address: (Seq<char>, u16),
    pub ticket: Seq<char>,
    pub rpc_timeout: i32,
    pub max_idle_time: i32,
    pub retry_policy: RetryPolicy,
    pub max_retries_on_sasl: i32,
    pub max_retries_on_socket_timeouts: i32,
    pub tcp_no_delay: bool,
    pub tcp_low_latency: bool,
    pub do_ping: bool,
    pub ping_interval: i32,
}

/// The identity that the settings `props` give an endpoint; an error where
/// a numeric setting is not a number.
pub open spec fn connection_id_of(
    address: (Seq<char>, u16),
    ticket: Seq<char>,
    rpc_timeout: i32,
    retry_policy: Option<RetryPolicy>,
    props: Seq<(Seq<char>, Seq<char>)>,
) -> Result<ConnectionIdView, IpcError> {
    let idle = conf_int(
        props,
        IPC_CLIENT_CONNECTION_MAXIDLETIME_KEY@,
        IPC_CLIENT_CONNECTION_MAXIDLETIME_DEFAULT,
    );
    let sasl = conf_int(
        props,
        IPC_CLIENT_CONNECT_MAX_RETRIES_ON_SASL_KEY@,
        IPC_CLIENT_CONNECT_MAX_RETRIES_ON_SASL_DEFAULT,
    );
    let timeouts = conf_int(
        props,
        IPC_CLIENT_CONNECT_MAX_RETRIES_ON_SOCKET_TIMEOUTS_KEY@,
        IPC_CLIENT_CONNECT_MAX_RETRIES_ON_SOCKET_TIMEOUTS_DEFAULT,
    );
    let do_ping = conf_bool(props, IPC_CLIENT_PING_KEY@, IPC_CLIENT_PING_DEFAULT);
    let ping = if do_ping {
        conf_int(props, IPC_PING_INTERVAL_KEY@, IPC_PING_INTERVAL_DEFAULT)
    } else {
        Ok(0)
    };
    if idle is Err {
        Err(idle->Err_0)
    } else if sasl is Err {
        Err(sasl->Err_0)
    } else if timeouts is Err {
        Err(timeouts->Err_0)
    } else if ping is Err {
        Err(ping->Err_0)
    } else {
        Ok(
            ConnectionIdView {
                address,
                ticket,
                rpc_timeout,
                max_idle_time: idle->Ok_0,
                retry_policy: match retry_policy {
                    Some(p) => p,
                    None => RetryPolicy::TryOnceThenFail,
                },
                max_retries_on_sasl: sasl->Ok_0,
                max_retries_on_socket_timeouts: timeouts->Ok_0,
                tcp_no_delay: conf_bool(props, IPC_CLIENT_TCPNODELAY_KEY@, IPC_CLIENT_TCPNODELAY_DEFAULT),
                tcp_low_latency: conf_bool(props, IPC_CLIENT_LOW_LATENCY@, IPC_CLIENT_LOW_LATENCY_DEFAULT),
                do_ping,
                ping_interval: ping->Ok_0,
            },
        )
    }
}

/// The address and the user of a connection, and how the connection
/// behaves.
#[derive(Debug)]
pub struct ConnectionId {
    address: ServerAddress,
    ticket: UserGroupInformation,
    rpc_timeout: i32,
    max_idle_time: i32,
    connection_retry_policy: RetryPolicy,
    max_retries_on_sasl: i32,
    max_retries_on_socket_timeouts: i32,
    tcp_no_delay: bool,
    tcp_low_latency: bool,
    do_ping: bool,
    ping_interval: i32,
}

impl View for ConnectionId {
    type V = ConnectionIdView;

    closed spec fn view(&self) -> ConnectionIdView {
        ConnectionIdView {
            address: self.address@,
            ticket: self.ticket@,
            rpc_timeout: self.rpc_timeout,
            max_idle_time: self.max_idle_time,
            retry_policy: self.connection_retry_policy,
            max_retries_on_sasl: self.max_retries_on_sasl,
            max_retries_on_socket_timeouts: self.max_retries_on_socket_timeouts,
            tcp_no_delay: self.tcp_no_delay,
            tcp_low_latency: self.tcp_low_latency,
            do_ping: self.do_ping,
            ping_interval: self.ping_interval,
        }
    }
}

impl ConnectionId {
    /// The identity of the endpoint `addr` for `ticket`, with the settings
    /// of `conf`; with no retry policy, calls are tried once.
    pub fn get_connection_id(
        addr: &ServerAddress,
        ticket: &UserGroupInformation,
        rpc_timeout: i32,
        connection_retry_policy: Option<RetryPolicy>,
        conf: &Configuration,
    ) -> (r: Result<ConnectionId, IpcError>)
        ensures
            match connection_id_of(addr@, ticket@, rpc_timeout, connection_retry_policy, conf@) {
                Ok(v) => r matches Ok(id) && id@ == v,
                Err(e) => r == Err::<ConnectionId, IpcError>(e),
            },
    {
        let max_idle_time = conf.get_int(
            IPC_CLIENT_CONNECTION_MAXIDLETIME_KEY,
            IPC_CLIENT_CONNECTION_MAXIDLETIME_DEFAULT,
        )?;
        let max_retries_on_sasl = conf.get_int(
            IPC_CLIENT_CONNECT_MAX_RETRIES_ON_SASL_KEY,
            IPC_CLIENT_CONNECT_MAX_RETRIES_ON_SASL_DEFAULT,
        )?;
        let max_retries_on_socket_timeouts = conf.get_int(
            IPC_CLIENT_CONNECT_MAX_RETRIES_ON_SOCKET_TIMEOUTS_KEY,
            IPC_CLIENT_CONNECT_MAX_RETRIES_ON_SOCKET_TIMEOUTS_DEFAULT,
        )?;
        let tcp_no_delay = conf.get_bool(IPC_CLIENT_TCPNODELAY_KEY, IPC_CLIENT_TCPNODELAY_DEFAULT);
        let tcp_low_latency = conf.get_bool(IPC_CLIENT_LOW_LATENCY, IPC_CLIENT_LOW_LATENCY_DEFAULT);
        let do_ping = conf.get_bool(IPC_CLIENT_PING_KEY, IPC_CLIENT_PING_DEFAULT);
        let ping_interval = if do_ping {
            conf.get_int(IPC_PING_INTERVAL_KEY, IPC_PING_INTERVAL_DEFAULT)?
        } else {
            0
        };
        let policy = match connection_retry_policy {
            Some(p) => p,
            None => RetryPolicy::TryOnceThenFail,
        };
        Ok(
            ConnectionId {
                address: addr.copy(),
                ticket: UserGroupInformation::create_proxy_user("", ticket),
                rpc_timeout,
                max_idle_time,
                connection_retry_policy: policy,
                max_retries_on_sasl,
                max_retries_on_socket_timeouts,
                tcp_no_delay,
                tcp_low_latency,
                do_ping,
                ping_interval,
            },
        )
    }

    /// Whether two identities share connections: every field is equal.
    pub fn pool_equals(&self, other: &ConnectionId) -> (r: bool)
        ensures
            r == (self@ == other@),
    {
        self.address.same_as(&other.address) && crate::text::str_equal(
            self.ticket.get_user_name().as_str(),
            other.ticket.get_user_name().as_str(),
        ) && self.rpc_timeout == other.rpc_timeout && self.max_idle_time == other.max_idle_time
            && self.connection_retry_policy == other.connection_retry_policy
            && self.max_retries_on_sasl == other.max_retries_on_sasl
            && self.max_retries_on_socket_timeouts == other.max_retries_on_socket_timeouts
            && self.tcp_no_delay == other.tcp_no_delay && self.tcp_low_latency
            == other.tcp_low_latency && self.do_ping == other.do_ping && self.ping_interval
            == other.ping_interval
    }

    /// A copy of this identity.
    pub fn copy(&self) -> (r: ConnectionId)
        ensures
            r@ == self@,
    {
        ConnectionId {
            address: self.address.copy(),
            ticket: UserGroupInformation::create_proxy_user("", &self.ticket),
            rpc_timeout: self.rpc_timeout,
            max_idle_time: self.max_idle_time,
            connection_retry_policy: self.connection_retry_policy,
            max_retries_on_sasl: self.max_retries_on_sasl,
            max_retries_on_socket_timeouts: self.max_retries_on_socket_timeouts,
            tcp_no_delay: self.tcp_no_delay,
            tcp_low_latency: self.tcp_low_latency,
            do_ping: self.do_ping,
            ping_interval: self.ping_interval,
        }
    }

    pub fn get_address(&self) -> (r: &ServerAddress)
        ensures
            r@ == self@.address,
    {
        &self.address
    }

    /// Updates the remote address after the server's address changed;
    /// the port must stay the same.
    pub fn set_address(&mut self, address: &ServerAddress) -> (r: Result<(), IpcError>)
        ensures
            address.port == old(self)@.address.1 ==> r is Ok && final(self)@ == (ConnectionIdView {
                address: address@,
                ..old(self)@
            }),
            address.port != old(self)@.address.1 ==> r == Err::<(), IpcError>(IpcError::InvalidUri)
                && final(self)@ == old(self)@,
    {
        if self.address.port != address.port {
            return Err(IpcError::InvalidUri);
        }
        self.address = address.copy();
        Ok(())
    }

    pub fn get_ticket(&self) -> (r: &UserGroupInformation)
        ensures
            r@ == self@.ticket,
    {
        &self.ticket
    }

    pub fn get_rpc_timeout(&self) -> (r: i32)
        ensures
            r == self@.rpc_timeout,
    {
        self.rpc_timeout
    }

    pub fn get_max_idle_time(&self) -> (r: i32)
        ensures
            r == self@.max_idle_time,
    {
        self.max_idle_time
    }

    pub fn get_max_retries_on_sasl(&self) -> (r: i32)
        ensures
            r == self@.max_retries_on_sasl,
    {
        self.max_retries_on_sasl
    }

    pub fn get_max_retries_on_socket_timeouts(&self) -> (r: i32)
        ensures
            r == self@.max_retries_on_socket_timeouts,
    {
        self.max_retries_on_socket_timeouts
    }

    pub fn get_tcp_no_delay(&self) -> (r: bool)
        ensures
            r == self@.tcp_no_delay,
    {
        self.tcp_no_delay
    }

    pub fn get_tcp_low_latency(&self) -> (r: bool)
        ensures
            r == self@.tcp_low_latency,
    {
        self.tcp_low_latency
    }

    pub fn get_do_ping(&self) -> (r: bool)
        ensures
            r == self@.do_ping,
    {
        self.do_ping
    }

    pub fn get_ping_interval(&self) -> (r: i32)
        ensures
            r == self@.ping_interval,
    {
        self.ping_interval
    }

    pub fn get_retry_policy(&self) -> (r: RetryPolicy)
        ensures
            r == self@.retry_policy,
    {
        self.connection_retry_policy
    }
}

/// Building the identity of an endpoint twice from the same arguments gives
/// identities that compare equal, and so share one connection.
pub proof fn lemma_connection_id_deterministic(
    a: ConnectionId,
    b: ConnectionId,
    address: (Seq<char>, u16),
    ticket: Seq<char>,
    rpc_timeout: i32,
    retry_policy: Option<RetryPolicy>,
    props: Seq<(Seq<char>, Seq<char>)>,
)
    requires
        connection_id_of(address, ticket, rpc_timeout, retry_policy, props) == Ok::<
            ConnectionIdView,
            IpcError,
        >(a@),
        connection_id_of(address, ticket, rpc_timeout, retry_policy, props) == Ok::<
            ConnectionIdView,
            IpcError,
        >(b@),
    ensures
        a@ == b@,
{
}

} // verus!
