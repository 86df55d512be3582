//! The client: its settings, its identity, the call ids it hands out and
//! its pool of connections.
use vstd::prelude::*;
use crate::call::{call_id_of, fetch_increment, new_counter, usable_override, Call, CallContext};
use crate::conf::{conf_bool, conf_int, Configuration};
use crate::connection::{idle_at, Connection, ConnectionView};
use crate::connection_id::{ConnectionId, ConnectionIdView};
use crate::error::IpcError;
use crate::keys::{
    IPC_CLIENT_ASYNC_CALLS_MAX_DEFAULT, IPC_CLIENT_ASYNC_CALLS_MAX_KEY,
    IPC_CLIENT_BIND_WILDCARD_ADDR_DEFAULT, IPC_CLIENT_BIND_WILDCARD_ADDR_KEY,
    IPC_CLIENT_CONNECT_TIMEOUT_DEFAULT, IPC_CLIENT_CONNECT_TIMEOUT_KEY,
    IPC_CLIENT_FALLBACK_TO_SIMPLE_AUTH_ALLOWED_DEFAULT,
    IPC_CLIENT_FALLBACK_TO_SIMPLE_AUTH_ALLOWED_KEY, IPC_MAXIMUM_RESPONSE_LENGTH_DEFAULT,
    IPC_PING_INTERVAL_DEFAULT, IPC_PING_INTERVAL_KEY,
};
use crate::proto::RpcKind;
use crate::text::str_equal;

verus! {

/// Relies on `uuid::Uuid::new_v4` and `Uuid::into_bytes`: sixteen random
/// bytes, marked as a version 4 UUID in the high nibble of byte 6 and as
/// of the RFC 4122 variant in the two high bits of byte 8.
#[verifier::external_body]
fn new_client_id() -> (r: [u8; 16])
    ensures
        r@[6] / 16 == 4,
        r@[8] / 64 == 2,
{
    uuid::Uuid::new_v4().into_bytes()
}

/// Helpers for the client id that tags every request.
pub struct ClientId;

/// Length of a client id.
pub const BYTE_LENGTH: usize = 16;

impl ClientId {
    /// A fresh random client id: a version 4 UUID.
    pub fn get_client_id() -> (r: [u8; 16])
        ensures
            r@[6] / 16 == 4,
            r@[8] / 64 == 2,
    {
        new_client_id()
    }
}

/// Whether the settings a client reads are numbers: the first error among
/// them, if any.
pub open spec fn client_settings(props: Seq<(Seq<char>, Seq<char>)>) -> Result<(), IpcError> {
    match conf_int(props, IPC_CLIENT_CONNECT_TIMEOUT_KEY@, IPC_CLIENT_CONNECT_TIMEOUT_DEFAULT) {
        Err(e) => Err(e),
        Ok(_) => match conf_int(props, IPC_CLIENT_ASYNC_CALLS_MAX_KEY@, IPC_CLIENT_ASYNC_CALLS_MAX_DEFAULT) {
            Err(e) => Err(e),
            Ok(_) => Ok(()),
        },
    }
}

/// Whether a pooled connection serves calls to `id` in `protocol`.
pub open spec fn serves(c: ConnectionView, id: ConnectionIdView, protocol: Seq<char>) -> bool {
    c.remote_id == id && c.protocol == protocol && c.failure is None
}

/// Whether eviction at `now` keeps a connection: it has not failed and
/// is not idle.
pub open spec fn kept_at(c: ConnectionView, now: u64) -> bool {
    c.failure is None && !idle_at(c, now)
}

/// `after` is what eviction at `now` leaves of `before`.
pub open spec fn evicted(before: Seq<ConnectionView>, after: Seq<ConnectionView>, now: u64) -> bool {
    &&& forall|i: int| 0 <= i < after.len() ==> before.contains(#[trigger] after[i]) && kept_at(after[i], now)
    &&& forall|i: int| 0 <= i < before.len() && kept_at(#[trigger] before[i], now) ==> after.contains(before[i])
}

/// The settings and the state of a client.
pub ghost struct ClientView {
    pub connection_timeout: i32,
    pub fallback_allowed: bool,
    pub bind_to_wild_card_address: bool,
    pub max_async_calls: i32,
    pub client_id: Seq<u8>,
    pub pool: Seq<ConnectionView>,
    pub next_serial: u64,
}

/// A client of an IPC service.
pub struct Client {
    value_class: String,
    conf: Configuration,
    connection_timeout: i32,
    fallback_allowed: bool,
    bind_to_wild_card_address: bool,
    client_id: Vec<u8>,
    max_async_calls: i32,
    call_id_counter: atomic::Atomic<u32>,
    connections: Vec<Connection>,
    next_serial: u64,
}

impl View for Client {
    type V = ClientView;

    closed spec fn view(&self) -> ClientView {
        ClientView {
            connection_timeout: self.connection_timeout,
            fallback_allowed: self.fallback_allowed,
            bind_to_wild_card_address: self.bind_to_wild_card_address,
            max_async_calls: self.max_async_calls,
            client_id: self.client_id@,
            pool: self.connections@.map_values(|c: Connection| c@),
            next_serial: self.next_serial,
        }
    }
}

impl Client {
    /// The timeout of a call, in milliseconds.
    pub fn get_timeout(conf: &Configuration) -> (r: i32)
        ensures
            r == 3000,
    {
        3000
    }

    /// The ping interval setting.
    pub fn get_ping_interval(conf: &Configuration) -> (r: Result<i32, IpcError>)
        ensures
            r == conf_int(conf@, IPC_PING_INTERVAL_KEY@, IPC_PING_INTERVAL_DEFAULT),
    {
        conf.get_int(IPC_PING_INTERVAL_KEY, IPC_PING_INTERVAL_DEFAULT)
    }

    /// A client with the settings of `conf` and a fresh random identity.
    pub fn new(value_class: &str, conf: &Configuration) -> (r: Result<Client, IpcError>)
        ensures
            match client_settings(conf@) {
                Err(e) => r == Err::<Client, IpcError>(e),
                Ok(_) => r is Ok,
            },
            match conf_int(conf@, IPC_CLIENT_CONNECT_TIMEOUT_KEY@, IPC_CLIENT_CONNECT_TIMEOUT_DEFAULT) {
                Err(e) => r == Err::<Client, IpcError>(e),
                Ok(timeout) => match conf_int(
                    conf@,
                    IPC_CLIENT_ASYNC_CALLS_MAX_KEY@,
                    IPC_CLIENT_ASYNC_CALLS_MAX_DEFAULT,
                ) {
                    Err(e) => r == Err::<Client, IpcError>(e),
                    Ok(max_async) => r matches Ok(c) && c@.connection_timeout == timeout
                        && c@.max_async_calls == max_async && c@.fallback_allowed == conf_bool(
                        conf@,
                        IPC_CLIENT_FALLBACK_TO_SIMPLE_AUTH_ALLOWED_KEY@,
                        IPC_CLIENT_FALLBACK_TO_SIMPLE_AUTH_ALLOWED_DEFAULT,
                    ) && c@.bind_to_wild_card_address == conf_bool(
                        conf@,
                        IPC_CLIENT_BIND_WILDCARD_ADDR_KEY@,
                        IPC_CLIENT_BIND_WILDCARD_ADDR_DEFAULT,
                    ) && c@.client_id.len() == 16 && c@.pool.len() == 0 && c@.next_serial == 0,
                },
            },
    {
        let connection_timeout = conf.get_int(
            IPC_CLIENT_CONNECT_TIMEOUT_KEY,
            IPC_CLIENT_CONNECT_TIMEOUT_DEFAULT,
        )?;
        let fallback_allowed = conf.get_bool(
            IPC_CLIENT_FALLBACK_TO_SIMPLE_AUTH_ALLOWED_KEY,
            IPC_CLIENT_FALLBACK_TO_SIMPLE_AUTH_ALLOWED_DEFAULT,
        );
        let bind_to_wild_card_address = conf.get_bool(
            IPC_CLIENT_BIND_WILDCARD_ADDR_KEY,
            IPC_CLIENT_BIND_WILDCARD_ADDR_DEFAULT,
        );
        let max_async_calls = conf.get_int(
            IPC_CLIENT_ASYNC_CALLS_MAX_KEY,
            IPC_CLIENT_ASYNC_CALLS_MAX_DEFAULT,
        )?;
        let id = ClientId::get_client_id();
        let client = Client {
            value_class: value_class.to_owned(),
            conf: conf.clone(),
            connection_timeout,
            fallback_allowed,
            bind_to_wild_card_address,
            client_id: vstd::slice::slice_to_vec(id.as_slice()),
            max_async_calls,
            call_id_counter: new_counter(),
            connections: Vec::new(),
            next_serial: 0,
        };
        assert(client@.pool =~= Seq::<ConnectionView>::empty());
        Ok(client)
    }

    /// The sixteen bytes that tag every request of this client.
    pub fn client_id(&self) -> (r: &[u8])
        ensures
            r@ == self@.client_id,
    {
        self.client_id.as_slice()
    }

    pub fn connection_timeout(&self) -> (r: i32)
        ensures
            r == self@.connection_timeout,
    {
        self.connection_timeout
    }

    /// The next call id: the counter, incremented, with its sign bit
    /// masked off. Ids repeat only after 2^31 calls.
    pub fn next_call_id(&self) -> (r: i32)
        ensures
            0 <= r,
    {
        call_id_of(fetch_increment(&self.call_id_counter))
    }

    /// The id a call made in `ctx` would get: the one the context holds,
    /// where it is not negative, else a fresh one.
    pub fn get_call_id(&self, ctx: &CallContext) -> (r: i32)
        ensures
            0 <= r,
            usable_override(ctx.call_id) ==> r == ctx.call_id->0,
    {
        match ctx.call_id {
            Some(id) => if id >= 0 {
                id
            } else {
                self.next_call_id()
            },
            None => self.next_call_id(),
        }
    }

    /// As [`Client::get_call_id`], and the context's id is used up.
    pub fn take_call_id(&self, ctx: &mut CallContext) -> (r: i32)
        ensures
            0 <= r,
            usable_override(old(ctx).call_id) ==> r == old(ctx).call_id->0,
            final(ctx).call_id is None,
            final(ctx).retry_count == old(ctx).retry_count,
            final(ctx).external_handler == old(ctx).external_handler,
    {
        match ctx.call_id.take() {
            Some(id) => if id >= 0 {
                id
            } else {
                self.next_call_id()
            },
            None => self.next_call_id(),
        }
    }

    /// The retry count of a call made in `ctx`: 0 unless it says.
    pub fn get_retry_count(ctx: &CallContext) -> (r: i32)
        ensures
            r == match ctx.retry_count {
                Some(n) => n,
                None => 0,
            },
    {
        match ctx.retry_count {
            Some(n) => n,
            None => 0,
        }
    }

    pub fn get_external_handler(ctx: &CallContext) -> (r: Option<String>)
        ensures
            match ctx.external_handler {
                Some(h) => r matches Some(x) && x@ == h@,
                None => r is None,
            },
    {
        match &ctx.external_handler {
            Some(h) => Some(h.clone()),
            None => None,
        }
    }

    /// A call of `rpc_kind` carrying `rpc_request`, made in `ctx`.
    pub fn create_call(&self, ctx: &mut CallContext, rpc_kind: RpcKind, rpc_request: Vec<u8>) -> (r: Call)
        ensures
            0 <= r.id,
            usable_override(old(ctx).call_id) ==> r.id == old(ctx).call_id->0,
            r.alignment_context is None,
            match old(ctx).external_handler {
                Some(h) => r.external_handler matches Some(x) && x@ == h@,
                None => r.external_handler is None,
            },
            r.retry == match old(ctx).retry_count {
                Some(n) => n,
                None => 0,
            },
            r.rpc_kind == rpc_kind,
            r.rpc_request == rpc_request,
            !r.done,
            r.rpc_response is None,
            r.error is None,
            final(ctx).call_id is None,
    {
        let id = self.take_call_id(ctx);
        let retry = Client::get_retry_count(ctx);
        let handler = Client::get_external_handler(ctx);
        Call::new(id, retry, rpc_kind, rpc_request, handler)
    }

    /// Whether a new connection can still get a serial of its own.
    pub fn can_open_connection(&self) -> (r: bool)
        ensures
            r == (self@.next_serial < u64::MAX),
    {
        self.next_serial < u64::MAX
    }

    /// The serial of a usable pooled connection to `remote_id` in
    /// `protocol`, and `false`; or, where there is none, of a new one
    /// added to the pool, and `true`.
    pub fn get_connection(
        &mut self,
        remote_id: &ConnectionId,
        protocol: &str,
        service_class: u8,
        try_sasl: bool,
        now: u64,
    ) -> (r: (u64, bool))
        requires
            old(self)@.next_serial < u64::MAX,
        ensures
            (exists|i: int| 0 <= i < old(self)@.pool.len() && serves(old(self)@.pool[i], remote_id@, protocol@))
                ==> !r.1 && final(self)@ == old(self)@ && exists|i: int| 0 <= i < old(self)@.pool.len()
                && serves(old(self)@.pool[i], remote_id@, protocol@) && old(self)@.pool[i].serial == r.0,
            !(exists|i: int| 0 <= i < old(self)@.pool.len() && serves(old(self)@.pool[i], remote_id@, protocol@))
                ==> r.1 && r.0 == old(self)@.next_serial && final(self)@.next_serial == old(self)@.next_serial + 1
                && final(self)@.pool.len() == old(self)@.pool.len() + 1
                && final(self)@.pool.drop_last() == old(self)@.pool
                && final(self)@.pool.last().serial == r.0
                && serves(final(self)@.pool.last(), remote_id@, protocol@)
                && final(self)@.pool.last().calls == Map::<i32, Call>::empty()
                && final(self)@.pool.last().last_activity == now,
            final(self)@.client_id == old(self)@.client_id,
    {
        let mut i: usize = 0;
        while i < self.connections.len()
            invariant
                i <= self.connections@.len(),
                self@ == old(self)@,
                forall|j: int| 0 <= j < i ==> !serves(#[trigger] self@.pool[j], remote_id@, protocol@),
            decreases self.connections@.len() - i,
        {
            let c = &self.connections[i];
            if c.is_usable() && c.remote_id().pool_equals(remote_id) && str_equal(
                c.protocol_name(),
                protocol,
            ) {
                assert(serves(self@.pool[i as int], remote_id@, protocol@));
                return (c.serial(), false);
            }
            i = i + 1;
        }
        let serial = self.next_serial;
        let connection = Connection::new(
            serial,
            remote_id.copy(),
            protocol,
            service_class,
            IPC_MAXIMUM_RESPONSE_LENGTH_DEFAULT,
            try_sasl,
            now,
        );
        self.connections.push(connection);
        self.next_serial = serial + 1;
        assert(self@.pool.drop_last() =~= old(self)@.pool);
        (serial, true)
    }

    /// Takes the connection `serial` out of the pool, to work on it.
    pub fn take_connection(&mut self, serial: u64) -> (r: Option<Connection>)
        ensures
            match r {
                Some(c) => c@.serial == serial && exists|i: int|
                    0 <= i < old(self)@.pool.len() && old(self)@.pool[i] == c@
                    && final(self)@.pool == old(self)@.pool.remove(i),
                None => final(self)@ == old(self)@ && forall|i: int|
                    0 <= i < old(self)@.pool.len() ==> old(self)@.pool[i].serial != serial,
            },
            final(self)@.next_serial == old(self)@.next_serial,
            final(self)@.client_id == old(self)@.client_id,
    {
        let mut i: usize = 0;
        while i < self.connections.len()
            invariant
                i <= self.connections@.len(),
                self@ == old(self)@,
                forall|j: int| 0 <= j < i ==> self@.pool[j].serial != serial,
            decreases self.connections@.len() - i,
        {
            if self.connections[i].serial() == serial {
                let c = self.connections.remove(i);
                assert(self@.pool =~= old(self)@.pool.remove(i as int));
                return Some(c);
            }
            i = i + 1;
        }
        None
    }

    /// Puts a connection back into the pool.
    pub fn put_connection(&mut self, connection: Connection)
        ensures
            final(self)@.pool == old(self)@.pool.push(connection@),
            final(self)@.next_serial == old(self)@.next_serial,
            final(self)@.client_id == old(self)@.client_id,
    {
        self.connections.push(connection);
        assert(self@.pool =~= old(self)@.pool.push(connection@));
    }

    /// Tears down, at `now`, the connections that failed or were idle too
    /// long; their serials.
    pub fn evict_idle(&mut self, now: u64) -> (r: Vec<u64>)
        ensures
            evicted(old(self)@.pool, final(self)@.pool, now),
            final(self)@.next_serial == old(self)@.next_serial,
            final(self)@.client_id == old(self)@.client_id,
    {
        let mut rest: Vec<Connection> = Vec::new();
        std::mem::swap(&mut rest, &mut self.connections);
        let ghost before = old(self)@.pool;
        let mut removed: Vec<u64> = Vec::new();
        let mut k: usize = 0;
        assert(rest@.map_values(|c: Connection| c@) =~= before);
        let n = rest.len();
        assert(before.len() == n);
        while rest.len() > 0
            invariant
                k + rest@.len() == before.len(),
                before.len() <= usize::MAX,
                forall|j: int| 0 <= j < rest@.len() ==> (#[trigger] rest@[j])@ == before[k + j],
                forall|j: int| 0 <= j < self@.pool.len() ==> before.contains(#[trigger] self@.pool[j]) && kept_at(self@.pool[j], now),
                forall|j: int| 0 <= j < k && kept_at(#[trigger] before[j], now) ==> self@.pool.contains(before[j]),
                self@.next_serial == old(self)@.next_serial,
                self@.client_id == old(self)@.client_id,
            decreases rest@.len(),
        {
            let c = rest.remove(0);
            proof {
                assert(c@ == before[k as int]);
            }
            if c.is_usable() && !c.is_idle(now) {
                let ghost p = self@.pool;
                self.connections.push(c);
                proof {
                    assert(self@.pool =~= p.push(before[k as int]));
                    assert forall|j: int| 0 <= j < k + 1 && kept_at(#[trigger] before[j], now) implies self@.pool.contains(before[j]) by {
                        if j < k {
                            let w = choose|w: int| 0 <= w < p.len() && p[w] == before[j];
                            assert(self@.pool[w] == before[j]);
                        } else {
                            assert(self@.pool[p.len() as int] == before[j]);
                        }
                    }
                    assert forall|j: int| 0 <= j < self@.pool.len() implies before.contains(#[trigger] self@.pool[j]) && kept_at(self@.pool[j], now) by {
                        if j < p.len() {
                            assert(self@.pool[j] == p[j]);
                        } else {
                            assert(before[k as int] == self@.pool[j]);
                        }
                    }
                }
            } else {
                removed.push(c.serial());
            }
            k = k + 1;
        }
        removed
    }
}

/// A connection idle beyond its idle time is torn down: after eviction no
/// connection to an identity whose pooled connections were all idle
/// remains, so the next call to that identity makes a fresh connection.
pub proof fn lemma_idle_connection_replaced(
    before: Seq<ConnectionView>,
    after: Seq<ConnectionView>,
    now: u64,
    id: ConnectionIdView,
    protocol: Seq<char>,
)
    requires
        evicted(before, after, now),
        forall|i: int| 0 <= i < before.len() && (#[trigger] before[i]).remote_id == id ==> idle_at(before[i], now),
    ensures
        !(exists|i: int| 0 <= i < after.len() && serves(after[i], id, protocol)),
{
    assert forall|i: int| 0 <= i < after.len() implies !serves(#[trigger] after[i], id, protocol) by {
        assert(before.contains(after[i]));
    }
}

} // verus!
