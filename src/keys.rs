//! Names of the configuration settings this library consults, with their
//! defaults.
use vstd::prelude::*;

verus! {

pub const FS_DEFAULT_NAME_KEY: &'static str = "fs.defaultFS";
pub const FS_DEFAULT_NAME_DEFAULT: &'static str = "file:///";

pub const FS_CLIENT_RESOLVE_REMOTE_SYMLINKS_KEY: &'static str = "fs.client.resolve.remote.symlinks";
pub const FS_CLIENT_RESOLVE_REMOTE_SYMLINKS_DEFAULT: bool = true;

pub const IPC_CLIENT_CONNECTION_MAXIDLETIME_KEY: &'static str = "ipc.client.connection.maxidletime";
pub const IPC_CLIENT_CONNECTION_MAXIDLETIME_DEFAULT: i32 = 10000;

pub const IPC_CLIENT_CONNECT_TIMEOUT_KEY: &'static str = "ipc.client.connect.timeout";
pub const IPC_CLIENT_CONNECT_TIMEOUT_DEFAULT: i32 = 20000;

pub const IPC_CLIENT_CONNECT_MAX_RETRIES_ON_SOCKET_TIMEOUTS_KEY: &'static str =
    "ipc.client.connect.max.retries.on.timeouts";
pub const IPC_CLIENT_CONNECT_MAX_RETRIES_ON_SOCKET_TIMEOUTS_DEFAULT: i32 = 45;

pub const IPC_CLIENT_TCPNODELAY_KEY: &'static str = "ipc.client.tcpnodelay";
pub const IPC_CLIENT_TCPNODELAY_DEFAULT: bool = true;

pub const IPC_CLIENT_LOW_LATENCY: &'static str = "ipc.client.low-latency";
pub const IPC_CLIENT_LOW_LATENCY_DEFAULT: bool = false;

/// Umask applied to files and directories created through the client.
pub const FS_PERMISSIONS_UMASK_KEY: &'static str = "fs.permissions.umask-mode";
pub const FS_PERMISSIONS_UMASK_DEFAULT: i32 = 0o22;

/// How often the client pings the server, in milliseconds.
pub const IPC_PING_INTERVAL_KEY: &'static str = "ipc.ping.interval";
pub const IPC_PING_INTERVAL_DEFAULT: i32 = 60000;

/// Whether the client pings the server.
pub const IPC_CLIENT_PING_KEY: &'static str = "ipc.client.ping";
pub const IPC_CLIENT_PING_DEFAULT: bool = true;

/// Largest response body the client accepts.
pub const IPC_MAXIMUM_RESPONSE_LENGTH: &'static str = "ipc.maximum.response.length";
pub const IPC_MAXIMUM_RESPONSE_LENGTH_DEFAULT: i32 = 134217728;

pub const IPC_CLIENT_ASYNC_CALLS_MAX_KEY: &'static str = "ipc.client.async.calls.max";
pub const IPC_CLIENT_ASYNC_CALLS_MAX_DEFAULT: i32 = 100;

pub const IPC_CLIENT_FALLBACK_TO_SIMPLE_AUTH_ALLOWED_KEY: &'static str =
    "ipc.client.fallback-to-simple-auth-allowed";
pub const IPC_CLIENT_FALLBACK_TO_SIMPLE_AUTH_ALLOWED_DEFAULT: bool = false;

pub const IPC_CLIENT_BIND_WILDCARD_ADDR_KEY: &'static str = "ipc.client.bind.wildcard.addr";
pub const IPC_CLIENT_BIND_WILDCARD_ADDR_DEFAULT: bool = false;

pub const IPC_CLIENT_CONNECT_MAX_RETRIES_ON_SASL_KEY: &'static str =
    "ipc.client.connect.max.retries.on.sasl";
pub const IPC_CLIENT_CONNECT_MAX_RETRIES_ON_SASL_DEFAULT: i32 = 5;

/// Prefix of the users' home directories.
pub const DFS_USER_HOME_DIR_PREFIX_KEY: &'static str = "dfs.user.home.dir.prefix";
pub const DFS_USER_HOME_DIR_PREFIX_DEFAULT: &'static str = "/user";

/// Port of the namenode when the filesystem URI names none.
pub const DFS_NAMENODE_RPC_PORT_DEFAULT: i32 = 8020;

} // verus!
