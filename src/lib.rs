//! Client side of the Hadoop IPC transport: wire framing, call identity and
//! multiplexing, connection identities and the protocol engine that turns a
//! named remote method into framed bytes and back, together with the small
//! permission and configuration models those layers consult.
pub mod error;
pub mod keys;
pub mod conf;
pub mod text;
pub mod permission;
pub mod security;
pub mod varint;
pub mod wire;
pub mod proto;
pub mod frame;
pub mod codec;
pub mod call;
pub mod connection_id;
pub mod proto_util;
pub mod connection;
pub mod client;
pub mod engine;
pub mod rpc;
pub mod fs;
pub mod hdfs;
