use hadoop::call::{call_id_of, Call, CallContext};
use hadoop::client::Client;
use hadoop::codec::decode_request_frame;
use hadoop::conf::Configuration;
use hadoop::connection::{CallPoll, Connection};
use hadoop::connection_id::{ConnectionId, RetryPolicy, ServerAddress};
use hadoop::engine::{Invoker, ProtocolInfo};
use hadoop::error::IpcError;
use hadoop::frame::{connection_header, i32_from_be, i32_to_be, prepend_buf_size, AuthProtocol, ResponseLength, ResponseReader};
use hadoop::hdfs::{ClientNamenodeProtocolTranslatorPB, DFSClient, CLIENT_NAMENODE_PROTOCOL_NAME};
use hadoop::proto::{
    MkdirsResponseProto, OperationProto, RpcKind, RpcRequestHeaderProto, RpcResponseHeaderProto,
    RpcStatusProto,
};
use hadoop::security::{User, UserGroupInformation};
use hadoop::wire::length_delimited;

fn alice() -> UserGroupInformation {
    UserGroupInformation::from_user(User::new("alice/admin@EXAMPLE.COM"))
}

fn connection_id(conf: &Configuration) -> ConnectionId {
    ConnectionId::get_connection_id(&ServerAddress::new("127.0.0.1", 8020), &alice(), 3000, None, conf)
        .unwrap()
}

fn connection() -> Connection {
    let conf = Configuration::new();
    Connection::new(0, connection_id(&conf), "org.example.Proto", 0, 1024, false, 0)
}

fn response_body(call_id: u32, status: RpcStatusProto, payload: &[u8]) -> Vec<u8> {
    let header = RpcResponseHeaderProto {
        call_id,
        status,
        exception_class_name: None,
        error_msg: None,
    };
    let mut body = header.encode_length_delimited();
    body.extend_from_slice(&length_delimited(payload));
    body
}

#[test]
fn connection_ids_from_same_inputs_pool_together() {
    let mut conf = Configuration::new();
    conf.set("ipc.client.connection.maxidletime", "100");
    let a = connection_id(&conf);
    let b = connection_id(&conf);
    assert!(a.pool_equals(&b));
    assert_eq!(a.get_max_idle_time(), 100);
    assert_eq!(a.get_retry_policy(), RetryPolicy::TryOnceThenFail);
    assert_eq!(a.get_max_retries_on_sasl(), 5);
    assert_eq!(a.get_max_retries_on_socket_timeouts(), 45);
    assert!(a.get_tcp_no_delay());
    assert!(!a.get_tcp_low_latency());
    assert!(a.get_do_ping());
    assert_eq!(a.get_ping_interval(), 60000);
    assert_eq!(a.get_rpc_timeout(), 3000);
    let mut moved = connection_id(&conf);
    assert_eq!(moved.set_address(&ServerAddress::new("10.0.0.2", 9)), Err(IpcError::InvalidUri));
    assert!(moved.pool_equals(&a));
    assert_eq!(moved.set_address(&ServerAddress::new("10.0.0.2", 8020)), Ok(()));
    assert_eq!(moved.get_address().host, "10.0.0.2");
    assert!(!moved.pool_equals(&a));
    let bob = UserGroupInformation::from_user(User::new("bob"));
    let c = ConnectionId::get_connection_id(&ServerAddress::new("127.0.0.1", 8020), &bob, 3000, None, &conf)
        .unwrap();
    assert!(!a.pool_equals(&c));
    conf.set("ipc.client.ping", "false");
    let d = connection_id(&conf);
    assert_eq!(d.get_ping_interval(), 0);
    conf.set("ipc.client.connect.max.retries.on.sasl", "many");
    assert!(matches!(
        ConnectionId::get_connection_id(&ServerAddress::new("h", 1), &alice(), 0, None, &conf),
        Err(IpcError::NumberFormat)
    ));
}

#[test]
fn retry_policy_counts_retries() {
    let p = RetryPolicy::RetryUpToMaximumCountWithFixedSleep { max_retries: 2, sleep_millis: 10 };
    assert!(p.should_retry(1));
    assert!(!p.should_retry(2));
    assert!(!RetryPolicy::TryOnceThenFail.should_retry(0));
}

#[test]
fn call_ids_are_distinct_and_non_negative() {
    let client = Client::new("value_class", &Configuration::new()).unwrap();
    let mut seen = std::collections::HashSet::new();
    for _ in 0..1000 {
        let id = client.next_call_id();
        assert!(id >= 0);
        assert!(seen.insert(id));
    }
    assert_eq!(call_id_of(u32::MAX), i32::MAX);
    assert_eq!(call_id_of(0x8000_0000), 0);
    assert_eq!(call_id_of(5), 5);
    let id = hadoop::client::ClientId::get_client_id();
    assert_eq!(id[6] >> 4, 4);
}

#[test]
fn call_context_overrides_id_and_retry() {
    let client = Client::new("value_class", &Configuration::new()).unwrap();
    let mut ctx = CallContext { call_id: Some(42), retry_count: Some(3), external_handler: None };
    let call = client.create_call(&mut ctx, RpcKind::RpcProtocolBuffer, vec![1, 2]);
    assert_eq!(call.id, 42);
    assert_eq!(call.retry, 3);
    assert_eq!(ctx.call_id, None);
    let call2 = client.create_call(&mut ctx, RpcKind::RpcWritable, vec![]);
    assert!(call2.id >= 0);
    assert!(call2.alignment_context.is_none());
    let mut negative = CallContext { call_id: Some(-3), retry_count: None, external_handler: None };
    let call3 = client.create_call(&mut negative, RpcKind::RpcWritable, vec![]);
    assert!(call3.id >= 0);
    assert_eq!(call3.retry, 0);
    assert_eq!(Client::get_retry_count(&CallContext::new()), 0);
    assert_eq!(Client::get_timeout(&Configuration::new()), 3000);
}

#[test]
fn client_reads_its_settings() {
    let mut conf = Configuration::new();
    conf.set("ipc.client.connect.timeout", "5000");
    let client = Client::new("value_class", &conf).unwrap();
    assert_eq!(client.connection_timeout(), 5000);
    let id = client.client_id();
    assert_eq!(id.len(), 16);
    assert_eq!(id[6] >> 4, 4);
    assert_eq!(id[8] >> 6, 2);
    let other = Client::new("value_class", &conf).unwrap();
    assert_ne!(other.client_id(), id);
    conf.set("ipc.client.async.calls.max", "x");
    assert!(matches!(Client::new("value_class", &conf), Err(IpcError::NumberFormat)));
    assert_eq!(Client::get_ping_interval(&Configuration::new()), Ok(60000));
}

#[test]
fn big_endian_lengths() {
    assert_eq!(i32_to_be(258), vec![0, 0, 1, 2]);
    assert_eq!(i32_to_be(-1), vec![0xff, 0xff, 0xff, 0xff]);
    assert_eq!(i32_from_be(&[0x80, 0, 0, 0]), i32::MIN);
    assert_eq!(i32_from_be(&[0, 0, 1, 2, 9]), 258);
    assert_eq!(prepend_buf_size(vec![7, 8]), vec![0, 0, 0, 2, 7, 8]);
}

#[test]
fn preamble_bytes() {
    assert_eq!(connection_header(0, AuthProtocol::Simple), vec![b'h', b'r', b'p', b'c', 9, 0, 0]);
    assert_eq!(connection_header(3, AuthProtocol::Sasl), vec![b'h', b'r', b'p', b'c', 9, 3, 0xdf]);
    let mut c = connection();
    let out = c.setup_iostreams(&[0u8; 16]).unwrap();
    assert_eq!(&out[..7], &[b'h', b'r', b'p', b'c', 9, 0, 0]);
    let frame_len = i32_from_be(&out[7..]) as usize;
    assert_eq!(frame_len, out.len() - 11);
}

#[test]
fn negotiated_authentication_fails_the_connection() {
    let conf = Configuration::new();
    let mut c = Connection::new(0, connection_id(&conf), "p", 0, 1024, true, 0);
    assert_eq!(c.setup_iostreams(&[0u8; 16]), Err(IpcError::Auth));
    assert!(!c.is_usable());
}

#[test]
fn request_header_encoding() {
    let h = RpcRequestHeaderProto {
        rpc_kind: RpcKind::RpcProtocolBuffer,
        rpc_op: OperationProto::RpcFinalPacket,
        call_id: 1,
        client_id: vec![0xaa; 16],
        retry_count: -1,
    };
    let mut expected = vec![0x08, 0x02, 0x10, 0x00, 0x18, 0x02, 0x22, 0x10];
    expected.extend_from_slice(&[0xaa; 16]);
    expected.extend_from_slice(&[0x28, 0x01]);
    assert_eq!(h.encode(), expected);
    let delimited = h.encode_length_delimited();
    assert_eq!(delimited[0] as usize, expected.len());
    assert_eq!(&delimited[1..], &expected[..]);
}

#[test]
fn request_frame_round_trip() {
    let mut c = connection();
    let payload = vec![3, 1, 2, 3, 0, 255];
    c.add_call(Call::new(7, 2, RpcKind::RpcProtocolBuffer, payload.clone(), None));
    let frame = c.send_rpc_request(7, &[5u8; 16], 10).unwrap();
    let (header, body) = decode_request_frame(&frame).unwrap();
    assert_eq!(header.rpc_kind, RpcKind::RpcProtocolBuffer);
    assert_eq!(header.rpc_op, OperationProto::RpcFinalPacket);
    assert_eq!(header.call_id, 7);
    assert_eq!(header.client_id, vec![5u8; 16]);
    assert_eq!(header.retry_count, 2);
    assert_eq!(body, payload);
    assert_eq!(decode_request_frame(&frame[..frame.len() - 1]).unwrap_err(), IpcError::Protocol);
}

#[test]
fn first_length_minus_one_is_a_remote_exception() {
    let mut reader = ResponseReader::new(1024);
    let stream = [0xff, 0xff, 0xff, 0xff, 0, 0, 0, 1, 9, 9];
    match reader.read_response(&stream) {
        (Err(IpcError::Remote { exception_class, message }), taken) => {
            assert!(exception_class.is_empty());
            assert!(message.is_empty());
            assert_eq!(taken, 8);
        }
        other => panic!("unexpected {:?}", other),
    }
    // only the first frame may announce one
    assert_eq!(reader.check_length(-1), Err(IpcError::Protocol));
    let mut c = connection();
    assert!(matches!(c.receive_length(-1), Err(IpcError::Remote { .. })));
    assert!(!c.is_usable());
    // through the read steps: the length, then the four bytes after it
    let mut c = connection();
    c.add_call(Call::new(1, 0, RpcKind::RpcProtocolBuffer, vec![], None));
    assert_eq!(c.next_read_len(), 4);
    assert!(matches!(c.on_read(vec![0xff; 4], 1), Err(IpcError::Remote { .. })));
    assert_eq!(c.next_read_len(), 4);
    assert_eq!(c.on_read(vec![0, 0, 0, 1], 2), Ok(None));
    assert_eq!(c.next_read_len(), 4);
    assert!(matches!(c.poll_call(1), CallPoll::Done(Err(IpcError::Remote { .. }))));
}

#[test]
fn non_positive_length_is_a_protocol_error() {
    let mut reader = ResponseReader::new(1024);
    assert_eq!(reader.check_length(0), Err(IpcError::Protocol));
    let mut reader = ResponseReader::new(1024);
    assert_eq!(reader.check_length(-5), Err(IpcError::Protocol));
    let mut c = connection();
    c.add_call(Call::new(1, 0, RpcKind::RpcProtocolBuffer, vec![], None));
    assert_eq!(c.receive_length(0), Err(IpcError::Protocol));
    assert!(!c.is_usable());
    assert_eq!(c.send_rpc_request(1, &[0u8; 16], 1), Err(IpcError::Protocol));
    match c.poll_call(1) {
        CallPoll::Done(Err(e)) => assert_eq!(e, IpcError::Protocol),
        other => panic!("unexpected {:?}", other),
    }
    assert!(matches!(c.poll_call(1), CallPoll::Unknown));
}

#[test]
fn overlong_response_is_too_large() {
    let mut reader = ResponseReader::new(1024);
    assert_eq!(reader.check_length(1025), Err(IpcError::ResponseTooLarge));
    let mut reader = ResponseReader::new(1024);
    assert_eq!(reader.check_length(1024), Ok(ResponseLength::Body(1024)));
    let mut unlimited = ResponseReader::new(0);
    assert_eq!(unlimited.check_length(i32::MAX), Ok(ResponseLength::Body(i32::MAX as usize)));
    let mut c = connection();
    assert_eq!(c.receive_length(4096), Err(IpcError::ResponseTooLarge));
    assert!(!c.is_usable());
}

#[test]
fn read_response_takes_one_frame() {
    let mut reader = ResponseReader::new(1024);
    let stream = [0, 0, 0, 2, 7, 8, 0, 0, 0, 1, 6];
    assert_eq!(reader.read_response(&stream), (Ok(vec![7, 8]), 6));
    assert_eq!(reader.read_response(&stream[6..]), (Ok(vec![6]), 5));
    assert_eq!(reader.read_response(&[0, 0, 0, 3, 1]), (Err(IpcError::Connection), 4));
    assert_eq!(reader.read_response(&[0, 0]), (Err(IpcError::Connection), 0));
    assert_eq!(reader.read_response(&[0, 0, 0, 0, 1]), (Err(IpcError::Protocol), 4));
}

#[test]
fn out_of_order_responses_reach_their_own_callers() {
    let mut c = connection();
    c.add_call(Call::new(1, 0, RpcKind::RpcProtocolBuffer, vec![1], None));
    c.add_call(Call::new(2, 0, RpcKind::RpcProtocolBuffer, vec![2], None));
    let body2 = response_body(2, RpcStatusProto::Success, b"second");
    let body1 = response_body(1, RpcStatusProto::Success, b"first");
    assert!(matches!(c.poll_call(1), CallPoll::Pending));
    assert_eq!(c.receive_response(body2.clone(), 5), Ok(Some(2)));
    assert!(matches!(c.poll_call(1), CallPoll::Pending));
    assert_eq!(c.receive_response(body1.clone(), 6), Ok(Some(1)));
    // the same through the read steps
    let mut d = connection();
    d.add_call(Call::new(1, 0, RpcKind::RpcProtocolBuffer, vec![1], None));
    let mut framed = prepend_buf_size(body1.clone());
    let body = framed.split_off(4);
    assert_eq!(d.on_read(framed, 1), Ok(None));
    assert_eq!(d.next_read_len(), body.len());
    assert_eq!(d.on_read(body, 2), Ok(Some(1)));
    assert_eq!(d.next_read_len(), 4);
    match c.poll_call(2) {
        CallPoll::Done(Ok(b)) => assert_eq!(b, body2),
        other => panic!("unexpected {:?}", other),
    }
    match c.poll_call(1) {
        CallPoll::Done(Ok(b)) => assert_eq!(b, body1),
        other => panic!("unexpected {:?}", other),
    }
    // a late response for an abandoned call is dropped
    c.add_call(Call::new(3, 0, RpcKind::RpcProtocolBuffer, vec![], None));
    c.cancel_call(3);
    assert_eq!(c.receive_response(response_body(3, RpcStatusProto::Success, b"late"), 7), Ok(None));
    assert!(matches!(c.poll_call(3), CallPoll::Unknown));
    // an unreadable header fails the connection
    assert_eq!(c.receive_response(vec![5, 0xff], 8), Err(IpcError::Protocol));
    assert!(!c.is_usable());
    // and a failed connection completes no call
    c.add_call(Call::new(4, 0, RpcKind::RpcProtocolBuffer, vec![], None));
    assert_eq!(c.receive_response(response_body(4, RpcStatusProto::Success, b"x"), 9), Err(IpcError::Protocol));
    match c.poll_call(4) {
        CallPoll::Done(Err(e)) => assert_eq!(e, IpcError::Protocol),
        other => panic!("unexpected {:?}", other),
    }
}

#[test]
fn closed_connection_fails_its_calls() {
    let mut c = connection();
    c.add_call(Call::new(9, 0, RpcKind::RpcProtocolBuffer, vec![], None));
    c.close(IpcError::Connection);
    c.close(IpcError::Auth);
    match c.poll_call(9) {
        CallPoll::Done(Err(e)) => {
            assert_eq!(e, IpcError::Connection);
            assert!(e.is_retriable());
        }
        other => panic!("unexpected {:?}", other),
    }
    assert!(matches!(c.poll_call(9), CallPoll::Unknown));
}

#[test]
fn mkdirs_through_the_engine() {
    let conf = Configuration::new();
    let invoker = Invoker::from_connection_id(
        connection_id(&conf),
        &conf,
        ProtocolInfo { protocol_name: CLIENT_NAMENODE_PROTOCOL_NAME.to_string(), protocol_version: 1 },
        None,
    )
    .unwrap();
    let dfs = DFSClient::new(&conf, alice());
    let request = dfs.mkdirs("/a/b", None, true);
    assert_eq!(request.masked.perm, 0o755);
    assert_eq!(request.unmasked.map(|u| u.perm), Some(0o777));
    assert!(request.create_parent);
    let payload = invoker.construct_rpc_request("mkdirs", &request.encode());
    // method header: "mkdirs", the protocol name, version 1
    assert_eq!(payload[1], 0x0a);
    assert_eq!(payload[2] as usize, "mkdirs".len());
    assert_eq!(&payload[3..9], b"mkdirs");
    // a server that answers success with result true
    let reply = MkdirsResponseProto { result: true }.encode();
    assert_eq!(reply, vec![0x08, 0x01]);
    let body = response_body(1, RpcStatusProto::Success, &reply);
    let message = Invoker::get_return_message(&body).unwrap();
    assert_eq!(ClientNamenodeProtocolTranslatorPB::mkdirs_result(&message), Ok(true));
    assert_eq!(ClientNamenodeProtocolTranslatorPB::mkdirs_result(&[]), Ok(false));
    assert_eq!(ClientNamenodeProtocolTranslatorPB::mkdirs_result(&[0x0a, 0x00]), Err(IpcError::Decode));
}

#[test]
fn remote_errors_carry_diagnostics() {
    let header = RpcResponseHeaderProto {
        call_id: 4,
        status: RpcStatusProto::Error,
        exception_class_name: Some(b"java.io.IOException".to_vec()),
        error_msg: Some(b"no".to_vec()),
    };
    let body = header.encode_length_delimited();
    assert_eq!(
        Invoker::get_return_message(&body),
        Err(IpcError::Remote { exception_class: b"java.io.IOException".to_vec(), message: b"no".to_vec() })
    );
    let decoded = RpcResponseHeaderProto::decode(&header.encode()).unwrap();
    let mut bad = Configuration::new();
    bad.set("ipc.client.connect.timeout", "soon");
    assert!(matches!(
        Invoker::from_connection_id(
            connection_id(&Configuration::new()),
            &bad,
            ProtocolInfo { protocol_name: "p".to_string(), protocol_version: 1 },
            None,
        ),
        Err(IpcError::NumberFormat)
    ));
    assert_eq!(decoded.call_id, 4);
    assert_eq!(decoded.status, RpcStatusProto::Error);
    assert!(!IpcError::Remote { exception_class: vec![], message: vec![] }.is_retriable());
    assert_eq!(Invoker::get_return_message(&[9, 1]), Err(IpcError::Protocol));
    // a header whose status is no known status
    assert_eq!(Invoker::get_return_message(&[2, 0x10, 0x07]), Err(IpcError::Protocol));
}

#[test]
fn idle_connections_are_replaced() {
    let conf = Configuration::new();
    let id = connection_id(&conf);
    let mut client = Client::new("value_class", &conf).unwrap();
    let (first, created) = client.get_connection(&id, "p", 0, false, 100);
    assert!(created);
    let (again, created) = client.get_connection(&id, "p", 0, false, 200);
    assert!(!created);
    assert_eq!(first, again);
    let (other, created) = client.get_connection(&id, "q", 0, false, 200);
    assert!(created);
    assert_ne!(other, first);
    // max idle time is 10000 ms by default
    assert!(client.evict_idle(5000).is_empty());
    let mut removed = client.evict_idle(20000);
    removed.sort();
    assert_eq!(removed, vec![first, other]);
    let (fresh, created) = client.get_connection(&id, "p", 0, false, 20001);
    assert!(created);
    assert_ne!(fresh, first);
    let mut c = client.take_connection(fresh).unwrap();
    assert!(client.take_connection(fresh).is_none());
    c.add_call(Call::new(1, 0, RpcKind::RpcProtocolBuffer, vec![], None));
    assert!(!c.is_idle(100000));
    client.put_connection(c);
    assert!(client.evict_idle(100000).is_empty());
}
