use hadoop::conf::Configuration;
use hadoop::connection_id::ServerAddress;
use hadoop::error::IpcError;
use hadoop::fs::{fix_relative_part, get_default_uri, get_resolve_symlinks, starts_with_separator, Path};
use hadoop::rpc::{client_namenode_protocol_info, NameNodeProxiesClient, RPC};
use hadoop::security::{User, UserGroupInformation};

#[test]
fn path_test_from_parent() {
    let parent = Path::new("hdfs://namenode/user/alex/").unwrap();
    let child = Path::new("database/hive/test.db").unwrap();
    let path = Path::from_parent(&parent, &child).unwrap();
    assert_eq!(path.to_uri(), "hdfs://namenode/user/alex/database/hive/test.db");
}

#[test]
fn path_test_is_uri_path_absolute() {
    let iri = Path::new("/dev/../hello").unwrap();
    assert!(iri.is_uri_path_absolute());
    let base = Path::new("hdfs://").unwrap();
    let i = Path::from_parent(&base, &iri).unwrap();
    assert_eq!(i.uri_path(), "/hello");
    assert!(!Path::new("dev/hello").unwrap().is_uri_path_absolute());
}

#[test]
fn relative_parent_is_refused() {
    let parent = Path::new("/user/alex").unwrap();
    let child = Path::new("a").unwrap();
    assert_eq!(Path::from_parent(&parent, &child).unwrap_err(), IpcError::InvalidUri);
    assert_eq!(fix_relative_part(&parent, &child).unwrap_err(), IpcError::InvalidUri);
    let absolute = Path::new("/a/b").unwrap();
    assert_eq!(fix_relative_part(&parent, &absolute).unwrap().to_uri(), "/a/b");
    let wd = Path::new("hdfs://nn/user/alex/").unwrap();
    assert_eq!(fix_relative_part(&wd, &child).unwrap().to_uri(), "hdfs://nn/user/alex/a");
    assert!(Path::new("a b").is_err());
}

#[test]
fn separator_and_settings() {
    assert!(starts_with_separator("/x"));
    assert!(!starts_with_separator("x/"));
    assert!(!starts_with_separator(""));
    let mut conf = Configuration::new();
    assert!(get_resolve_symlinks(&conf));
    assert_eq!(get_default_uri(&conf), "file:///");
    conf.set("fs.client.resolve.remote.symlinks", "false");
    conf.set("fs.defaultFS", " hdfs://nn:9000 ");
    assert!(!get_resolve_symlinks(&conf));
    assert_eq!(get_default_uri(&conf), "hdfs://nn:9000");
}

#[test]
fn namenode_proxy() {
    let conf = Configuration::new();
    let ugi = UserGroupInformation::from_user(User::new("alex"));
    let info = client_namenode_protocol_info();
    assert_eq!(RPC::get_protocol_name(&info), "org.apache.hadoop.hdfs.protocol.ClientProtocol");
    assert_eq!(RPC::get_protocol_version(&info), 1);
    let p = NameNodeProxiesClient::create_proxy_with_client_protocol(
        &conf,
        &ServerAddress::new("127.0.0.1", 9000),
        &ugi,
    )
    .unwrap();
    assert_eq!(p.dt_service.get_bytes(), b"127.0.0.1:9000");
    assert_eq!(p.proxy.protocol_name(), "org.apache.hadoop.hdfs.protocol.ClientProtocol");
    assert_eq!(p.proxy.remote_id().get_address().port, 9000);
}
