use hadoop::conf::Configuration;
use hadoop::connection_id::ServerAddress;
use hadoop::error::IpcError;
use hadoop::hdfs::{DFSUtilClient, DfsClientConf, SecurityUtil};
use hadoop::text::Text;
use hadoop::permission::FsPermission;
use hadoop::proto_util::ProtoUtil;
use hadoop::security::{LoginUserCache, User, UserGroupInformation};

#[test]
fn short_names_stop_at_slash_or_at() {
    assert_eq!(User::new("alice/admin@EXAMPLE.COM").get_short_name(), "alice");
    assert_eq!(User::new("bob@EXAMPLE.COM").get_short_name(), "bob");
    assert_eq!(User::new("carol").get_short_name(), "carol");
    assert_eq!(User::new("@x").get_short_name(), "");
    let ugi = UserGroupInformation::from_user(User::new("dave/host"));
    assert_eq!(ugi.get_user_name(), "dave/host");
    assert_eq!(ugi.get_short_user_name(), "dave");
    let proxy = UserGroupInformation::create_proxy_user("eve", &ugi);
    assert_eq!(proxy.get_user_name(), "dave/host");
}

#[test]
fn login_user_has_a_name_or_fails_with_auth() {
    let mut cache = LoginUserCache::new();
    match UserGroupInformation::get_current_user(&mut cache, Some("")) {
        Ok(ugi) => {
            assert!(!ugi.get_user_name().is_empty());
            let again = UserGroupInformation::get_login_user(&mut cache, Some("other")).unwrap();
            assert_eq!(again.get_user_name(), ugi.get_user_name());
        }
        Err(e) => assert_eq!(e, IpcError::Auth),
    }
}

#[test]
fn home_directory_under_prefix() {
    let ugi = UserGroupInformation::from_user(User::new("alex@REALM"));
    assert_eq!(DFSUtilClient::get_home_directory(None, &ugi), "/user/alex");
    let mut conf = Configuration::new();
    assert_eq!(DFSUtilClient::get_home_directory(Some(&conf), &ugi), "/user/alex");
    conf.set("dfs.user.home.dir.prefix", "/home");
    assert_eq!(DFSUtilClient::get_home_directory(Some(&conf), &ugi), "/home/alex");
}

#[test]
fn namenode_address_checks() {
    assert_eq!(
        DFSUtilClient::get_nnaddress("hdfs", Some("namenode"), Some("9000")),
        Ok(("namenode".to_string(), 9000))
    );
    assert_eq!(
        DFSUtilClient::get_nnaddress("HDFS", Some("nn"), None),
        Ok(("nn".to_string(), 8020))
    );
    assert_eq!(
        DFSUtilClient::get_nnaddress("hdfs", Some("nn"), Some("x")),
        Ok(("nn".to_string(), 8020))
    );
    assert_eq!(DFSUtilClient::get_nnaddress("file", Some("nn"), None), Err(IpcError::InvalidUri));
    assert_eq!(DFSUtilClient::get_nnaddress("hdfsx", Some("nn"), None), Err(IpcError::InvalidUri));
    assert_eq!(DFSUtilClient::get_nnaddress("hdfs", None, None), Err(IpcError::InvalidUri));
    assert!(hadoop::hdfs::eq_ignore_ascii_case("HdFs", "hdfS"));
    assert!(!hadoop::hdfs::eq_ignore_ascii_case("hdfs", "hdf"));
    assert!(!hadoop::hdfs::eq_ignore_ascii_case("É", "é"));
}

#[test]
fn token_service_is_host_colon_port() {
    let t = SecurityUtil::build_token_service(&ServerAddress::new("10.0.0.1", 8020));
    assert_eq!(t.get_bytes(), b"10.0.0.1:8020");
    assert_eq!(t.get_length(), 13);
    let t = SecurityUtil::build_token_service(&ServerAddress::new("h", 0));
    assert_eq!(t.get_bytes(), b"h:0");
    assert_eq!(Text::from_string("héllo").get_length(), 6);
    assert_eq!(Text::encode("ab", true), b"ab");
}

#[test]
fn connection_context_users_by_auth_method() {
    let ugi = UserGroupInformation::from_user(User::new("u"));
    let simple = ProtoUtil::make_ipc_connection_context(Some("p"), Some(&ugi), "");
    let info = simple.user_info.unwrap();
    assert_eq!(info.effective_user.as_deref(), Some("u"));
    assert_eq!(info.real_user.as_deref(), Some("u"));
    assert_eq!(simple.protocol.as_deref(), Some("p"));
    let kerberos = ProtoUtil::make_ipc_connection_context(None, Some(&ugi), "kerberos").user_info.unwrap();
    assert_eq!(kerberos.effective_user.as_deref(), Some("u"));
    assert_eq!(kerberos.real_user, None);
    let token = ProtoUtil::make_ipc_connection_context(None, Some(&ugi), "token").user_info.unwrap();
    assert_eq!(token.effective_user, None);
    assert_eq!(token.real_user, None);
}

#[test]
fn client_conf_umask() {
    let conf = DfsClientConf::new(&Configuration::new());
    assert_eq!(conf.get_umask().to_short(), 0o22);
    assert_eq!(*conf.get_umask(), FsPermission::from_short(0o22));
}

#[test]
fn login_needs_a_name() {
    let ugi = UserGroupInformation::login_as(Some("zoe@REALM".to_string())).unwrap();
    assert_eq!(ugi.get_user_name(), "zoe@REALM");
    assert_eq!(ugi.get_short_user_name(), "zoe");
    assert_eq!(UserGroupInformation::login_as(None).unwrap_err(), IpcError::Auth);
}
