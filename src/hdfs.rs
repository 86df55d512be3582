//! The filesystem client's side of the namenode protocol: default
//! permissions, home directories, namenode addresses and the `mkdirs`
//! request and reply.
use vstd::prelude::*;
use vstd::string::{StrSliceExecFns, StringExecFns};
use vstd::utf8::encode_utf8;
use crate::text::Text;
use crate::conf::{i32_in_radix, lookup, parse_i32, Configuration};
use crate::error::IpcError;
use crate::keys::{
    DFS_NAMENODE_RPC_PORT_DEFAULT, DFS_USER_HOME_DIR_PREFIX_DEFAULT, DFS_USER_HOME_DIR_PREFIX_KEY,
};
use crate::permission::{permission_of, FsCreateModes, FsPermission};
use crate::proto::{MkdirsRequestProto, MkdirsResponseProto};
use crate::security::{short_name_of, UserGroupInformation};
use crate::connection_id::ServerAddress;

verus! {

/// URI scheme of HDFS filesystems.
pub const HDFS_URI_SCHEME: &'static str = "hdfs";

/// Name of the namenode's client protocol.
pub const CLIENT_NAMENODE_PROTOCOL_NAME: &'static str = "org.apache.hadoop.hdfs.protocol.ClientProtocol";

/// The directory separator, a slash.
pub const SEPARATOR: &'static str = "/";

/// A character in lower case, where it is an ASCII letter.
pub open spec fn ascii_lower(c: char) -> char {
    if 'A' <= c && c <= 'Z' {
        ((c as u32) + 32) as char
    } else {
        c
    }
}

fn lower_ascii(c: char) -> (r: char)
    ensures
        r == ascii_lower(c),
{
    if 'A' <= c && c <= 'Z' {
        ((c as u8) + 32) as char
    } else {
        c
    }
}

/// Whether two strings match when ASCII letters are compared without
/// case: equal lengths, and equal characters once ASCII letters are
/// lowercased.
pub fn eq_ignore_ascii_case(a: &str, b: &str) -> (r: bool)
    ensures
        r == (a@.len() == b@.len() && forall|i: int|
            0 <= i < a@.len() ==> ascii_lower(#[trigger] a@[i]) == ascii_lower(b@[i])),
{
    let n = a.unicode_len();
    if n != b.unicode_len() {
        return false;
    }
    let mut i: usize = 0;
    while i < n
        invariant
            n == a@.len(),
            n == b@.len(),
            i <= n,
            forall|j: int| 0 <= j < i ==> ascii_lower(#[trigger] a@[j]) == ascii_lower(b@[j]),
        decreases n - i,
    {
        if lower_ascii(a.get_char(i)) != lower_ascii(b.get_char(i)) {
            return false;
        }
        i = i + 1;
    }
    true
}

/// The ASCII decimal digits of `n`, most significant first.
pub open spec fn decimal_digits(n: nat) -> Seq<u8>
    decreases n,
{
    if n < 10 {
        seq![(48 + n) as u8]
    } else {
        decimal_digits(n / 10) + seq![(48 + n % 10) as u8]
    }
}

fn put_decimal(buf: &mut Vec<u8>, n: u16)
    ensures
        final(buf)@ == old(buf)@ + decimal_digits(n as nat),
    decreases n,
{
    if n >= 10 {
        put_decimal(buf, n / 10);
    }
    buf.push(48 + (n % 10) as u8);
    assert(buf@ =~= old(buf)@ + decimal_digits(n as nat));
}

/// Security helpers.
pub struct SecurityUtil;

impl SecurityUtil {
    /// The service key of a delegation token for `addr`: `host:port`.
    pub fn build_token_service(addr: &ServerAddress) -> (r: Text)
        requires
            encode_utf8(addr.host@).len() <= 0x7fff_0000,
        ensures
            r@ == encode_utf8(addr.host@) + seq![58u8] + decimal_digits(addr.port as nat),
    {
        let mut b = vstd::slice::slice_to_vec(addr.host.as_str().as_bytes());
        b.push(58);
        put_decimal(&mut b, addr.port);
        proof {
            lemma_decimal_digits_len(addr.port as nat);
        }
        Text::from_bytes(b)
    }
}

proof fn lemma_decimal_digits_len(n: nat)
    requires
        n < 0x1_0000,
    ensures
        decimal_digits(n).len() <= 5,
    decreases n,
{
    if n >= 10 {
        lemma_decimal_digits_len(n / 10);
        if n < 100 {
            assert(decimal_digits(n / 10).len() == 1);
        } else if n < 1000 {
            assert(decimal_digits(n / 10 / 10).len() == 1);
        } else if n < 10000 {
            assert(decimal_digits(n / 10 / 10 / 10).len() == 1);
        } else {
            assert(decimal_digits(n / 10 / 10 / 10 / 10).len() == 1);
        }
    }
}

/// The prefix of home directories that `conf` sets.
pub open spec fn home_prefix(conf: Option<Seq<(Seq<char>, Seq<char>)>>) -> Seq<char> {
    match conf {
        Some(props) => match lookup(props, DFS_USER_HOME_DIR_PREFIX_KEY@) {
            Some(v) => v,
            None => DFS_USER_HOME_DIR_PREFIX_DEFAULT@,
        },
        None => DFS_USER_HOME_DIR_PREFIX_DEFAULT@,
    }
}

/// The port a namenode URI gives: its port where that is a decimal `i32`,
/// else the default namenode port.
pub open spec fn namenode_port(port: Option<Seq<char>>) -> i32 {
    match port {
        Some(p) => match i32_in_radix(p, 10) {
            Some(n) => n,
            None => DFS_NAMENODE_RPC_PORT_DEFAULT,
        },
        None => DFS_NAMENODE_RPC_PORT_DEFAULT,
    }
}

pub struct DFSUtilClient;

impl DFSUtilClient {
    /// The host and port of the namenode that a filesystem URI names, from
    /// its scheme, host and port. The scheme must be `hdfs`, in any case,
    /// and the URI must have a host.
    pub fn get_nnaddress(scheme: &str, host: Option<&str>, port: Option<&str>) -> (r: Result<
        (String, i32),
        IpcError,
    >)
        ensures
            match host {
                None => r == Err::<(String, i32), IpcError>(IpcError::InvalidUri),
                Some(h) => if scheme@.len() == 4 && (forall|i: int|
                    0 <= i < 4 ==> ascii_lower(#[trigger] scheme@[i]) == "hdfs"@[i]) {
                    r matches Ok((rh, rp)) && rh@ == h@ && rp == namenode_port(
                        match port {
                            Some(p) => Some(p@),
                            None => None,
                        },
                    )
                } else {
                    r == Err::<(String, i32), IpcError>(IpcError::InvalidUri)
                },
            },
    {
        let host = match host {
            Some(h) => h,
            None => return Err(IpcError::InvalidUri),
        };
        proof {
            reveal_strlit("hdfs");
            assert forall|i: int| 0 <= i < 4 implies ascii_lower(#[trigger] "hdfs"@[i]) == "hdfs"@[i] by {}
        }
        if !eq_ignore_ascii_case(HDFS_URI_SCHEME, scheme) {
            return Err(IpcError::InvalidUri);
        }
        let port = match port {
            Some(p) => match parse_i32(p, 10) {
                Some(n) => n,
                None => DFS_NAMENODE_RPC_PORT_DEFAULT,
            },
            None => DFS_NAMENODE_RPC_PORT_DEFAULT,
        };
        Ok((host.to_owned(), port))
    }

    /// The home directory of the user of `ugi`: the configured prefix, a
    /// slash, and the user's short name.
    pub fn get_home_directory(conf: Option<&Configuration>, ugi: &UserGroupInformation) -> (r: String)
        ensures
            r@ == home_prefix(
                match conf {
                    Some(c) => Some(c@),
                    None => None,
                },
            ) + SEPARATOR@ + short_name_of(ugi@),
    {
        let mut home = match conf {
            Some(conf) => match conf.get(
                DFS_USER_HOME_DIR_PREFIX_KEY,
                Some(DFS_USER_HOME_DIR_PREFIX_DEFAULT),
            ) {
                Some(p) => p,
                None => DFS_USER_HOME_DIR_PREFIX_DEFAULT.to_owned(),
            },
            None => DFS_USER_HOME_DIR_PREFIX_DEFAULT.to_owned(),
        };
        home.append(SEPARATOR);
        let short = ugi.get_short_user_name();
        home.append(short.as_str());
        home
    }
}

/// The client's settings that matter to the filesystem client.
pub struct DfsClientConf {
    umask: FsPermission,
}

impl DfsClientConf {
    pub fn new(conf: &Configuration) -> (r: DfsClientConf)
        ensures
            r.umask_spec() == FsPermission::spec_get_umask(),
    {
        DfsClientConf { umask: FsPermission::get_umask(Some(conf)) }
    }

    pub closed spec fn umask_spec(&self) -> FsPermission {
        self.umask
    }

    pub fn get_umask(&self) -> (r: &FsPermission)
        ensures
            *r == self.umask_spec(),
    {
        &self.umask
    }
}

/// Translates the filesystem client's calls into namenode messages.
pub struct ClientNamenodeProtocolTranslatorPB;

impl ClientNamenodeProtocolTranslatorPB {
    /// The request that makes the directory `src` with the given modes.
    pub fn mkdirs_request(src: &str, create_modes: &FsCreateModes, create_parent: bool) -> (r:
        MkdirsRequestProto)
        ensures
            r.src@ == src@,
            r.masked.perm as int == create_modes.masked.mode(),
            r.create_parent == create_parent,
            r.unmasked matches Some(u) && u.perm as int == create_modes.unmasked.mode(),
    {
        MkdirsRequestProto {
            src: src.to_owned(),
            masked: create_modes.get_masked().to_proto(),
            create_parent,
            unmasked: Some(create_modes.get_unmasked().to_proto()),
        }
    }

    /// Whether the namenode made the directory, from its reply's body.
    pub fn mkdirs_result(body: &[u8]) -> (r: Result<bool, IpcError>)
        ensures
            match MkdirsResponseProto::spec_decode(body@) {
                Ok(m) => r == Ok::<bool, IpcError>(m.result),
                Err(e) => r == Err::<bool, IpcError>(e),
            },
    {
        match MkdirsResponseProto::decode(body) {
            Ok(m) => Ok(m.result),
            Err(e) => Err(e),
        }
    }
}

/// The filesystem client: who it acts for, and its umask.
pub struct DFSClient {
    dfs_client_conf: DfsClientConf,
    ugi: UserGroupInformation,
}

impl DFSClient {
    pub fn new(conf: &Configuration, ugi: UserGroupInformation) -> (r: DFSClient)
        ensures
            r.umask_spec() == FsPermission::spec_get_umask(),
            r.ugi_spec() == ugi@,
    {
        DFSClient { dfs_client_conf: DfsClientConf::new(conf), ugi }
    }

    pub closed spec fn ugi_spec(&self) -> Seq<char> {
        self.ugi@
    }

    /// The user this client acts for.
    pub fn ugi(&self) -> (r: &UserGroupInformation)
        ensures
            r@ == self.ugi_spec(),
    {
        &self.ugi
    }

    pub closed spec fn umask_spec(&self) -> FsPermission {
        self.dfs_client_conf.umask_spec()
    }

    /// The create modes of a new directory: `permission`, or the default
    /// directory permission, under the umask.
    pub fn apply_umask_dir(&self, permission: Option<&FsPermission>) -> (r: FsCreateModes)
        ensures
            r.unmasked == match permission {
                Some(p) => *p,
                None => permission_of(0o777u16),
            },
            r.masked == r.unmasked.masked_by(self.umask_spec()),
    {
        let dir_default = FsPermission::get_dir_default();
        let permission = match permission {
            Some(p) => p,
            None => &dir_default,
        };
        FsCreateModes::apply_umask(permission, self.dfs_client_conf.get_umask())
    }

    /// The request that makes the directory `src` with `permission`, or
    /// the default directory permission, under the umask.
    pub fn mkdirs(&self, src: &str, permission: Option<&FsPermission>, create_parent: bool) -> (r:
        MkdirsRequestProto)
        ensures
            r.src@ == src@,
            r.create_parent == create_parent,
            r.unmasked matches Some(u) && u.perm as int == match permission {
                Some(p) => p.mode(),
                None => permission_of(0o777u16).mode(),
            },
            r.masked.perm as int == (match permission {
                Some(p) => *p,
                None => permission_of(0o777u16),
            }).masked_by(self.umask_spec()).mode(),
    {
        let masked = self.apply_umask_dir(permission);
        self.primitive_mkdir(src, &masked, create_parent)
    }

    /// As [`DFSClient::mkdirs`], with modes already under the umask.
    pub fn primitive_mkdir(&self, src: &str, create_modes: &FsCreateModes, create_parent: bool) -> (r:
        MkdirsRequestProto)
        ensures
            r.src@ == src@,
            r.masked.perm as int == create_modes.masked.mode(),
            r.create_parent == create_parent,
            r.unmasked matches Some(u) && u.perm as int == create_modes.unmasked.mode(),
    {
        ClientNamenodeProtocolTranslatorPB::mkdirs_request(src, create_modes, create_parent)
    }
}

} // verus!
