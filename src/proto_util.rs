//! Building the headers that frame calls and connections.
use vstd::prelude::*;
use crate::call::AlignmentState;
use crate::proto::{
    IpcConnectionContextProto, OperationProto, RpcKind,
    RpcRequestHeaderProto, UserInformationProto,
};
use crate::security::UserGroupInformation;
use crate::text::str_equal;

verus! {

pub open spec fn opt_str_view(s: Option<String>) -> Option<Seq<char>> {
    match s {
        Some(s) => Some(s@),
        None => None,
    }
}

/// The user names a connection context carries, as (effective, real):
/// under kerberos the effective user only, under token authentication
/// neither, and otherwise, simple authentication, both as the same name.
pub open spec fn context_users(user: Option<Seq<char>>, auth_method: Seq<char>) -> (Option<Seq<char>>, Option<Seq<char>>) {
    match user {
        None => (None, None),
        Some(u) => if auth_method == "kerberos"@ {
            (Some(u), None)
        } else if auth_method == "token"@ {
            (None, None)
        } else {
            (Some(u), Some(u))
        },
    }
}

pub struct ProtoUtil;

impl ProtoUtil {
    /// The context frame body of a new connection: who calls and which
    /// protocol is spoken.
    pub fn make_ipc_connection_context(
        protocol: Option<&str>,
        ugi: Option<&UserGroupInformation>,
        auth_method: &str,
    ) -> (r: IpcConnectionContextProto)
        ensures
            r.user_info matches Some(u) && (opt_str_view(u.effective_user), opt_str_view(
                u.real_user,
            )) == context_users(
                match ugi {
                    Some(g) => Some(g@),
                    None => None,
                },
                auth_method@,
            ),
            opt_str_view(r.protocol) == match protocol {
                Some(p) => Some(p@),
                None => None::<Seq<char>>,
            },
    {
        let mut info = UserInformationProto { effective_user: None, real_user: None };
        if let Some(ugi) = ugi {
            if str_equal(auth_method, "kerberos") {
                info.effective_user = Some(ugi.get_user_name());
            } else if str_equal(auth_method, "token") {
            } else {
                info.effective_user = Some(ugi.get_user_name());
                info.real_user = Some(ugi.get_user_name());
            }
        }
        IpcConnectionContextProto {
            user_info: Some(info),
            protocol: match protocol {
                Some(p) => Some(p.to_owned()),
                None => None,
            },
        }
    }

    /// The wire number of an RPC kind.
    pub fn convert(kind: &RpcKind) -> (r: u64)
        ensures
            r == kind.code(),
    {
        kind.to_code()
    }

    /// The header of a request frame. The alignment hook adds nothing to
    /// the header yet.
    pub fn make_rpc_request_header(
        rpc_kind: RpcKind,
        operation: OperationProto,
        call_id: i32,
        retry_count: i32,
        uuid: &[u8],
        alignment_context: Option<AlignmentState>,
    ) -> (r: RpcRequestHeaderProto)
        ensures
            r.rpc_kind == rpc_kind,
            r.rpc_op == operation,
            r.call_id == call_id,
            r.client_id@ == uuid@,
            r.retry_count == retry_count,
    {
        RpcRequestHeaderProto {
            rpc_kind,
            rpc_op: operation,
            call_id,
            client_id: vstd::slice::slice_to_vec(uuid),
            retry_count,
        }
    }
}

} // verus!
