//! Frames on the connection's byte stream: the preamble, the four-byte
//! big-endian length before every frame, and the checks a response
//! length must pass before its body is read.
use vstd::prelude::*;
use vstd::slice::{slice_subrange, slice_to_vec};
use crate::error::IpcError;
use crate::wire::put_bytes;

verus! {

/// The four big-endian bytes of `v` in two's complement.
pub open spec fn be_bytes(v: i32) -> Seq<u8> {
    let u = if v < 0 { v + 0x1_0000_0000 } else { v as int };
    seq![
        (u / 0x100_0000) as u8,
        (u / 0x1_0000 % 0x100) as u8,
        (u / 0x100 % 0x100) as u8,
        (u % 0x100) as u8,
    ]
}

/// The signed value of four big-endian bytes.
pub open spec fn be_value(s: Seq<u8>) -> i32 {
    let u = s[0] as int * 0x100_0000 + s[1] as int * 0x1_0000 + s[2] as int * 0x100 + s[3] as int;
    if u >= 0x8000_0000 {
        (u - 0x1_0000_0000) as i32
    } else {
        u as i32
    }
}

pub proof fn lemma_be_round_trip(v: i32)
    ensures
        be_bytes(v).len() == 4,
        be_value(be_bytes(v)) == v,
{
    let u = if v < 0 { v + 0x1_0000_0000 } else { v as int };
    assert(0 <= u < 0x1_0000_0000);
    let b0 = u / 0x100_0000;
    let b1 = u / 0x1_0000 % 0x100;
    let b2 = u / 0x100 % 0x100;
    let b3 = u % 0x100;
    assert(b0 * 0x100_0000 + b1 * 0x1_0000 + b2 * 0x100 + b3 == u) by (nonlinear_arith)
        requires
            0 <= u < 0x1_0000_0000,
            b0 == u / 0x100_0000,
            b1 == u / 0x1_0000 % 0x100,
            b2 == u / 0x100 % 0x100,
            b3 == u % 0x100,
    ;
    assert(0 <= b0 < 0x100) by (nonlinear_arith)
        requires
            0 <= u < 0x1_0000_0000,
            b0 == u / 0x100_0000,
    ;
}

/// The four big-endian bytes of `v`.
pub fn i32_to_be(v: i32) -> (r: Vec<u8>)
    ensures
        r@ == be_bytes(v),
{
    let u: u64 = if v < 0 { (v as i64 + 0x1_0000_0000) as u64 } else { v as u64 };
    assert(u / 0x100_0000 < 0x100) by (nonlinear_arith)
        requires
            u < 0x1_0000_0000,
    ;
    let r = vec![
        (u / 0x100_0000) as u8,
        (u / 0x1_0000 % 0x100) as u8,
        (u / 0x100 % 0x100) as u8,
        (u % 0x100) as u8,
    ];
    assert(r@ =~= be_bytes(v));
    r
}

/// The signed value of the first four bytes of `b`, big-endian.
pub fn i32_from_be(b: &[u8]) -> (r: i32)
    requires
        b@.len() >= 4,
    ensures
        r == be_value(b@),
{
    let u: u64 = b[0] as u64 * 0x100_0000 + b[1] as u64 * 0x1_0000 + b[2] as u64 * 0x100
        + b[3] as u64;
    if u >= 0x8000_0000 {
        (u as i64 - 0x1_0000_0000) as i32
    } else {
        u as i32
    }
}

/// `buf` preceded by its length as four big-endian bytes.
pub open spec fn sized(buf: Seq<u8>) -> Seq<u8> {
    be_bytes(buf.len() as i32) + buf
}

/// Puts the length of `buf` before it.
pub fn prepend_buf_size(buf: Vec<u8>) -> (r: Vec<u8>)
    requires
        buf@.len() <= i32::MAX,
    ensures
        r@ == sized(buf@),
{
    let mut out = i32_to_be(buf.len() as i32);
    put_bytes(&mut out, buf.as_slice());
    out
}

/// The first four bytes of every connection.
pub const HEADER: [u8; 4] = [0x68, 0x72, 0x70, 0x63];

/// Version of the protocol this client speaks.
pub const CURRENT_VERSION: u8 = 9;

/// Call id of the connection-context frame.
pub const CONNECTION_CONTEXT_CALL_ID: i32 = -3;

/// Retry count of frames that are never retried.
pub const INVALID_RETRY_COUNT: i32 = -1;

/// The authentication scheme announced in the preamble.
#[derive(Clone, Copy, PartialEq, Eq, Debug, Structural)]
pub enum AuthProtocol {
    Simple,
    Sasl,
}

impl AuthProtocol {
    /// The byte of the scheme in the preamble: 0, or -33 for negotiated
    /// authentication.
    pub open spec fn code(self) -> i8 {
        match self {
            AuthProtocol::Simple => 0i8,
            AuthProtocol::Sasl => -33i8,
        }
    }

    pub fn call_id(&self) -> (r: i8)
        ensures
            r == self.code(),
    {
        match self {
            AuthProtocol::Simple => 0,
            AuthProtocol::Sasl => -33,
        }
    }
}

/// The preamble: `hrpc`, the version, the service class and the
/// authentication scheme as an unsigned byte.
pub open spec fn preamble(service_class: u8, auth: AuthProtocol) -> Seq<u8> {
    seq![0x68u8, 0x72u8, 0x70u8, 0x63u8, CURRENT_VERSION, service_class, auth.code() as u8]
}

pub fn connection_header(service_class: u8, auth: AuthProtocol) -> (r: Vec<u8>)
    ensures
        r@ == preamble(service_class, auth),
{
    let r = vec![
        HEADER[0],
        HEADER[1],
        HEADER[2],
        HEADER[3],
        CURRENT_VERSION,
        service_class,
        auth.call_id() as u8,
    ];
    assert(r@ =~= preamble(service_class, auth));
    r
}

/// What to read after the length of a response.
#[derive(Clone, Copy, PartialEq, Eq, Debug, Structural)]
pub enum ResponseLength {
    /// A body of this many bytes.
    Body(usize),
    /// Four bytes to discard: the server reports a remote exception.
    RemoteException,
}

/// The verdict on the length of a response frame.
pub open spec fn length_verdict(first: bool, max: i32, length: i32) -> Result<ResponseLength, IpcError> {
    if first && length == -1 {
        Ok(ResponseLength::RemoteException)
    } else if length <= 0 {
        Err(IpcError::Protocol)
    } else if max > 0 && length > max {
        Err(IpcError::ResponseTooLarge)
    } else {
        Ok(ResponseLength::Body(length as usize))
    }
}

/// A remote error without diagnostics: what a remote exception announced
/// by the first length becomes.
pub open spec fn is_bare_remote_error(e: IpcError) -> bool {
    e matches IpcError::Remote { exception_class, message } && exception_class@.len() == 0
        && message@.len() == 0
}

/// The first length of a connection's responses, `-1`, announces a remote
/// exception: no body is read.
pub proof fn lemma_first_minus_one_is_remote_exception(max: i32)
    ensures
        length_verdict(true, max, -1i32) == Ok::<ResponseLength, IpcError>(ResponseLength::RemoteException),
{
}

/// Any other length of zero or less is a protocol error.
pub proof fn lemma_non_positive_length_is_protocol_error(first: bool, max: i32, length: i32)
    requires
        length <= 0,
        !(first && length == -1),
    ensures
        length_verdict(first, max, length) == Err::<ResponseLength, IpcError>(IpcError::Protocol),
{
}

/// A positive length above a positive maximum is too large.
pub proof fn lemma_overlong_length_is_too_large(first: bool, max: i32, length: i32)
    requires
        0 < max < length,
    ensures
        length_verdict(first, max, length) == Err::<ResponseLength, IpcError>(IpcError::ResponseTooLarge),
{
}

/// Reads the response frames of one connection.
pub struct ResponseReader {
    pub max_response_length: i32,
    pub first_response: bool,
}

impl ResponseReader {
    /// A reader that has not seen any response; a maximum of 0 or less
    /// means no maximum.
    pub fn new(max_response_length: i32) -> (r: ResponseReader)
        ensures
            r.max_response_length == max_response_length,
            r.first_response,
    {
        ResponseReader { max_response_length, first_response: true }
    }

    /// Judges the length of the next response frame. Only on the first
    /// frame may `-1` announce a remote exception.
    pub fn check_length(&mut self, length: i32) -> (r: Result<ResponseLength, IpcError>)
        ensures
            r == length_verdict(old(self).first_response, old(self).max_response_length, length),
            final(self).max_response_length == old(self).max_response_length,
            !final(self).first_response,
    {
        let first = self.first_response;
        self.first_response = false;
        if first && length == -1 {
            Ok(ResponseLength::RemoteException)
        } else if length <= 0 {
            Err(IpcError::Protocol)
        } else if self.max_response_length > 0 && length > self.max_response_length {
            Err(IpcError::ResponseTooLarge)
        } else {
            Ok(ResponseLength::Body(length as usize))
        }
    }

    /// Reads one response frame from the front of `stream`: its body, or
    /// the error it gives, and the number of bytes taken. A remote
    /// exception takes the length and the four bytes after it, and reads
    /// no body. A stream that ends early is a transport failure.
    pub fn read_response(&mut self, stream: &[u8]) -> (r: (Result<Vec<u8>, IpcError>, usize))
        ensures
            final(self).max_response_length == old(self).max_response_length,
            stream@.len() < 4 ==> r.0 == Err::<Vec<u8>, IpcError>(IpcError::Connection) && r.1 == 0
                && *final(self) == *old(self),
            stream@.len() >= 4 ==> !final(self).first_response && match length_verdict(
                old(self).first_response,
                old(self).max_response_length,
                be_value(stream@),
            ) {
                Err(e) => r.0 == Err::<Vec<u8>, IpcError>(e) && r.1 == 4,
                Ok(ResponseLength::RemoteException) => if stream@.len() >= 8 {
                    (r.0 matches Err(e) && is_bare_remote_error(e)) && r.1 == 8
                } else {
                    r.0 == Err::<Vec<u8>, IpcError>(IpcError::Connection) && r.1 == 4
                },
                Ok(ResponseLength::Body(n)) => if stream@.len() >= 4 + n {
                    (r.0 matches Ok(body) && body@ == stream@.subrange(4, 4 + n)) && r.1 == 4 + n
                } else {
                    r.0 == Err::<Vec<u8>, IpcError>(IpcError::Connection) && r.1 == 4
                },
            },
    {
        if stream.len() < 4 {
            return (Err(IpcError::Connection), 0);
        }
        let length = i32_from_be(stream);
        match self.check_length(length) {
            Err(e) => (Err(e), 4),
            Ok(ResponseLength::RemoteException) => {
                if stream.len() >= 8 {
                    (Err(IpcError::Remote { exception_class: Vec::new(), message: Vec::new() }), 8)
                } else {
                    (Err(IpcError::Connection), 4)
                }
            },
            Ok(ResponseLength::Body(n)) => {
                if stream.len() - 4 < n {
                    return (Err(IpcError::Connection), 4);
                }
                let body = slice_to_vec(slice_subrange(stream, 4, 4 + n));
                (Ok(body), 4 + n)
            },
        }
    }
}

} // verus!
