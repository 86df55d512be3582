//! One remote invocation, and where its id comes from.
use vstd::prelude::*;
use crate::error::IpcError;
use crate::proto::RpcKind;

verus! {

#[verifier::external_type_specification]
#[verifier::external_body]
#[verifier::reject_recursive_types(T)]
pub struct ExAtomic<T>(atomic::Atomic<T>);

/// Relies on `atomic::Atomic::new`: a counter that starts at zero.
#[verifier::external_body]
pub(crate) fn new_counter() -> (r: atomic::Atomic<u32>) {
    atomic::Atomic::new(0)
}

/// Relies on `atomic::Atomic::fetch_add`: adds one, wrapping, and returns
/// the value before. Other threads may add in between two calls, so
/// nothing is promised of the value.
#[verifier::external_body]
pub(crate) fn fetch_increment(counter: &atomic::Atomic<u32>) -> (r: u32) {
    counter.fetch_add(1, atomic::Ordering::SeqCst)
}

/// The call id that the counter value `counter` gives: its low 31 bits.
pub open spec fn call_id_spec(counter: u32) -> int {
    counter as int % 0x8000_0000
}

/// The call id of a counter value: the value with its sign bit masked off.
pub fn call_id_of(counter: u32) -> (r: i32)
    ensures
        r as int == call_id_spec(counter),
        0 <= r,
{
    assert(counter & 0x7fff_ffff == counter % 0x8000_0000) by (bit_vector);
    (counter & 0x7fff_ffff) as i32
}

/// The counter value `k` increments after `start`, wrapping at 2^32.
pub open spec fn counter_after(start: u32, k: nat) -> u32 {
    ((start as int + k) % 0x1_0000_0000) as u32
}

/// Call ids drawn from one counter stay in `[0, 2^31 - 1]`, and values
/// fewer than 2^31 increments apart give distinct ids.
pub proof fn lemma_call_ids_distinct(start: u32, j: nat, k: nat)
    requires
        j < k,
        k - j < 0x8000_0000,
    ensures
        0 <= call_id_spec(counter_after(start, j)) < 0x8000_0000,
        call_id_spec(counter_after(start, j)) != call_id_spec(counter_after(start, k)),
{
    let a = start as int + j;
    let b = start as int + k;
    assert(call_id_spec(counter_after(start, j)) == a % 0x8000_0000) by {
        vstd::arithmetic::div_mod::lemma_mod_mod(a, 0x8000_0000, 2);
    }
    assert(call_id_spec(counter_after(start, k)) == b % 0x8000_0000) by {
        vstd::arithmetic::div_mod::lemma_mod_mod(b, 0x8000_0000, 2);
    }
    assert(a % 0x8000_0000 != b % 0x8000_0000) by {
        vstd::arithmetic::div_mod::lemma_fundamental_div_mod(a, 0x8000_0000);
        vstd::arithmetic::div_mod::lemma_fundamental_div_mod(b, 0x8000_0000);
        if a % 0x8000_0000 == b % 0x8000_0000 {
            assert((b / 0x8000_0000 - a / 0x8000_0000) * 0x8000_0000 == k - j) by (nonlinear_arith)
                requires
                    a == 0x8000_0000 * (a / 0x8000_0000) + a % 0x8000_0000,
                    b == 0x8000_0000 * (b / 0x8000_0000) + b % 0x8000_0000,
                    a % 0x8000_0000 == b % 0x8000_0000,
                    b - a == k - j,
            ;
            assert(false) by (nonlinear_arith)
                requires
                    (b / 0x8000_0000 - a / 0x8000_0000) * 0x8000_0000 == k - j,
                    0 < k - j < 0x8000_0000,
            ;
        }
    }
}

/// What the caller of a call supplies: an id to reuse, a retry count and
/// an external handler. Each is optional; a negative id is not a call id
/// and is not used.
#[derive(Clone, Debug)]
pub struct CallContext {
    pub call_id: Option<i32>,
    pub retry_count: Option<i32>,
    pub external_handler: Option<String>,
}

/// Whether a context's call id may be used: it is set and not negative.
pub open spec fn usable_override(call_id: Option<i32>) -> bool {
    call_id matches Some(id) && id >= 0
}

impl CallContext {
    /// A context that asks for nothing: a fresh id, no retries so far.
    pub fn new() -> (r: CallContext)
        ensures
            r.call_id is None,
            r.retry_count is None,
            r.external_handler is None,
    {
        CallContext { call_id: None, retry_count: None, external_handler: None }
    }
}

/// The state of a call, the alignment hook a call may carry: the last
/// state id seen from the server.
#[derive(Clone, Copy, PartialEq, Eq, Debug, Structural)]
pub struct AlignmentState {
    pub last_seen_state_id: i64,
}

/// State that a call carries between client and server, so that both
/// sides can agree on an order of events.
pub trait AlignmentContext {
}

impl AlignmentContext for AlignmentState {
}

/// A remote invocation: its id, its retry count and its serialised
/// request, and once done, its response or its error.
#[derive(Debug)]
pub struct Call {
    pub id: i32,
    pub retry: i32,
    pub rpc_request: Vec<u8>,
    pub rpc_response: Option<Vec<u8>>,
    pub error: Option<IpcError>,
    pub rpc_kind: RpcKind,
    pub done: bool,
    pub external_handler: Option<String>,
    pub alignment_context: Option<AlignmentState>,
}

impl Call {
    /// A call that is not done yet. Call ids are never negative.
    pub fn new(
        id: i32,
        retry: i32,
        rpc_kind: RpcKind,
        param: Vec<u8>,
        external_handler: Option<String>,
    ) -> (r: Call)
        requires
            0 <= id,
        ensures
            r.id == id,
            r.retry == retry,
            r.rpc_kind == rpc_kind,
            r.rpc_request == param,
            r.external_handler == external_handler,
            r.rpc_response is None,
            r.error is None,
            !r.done,
            r.alignment_context is None,
    {
        Call {
            id,
            retry,
            rpc_request: param,
            rpc_response: None,
            error: None,
            rpc_kind,
            done: false,
            external_handler,
            alignment_context: None,
        }
    }

    /// Set the alignment hook to update when the call is done.
    pub fn set_alignment_context(&mut self, ac: Option<AlignmentState>)
        ensures
            final(self).alignment_context == ac,
            final(self).id == old(self).id,
            final(self).retry == old(self).retry,
            final(self).rpc_request == old(self).rpc_request,
            final(self).rpc_response == old(self).rpc_response,
            final(self).error == old(self).error,
            final(self).rpc_kind == old(self).rpc_kind,
            final(self).done == old(self).done,
            final(self).external_handler == old(self).external_handler,
    {
        self.alignment_context = ac;
    }
}

} // verus!
