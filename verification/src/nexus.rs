//! The per-process `Nexus` that owns the local URI and the request handlers.
use vstd::prelude::*;
use vstd::utf8::encode_utf8;
use crate::cstr::{c_string_of, nul_terminated};
use crate::ffi::FfiCall;

verus! {

/// A `Nexus` on the C side, held by its address.
pub struct Nexus {
    pub inner: usize,
}

/// `call` creates a `Nexus` at `local_uri` (as a C string) on `numa_node`
/// with `num_bg_threads` background threads.
pub open spec fn is_nexus_new(call: FfiCall, local_uri: Seq<char>, numa_node: usize, num_bg_threads: usize) -> bool {
    match call {
        FfiCall::NexusNew { local_uri: u, numa_node: n, num_bg_threads: b } => {
            &&& u@ == nul_terminated(encode_utf8(local_uri))
            &&& n == numa_node
            &&& b == num_bg_threads
        },
        _ => false,
    }
}

/// A `Nexus` is created on exactly the NUMA node and with exactly the number
/// of background threads asked for, at exactly the URI asked for: its bytes,
/// then one NUL and nothing else, whatever these are.
pub proof fn law_nexus_new_passes_arguments(
    call: FfiCall,
    local_uri: Seq<char>,
    numa_node: usize,
    num_bg_threads: usize,
)
    requires
        is_nexus_new(call, local_uri, numa_node, num_bg_threads),
    ensures
        call is NexusNew,
        call->NexusNew_numa_node == numa_node,
        call->NexusNew_num_bg_threads == num_bg_threads,
        call->NexusNew_local_uri@.len() == encode_utf8(local_uri).len() + 1,
        call->NexusNew_local_uri@.drop_last() == encode_utf8(local_uri),
        call->NexusNew_local_uri@.last() == 0u8,
{
    let u = call->NexusNew_local_uri@;
    assert(u =~= encode_utf8(local_uri).push(0u8));
    assert(u.drop_last() =~= encode_utf8(local_uri));
}

impl Nexus {
    /// The call that creates a `Nexus` (`erpc_nexus_new`): the URI goes over
    /// as its UTF-8 bytes with a closing NUL. A URI whose bytes hold a NUL
    /// cannot be made a C string; the binding does not accept it.
    pub fn new(local_uri: String, numa_node: usize, num_bg_threads: usize) -> (call: FfiCall)
        requires
            !encode_utf8(local_uri@).contains(0u8),
        ensures
            is_nexus_new(call, local_uri@, numa_node, num_bg_threads),
            call matches FfiCall::NexusNew { local_uri: u, numa_node: n, num_bg_threads: b }
                && n == numa_node && b == num_bg_threads && u@.drop_last() == encode_utf8(local_uri@)
                && u@.last() == 0u8,
    {
        let uri = c_string_of(&local_uri);
        FfiCall::NexusNew { local_uri: uri, numa_node, num_bg_threads }
    }

    /// The `Nexus` at address `inner`.
    pub fn from_raw(inner: usize) -> (nexus: Nexus)
        ensures
            nexus.inner == inner,
    {
        Nexus { inner }
    }

    /// The call that registers the handler of requests of type `req_type`
    /// (`erpc_nexus_register_req_func`); the handler itself is supplied by
    /// whoever makes the call.
    pub fn register_req_func(&mut self, req_type: u8, req_func_type: u8) -> (call: FfiCall)
        ensures
            *final(self) == *old(self),
            call == (FfiCall::NexusRegisterReqFunc { nexus: old(self).inner, req_type, req_func_type }),
    {
        FfiCall::NexusRegisterReqFunc { nexus: self.inner, req_type, req_func_type }
    }

    /// What dropping the `Nexus` does: it always destroys the C object.
    pub fn release(&self) -> (call: Option<FfiCall>)
        ensures
            call == Some(FfiCall::NexusDestroy { nexus: self.inner }),
    {
        Some(FfiCall::NexusDestroy { nexus: self.inner })
    }
}

} // verus!
