//! The handle of a request that a server's handler is answering.
use vstd::prelude::*;
use crate::context::AppContext;
use crate::ffi::{FfiCall, is_enqueue_response};
use crate::rpc::Rpc;

verus! {

/// A request handle on the C side, held by its address. Dropping it does
/// nothing: the C side owns the request.
pub struct ReqHandle {
    pub inner: usize,
}

/// The answer that `ReqHandle::enqueue_response` still has to enqueue once
/// the `Rpc` of `context` is known: `data`, for the request `req_handle`.
pub struct PendingResponse {
    pub context: usize,
    pub req_handle: usize,
    pub data: Vec<u8>,
}

impl ReqHandle {
    /// The request handle at address `req_handle`.
    pub fn from_raw(req_handle: usize) -> (handle: ReqHandle)
        ensures
            handle.inner == req_handle,
    {
        ReqHandle { inner: req_handle }
    }

    /// The call that fetches the request's bytes (`erpc_get_req_msgbuf`).
    pub fn get_req_msgbuf(&self) -> (call: FfiCall)
        ensures
            call == (FfiCall::GetReqMsgbuf { req_handle: self.inner }),
    {
        FfiCall::GetReqMsgbuf { req_handle: self.inner }
    }

    /// Answers this request with `data` through the `Rpc` of `context`:
    /// first the call that looks up that `Rpc`, the one `Rpc::from_context`
    /// makes; then, by `PendingResponse::send` on the `Rpc` found, the
    /// response.
    pub fn enqueue_response(&self, context: &AppContext, data: Vec<u8>) -> (r: (FfiCall, PendingResponse))
        ensures
            r.0 == (FfiCall::AppContextRpc { context: context.inner }),
            r.1.context == context.inner,
            r.1.req_handle == self.inner,
            r.1.data@ == data@,
    {
        let lookup = Rpc::from_context(context);
        (lookup, PendingResponse { context: context.inner, req_handle: self.inner, data })
    }

    /// What dropping a request handle does: nothing.
    pub fn release(&self) -> (call: Option<FfiCall>)
        ensures
            call == None::<FfiCall>,
    {
        None
    }
}

impl PendingResponse {
    /// The rest of the answer, once the lookup has given the context's `Rpc`
    /// at `rpc_handle`: the response that `Rpc::enqueue_response` makes on
    /// that `Rpc` for this request and these bytes, and then what dropping
    /// the looked-up `Rpc` does, which is nothing: the answer never destroys
    /// the context's `Rpc`.
    pub fn send_via(self, rpc_handle: usize) -> (r: (FfiCall, Option<FfiCall>))
        ensures
            is_enqueue_response(r.0, rpc_handle, self.req_handle, self.data@),
            r.1 == None::<FfiCall>,
    {
        let lookup = FfiCall::AppContextRpc { context: self.context };
        let rpc = Rpc::after_call(&lookup, rpc_handle);
        let handle = ReqHandle::from_raw(self.req_handle);
        let response = rpc.enqueue_response(&handle, self.data);
        let release = rpc.release();
        (response, release)
    }
}

} // verus!
