//! The request and response buffers of a request that a client sent.
use vstd::prelude::*;
use crate::context::AppContext;
use crate::ffi::FfiCall;

verus! {

/// A pair of message buffers on the C side, held by its address.
pub struct MsgBuffers {
    pub inner: usize,
}

impl MsgBuffers {
    /// The call that looks up the buffers of the request tagged `tag` in
    /// `context` (`erpc_msgbuffs_get_by_tag`); the address it returns is what
    /// `from_raw` takes.
    pub fn from_context(context: &AppContext, tag: usize) -> (call: FfiCall)
        ensures
            call == (FfiCall::MsgbuffsGetByTag { context: context.inner, tag }),
    {
        FfiCall::MsgbuffsGetByTag { context: context.inner, tag }
    }

    /// The buffers at address `inner`.
    pub fn from_raw(inner: usize) -> (buffers: MsgBuffers)
        ensures
            buffers.inner == inner,
    {
        MsgBuffers { inner }
    }

    /// The call that fetches the request's bytes (`erpc_msgbuffs_req_msgbuf`).
    pub fn get_req_msgbuf(&self) -> (call: FfiCall)
        ensures
            call == (FfiCall::MsgbuffsReqMsgbuf { msgbuffs: self.inner }),
    {
        FfiCall::MsgbuffsReqMsgbuf { msgbuffs: self.inner }
    }

    /// The call that fetches the response's bytes (`erpc_msgbuffs_resp_msgbuf`).
    pub fn get_resp_msgbuf(&self) -> (call: FfiCall)
        ensures
            call == (FfiCall::MsgbuffsRespMsgbuf { msgbuffs: self.inner }),
    {
        FfiCall::MsgbuffsRespMsgbuf { msgbuffs: self.inner }
    }

    /// What dropping the buffers does: it always destroys the C object.
    pub fn release(&self) -> (call: Option<FfiCall>)
        ensures
            call == Some(FfiCall::MsgbuffsDestroy { msgbuffs: self.inner }),
    {
        Some(FfiCall::MsgbuffsDestroy { msgbuffs: self.inner })
    }
}

} // verus!
