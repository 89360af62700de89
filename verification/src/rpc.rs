//! The per-thread `Rpc` endpoint: sessions, the event loop, requests and responses.
use vstd::prelude::*;
use crate::context::AppContext;
use crate::ffi::{FfiCall, is_enqueue_request, is_enqueue_response};
use crate::nexus::Nexus;
use crate::reqhandle::ReqHandle;

verus! {

/// An `Rpc` on the C side, held by its address, and whether this value owns
/// it. An `Rpc` made by `erpc_rpc_new` is owned and destroyed when dropped;
/// one looked up through its application context is not. `Rpc::after_call`,
/// the only way to build one, settles which from the call that gave it.
pub struct Rpc {
    inner: usize,
    owner: bool,
}

/// What releasing an `Rpc` at `handle` does: it destroys the C object
/// exactly when it owns it.
pub open spec fn rpc_release(handle: usize, owner: bool) -> Option<FfiCall> {
    if owner {
        Some(FfiCall::RpcDestroy { rpc: handle })
    } else {
        None
    }
}

/// Whether the `Rpc` that `call` gives back is owned by the value that holds
/// it: the one `erpc_rpc_new` makes is, the one `app_context_rpc` looks up is
/// not.
pub open spec fn owns_result(call: FfiCall) -> bool {
    call is RpcNew
}

/// How many of the releases of `rpcs`, in order, destroy the `Rpc` at `handle`.
pub open spec fn destroy_count(rpcs: Seq<Rpc>, handle: usize) -> nat
    decreases rpcs.len(),
{
    if rpcs.len() == 0 {
        0
    } else {
        destroy_count(rpcs.drop_last(), handle) + if rpc_release(rpcs.last().handle(), rpcs.last().is_owner())
            == Some(FfiCall::RpcDestroy { rpc: handle }) {
            1nat
        } else {
            0nat
        }
    }
}

/// Over a run in which one `Rpc` at `handle` comes from `erpc_rpc_new` and
/// any number of others come from looking it up through its context
/// (`app_context_rpc`), dropping them all destroys the C object exactly once,
/// at the drop of the owning value and with its own address.
pub proof fn law_rpc_destroyed_once(rpcs: Seq<Rpc>, calls: Seq<FfiCall>, handle: usize, made: int)
    requires
        rpcs.len() == calls.len(),
        0 <= made < rpcs.len(),
        calls[made] is RpcNew,
        forall|i: int| 0 <= i < calls.len() && i != made ==> calls[i] is AppContextRpc,
        forall|i: int| 0 <= i < rpcs.len() ==> rpcs[i].handle() == handle,
        forall|i: int| 0 <= i < rpcs.len() ==> rpcs[i].is_owner() == owns_result(calls[i]),
    ensures
        destroy_count(rpcs, handle) == 1,
        rpc_release(rpcs[made].handle(), rpcs[made].is_owner()) == Some(FfiCall::RpcDestroy { rpc: handle }),
        forall|i: int| 0 <= i < rpcs.len() && i != made ==> rpc_release(rpcs[i].handle(), rpcs[i].is_owner()) == None::<FfiCall>,
{
    lemma_destroy_count(rpcs, calls, handle, made);
}

/// The count behind `law_rpc_destroyed_once`: with the owning value at
/// `made` (or none, where `made` lies outside `rpcs`), the releases destroy
/// the `Rpc` once if it is among `rpcs` and never otherwise.
proof fn lemma_destroy_count(rpcs: Seq<Rpc>, calls: Seq<FfiCall>, handle: usize, made: int)
    requires
        rpcs.len() == calls.len(),
        0 <= made,
        forall|i: int| 0 <= i < calls.len() && i != made ==> calls[i] is AppContextRpc,
        made < calls.len() ==> calls[made] is RpcNew,
        forall|i: int| 0 <= i < rpcs.len() ==> rpcs[i].handle() == handle,
        forall|i: int| 0 <= i < rpcs.len() ==> rpcs[i].is_owner() == owns_result(calls[i]),
    ensures
        destroy_count(rpcs, handle) == if made < rpcs.len() { 1nat } else { 0nat },
    decreases rpcs.len(),
{
    if rpcs.len() > 0 {
        let n = rpcs.len() - 1;
        lemma_destroy_count(rpcs.drop_last(), calls.drop_last(), handle, made);
        assert(rpcs.drop_last().len() == n);
        if made == n {
            assert(rpcs[n].is_owner());
        } else {
            assert(calls[n] is AppContextRpc);
            assert(!rpcs[n].is_owner());
        }
    }
}

impl Rpc {
    /// The address of the C object.
    pub closed spec fn handle(&self) -> usize {
        self.inner
    }

    /// Whether this value owns the C object.
    pub closed spec fn is_owner(&self) -> bool {
        self.owner
    }

    /// The call that creates an `Rpc` in `nexus` for `context`
    /// (`erpc_rpc_new`); the session-management handler is supplied by
    /// whoever makes the call. The address it returns is what `after_call` takes;
    /// the `Rpc` made from it owns the C object.
    pub fn new(context: &AppContext, nexus: &Nexus, rpc_id: u8, phy_port: u8) -> (call: FfiCall)
        ensures
            call == (FfiCall::RpcNew { nexus: nexus.inner, context: context.inner, rpc_id, phy_port }),
    {
        FfiCall::RpcNew { nexus: nexus.inner, context: context.inner, rpc_id, phy_port }
    }

    /// The `Rpc` that `call` (`erpc_rpc_new` or `app_context_rpc`) gave back
    /// at `handle`: this value owns it exactly when `erpc_rpc_new` made it.
    pub fn after_call(call: &FfiCall, handle: usize) -> (rpc: Rpc)
        requires
            *call is RpcNew || *call is AppContextRpc,
        ensures
            rpc.handle() == handle,
            rpc.is_owner() == owns_result(*call),
    {
        let owner: bool = match call {
            FfiCall::RpcNew { .. } => true,
            _ => false,
        };
        Rpc { inner: handle, owner }
    }

    /// The call that looks up the `Rpc` of `context` (`app_context_rpc`).
    /// The address it returns is what `after_call` takes; the `Rpc` made from
    /// it does not own the C object.
    pub fn from_context(context: &AppContext) -> (call: FfiCall)
        ensures
            call == (FfiCall::AppContextRpc { context: context.inner }),
    {
        FfiCall::AppContextRpc { context: context.inner }
    }

    /// Whether this value owns the C object.
    pub fn owner(&self) -> (owner: bool)
        ensures
            owner == self.is_owner(),
    {
        self.owner
    }

    /// The call that asks whether session `session_num` is connected
    /// (`erpc_rpc_is_connected`).
    pub fn is_connected(&self, session_num: i32) -> (call: FfiCall)
        ensures
            call == (FfiCall::RpcIsConnected { rpc: self.handle(), session_num }),
    {
        FfiCall::RpcIsConnected { rpc: self.inner, session_num }
    }

    /// The call that runs one round of the event loop (`erpc_run_event_loop_once`).
    pub fn run_event_loop_once(&self) -> (call: FfiCall)
        ensures
            call == (FfiCall::RunEventLoopOnce { rpc: self.handle() }),
    {
        FfiCall::RunEventLoopOnce { rpc: self.inner }
    }

    /// The call that runs the event loop for `timeout_ms` milliseconds
    /// (`erpc_rpc_run_event_loop`).
    pub fn run_event_loop(&self, timeout_ms: usize) -> (call: FfiCall)
        ensures
            call == (FfiCall::RunEventLoop { rpc: self.handle(), timeout_ms }),
    {
        FfiCall::RunEventLoop { rpc: self.inner, timeout_ms }
    }

    /// The call that sends `data` as a request of type `req_type` on session
    /// `session_num` (`erpc_enqueue_request`); the bytes go over with their
    /// exact length. The continuation is supplied by whoever makes the call.
    pub fn enqueue_request(
        &self,
        context: &AppContext,
        session_num: i32,
        req_type: u8,
        data: Vec<u8>,
        tag: usize,
        cont_etid: usize,
    ) -> (call: FfiCall)
        ensures
            is_enqueue_request(
                call,
                context.inner,
                self.handle(),
                session_num,
                req_type,
                data@,
                tag,
                cont_etid,
            ),
            call matches FfiCall::EnqueueRequest {
                context: c,
                rpc: r,
                session_num: s,
                req_type: t,
                data: d,
                data_size: n,
                tag: g,
                cont_etid: e,
            } && c == context.inner && r == self.handle() && s == session_num && t == req_type
                && d@ == data@ && n == data@.len() && n == d@.len() && g == tag && e == cont_etid,
    {
        let data_size: usize = data.len();
        FfiCall::EnqueueRequest {
            context: context.inner,
            rpc: self.inner,
            session_num,
            req_type,
            data,
            data_size,
            tag,
            cont_etid,
        }
    }

    /// The call that answers the request of `req_handle` with `data`
    /// (`erpc_enqueue_response`); the bytes go over with their exact length.
    pub fn enqueue_response(&self, req_handle: &ReqHandle, data: Vec<u8>) -> (call: FfiCall)
        ensures
            is_enqueue_response(call, self.handle(), req_handle.inner, data@),
            call matches FfiCall::EnqueueResponse { rpc: r, req_handle: h, data: d, data_size: n }
                && r == self.handle() && h == req_handle.inner && d@ == data@ && n == data@.len()
                && n == d@.len(),
    {
        let data_size: usize = data.len();
        FfiCall::EnqueueResponse { rpc: self.inner, req_handle: req_handle.inner, data, data_size }
    }

    /// What dropping this value does: it destroys the `Rpc` exactly when it
    /// owns it.
    pub fn release(&self) -> (call: Option<FfiCall>)
        ensures
            call == rpc_release(self.handle(), self.is_owner()),
    {
        if self.owner {
            Some(FfiCall::RpcDestroy { rpc: self.inner })
        } else {
            None
        }
    }
}

} // verus!
