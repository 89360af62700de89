//! The calls that the binding makes into the eRPC C interface, as plain values.
//!
//! A handle to an object on the C side (a `Nexus`, an application context,
//! an `Rpc`, a request handle or a message-buffer pair) is its address.
//! The callback pointers that some entry points take (request handlers,
//! session-management handlers, continuations) are not values of this model:
//! whoever performs a call supplies them.
use vstd::prelude::*;

verus! {

/// The kinds of answer to a session-management packet.
pub type SmErrType = i32;

/// The only non-error error type.
pub const SM_ERR_TYPE_K_NO_ERROR: SmErrType = 0;
/// The control-path connection to the server failed.
pub const SM_ERR_TYPE_K_SRV_DISCONNECTED: SmErrType = 1;
/// Connect request failed because the server is out of ring buffers.
pub const SM_ERR_TYPE_K_RING_EXHAUSTED: SmErrType = 2;
/// Connect request failed because the server is out of memory.
pub const SM_ERR_TYPE_K_OUT_OF_MEMORY: SmErrType = 3;
/// The server failed to resolve the client's routing info.
pub const SM_ERR_TYPE_K_ROUTING_RESOLUTION_FAILURE: SmErrType = 4;
/// Connect request failed because the remote Rpc id was wrong.
pub const SM_ERR_TYPE_K_INVALID_REMOTE_RPC_ID: SmErrType = 5;
/// Connect request failed because of a transport mismatch.
pub const SM_ERR_TYPE_K_INVALID_TRANSPORT: SmErrType = 6;

/// Events handed to the application's session-management handler.
pub type SmEventType = u32;

pub const SM_EVENT_TYPE_K_CONNECTED: SmEventType = 0;
pub const SM_EVENT_TYPE_K_CONNECT_FAILED: SmEventType = 1;
pub const SM_EVENT_TYPE_K_DISCONNECTED: SmEventType = 2;
pub const SM_EVENT_TYPE_K_DISCONNECT_FAILED: SmEventType = 3;

/// One call into the eRPC C interface, with its arguments.
#[derive(Debug, Clone, PartialEq, Eq)]
pub enum FfiCall {
    /// `erpc_nexus_new`; `local_uri` is a NUL-terminated C string.
    NexusNew { local_uri: Vec<u8>, numa_node: usize, num_bg_threads: usize },
    /// `erpc_nexus_destroy`.
    NexusDestroy { nexus: usize },
    /// `erpc_nexus_register_req_func` (the handler is supplied by the caller).
    NexusRegisterReqFunc { nexus: usize, req_type: u8, req_func_type: u8 },
    /// `app_context_new`.
    AppContextNew,
    /// `app_context_destroy`.
    AppContextDestroy { context: usize },
    /// `app_context_rpc`: the `Rpc` that a context belongs to.
    AppContextRpc { context: usize },
    /// `app_context_get_session_num`: the session number kept in a context.
    AppContextGetSessionNum { context: usize },
    /// `erpc_connect_session`; `server_uri` is a NUL-terminated C string.
    ConnectSession { context: usize, server_uri: Vec<u8>, rem_rpc_id: u8 },
    /// `erpc_rpc_new` (the session-management handler is supplied by the caller).
    RpcNew { nexus: usize, context: usize, rpc_id: u8, phy_port: u8 },
    /// `erpc_rpc_destroy`.
    RpcDestroy { rpc: usize },
    /// `erpc_rpc_is_connected`.
    RpcIsConnected { rpc: usize, session_num: i32 },
    /// `erpc_run_event_loop_once`.
    RunEventLoopOnce { rpc: usize },
    /// `erpc_rpc_run_event_loop`.
    RunEventLoop { rpc: usize, timeout_ms: usize },
    /// `erpc_get_req_msgbuf`: the request bytes of a request handle.
    GetReqMsgbuf { req_handle: usize },
    /// `erpc_enqueue_request` (the continuation is supplied by the caller).
    EnqueueRequest {
        context: usize,
        rpc: usize,
        session_num: i32,
        req_type: u8,
        data: Vec<u8>,
        data_size: usize,
        tag: usize,
        cont_etid: usize,
    },
    /// `erpc_enqueue_response`.
    EnqueueResponse { rpc: usize, req_handle: usize, data: Vec<u8>, data_size: usize },
    /// `erpc_msgbuffs_get_by_tag`.
    MsgbuffsGetByTag { context: usize, tag: usize },
    /// `erpc_msgbuffs_req_msgbuf`.
    MsgbuffsReqMsgbuf { msgbuffs: usize },
    /// `erpc_msgbuffs_resp_msgbuf`.
    MsgbuffsRespMsgbuf { msgbuffs: usize },
    /// `erpc_msgbuffs_destroy`.
    MsgbuffsDestroy { msgbuffs: usize },
}

/// The callback that a call into the C interface takes, if any.
#[derive(Debug, Clone, Copy, PartialEq, Eq)]
pub enum CallbackKind {
    NoCallback,
    /// A request handler.
    ReqFunc,
    /// A session-management handler.
    SmHandler,
    /// A continuation.
    ContFunc,
}

/// The callback that `call` takes: registering a request handler takes the
/// handler, creating an `Rpc` its session-management handler, sending a
/// request its continuation; no other call takes one.
pub open spec fn callback_of(call: FfiCall) -> CallbackKind {
    match call {
        FfiCall::NexusRegisterReqFunc { .. } => CallbackKind::ReqFunc,
        FfiCall::RpcNew { .. } => CallbackKind::SmHandler,
        FfiCall::EnqueueRequest { .. } => CallbackKind::ContFunc,
        _ => CallbackKind::NoCallback,
    }
}

impl FfiCall {
    /// The callback that this call takes, if any.
    pub fn callback(&self) -> (kind: CallbackKind)
        ensures
            kind == callback_of(*self),
            kind == CallbackKind::ReqFunc <==> *self is NexusRegisterReqFunc,
            kind == CallbackKind::SmHandler <==> *self is RpcNew,
            kind == CallbackKind::ContFunc <==> *self is EnqueueRequest,
            kind == CallbackKind::NoCallback <==> !(*self is NexusRegisterReqFunc
                || *self is RpcNew || *self is EnqueueRequest),
    {
        match self {
            FfiCall::NexusRegisterReqFunc { .. } => CallbackKind::ReqFunc,
            FfiCall::RpcNew { .. } => CallbackKind::SmHandler,
            FfiCall::EnqueueRequest { .. } => CallbackKind::ContFunc,
            _ => CallbackKind::NoCallback,
        }
    }
}

/// `call` is `erpc_enqueue_response` on `rpc` and `req_handle`, carrying
/// `data` with its exact length.
pub open spec fn is_enqueue_response(call: FfiCall, rpc: usize, req_handle: usize, data: Seq<u8>) -> bool {
    match call {
        FfiCall::EnqueueResponse { rpc: r, req_handle: h, data: d, data_size: n } => {
            &&& r == rpc
            &&& h == req_handle
            &&& d@ == data
            &&& n == data.len()
        },
        _ => false,
    }
}

/// `call` is `erpc_enqueue_request` with these arguments, carrying `data`
/// with its exact length.
pub open spec fn is_enqueue_request(
    call: FfiCall,
    context: usize,
    rpc: usize,
    session_num: i32,
    req_type: u8,
    data: Seq<u8>,
    tag: usize,
    cont_etid: usize,
) -> bool {
    match call {
        FfiCall::EnqueueRequest {
            context: c,
            rpc: r,
            session_num: s,
            req_type: t,
            data: d,
            data_size: n,
            tag: g,
            cont_etid: e,
        } => {
            &&& c == context
            &&& r == rpc
            &&& s == session_num
            &&& t == req_type
            &&& d@ == data
            &&& n == data.len()
            &&& g == tag
            &&& e == cont_etid
        },
        _ => false,
    }
}

/// A response goes out with exactly the bytes given and a size equal to
/// their length, on exactly the `Rpc` and request asked for, whatever their
/// number.
pub proof fn law_enqueue_response_sends_all_bytes(call: FfiCall, rpc: usize, req_handle: usize, data: Seq<u8>)
    requires
        is_enqueue_response(call, rpc, req_handle, data),
    ensures
        call is EnqueueResponse,
        call->EnqueueResponse_rpc == rpc,
        call->EnqueueResponse_req_handle == req_handle,
        call->EnqueueResponse_data@ == data,
        call->EnqueueResponse_data_size == call->EnqueueResponse_data@.len(),
        call->EnqueueResponse_data_size == data.len(),
{
}

/// A request goes out with every argument as given, whatever its value: the
/// context, `Rpc`, session, request type, tag and continuation thread, and
/// exactly the bytes given with a size equal to their length.
pub proof fn law_enqueue_request_passes_arguments(
    call: FfiCall,
    context: usize,
    rpc: usize,
    session_num: i32,
    req_type: u8,
    data: Seq<u8>,
    tag: usize,
    cont_etid: usize,
)
    requires
        is_enqueue_request(call, context, rpc, session_num, req_type, data, tag, cont_etid),
    ensures
        call is EnqueueRequest,
        call->EnqueueRequest_context == context,
        call->EnqueueRequest_rpc == rpc,
        call->EnqueueRequest_session_num == session_num,
        call->EnqueueRequest_req_type == req_type,
        call->EnqueueRequest_data@ == data,
        call->EnqueueRequest_data_size == call->EnqueueRequest_data@.len(),
        call->EnqueueRequest_tag == tag,
        call->EnqueueRequest_cont_etid == cont_etid,
{
}

/// Exactly three calls take a callback: registering a request handler takes
/// a request handler, creating an `Rpc` a session-management handler, and
/// sending a request a continuation. Every other call (running the event
/// loop, polling a session, answering, looking up, destroying) takes none.
pub proof fn law_callbacks(call: FfiCall)
    ensures
        callback_of(call) == CallbackKind::ReqFunc <==> call is NexusRegisterReqFunc,
        callback_of(call) == CallbackKind::SmHandler <==> call is RpcNew,
        callback_of(call) == CallbackKind::ContFunc <==> call is EnqueueRequest,
        callback_of(call) == CallbackKind::NoCallback <==> !(call is NexusRegisterReqFunc
            || call is RpcNew || call is EnqueueRequest),
{
}

} // verus!
