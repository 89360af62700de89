//! The application context that an `Rpc` is created with.
use vstd::prelude::*;
use vstd::utf8::encode_utf8;
use crate::cstr::{c_string_of, nul_terminated};
use crate::ffi::FfiCall;

verus! {

/// An application context on the C side, held by its address, and whether
/// this value owns it. A context made by `app_context_new` is owned and
/// destroyed when dropped; one taken from a raw pointer (the context that a
/// handler or a continuation is handed) is not.
pub struct AppContext {
    pub inner: usize,
    pub owner: bool,
}

/// What releasing a context at `context` does: it destroys the C object
/// exactly when it owns it.
pub open spec fn context_release(context: usize, owner: bool) -> Option<FfiCall> {
    if owner {
        Some(FfiCall::AppContextDestroy { context })
    } else {
        None
    }
}

/// `call` connects to the server at `server_uri` (as a C string), to its
/// `Rpc` with id `rem_rpc_id`, from `context`.
pub open spec fn is_connect_session(call: FfiCall, context: usize, server_uri: Seq<char>, rem_rpc_id: u8) -> bool {
    match call {
        FfiCall::ConnectSession { context: c, server_uri: u, rem_rpc_id: r } => {
            &&& c == context
            &&& u@ == nul_terminated(encode_utf8(server_uri))
            &&& r == rem_rpc_id
        },
        _ => false,
    }
}

/// A session is opened to exactly the remote `Rpc` id and from exactly the
/// context asked for, at exactly the URI asked for: its bytes, then one NUL
/// and nothing else, whatever the id, context and URI.
pub proof fn law_connect_session_passes_arguments(
    call: FfiCall,
    context: usize,
    server_uri: Seq<char>,
    rem_rpc_id: u8,
)
    requires
        is_connect_session(call, context, server_uri, rem_rpc_id),
    ensures
        call is ConnectSession,
        call->ConnectSession_rem_rpc_id == rem_rpc_id,
        call->ConnectSession_context == context,
        call->ConnectSession_server_uri@.len() == encode_utf8(server_uri).len() + 1,
        call->ConnectSession_server_uri@.drop_last() == encode_utf8(server_uri),
        call->ConnectSession_server_uri@.last() == 0u8,
{
    let u = call->ConnectSession_server_uri@;
    assert(u =~= encode_utf8(server_uri).push(0u8));
    assert(u.drop_last() =~= encode_utf8(server_uri));
}

impl AppContext {
    /// The call that creates a context (`app_context_new`); the address it
    /// returns is what `after_call` takes.
    pub fn new() -> (call: FfiCall)
        ensures
            call == FfiCall::AppContextNew,
    {
        FfiCall::AppContextNew
    }

    /// The context that `app_context_new` (the call `call`) gave back at
    /// `handle`: this value owns it.
    pub fn after_call(call: &FfiCall, handle: usize) -> (context: AppContext)
        requires
            *call is AppContextNew,
        ensures
            context.inner == handle,
            context.owner,
    {
        AppContext { inner: handle, owner: true }
    }

    /// The context at address `inner`, as a handler or a continuation is
    /// handed it: this value does not own it.
    pub fn from_raw(inner: usize) -> (context: AppContext)
        ensures
            context.inner == inner,
            !context.owner,
    {
        AppContext { inner, owner: false }
    }

    /// The call that opens a session to the `Rpc` with id `rem_rpc_id` of
    /// the server at `server_uri` (`erpc_connect_session`): the URI goes over
    /// as its UTF-8 bytes with a closing NUL. A URI whose bytes hold a NUL
    /// cannot be made a C string; the binding does not accept it.
    pub fn connect_session(&self, server_uri: String, rem_rpc_id: u8) -> (call: FfiCall)
        requires
            !encode_utf8(server_uri@).contains(0u8),
        ensures
            is_connect_session(call, self.inner, server_uri@, rem_rpc_id),
            call matches FfiCall::ConnectSession { context: c, server_uri: u, rem_rpc_id: r }
                && c == self.inner && r == rem_rpc_id && u@.drop_last() == encode_utf8(server_uri@)
                && u@.last() == 0u8,
    {
        let uri = c_string_of(&server_uri);
        FfiCall::ConnectSession { context: self.inner, server_uri: uri, rem_rpc_id }
    }

    /// The call that reads the session number kept in this context
    /// (`app_context_get_session_num`).
    pub fn get_session_num(&self) -> (call: FfiCall)
        ensures
            call == (FfiCall::AppContextGetSessionNum { context: self.inner }),
    {
        FfiCall::AppContextGetSessionNum { context: self.inner }
    }

    /// What dropping the context does: it destroys the C object exactly when
    /// this value owns it.
    pub fn release(&self) -> (call: Option<FfiCall>)
        ensures
            call == context_release(self.inner, self.owner),
    {
        if self.owner {
            Some(FfiCall::AppContextDestroy { context: self.inner })
        } else {
            None
        }
    }
}

} // verus!
