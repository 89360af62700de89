//! What dropping the binding's values makes, in the order in which Rust drops
//! locals: the reverse of the order they were made in.
use vstd::prelude::*;
use crate::context::{AppContext, context_release};
use crate::ffi::FfiCall;
use crate::nexus::Nexus;
use crate::rpc::{Rpc, owns_result, rpc_release};

verus! {

/// The calls that one release makes: none, or the one it asks for.
pub open spec fn release_calls(release: Option<FfiCall>) -> Seq<FfiCall> {
    match release {
        Some(call) => seq![call],
        None => Seq::empty(),
    }
}

/// The calls that dropping `rpcs` makes, the last made dropped first.
pub open spec fn rpcs_teardown(rpcs: Seq<Rpc>) -> Seq<FfiCall>
    decreases rpcs.len(),
{
    if rpcs.len() == 0 {
        Seq::empty()
    } else {
        release_calls(rpc_release(rpcs.last().handle(), rpcs.last().is_owner())) + rpcs_teardown(
            rpcs.drop_last(),
        )
    }
}

/// The calls that dropping a context, then a `Nexus`, then `rpcs` made from
/// them, all in reverse order, makes.
pub open spec fn teardown(context: AppContext, nexus: Nexus, rpcs: Seq<Rpc>) -> Seq<FfiCall> {
    rpcs_teardown(rpcs) + seq![FfiCall::NexusDestroy { nexus: nexus.inner }] + release_calls(
        context_release(context.inner, context.owner),
    )
}

/// Every call that dropping `rpcs` makes destroys an `Rpc`.
proof fn lemma_rpcs_teardown_destroys_rpcs(rpcs: Seq<Rpc>)
    ensures
        forall|i: int| 0 <= i < rpcs_teardown(rpcs).len() ==> #[trigger] rpcs_teardown(rpcs)[i] is RpcDestroy,
    decreases rpcs.len(),
{
    if rpcs.len() > 0 {
        lemma_rpcs_teardown_destroys_rpcs(rpcs.drop_last());
        let head = release_calls(rpc_release(rpcs.last().handle(), rpcs.last().is_owner()));
        let tail = rpcs_teardown(rpcs.drop_last());
        assert(rpcs_teardown(rpcs) == head + tail);
        assert forall|i: int| 0 <= i < rpcs_teardown(rpcs).len() implies #[trigger] rpcs_teardown(rpcs)[i] is RpcDestroy by {
            if i < head.len() {
                assert(rpcs_teardown(rpcs)[i] == head[i]);
            } else {
                assert(rpcs_teardown(rpcs)[i] == tail[i - head.len()]);
            }
        }
    }
}

/// Made in the order context, `Nexus`, then `Rpc`s created in that `Nexus`
/// for that context or looked up through the context, and dropped in reverse
/// (as Rust drops locals), the binding destroys every owned `Rpc` first, then
/// the `Nexus` exactly once, then the context if it owns it, and nothing else.
pub proof fn law_teardown_order(context: AppContext, nexus: Nexus, rpcs: Seq<Rpc>, calls: Seq<FfiCall>)
    requires
        rpcs.len() == calls.len(),
        forall|i: int|
            0 <= i < calls.len() ==> (#[trigger] calls[i] matches FfiCall::RpcNew { nexus: n, context: c, .. }
                && n == nexus.inner && c == context.inner) || calls[i] == (FfiCall::AppContextRpc {
                context: context.inner,
            }),
        forall|i: int| 0 <= i < rpcs.len() ==> #[trigger] rpcs[i].is_owner() == owns_result(calls[i]),
    ensures
        ({
            let t = teardown(context, nexus, rpcs);
            let n = rpcs_teardown(rpcs).len();
            &&& t[n as int] == FfiCall::NexusDestroy { nexus: nexus.inner }
            &&& forall|i: int| 0 <= i < n ==> #[trigger] t[i] is RpcDestroy
            &&& forall|i: int| 0 <= i < t.len() && #[trigger] t[i] is NexusDestroy ==> i == n
            &&& forall|i: int| n < i < t.len() ==> #[trigger] t[i] == FfiCall::AppContextDestroy { context: context.inner }
            &&& t.len() == n + 1 + if context.owner { 1int } else { 0int }
        }),
{
    lemma_rpcs_teardown_destroys_rpcs(rpcs);
    let t = teardown(context, nexus, rpcs);
    let r = rpcs_teardown(rpcs);
    let n = r.len();
    let c = release_calls(context_release(context.inner, context.owner));
    assert(t == r + seq![FfiCall::NexusDestroy { nexus: nexus.inner }] + c);
    assert forall|i: int| 0 <= i < n implies #[trigger] t[i] is RpcDestroy by {
        assert(t[i] == r[i]);
    }
    assert forall|i: int| 0 <= i < t.len() && #[trigger] t[i] is NexusDestroy implies i == n by {
        if i < n {
            assert(t[i] == r[i]);
            assert(r[i] is RpcDestroy);
        } else if i > n {
            assert(t[i] == c[i - n - 1]);
        }
    }
    assert forall|i: int| n < i < t.len() implies #[trigger] t[i] == FfiCall::AppContextDestroy { context: context.inner } by {
        assert(t[i] == c[i - n - 1]);
    }
}

} // verus!
