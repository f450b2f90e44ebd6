use std::sync::Arc;

use vstd::prelude::*;

verus! {

/// Relies on std's Arc::clone: the new pointer shares the allocation of `a`,
/// so it points at the same value.
#[verifier::external_body]
fn share<T>(a: &Arc<T>) -> (r: Arc<T>)
    ensures
        r == *a,
{
    Arc::clone(a)
}

/// The content provider in service, with what was derived from it when it
/// was built or reloaded. A state is never changed in place: a rotation
/// replaces it whole.
#[derive(Debug)]
pub struct ProviderState<P> {
    pub provider: P,
    /// Cache-validation token of the catalogue that `provider` serves.
    pub content_fingerprint: String,
    /// When `provider` was built or reloaded, in seconds since the epoch.
    pub last_reload: u64,
}

impl<P> ProviderState<P> {
    pub fn new(provider: P, content_fingerprint: String, last_reload: u64) -> (s: ProviderState<P>)
        ensures
            s.provider == provider,
            s.content_fingerprint@ == content_fingerprint@,
            s.last_reload == last_reload,
    {
        ProviderState { provider, content_fingerprint, last_reload }
    }
}

/// The one reference to the provider state in service. A read hands out the
/// current state as a shared snapshot, which stays as it is whatever rotates
/// after it; a rotation publishes a new state in one step.
pub struct ProviderHandle<P> {
    current: Arc<ProviderState<P>>,
}

impl<P> View for ProviderHandle<P> {
    type V = ProviderState<P>;

    closed spec fn view(&self) -> ProviderState<P> {
        *self.current
    }
}

impl<P> ProviderHandle<P> {
    pub fn new(state: ProviderState<P>) -> (h: ProviderHandle<P>)
        ensures
            h@ == state,
    {
        ProviderHandle { current: Arc::new(state) }
    }

    /// A snapshot of the current state.
    pub fn read(&self) -> (r: Arc<ProviderState<P>>)
        ensures
            *r == self@,
    {
        share(&self.current)
    }

    /// Replaces the whole state at once.
    pub fn rotate(&mut self, state: ProviderState<P>)
        ensures
            final(self)@ == state,
    {
        self.current = Arc::new(state);
    }

    /// The fingerprint of the current state.
    pub fn fingerprint(&self) -> (r: String)
        ensures
            r@ == self@.content_fingerprint@,
    {
        self.current.content_fingerprint.clone()
    }

    /// When the current provider was built or reloaded.
    pub fn last_reload(&self) -> (r: u64)
        ensures
            r == self@.last_reload,
    {
        self.current.last_reload
    }
}

/// An operation on the handle, in the order in which its lock admits them.
pub enum HandleOp<P> {
    Read,
    Rotate(ProviderState<P>),
}

/// The state held after `op`.
pub open spec fn after_op<P>(s: ProviderState<P>, op: HandleOp<P>) -> ProviderState<P> {
    match op {
        HandleOp::Read => s,
        HandleOp::Rotate(next) => next,
    }
}

/// The state held after the first `k` operations of `ops`; a read at index
/// `k` observes it.
pub open spec fn state_at<P>(initial: ProviderState<P>, ops: Seq<HandleOp<P>>, k: int) -> ProviderState<P>
    decreases k,
{
    if k <= 0 {
        initial
    } else {
        after_op(state_at(initial, ops, k - 1), ops[k - 1])
    }
}

proof fn lemma_state_around_rotation<P>(
    pre: ProviderState<P>,
    post: ProviderState<P>,
    ops: Seq<HandleOp<P>>,
    k: int,
    i: int,
)
    requires
        0 <= k < ops.len(),
        ops[k] == HandleOp::Rotate(post),
        forall|j: int| 0 <= j < ops.len() && j != k ==> #[trigger] ops[j] is Read,
        0 <= i <= ops.len(),
    ensures
        state_at(pre, ops, i) == (if i <= k {
            pre
        } else {
            post
        }),
    decreases i,
{
    if i > 0 {
        lemma_state_around_rotation(pre, post, ops, k, i - 1);
    }
}

/// Reads interleaved with one rotation each observe one whole state: every
/// read admitted before the rotation observes the state before it, every
/// read admitted after observes the state it published, with the provider,
/// fingerprint and reload time of that state together.
pub proof fn lemma_reads_see_whole_snapshots<P>(
    pre: ProviderState<P>,
    post: ProviderState<P>,
    ops: Seq<HandleOp<P>>,
    k: int,
)
    requires
        0 <= k < ops.len(),
        ops[k] == HandleOp::Rotate(post),
        forall|j: int| 0 <= j < ops.len() && j != k ==> #[trigger] ops[j] is Read,
    ensures
        forall|i: int|
            0 <= i < ops.len() && #[trigger] ops[i] is Read ==> {
                let seen = state_at(pre, ops, i);
                &&& i < k ==> seen == pre
                &&& i > k ==> seen == post
            },
{
    assert forall|i: int| 0 <= i < ops.len() && #[trigger] ops[i] is Read implies {
        let seen = state_at(pre, ops, i);
        &&& i < k ==> seen == pre
        &&& i > k ==> seen == post
    } by {
        lemma_state_around_rotation(pre, post, ops, k, i);
    }
}

/// Without a rotation, every read observes the fingerprint the handle
/// started with: the fingerprint of an unrotated provider is the same,
/// byte for byte, however often it is asked for.
pub proof fn lemma_fingerprint_stable_without_rotation<P>(
    initial: ProviderState<P>,
    ops: Seq<HandleOp<P>>,
    i: int,
)
    requires
        forall|j: int| 0 <= j < ops.len() ==> #[trigger] ops[j] is Read,
        0 <= i <= ops.len(),
    ensures
        state_at(initial, ops, i) == initial,
    decreases i,
{
    if i > 0 {
        lemma_fingerprint_stable_without_rotation(initial, ops, i - 1);
    }
}

} // verus!
