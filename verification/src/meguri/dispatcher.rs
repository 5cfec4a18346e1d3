//! Dispatcher: maps `user_data` to wakers and reclaim actions.
//!
//! When an operation is submitted, its `user_data` is registered here with
//! the task's `Waker`. When the completion arrives, the dispatcher wakes the
//! task; if the operation was dropped before completion, it routes the buffer
//! to the reclaim pool instead.
use vstd::prelude::*;

use crate::meguri::reclaim::ReclaimPool;

verus! {

#[verifier::external_type_specification]
#[verifier::external_body]
pub struct ExWaker(std::task::Waker);

/// State for a pending operation.
pub enum OpState {
    /// Operation is pending completion. Waker will be called on completion.
    Pending { waker: Option<std::task::Waker> },
    /// Operation was dropped before completion. The buffer must be reclaimed.
    Dropped { reclaim_key: u64 },
}

/// The states a slab of operations holds, by key.
pub uninterp spec fn op_states(s: slab::Slab<OpState>) -> Map<usize, OpState>;

/// `Slab::with_capacity`: an empty slab (the capacity only pre-allocates).
#[verifier::external_body]
fn op_slab_with_capacity(capacity: usize) -> (s: slab::Slab<OpState>)
    ensures
        op_states(s).dom() == Set::<usize>::empty(),
{
    slab::Slab::with_capacity(capacity)
}

/// `Slab::insert`: stores the state under the slab's next vacant key, which
/// it returns. (It panics only when the storage would exceed `isize::MAX`
/// bytes; nothing here states that bound.)
#[verifier::external_body]
fn op_slab_insert(s: &mut slab::Slab<OpState>, v: OpState) -> (k: usize)
    ensures
        !op_states(*old(s)).dom().contains(k),
        op_states(*final(s)) == op_states(*old(s)).insert(k, v),
{
    s.insert(v)
}

/// `Slab::contains`: whether a state is stored under the key.
#[verifier::external_body]
fn op_slab_contains(s: &slab::Slab<OpState>, k: usize) -> (r: bool)
    ensures
        r == op_states(*s).dom().contains(k),
{
    s.contains(k)
}

/// `Index for Slab`: the state stored under an occupied key (the call panics
/// on a vacant one).
#[verifier::external_body]
fn op_slab_get(s: &slab::Slab<OpState>, k: usize) -> (r: &OpState)
    requires
        op_states(*s).dom().contains(k),
    ensures
        *r == op_states(*s)[k],
{
    &s[k]
}

/// `IndexMut for Slab`: overwrites the state under an occupied key (the call
/// panics on a vacant one).
#[verifier::external_body]
fn op_slab_replace(s: &mut slab::Slab<OpState>, k: usize, v: OpState)
    requires
        op_states(*old(s)).dom().contains(k),
    ensures
        op_states(*final(s)) == op_states(*old(s)).insert(k, v),
{
    s[k] = v;
}

/// `Slab::remove`: takes the state out from under its key (the key must be
/// occupied; the call panics otherwise). The slab is passed through by value.
#[verifier::external_body]
fn op_slab_remove(s: slab::Slab<OpState>, k: usize) -> (r: (slab::Slab<OpState>, OpState))
    requires
        op_states(s).dom().contains(k),
    ensures
        r.1 == op_states(s)[k],
        op_states(r.0) == op_states(s).remove(k),
{
    let mut s = s;
    let state = s.remove(k);
    (s, state)
}

/// `Waker::wake`: wakes the task. What the task does is not this crate's.
#[verifier::external_body]
fn wake(w: std::task::Waker) {
    w.wake()
}

/// `Waker::will_wake`: a best-effort check that two wakers wake the same
/// task; std promises no answer, so nothing is stated.
#[verifier::external_body]
fn will_wake(a: &std::task::Waker, b: &std::task::Waker) -> bool {
    a.will_wake(b)
}

/// `<Waker as Clone>::clone`: a waker for the same task.
#[verifier::external_body]
fn clone_waker(w: &std::task::Waker) -> std::task::Waker {
    w.clone()
}

/// The operations after the completion for `key`: it leaves, if it was there.
pub open spec fn completed(ops: Map<usize, OpState>, key: usize) -> Map<usize, OpState> {
    if ops.dom().contains(key) {
        ops.remove(key)
    } else {
        ops
    }
}

/// The reclaim pool's keys after the completion for `key`: a dropped
/// operation's buffer is reclaimed; otherwise nothing changes.
pub open spec fn reclaimed(ops: Map<usize, OpState>, key: usize, pool: Set<usize>) -> Set<usize> {
    if ops.dom().contains(key) {
        match ops[key] {
            OpState::Dropped { reclaim_key } => pool.remove(reclaim_key as usize),
            OpState::Pending { .. } => pool,
        }
    } else {
        pool
    }
}

/// What a completion calls for.
pub enum CompletionAction {
    /// Nothing: the operation is unknown, or pending without a waker.
    Nothing,
    /// Wake the task waiting on the operation.
    Wake(std::task::Waker),
    /// Hand the dropped operation's resource, held under `reclaim_key`, the
    /// completion's result.
    Reclaim { reclaim_key: u64, result: i32 },
}

/// What the completion for `key` with result `res` calls for: a pending
/// operation's waker is woken; a dropped operation's resource receives `res`.
pub open spec fn completion_action(ops: Map<usize, OpState>, key: usize, res: i32) -> CompletionAction {
    if ops.dom().contains(key) {
        match ops[key] {
            OpState::Pending { waker: Some(w) } => CompletionAction::Wake(w),
            OpState::Pending { waker: None } => CompletionAction::Nothing,
            OpState::Dropped { reclaim_key } => CompletionAction::Reclaim { reclaim_key, result: res },
        }
    } else {
        CompletionAction::Nothing
    }
}

/// The operations after `key` is marked dropped: a registered operation
/// becomes `Dropped`; an unknown key changes nothing.
pub open spec fn marked_dropped(ops: Map<usize, OpState>, key: usize, reclaim_key: u64) -> Map<
    usize,
    OpState,
> {
    if ops.dom().contains(key) {
        ops.insert(key, OpState::Dropped { reclaim_key })
    } else {
        ops
    }
}

/// Maps `user_data` (slab key) to pending operation state.
///
/// A slab gives O(1) register/complete/lookup, with no hashing on the hot
/// completion path.
pub struct Dispatcher {
    pending: slab::Slab<OpState>,
}

impl Default for Dispatcher {
    fn default() -> (d: Self)
        ensures
            d.ops() == Map::<usize, OpState>::empty(),
    {
        Self::new()
    }
}

impl Dispatcher {
    /// The registered operations, by `user_data`.
    pub closed spec fn ops(&self) -> Map<usize, OpState> {
        op_states(self.pending)
    }

    pub fn new() -> (d: Self)
        ensures
            d.ops() == Map::<usize, OpState>::empty(),
    {
        let d = Dispatcher { pending: op_slab_with_capacity(256) };
        assert(d.ops() =~= Map::<usize, OpState>::empty());
        d
    }

    /// Allocate a new `user_data` and register the operation as pending.
    /// Returns the `user_data` (slab key) to attach to the SQE: one that no
    /// registered operation holds.
    pub fn register(&mut self, waker: Option<std::task::Waker>) -> (user_data: u64)
        ensures
            !old(self).ops().dom().contains(user_data as usize),
            final(self).ops() == old(self).ops().insert(
                user_data as usize,
                OpState::Pending { waker },
            ),
    {
        let mut pending = op_slab_with_capacity(0);
        std::mem::swap(&mut pending, &mut self.pending);
        let k = op_slab_insert(&mut pending, OpState::Pending { waker });
        self.pending = pending;
        k as u64
    }

    /// Mark an operation as dropped (future dropped before completion). The
    /// buffer is reclaimed when the completion arrives.
    pub fn mark_dropped(&mut self, user_data: u64, reclaim_key: u64)
        ensures
            final(self).ops() == marked_dropped(old(self).ops(), user_data as usize, reclaim_key),
    {
        let key = user_data as usize;
        if op_slab_contains(&self.pending, key) {
            let mut pending = op_slab_with_capacity(0);
            std::mem::swap(&mut pending, &mut self.pending);
            op_slab_replace(&mut pending, key, OpState::Dropped { reclaim_key });
            self.pending = pending;
        }
    }

    /// Take the operation of a completion out of the dispatcher, and say
    /// what the completion calls for (see [`completion_action`]).
    pub fn take_completion(&mut self, user_data: u64, res: i32) -> (a: CompletionAction)
        ensures
            a == completion_action(old(self).ops(), user_data as usize, res),
            final(self).ops() == completed(old(self).ops(), user_data as usize),
    {
        let key = user_data as usize;
        if !op_slab_contains(&self.pending, key) {
            return CompletionAction::Nothing;
        }
        let mut pending = op_slab_with_capacity(0);
        std::mem::swap(&mut pending, &mut self.pending);
        let (rest, state) = op_slab_remove(pending, key);
        self.pending = rest;
        match state {
            OpState::Pending { waker: Some(w) } => CompletionAction::Wake(w),
            OpState::Pending { waker: None } => CompletionAction::Nothing,
            OpState::Dropped { reclaim_key } => CompletionAction::Reclaim { reclaim_key, result: res },
        }
    }

    /// Process a completion. Wakes the task if pending, or hands the dropped
    /// operation's resource the completion's result (see
    /// [`Dispatcher::take_completion`] and [`ReclaimPool::take`]). A completion
    /// for an unknown `user_data` (an internal operation such as the eventfd
    /// read or a timeout) changes nothing.
    pub fn complete(&mut self, user_data: u64, res: i32, _flags: u32, reclaim: &mut ReclaimPool)
        ensures
            final(self).ops() == completed(old(self).ops(), user_data as usize),
            final(reclaim).keys() == reclaimed(
                old(self).ops(),
                user_data as usize,
                old(reclaim).keys(),
            ),
    {
        match self.take_completion(user_data, res) {
            CompletionAction::Wake(w) => wake(w),
            CompletionAction::Reclaim { reclaim_key, result } => {
                if let Some(r) = reclaim.take(reclaim_key, result) {
                    r.finish();
                }
            },
            CompletionAction::Nothing => {},
        }
    }

    /// Update the waker of a pending operation (called from `Future::poll`).
    ///
    /// A stored waker that already wakes the same task is kept; otherwise the
    /// given one is cloned in. Dropped and unknown operations are untouched.
    pub fn update_waker(&mut self, user_data: u64, waker: &std::task::Waker)
        ensures
            ({
                let key = user_data as usize;
                if old(self).ops().dom().contains(key) && old(self).ops()[key] is Pending {
                    &&& final(self).ops() == old(self).ops().insert(key, final(self).ops()[key])
                    &&& final(self).ops()[key] matches OpState::Pending { waker: Some(_) }
                } else {
                    final(self).ops() == old(self).ops()
                }
            }),
    {
        let key = user_data as usize;
        if !op_slab_contains(&self.pending, key) {
            return;
        }
        let replace = match op_slab_get(&self.pending, key) {
            OpState::Pending { waker: Some(existing) } => !will_wake(existing, waker),
            OpState::Pending { waker: None } => true,
            OpState::Dropped { .. } => false,
        };
        if replace {
            let mut pending = op_slab_with_capacity(0);
            std::mem::swap(&mut pending, &mut self.pending);
            op_slab_replace(&mut pending, key, OpState::Pending { waker: Some(clone_waker(waker)) });
            self.pending = pending;
        } else {
            proof {
                assert(old(self).ops().insert(key, old(self).ops()[key]) =~= old(self).ops());
            }
        }
    }

    /// Whether an operation is still registered (pending or dropped).
    pub fn is_pending(&self, user_data: u64) -> (b: bool)
        ensures
            b == self.ops().dom().contains(user_data as usize),
    {
        op_slab_contains(&self.pending, user_data as usize)
    }
}

/// A duplicate completion changes nothing: after the first, the operation is
/// gone and the second finds no one to wake or reclaim.
pub proof fn lemma_duplicate_completion_is_ignored(
    ops: Map<usize, OpState>,
    key: usize,
    pool: Set<usize>,
)
    ensures
        completed(completed(ops, key), key) == completed(ops, key),
        reclaimed(completed(ops, key), key, pool) == pool,
{
}

/// Dropping an operation's future before its completion routes the buffer
/// to the reclaim pool when the completion arrives, and the operation leaves.
pub proof fn lemma_dropped_buffer_reclaimed_on_completion(
    ops: Map<usize, OpState>,
    key: usize,
    reclaim_key: u64,
    pool: Set<usize>,
)
    requires
        ops.dom().contains(key),
    ensures
        reclaimed(marked_dropped(ops, key, reclaim_key), key, pool) == pool.remove(
            reclaim_key as usize,
        ),
        completed(marked_dropped(ops, key, reclaim_key), key) == ops.remove(key),
{
    assert(ops.insert(key, OpState::Dropped { reclaim_key }).remove(key) =~= ops.remove(key));
}

/// Completing a pending operation leaves the reclaim pool as it was.
pub proof fn lemma_pending_completion_keeps_pool(
    ops: Map<usize, OpState>,
    key: usize,
    pool: Set<usize>,
)
    requires
        ops.dom().contains(key),
        ops[key] is Pending,
    ensures
        reclaimed(ops, key, pool) == pool,
{
}

} // verus!
