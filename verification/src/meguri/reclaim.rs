//! Buffer reclaim.
//!
//! When an operation's future is dropped before the kernel completes it, the
//! buffer must not be freed until the kernel is done. The reclaim pool holds
//! such resources, keyed, until their completion arrives.
use vstd::prelude::*;

verus! {

#[verifier::external_type_specification]
#[verifier::external_body]
#[verifier::reject_recursive_types(T)]
pub struct ExSlab<T>(slab::Slab<T>);

/// A reclaimable resource (typically a buffer).
pub trait Reclaimable: core::marker::Send + 'static {
    /// Called when the kernel has finished with this resource.
    fn reclaim(self: Box<Self>, result: i32);
}

/// The keys under which a slab of reclaimable resources holds a resource.
pub uninterp spec fn reclaim_keys(s: slab::Slab<Box<dyn Reclaimable>>) -> Set<usize>;

/// `Slab::with_capacity`: an empty slab (the capacity only pre-allocates).
#[verifier::external_body]
fn reclaim_slab_with_capacity(capacity: usize) -> (s: slab::Slab<Box<dyn Reclaimable>>)
    ensures
        reclaim_keys(s) == Set::<usize>::empty(),
{
    slab::Slab::with_capacity(capacity)
}

/// `Slab::insert`: stores the resource under the slab's next vacant key,
/// which it returns. (It panics only when the storage would exceed
/// `isize::MAX` bytes; nothing here states that bound.)
#[verifier::external_body]
fn reclaim_slab_insert(s: &mut slab::Slab<Box<dyn Reclaimable>>, v: Box<dyn Reclaimable>) -> (k: usize)
    ensures
        !reclaim_keys(*old(s)).contains(k),
        reclaim_keys(*final(s)) == reclaim_keys(*old(s)).insert(k),
{
    s.insert(v)
}

/// `Slab::contains`: whether a resource is stored under the key.
#[verifier::external_body]
fn reclaim_slab_contains(s: &slab::Slab<Box<dyn Reclaimable>>, k: usize) -> (r: bool)
    ensures
        r == reclaim_keys(*s).contains(k),
{
    s.contains(k)
}

/// `Slab::remove`: takes the resource out from under its key (the key must
/// be occupied; the call panics otherwise). The slab is passed through by
/// value.
#[verifier::external_body]
fn reclaim_slab_remove(s: slab::Slab<Box<dyn Reclaimable>>, k: usize) -> (r: (
    slab::Slab<Box<dyn Reclaimable>>,
    Box<dyn Reclaimable>,
))
    requires
        reclaim_keys(s).contains(k),
    ensures
        reclaim_keys(r.0) == reclaim_keys(s).remove(k),
{
    let mut s = s;
    let resource = s.remove(k);
    (s, resource)
}

/// `Slab::len`: the number of stored resources.
#[verifier::external_body]
fn reclaim_slab_len(s: &slab::Slab<Box<dyn Reclaimable>>) -> (n: usize)
    ensures
        n == reclaim_keys(*s).len(),
{
    s.len()
}

/// A resource taken out of the pool, with the key it was held under and the
/// completion's result it is to receive.
pub struct Reclamation {
    key: u64,
    result: i32,
    resource: Box<dyn Reclaimable>,
}

impl Reclamation {
    /// The key the resource was held under.
    pub closed spec fn held_key(self) -> u64 {
        self.key
    }

    /// The completion's result the resource is to receive.
    pub closed spec fn handed_result(self) -> i32 {
        self.result
    }

    /// The key the resource was held under.
    pub fn key(&self) -> (k: u64)
        ensures
            k == self.held_key(),
    {
        self.key
    }

    /// The completion's result the resource is to receive.
    pub fn result(&self) -> (r: i32)
        ensures
            r == self.handed_result(),
    {
        self.result
    }

    /// Hand the resource its result ([`Reclaimable::reclaim`]).
    pub fn finish(self) {
        let Reclamation { key: _, result, resource } = self;
        resource.reclaim(result);
    }
}

/// Holds resources of operations that were dropped before completion.
///
/// When the completion arrives, the resource is reclaimed (returned to a pool
/// or dropped safely). A slab gives O(1) keyed access.
pub struct ReclaimPool {
    pending: slab::Slab<Box<dyn Reclaimable>>,
}

impl Default for ReclaimPool {
    fn default() -> (p: Self)
        ensures
            p.keys() == Set::<usize>::empty(),
    {
        Self::new()
    }
}

impl ReclaimPool {
    /// The keys of the resources awaiting their completion.
    pub closed spec fn keys(&self) -> Set<usize> {
        reclaim_keys(self.pending)
    }

    pub fn new() -> (p: Self)
        ensures
            p.keys() == Set::<usize>::empty(),
    {
        ReclaimPool { pending: reclaim_slab_with_capacity(64) }
    }

    /// Register a resource for reclaim. Returns the key to associate with the
    /// operation's `user_data`: one that held no resource before.
    pub fn register<R: Reclaimable>(&mut self, resource: R) -> (key: u64)
        ensures
            !old(self).keys().contains(key as usize),
            final(self).keys() == old(self).keys().insert(key as usize),
    {
        let boxed: Box<dyn Reclaimable> = Box::new(resource);
        let mut pending = reclaim_slab_with_capacity(0);
        std::mem::swap(&mut pending, &mut self.pending);
        let k = reclaim_slab_insert(&mut pending, boxed);
        self.pending = pending;
        k as u64
    }

    /// Take the resource under a key out of the pool, paired with the
    /// completion's result it is to receive; `None` for a key that holds no
    /// resource.
    pub fn take(&mut self, key: u64, result: i32) -> (r: Option<Reclamation>)
        ensures
            (r is Some) == old(self).keys().contains(key as usize),
            r matches Some(x) ==> x.held_key() == key && x.handed_result() == result,
            final(self).keys() == old(self).keys().remove(key as usize),
    {
        let k = key as usize;
        if reclaim_slab_contains(&self.pending, k) {
            let mut pending = reclaim_slab_with_capacity(0);
            std::mem::swap(&mut pending, &mut self.pending);
            let (rest, resource) = reclaim_slab_remove(pending, k);
            self.pending = rest;
            Some(Reclamation { key, result, resource })
        } else {
            assert(old(self).keys().remove(k) =~= old(self).keys());
            None
        }
    }

    /// Reclaim the resource under a key, handing it the completion's result
    /// (see [`ReclaimPool::take`]). A key that holds no resource is ignored.
    pub fn reclaim(&mut self, key: u64, result: i32)
        ensures
            final(self).keys() == old(self).keys().remove(key as usize),
    {
        if let Some(r) = self.take(key, result) {
            r.finish();
        }
    }

    /// Number of pending reclamations.
    pub fn len(&self) -> (n: usize)
        ensures
            n == self.keys().len(),
    {
        reclaim_slab_len(&self.pending)
    }

    pub fn is_empty(&self) -> (b: bool)
        ensures
            b == (self.keys().len() == 0),
    {
        reclaim_slab_len(&self.pending) == 0
    }
}

/// Reclaiming under the key that registration returned gives the pool back
/// the keys it held before.
pub proof fn lemma_reclaim_undoes_register(before: Set<usize>, key: usize)
    requires
        !before.contains(key),
    ensures
        before.insert(key).remove(key) == before,
{
    assert(before.insert(key).remove(key) =~= before);
}

} // verus!
