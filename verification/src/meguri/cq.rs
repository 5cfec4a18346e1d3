//! Completion queue bookkeeping.
//!
//! The kernel posts completions into a ring of CQE slots and advances the
//! shared tail; the user consumes them by advancing its head. Both counters
//! are 32-bit and wrap; a counter names the slot `counter & ring_mask`.
//!
//! The shared memory itself is read and written by the ring's owner: it
//! hands the tail it loaded (with `Acquire`) to [`CompletionQueue::ready`]
//! and [`CompletionQueue::peek_slot`], and stores [`CompletionQueue::head`]
//! back (with `Release`) when it flushes.
use vstd::prelude::*;

verus! {

/// The number of values a 32-bit ring counter takes.
pub open spec fn counter_range() -> int {
    0x1_0000_0000
}

/// The completions posted and not yet consumed: `tail - head`, modulo 2^32.
pub open spec fn pending(tail: u32, head: u32) -> int {
    (tail - head) % counter_range()
}

/// The counter after `head`.
pub open spec fn next_counter(head: u32) -> u32 {
    ((head + 1) % counter_range()) as u32
}

/// The CQE slot that a counter names.
pub open spec fn slot_of(counter: u32, ring_mask: u32) -> u32 {
    counter & ring_mask
}

/// A ring mask is one less than a power of two.
pub open spec fn is_ring_mask(ring_mask: u32) -> bool {
    ring_mask < u32::MAX && ring_mask & ((ring_mask + 1) as u32) == 0
}

/// The completion queue's local state: the ring mask and the local head.
pub struct CompletionQueue {
    ring_mask: u32,
    cq_head: u32,
}

impl CompletionQueue {
    /// The mask that maps a counter to its CQE slot.
    pub closed spec fn mask(&self) -> u32 {
        self.ring_mask
    }

    /// The local head: the counter of the next completion to consume.
    pub closed spec fn head_counter(&self) -> u32 {
        self.cq_head
    }

    /// A queue over a ring with the given mask, starting at the head that the
    /// kernel's shared head held when the ring was mapped.
    pub fn new(ring_mask: u32, cq_head: u32) -> (q: Self)
        ensures
            q.mask() == ring_mask,
            q.head_counter() == cq_head,
    {
        CompletionQueue { ring_mask, cq_head }
    }

    /// The local head, to publish to the kernel.
    pub fn head(&self) -> (h: u32)
        ensures
            h == self.head_counter(),
    {
        self.cq_head
    }

    /// The ring mask.
    pub fn ring_mask(&self) -> (m: u32)
        ensures
            m == self.mask(),
    {
        self.ring_mask
    }

    /// The slot of the next CQE, or `None` when no completion is available
    /// (the kernel's tail equals the local head).
    pub fn peek_slot(&self, tail: u32) -> (slot: Option<u32>)
        ensures
            slot is None <==> tail == self.head_counter(),
            slot matches Some(i) ==> i == slot_of(self.head_counter(), self.mask()),
    {
        if self.cq_head == tail {
            return None;
        }
        Some(self.cq_head & self.ring_mask)
    }

    /// Advance the local head by one, consuming the current CQE.
    ///
    /// This only updates the local counter; the owner publishes it later.
    pub fn advance(&mut self)
        ensures
            final(self).head_counter() == next_counter(old(self).head_counter()),
            final(self).mask() == old(self).mask(),
    {
        self.cq_head = self.cq_head.wrapping_add(1);
    }

    /// Number of CQEs available for reading, given the kernel's tail.
    pub fn ready(&self, tail: u32) -> (n: u32)
        ensures
            n == pending(tail, self.head_counter()),
    {
        tail.wrapping_sub(self.cq_head)
    }
}

/// Consuming a completion leaves one fewer pending, when one was pending.
pub proof fn lemma_advance_consumes_one(tail: u32, head: u32)
    requires
        pending(tail, head) > 0,
    ensures
        pending(tail, next_counter(head)) == pending(tail, head) - 1,
{
}

/// Nothing is pending exactly when the head has caught up with the tail.
pub proof fn lemma_empty_iff_caught_up(tail: u32, head: u32)
    ensures
        pending(tail, head) == 0 <==> tail == head,
{
}

/// Advancing the head once per pending completion catches up with the tail.
pub proof fn lemma_draining_catches_up(tail: u32, head: u32)
    ensures
        advanced(head, pending(tail, head) as nat) == tail,
    decreases pending(tail, head),
{
    if pending(tail, head) > 0 {
        lemma_advance_consumes_one(tail, head);
        lemma_draining_catches_up(tail, next_counter(head));
        lemma_advanced_step(head, (pending(tail, head) - 1) as nat);
    }
}

/// The counter `n` steps after `head`.
pub open spec fn advanced(head: u32, n: nat) -> u32
    decreases n,
{
    if n == 0 {
        head
    } else {
        advanced(next_counter(head), (n - 1) as nat)
    }
}

proof fn lemma_advanced_step(head: u32, n: nat)
    ensures
        advanced(head, n + 1) == advanced(next_counter(head), n),
{
}

/// A slot always lies inside the ring.
pub proof fn lemma_slot_in_ring(counter: u32, ring_mask: u32)
    ensures
        slot_of(counter, ring_mask) <= ring_mask,
{
    assert(counter & ring_mask <= ring_mask) by (bit_vector);
}

/// The counter `n` steps after `head` is `head + n`, modulo 2^32.
pub proof fn lemma_advanced_is_sum(head: u32, n: nat)
    ensures
        advanced(head, n) == ((head + n) % counter_range()) as u32,
    decreases n,
{
    if n > 0 {
        lemma_advanced_is_sum(next_counter(head), (n - 1) as nat);
        let a: int = head as int + 1;
        let b: int = (n - 1) as int;
        vstd::arithmetic::div_mod::lemma_add_mod_noop(a, b, counter_range());
        vstd::arithmetic::div_mod::lemma_mod_twice(a, counter_range());
        vstd::arithmetic::div_mod::lemma_mod_bound(b, counter_range());
        vstd::arithmetic::div_mod::lemma_add_mod_noop(a % counter_range(), b, counter_range());
    }
}

proof fn lemma_masked_sums_differ(h: u32, i: u32, j: u32, m: u32)
    by (bit_vector)
    requires
        m < 0xffff_ffff,
        m & ((m + 1) as u32) == 0,
        i < j,
        j <= m,
    ensures
        (((h + i) % 0x1_0000_0000) as u32) & m != (((h + j) % 0x1_0000_0000) as u32) & m,
{
}

/// While no more completions are pending than the ring has slots, the
/// pending completions occupy distinct slots.
pub proof fn lemma_pending_slots_distinct(head: u32, ring_mask: u32, i: nat, j: nat)
    requires
        is_ring_mask(ring_mask),
        i < j,
        j <= ring_mask,
    ensures
        slot_of(advanced(head, i), ring_mask) != slot_of(advanced(head, j), ring_mask),
{
    lemma_advanced_is_sum(head, i);
    lemma_advanced_is_sum(head, j);
    lemma_masked_sums_differ(head, i as u32, j as u32, ring_mask);
}

} // verus!
