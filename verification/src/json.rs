//! JSON body support: capacity hints per serialized type and a small pool of
//! reusable scratch buffers.
//!
//! Serializing writes into a buffer taken from the pool, sized by the hint kept
//! for the value's type; the hint grows to the next power of two of what was
//! written (capped), and the buffer goes back to the pool when the body is
//! dropped. The thread-local storage that holds one hint table and one pool
//! per thread lives with the server.
use vstd::prelude::*;

use crate::keyed::{keyed_map, keys_distinct, lemma_keyed_at, lemma_keyed_push, lemma_keyed_update};
use crate::text::{str_equal, to_string};

pub use serde_json::Error;

verus! {

#[verifier::external_type_specification]
#[verifier::external_body]
pub struct ExJsonError(serde_json::Error);

/// Deserialize a value from a JSON byte slice: `serde_json::from_slice`.
/// What it accepts and builds is the type's `Deserialize` impl's and
/// serde_json's; nothing is stated of it here.
#[verifier::external_body]
pub fn deserialize<T: serde::de::DeserializeOwned>(bytes: &[u8]) -> Result<T, Error> {
    serde_json::from_slice(bytes)
}

/// The content type of JSON bodies.
pub const CONTENT_TYPE: &'static str = "application/json";

/// The hint used for a type that was never serialized.
pub const DEFAULT_JSON_CAPACITY: usize = 256;

/// Hints and pooled buffers never exceed this capacity.
pub const MAX_CACHED_JSON_CAPACITY: usize = 256 * 1024;

/// The pool keeps at most this many buffers.
pub const MAX_POOLED_JSON_BUFFERS: usize = 8;

/// The smallest power of two that is at least `x`.
pub open spec fn next_pow2(x: nat) -> nat
    decreases x,
{
    if x <= 1 {
        1
    } else {
        2 * next_pow2(((x + 1) / 2) as nat)
    }
}

/// `2^k`.
pub open spec fn two_pow(k: nat) -> nat
    decreases k,
{
    if k == 0 {
        1
    } else {
        2 * two_pow((k - 1) as nat)
    }
}

/// Whether `p` is a power of two.
pub open spec fn is_pow2(p: nat) -> bool {
    exists|k: nat| two_pow(k) == p
}

/// [`next_pow2`] is a power of two, at least `x`, and less than twice `x`.
pub proof fn lemma_next_pow2(x: nat)
    ensures
        is_pow2(next_pow2(x)),
        next_pow2(x) >= x,
        x >= 1 ==> next_pow2(x) < 2 * x,
    decreases x,
{
    if x <= 1 {
        assert(two_pow(0) == 1);
    } else {
        let h = ((x + 1) / 2) as nat;
        lemma_next_pow2(h);
        let k = choose|k: nat| two_pow(k) == next_pow2(h);
        assert(two_pow(k + 1) == 2 * two_pow(k));
    }
}

/// Powers of two are positive.
pub proof fn lemma_two_pow_positive(k: nat)
    ensures
        two_pow(k) >= 1,
    decreases k,
{
    if k > 0 {
        lemma_two_pow_positive((k - 1) as nat);
    }
}

/// Below a power of two, the next power of two stays below it.
pub proof fn lemma_next_pow2_bounded(x: nat, k: nat)
    requires
        x <= two_pow(k),
    ensures
        next_pow2(x) <= two_pow(k),
    decreases k,
{
    lemma_two_pow_positive(k);
    if x > 1 {
        if k == 0 {
            assert(two_pow(0) == 1);
        } else {
            let t = two_pow((k - 1) as nat);
            assert(two_pow(k) == 2 * t);
            let h = ((x + 1) / 2) as nat;
            assert(h <= t);
            lemma_next_pow2_bounded(h, (k - 1) as nat);
            assert(next_pow2(x) == 2 * next_pow2(h));
        }
    }
}

/// The capacity hint to keep after `len` bytes were written: the next power of
/// two of `len` (at least the default), capped at the maximum cached capacity.
pub open spec fn capacity_hint_for(len: nat) -> nat {
    let x = if len < 256 {
        256
    } else {
        len
    };
    if x >= 256 * 1024 {
        256 * 1024
    } else {
        next_pow2(x)
    }
}

proof fn lemma_max_is_two_pow()
    ensures
        two_pow(18) == 256 * 1024,
        two_pow(8) == 256,
{
    reveal_with_fuel(two_pow, 19);
}

/// Exec form of [`next_pow2`] for small values.
fn next_power_of_two(x: usize) -> (r: usize)
    requires
        x <= 256 * 1024,
    ensures
        r == next_pow2(x as nat),
    decreases x,
{
    if x <= 1 {
        1
    } else {
        proof {
            lemma_max_is_two_pow();
            lemma_next_pow2_bounded(((x + 1) / 2) as nat, 17);
            reveal_with_fuel(two_pow, 2);
            assert(two_pow(18) == 2 * two_pow(17));
        }
        let half = next_power_of_two((x + 1) / 2);
        2 * half
    }
}

/// `len.max(256).next_power_of_two().min(256 KiB)`.
pub fn next_json_capacity_hint(len: usize) -> (r: usize)
    ensures
        r == capacity_hint_for(len as nat),
        DEFAULT_JSON_CAPACITY <= r <= MAX_CACHED_JSON_CAPACITY,
{
    let x = if len < DEFAULT_JSON_CAPACITY {
        DEFAULT_JSON_CAPACITY
    } else {
        len
    };
    if x >= MAX_CACHED_JSON_CAPACITY {
        MAX_CACHED_JSON_CAPACITY
    } else {
        proof {
            lemma_max_is_two_pow();
            lemma_next_pow2_bounded(x as nat, 18);
            lemma_next_pow2(x as nat);
        }
        next_power_of_two(x)
    }
}

/// The hint of a type name in a hint table, the default when absent.
pub open spec fn hint_in(hints: Map<Seq<char>, usize>, kind_name: Seq<char>) -> usize {
    if hints.contains_key(kind_name) {
        hints[kind_name]
    } else {
        256
    }
}

/// Every hint lies between the default and the maximum cached capacity.
pub open spec fn hints_in_range(hints: Map<Seq<char>, usize>) -> bool {
    forall|k: Seq<char>|
        #[trigger] hints.contains_key(k) ==> 256 <= hints[k] && hints[k] <= 256 * 1024
}

/// The key of a hint entry.
pub open spec fn hint_name() -> spec_fn((String, usize)) -> Seq<char> {
    |e: (String, usize)| e.0@
}

/// The value of a hint entry.
pub open spec fn hint_value() -> spec_fn((String, usize)) -> usize {
    |e: (String, usize)| e.1
}

/// Capacity hints per serialized type.
pub struct JsonCapacityHints {
    entries: Vec<(String, usize)>,
}

impl JsonCapacityHints {
    #[verifier::type_invariant]
    spec fn well_formed(self) -> bool {
        &&& keys_distinct(self.entries@, hint_name())
        &&& hints_in_range(keyed_map(self.entries@, hint_name(), hint_value()))
    }

    /// The hint kept for each type name.
    pub closed spec fn hints(self) -> Map<Seq<char>, usize> {
        keyed_map(self.entries@, hint_name(), hint_value())
    }

    /// No hints yet.
    pub fn new() -> (h: Self)
        ensures
            h.hints() == Map::<Seq<char>, usize>::empty(),
    {
        let h = JsonCapacityHints { entries: Vec::new() };
        assert(h.hints() =~= Map::<Seq<char>, usize>::empty());
        h
    }

    /// The capacity to start with when serializing a value of this type.
    pub fn hint(&self, kind_name: &str) -> (r: usize)
        ensures
            r == hint_in(self.hints(), kind_name@),
            DEFAULT_JSON_CAPACITY <= r <= MAX_CACHED_JSON_CAPACITY,
    {
        proof {
            use_type_invariant(self);
        }
        match find_hint(&self.entries, kind_name) {
            Some(i) => {
                proof {
                    lemma_keyed_at(self.entries@, hint_name(), hint_value(), i as int);
                }
                self.entries[i].1
            },
            None => {
                proof {
                    assert(!self.hints().contains_key(kind_name@));
                }
                DEFAULT_JSON_CAPACITY
            },
        }
    }

    /// Record that `len` bytes were written for this type: the hint becomes the
    /// larger of the old hint and [`next_json_capacity_hint`] of `len`.
    pub fn update(&mut self, kind_name: &str, len: usize)
        ensures
            final(self).hints() == old(self).hints().insert(
                kind_name@,
                if old(self).hints().contains_key(kind_name@) && old(self).hints()[kind_name@]
                    >= capacity_hint_for(len as nat) {
                    old(self).hints()[kind_name@]
                } else {
                    capacity_hint_for(len as nat) as usize
                },
            ),
    {
        proof {
            use_type_invariant(&*self);
        }
        let next = next_json_capacity_hint(len);
        let mut entries: Vec<(String, usize)> = Vec::new();
        std::mem::swap(&mut entries, &mut self.entries);
        let ghost before = entries@;
        let found = find_hint(&entries, kind_name);
        match found {
            Some(k) => {
                proof {
                    lemma_keyed_at(before, hint_name(), hint_value(), k as int);
                }
                let old_hint = entries[k].1;
                let new_hint = if old_hint >= next {
                    old_hint
                } else {
                    next
                };
                let name = entries[k].0.clone();
                entries.set(k, (name, new_hint));
                proof {
                    lemma_keyed_update(before, hint_name(), hint_value(), k as int, entries@[k as int]);
                }
            },
            None => {
                let name = to_string(kind_name);
                entries.push((name, next));
                proof {
                    lemma_keyed_push(before, hint_name(), hint_value(), entries@.last());
                }
            },
        }
        self.entries = entries;
    }
}

/// Index of the entry for `kind_name`.
fn find_hint(entries: &Vec<(String, usize)>, kind_name: &str) -> (r: Option<usize>)
    ensures
        match r {
            Some(i) => i < entries@.len() && entries@[i as int].0@ == kind_name@,
            None => forall|i: int| 0 <= i < entries@.len() ==> #[trigger] entries@[i].0@ != kind_name@,
        },
{
    let mut i: usize = 0;
    while i < entries.len()
        invariant
            i <= entries@.len(),
            forall|j: int| 0 <= j < i ==> #[trigger] entries@[j].0@ != kind_name@,
        decreases entries@.len() - i,
    {
        if str_equal(entries[i].0.as_str(), kind_name) {
            return Some(i);
        }
        i = i + 1;
    }
    None
}

/// Hints never shrink: an update leaves every type's hint at least where it was.
pub proof fn lemma_hints_never_shrink(
    before: Map<Seq<char>, usize>,
    after: Map<Seq<char>, usize>,
    kind_name: Seq<char>,
    len: nat,
    other: Seq<char>,
)
    requires
        hints_in_range(before),
        after == before.insert(
            kind_name,
            if before.contains_key(kind_name) && before[kind_name] >= capacity_hint_for(len) {
                before[kind_name]
            } else {
                capacity_hint_for(len) as usize
            },
        ),
        capacity_hint_for(len) <= 256 * 1024,
        capacity_hint_for(len) >= 256,
    ensures
        hint_in(after, other) >= hint_in(before, other),
        hint_in(after, kind_name) >= capacity_hint_for(len),
        hints_in_range(after),
{
}

/// The hint covers what was written, as long as that fits the cap.
pub proof fn lemma_hint_covers_length(len: nat)
    requires
        len <= 256 * 1024,
    ensures
        capacity_hint_for(len) >= len,
        256 <= capacity_hint_for(len) <= 256 * 1024,
{
    let x = if len < 256 {
        256nat
    } else {
        len
    };
    lemma_max_is_two_pow();
    lemma_next_pow2(x);
    lemma_next_pow2_bounded(x, 18);
    lemma_next_pow2_monotone_floor(x);
}

/// From at least 256, the next power of two is at least 256.
proof fn lemma_next_pow2_monotone_floor(x: nat)
    requires
        x >= 256,
    ensures
        next_pow2(x) >= 256,
{
    lemma_next_pow2(x);
}

/// `Vec::capacity`: what the buffer holds room for without reallocating; never less
/// than its length. The number depends on the allocator and is stated no further.
#[verifier::external_body]
fn buffer_capacity(buf: &Vec<u8>) -> (r: usize)
    ensures
        r >= buf@.len(),
{
    buf.capacity()
}

/// The pool of reusable scratch buffers: each pooled buffer is empty, and
/// the pool records the capacity each had when it was given back.
pub struct JsonBufferPool {
    buffers: Vec<Vec<u8>>,
    capacities: Ghost<Seq<usize>>,
}

impl JsonBufferPool {
    #[verifier::type_invariant]
    spec fn well_formed(self) -> bool {
        &&& self.buffers@.len() <= 8
        &&& self.capacities@.len() == self.buffers@.len()
        &&& forall|i: int| 0 <= i < self.buffers@.len() ==> (#[trigger] self.buffers@[i])@.len() == 0
        &&& forall|i: int| 0 <= i < self.capacities@.len() ==> #[trigger] self.capacities@[i] <= MAX_CACHED_JSON_CAPACITY
    }

    /// The pooled buffers' contents, in the order they were given back.
    pub closed spec fn buffers(self) -> Seq<Seq<u8>> {
        self.buffers@.map_values(|b: Vec<u8>| b@)
    }

    /// The capacity each pooled buffer had when it was given back.
    pub closed spec fn capacities(self) -> Seq<usize> {
        self.capacities@
    }

    /// How many buffers the pool holds.
    pub closed spec fn pooled(self) -> nat {
        self.buffers@.len()
    }

    /// An empty pool.
    pub fn new() -> (p: Self)
        ensures
            p.pooled() == 0,
            p.capacities() == Seq::<usize>::empty(),
    {
        JsonBufferPool { buffers: Vec::new(), capacities: Ghost(Seq::empty()) }
    }

    /// Number of pooled buffers (never more than [`MAX_POOLED_JSON_BUFFERS`]);
    /// every pooled buffer is empty, and each has its recorded capacity, none
    /// above the cap.
    pub fn len(&self) -> (n: usize)
        ensures
            n == self.pooled(),
            n <= MAX_POOLED_JSON_BUFFERS,
            self.buffers().len() == n,
            self.capacities().len() == n,
            forall|i: int| 0 <= i < n ==> #[trigger] self.buffers()[i].len() == 0,
            forall|i: int| 0 <= i < n ==> #[trigger] self.capacities()[i] <= MAX_CACHED_JSON_CAPACITY,
    {
        proof {
            use_type_invariant(self);
        }
        self.buffers.len()
    }

    /// Take an empty buffer: the most recently pooled one when there is one,
    /// else a new one. When its capacity falls short of the capacity hint of
    /// `capacity`, that shortfall is reserved on top of the (empty) buffer.
    pub fn acquire(&mut self, capacity: usize) -> (buf: Vec<u8>)
        ensures
            buf@.len() == 0,
            final(self).pooled() == if old(self).pooled() > 0 {
                (old(self).pooled() - 1) as nat
            } else {
                0
            },
            old(self).pooled() > 0 ==> final(self).capacities() == old(self).capacities().drop_last()
                && final(self).buffers() == old(self).buffers().drop_last(),
            old(self).pooled() == 0 ==> final(self).capacities() == old(self).capacities(),
    {
        proof {
            use_type_invariant(&*self);
        }
        let target = next_json_capacity_hint(capacity);
        let mut pool = JsonBufferPool::new();
        std::mem::swap(&mut pool, self);
        let JsonBufferPool { buffers, capacities } = pool;
        let mut buffers = buffers;
        let ghost before = buffers@;
        let ghost caps = capacities@;
        let popped = buffers.pop();
        let mut buf = match popped {
            Some(b) => b,
            None => Vec::new(),
        };
        buf.clear();
        let cap = buffer_capacity(&buf);
        if cap < target {
            buf.reserve(target - cap);
        }
        proof {
            assert forall|i: int| 0 <= i < buffers@.len() implies (#[trigger] buffers@[i])@.len() == 0 by {
                assert(buffers@[i] == before[i]);
            }
        }
        *self = JsonBufferPool {
            buffers,
            capacities: Ghost(if caps.len() > 0 { caps.drop_last() } else { caps }),
        };
        proof {
            if before.len() > 0 {
                assert(self.buffers@ =~= before.drop_last());
                assert(self.buffers@.map_values(|b: Vec<u8>| b@) =~= before.map_values(|b: Vec<u8>| b@).drop_last());
            }
        }
        buf
    }

    /// Give a buffer back: one whose capacity exceeds the cap is dropped, else it
    /// is emptied and kept if the pool has room. Returns whether it was kept.
    pub fn recycle(&mut self, buf: Vec<u8>) -> (kept: bool)
        ensures
            old(self).pooled() >= MAX_POOLED_JSON_BUFFERS ==> !kept,
            buf@.len() > MAX_CACHED_JSON_CAPACITY ==> !kept,
            kept ==> old(self).pooled() < MAX_POOLED_JSON_BUFFERS && final(self).pooled()
                == old(self).pooled() + 1,
            kept ==> final(self).buffers() == old(self).buffers().push(Seq::empty()),
            kept ==> exists|c: usize|
                buf@.len() <= c <= MAX_CACHED_JSON_CAPACITY && final(self).capacities()
                    == old(self).capacities().push(c),
            !kept ==> final(self).pooled() == old(self).pooled() && final(self).buffers()
                == old(self).buffers() && final(self).capacities() == old(self).capacities(),
    {
        let cap = buffer_capacity(&buf);
        self.recycle_with_capacity(buf, cap)
    }

    /// The decision of [`JsonBufferPool::recycle`] for a buffer whose capacity was
    /// observed to be `capacity`: kept exactly when the capacity is within the cap
    /// and the pool has room; a kept buffer is emptied and its capacity recorded.
    pub fn recycle_with_capacity(&mut self, buf: Vec<u8>, capacity: usize) -> (kept: bool)
        ensures
            kept == (capacity <= MAX_CACHED_JSON_CAPACITY && old(self).pooled()
                < MAX_POOLED_JSON_BUFFERS),
            kept ==> final(self).pooled() == old(self).pooled() + 1,
            kept ==> final(self).buffers() == old(self).buffers().push(Seq::empty()),
            kept ==> final(self).capacities() == old(self).capacities().push(capacity),
            !kept ==> final(self).pooled() == old(self).pooled() && final(self).buffers()
                == old(self).buffers() && final(self).capacities() == old(self).capacities(),
    {
        proof {
            use_type_invariant(&*self);
        }
        if capacity > MAX_CACHED_JSON_CAPACITY {
            return false;
        }
        let mut b = buf;
        b.clear();
        if self.buffers.len() < MAX_POOLED_JSON_BUFFERS {
            let mut pool = JsonBufferPool::new();
            std::mem::swap(&mut pool, self);
            let JsonBufferPool { buffers, capacities } = pool;
            let mut buffers = buffers;
            let ghost before = buffers@;
            let ghost caps = capacities@;
            buffers.push(b);
            *self = JsonBufferPool { buffers, capacities: Ghost(caps.push(capacity)) };
            proof {
                assert(self.buffers@.map_values(|v: Vec<u8>| v@) =~= before.map_values(|v: Vec<u8>| v@).push(Seq::empty()));
            }
            true
        } else {
            false
        }
    }
}

} // verus!
