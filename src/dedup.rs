//! The bounded set of recently seen message ids, kept in an LRU cache.

use vstd::prelude::*;
use std::collections::hash_map::RandomState;

verus! {

/// How many message ids the node remembers.
pub const SEEN_CAPACITY: usize = 1000;

#[verifier::external_type_specification]
#[verifier::external_body]
#[verifier::reject_recursive_types(K)]
#[verifier::reject_recursive_types(V)]
#[verifier::reject_recursive_types(S)]
pub struct ExLruCache<K, V, S>(lru::LruCache<K, V, S>);

/// The keys a cache holds, least recently used first.
pub uninterp spec fn lru_keys(c: lru::LruCache<[u8; 16], (), RandomState>) -> Seq<[u8; 16]>;

/// The capacity a cache was made with.
pub uninterp spec fn lru_capacity(c: lru::LruCache<[u8; 16], (), RandomState>) -> nat;

/// Relies on lru::LruCache::with_hasher: an empty cache of the given capacity.
#[verifier::external_body]
fn lru_new(capacity: usize) -> (r: lru::LruCache<[u8; 16], (), RandomState>)
    requires
        capacity > 0,
    ensures
        lru_keys(r) == Seq::<[u8; 16]>::empty(),
        lru_capacity(r) == capacity,
{
    lru::LruCache::with_hasher(std::num::NonZeroUsize::new(capacity).unwrap(), RandomState::new())
}

/// Relies on lru::LruCache::contains, which looks a key up without changing
/// the order of use.
#[verifier::external_body]
fn lru_contains(c: &lru::LruCache<[u8; 16], (), RandomState>, key: &[u8; 16]) -> (r: bool)
    ensures
        r == lru_keys(*c).contains(*key),
{
    c.contains(key)
}

/// Relies on lru::LruCache::put for a key that is not in the cache: the key
/// becomes the most recently used one, and when the cache is full the least
/// recently used key leaves.
#[verifier::external_body]
fn lru_put(c: &mut lru::LruCache<[u8; 16], (), RandomState>, key: [u8; 16])
    requires
        !lru_keys(*old(c)).contains(key),
        lru_keys(*old(c)).len() <= lru_capacity(*old(c)),
    ensures
        lru_capacity(*final(c)) == lru_capacity(*old(c)),
        lru_keys(*old(c)).len() < lru_capacity(*old(c)) ==> lru_keys(*final(c)) == lru_keys(
            *old(c),
        ).push(key),
        lru_keys(*old(c)).len() == lru_capacity(*old(c)) ==> lru_keys(*final(c)) == lru_keys(
            *old(c),
        ).drop_first().push(key),
{
    c.put(key, ());
}

/// Relies on lru::LruCache::len: the number of keys held.
#[verifier::external_body]
fn lru_len(c: &lru::LruCache<[u8; 16], (), RandomState>) -> (r: usize)
    ensures
        r == lru_keys(*c).len(),
{
    c.len()
}

/// The ids remembered after `id` is recorded in a cache holding `seen`
/// (least recently used first) with room for `capacity` ids.
pub open spec fn record(seen: Seq<[u8; 16]>, id: [u8; 16], capacity: nat) -> Seq<[u8; 16]> {
    if seen.contains(id) {
        seen
    } else if seen.len() < capacity {
        seen.push(id)
    } else {
        seen.drop_first().push(id)
    }
}

/// Recently seen message ids, at most `SEEN_CAPACITY` of them.
pub struct SeenMessages {
    cache: lru::LruCache<[u8; 16], (), RandomState>,
}

impl View for SeenMessages {
    type V = Seq<[u8; 16]>;

    /// The remembered ids, least recently recorded first.
    closed spec fn view(&self) -> Seq<[u8; 16]> {
        lru_keys(self.cache)
    }
}

impl SeenMessages {
    pub closed spec fn wf(&self) -> bool {
        &&& lru_capacity(self.cache) == SEEN_CAPACITY
        &&& lru_keys(self.cache).len() <= SEEN_CAPACITY
    }

    pub fn new() -> (r: Self)
        ensures
            r.wf(),
            r@ == Seq::<[u8; 16]>::empty(),
    {
        SeenMessages { cache: lru_new(SEEN_CAPACITY) }
    }

    /// Records `id`; `true` when it was not remembered before, that is when
    /// the message it names is delivered for the first time.
    pub fn check_and_insert(&mut self, id: [u8; 16]) -> (r: bool)
        requires
            old(self).wf(),
        ensures
            final(self).wf(),
            r == !old(self)@.contains(id),
            final(self)@ == record(old(self)@, id, SEEN_CAPACITY as nat),
    {
        if lru_contains(&self.cache, &id) {
            false
        } else {
            lru_put(&mut self.cache, id);
            true
        }
    }

    pub fn contains(&self, id: &[u8; 16]) -> (r: bool)
        ensures
            r == self@.contains(*id),
    {
        lru_contains(&self.cache, id)
    }

    pub fn len(&self) -> (r: usize)
        requires
            self.wf(),
        ensures
            r == self@.len(),
            r <= SEEN_CAPACITY,
    {
        lru_len(&self.cache)
    }

    /// A well-formed set holds at most `SEEN_CAPACITY` ids.
    pub proof fn lemma_wf_bound(&self)
        requires
            self.wf(),
        ensures
            self@.len() <= SEEN_CAPACITY,
    {
    }
}

/// Recording an id never lets the remembered ids outgrow the capacity.
pub proof fn lemma_record_bounded(seen: Seq<[u8; 16]>, id: [u8; 16], capacity: nat)
    requires
        capacity > 0,
        seen.len() <= capacity,
    ensures
        record(seen, id, capacity).len() <= capacity,
{
}

/// A recorded id is remembered, so the same id arriving again right after is
/// a duplicate and leaves the remembered ids as they are.
pub proof fn lemma_repeat_is_duplicate(seen: Seq<[u8; 16]>, id: [u8; 16], capacity: nat)
    requires
        capacity > 0,
        seen.len() <= capacity,
    ensures
        record(seen, id, capacity).contains(id),
        record(record(seen, id, capacity), id, capacity) == record(seen, id, capacity),
{
    let r = record(seen, id, capacity);
    if !seen.contains(id) {
        assert(r[r.len() - 1] == id);
    }
}

} // verus!
