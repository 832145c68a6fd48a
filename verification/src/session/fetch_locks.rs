//! Single-flight registry of history fetches: at most one fetch per key.

use vstd::prelude::*;

use crate::request::CacheKey;
use crate::table::{CacheKeyView, Table};

verus! {

/// Hands out a fetch slot per key. Acquirers of the same key get the same slot
/// while somebody holds or awaits it, and so wait for each other; slots of
/// distinct keys differ.
pub struct FetchLocks {
    pub slots: Table<CacheKey, u64>,
    pub next_slot: u64,
}

impl FetchLocks {
    pub open spec fn wf(self) -> bool {
        &&& self.slots.wf()
        &&& forall|a: CacheKeyView, b: CacheKeyView|
            self.slots@.contains_key(a) && self.slots@.contains_key(b) && #[trigger] self.slots@[a]
                == #[trigger] self.slots@[b] ==> a == b
        &&& forall|a: CacheKeyView|
            self.slots@.contains_key(a) ==> #[trigger] self.slots@[a] < self.next_slot
    }

    pub fn new() -> (r: FetchLocks)
        ensures
            r.wf(),
            r.slots@ == Map::<CacheKeyView, u64>::empty(),
            r.next_slot == 0,
    {
        FetchLocks { slots: Table::new(), next_slot: 0 }
    }

    /// The slot last handed out for the key.
    pub fn current(&self, key: &CacheKey) -> (r: Option<u64>)
        requires
            self.wf(),
        ensures
            r is Some <==> self.slots@.contains_key(key@),
            r is Some ==> r->0 == self.slots@[key@],
    {
        match self.slots.get(key) {
            Some(slot) => Some(*slot),
            None => None,
        }
    }

    /// The slot to wait on for `key`: the current one where it is `in_use`,
    /// and a fresh one otherwise.
    pub fn acquire(&mut self, key: &CacheKey, in_use: bool) -> (slot: u64)
        requires
            old(self).wf(),
            old(self).next_slot < u64::MAX,
        ensures
            final(self).wf(),
            acquired(*old(self), key@, in_use, *final(self), slot),
    {
        if in_use {
            if let Some(slot) = self.slots.get(key) {
                let slot: u64 = *slot;
                proof {
                    assert(self.slots@ =~= self.slots@.insert(key@, slot));
                }
                return slot;
            }
        }
        let slot: u64 = self.next_slot;
        self.next_slot += 1;
        self.slots.insert(key.clone(), slot);
        slot
    }
}

/// Distinct keys never contend: they are never given the same slot.
pub proof fn law_distinct_keys_have_distinct_slots(
    locks: FetchLocks,
    a: CacheKeyView,
    b: CacheKeyView,
)
    requires
        locks.wf(),
        locks.slots@.contains_key(a),
        locks.slots@.contains_key(b),
        a != b,
    ensures
        locks.slots@[a] != locks.slots@[b],
{
}

/// What acquiring a key's slot does: the current one where it is in use, and a
/// fresh one otherwise.
pub open spec fn acquired(
    pre: FetchLocks,
    key: CacheKeyView,
    in_use: bool,
    post: FetchLocks,
    slot: u64,
) -> bool {
    &&& post.slots@ == pre.slots@.insert(key, slot)
    &&& if in_use && pre.slots@.contains_key(key) {
        slot == pre.slots@[key] && post.next_slot == pre.next_slot
    } else {
        slot == pre.next_slot && post.next_slot == pre.next_slot + 1
    }
}

/// Two that fetch the same key at the same time wait for each other, and one
/// that fetches another key does not; a slot that nobody uses any more is not
/// waited for.
pub proof fn law_same_fetches_wait_for_each_other(
    pre: FetchLocks,
    a: CacheKeyView,
    b: CacheKeyView,
    first_in_use: bool,
    mid: FetchLocks,
    first: u64,
    in_use: bool,
    post: FetchLocks,
    second: u64,
)
    requires
        pre.wf(),
        acquired(pre, a, first_in_use, mid, first),
        acquired(mid, b, in_use, post, second),
    ensures
        a == b && in_use ==> first == second,
        a == b && !in_use ==> first != second,
        a != b ==> first != second,
{
    if a != b && in_use && mid.slots@.contains_key(b) {
        assert(pre.slots@.contains_key(b));
        assert(pre.slots@[b] < pre.next_slot);
        if first_in_use && pre.slots@.contains_key(a) {
            assert(pre.slots@[a] != pre.slots@[b]);
        }
    }
    if pre.slots@.contains_key(a) {
        assert(pre.slots@[a] < pre.next_slot);
    }
}

} // verus!
