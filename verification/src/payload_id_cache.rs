//! A bounded cache from the parameters of a forkchoice call to the payload identifier that the
//! endpoint returned for it, evicting the least recently used entry when it is full.

use crate::engine_api::{
    EngineApiError, ForkchoiceState, ForkchoiceUpdatedResponse, PayloadAttributes, PayloadId,
};
use crate::primitives::ExecutionBlockHash;
use lru::LruCache;
use vstd::prelude::*;

verus! {

/// The number of payload identifiers that are kept.
///
/// An entry is small, so a large number is used for safety.
pub const PAYLOAD_ID_LRU_CACHE_SIZE: usize = 512;

/// What a payload identifier is filed under.
#[derive(Copy, Clone, Hash, PartialEq, Eq, Debug)]
pub struct PayloadIdCacheKey {
    pub head_block_hash: ExecutionBlockHash,
    pub payload_attributes: PayloadAttributes,
}

impl PayloadIdCacheKey {
    /// The key for a forkchoice update to this head with these attributes.
    pub fn new(head_block_hash: &ExecutionBlockHash, attributes: &PayloadAttributes) -> (key:
        PayloadIdCacheKey)
        ensures
            key.head_block_hash == *head_block_hash,
            key.payload_attributes == *attributes,
    {
        PayloadIdCacheKey {
            head_block_hash: *head_block_hash,
            payload_attributes: attributes.clone(),
        }
    }
}

/// `lru::LruCache`. Nothing of its inside is known here.
#[verifier::external_type_specification]
#[verifier::external_body]
#[verifier::reject_recursive_types(K)]
#[verifier::reject_recursive_types(V)]
#[verifier::reject_recursive_types(S)]
pub struct ExLruCache<K, V, S>(LruCache<K, V, S>);

/// `lru::DefaultHasher`, by which a cache hashes its keys unless told otherwise.
#[verifier::external_type_specification]
#[verifier::external_body]
pub struct ExDefaultHasher(lru::DefaultHasher);

/// The entries of `cache`, the most recently used first.
pub uninterp spec fn cache_entries(cache: LruCache<PayloadIdCacheKey, PayloadId>) -> Seq<
    (PayloadIdCacheKey, PayloadId),
>;

/// The number of entries that `cache` was made to hold at most.
pub uninterp spec fn cache_capacity(cache: LruCache<PayloadIdCacheKey, PayloadId>) -> nat;

/// Whether some entry is filed under `key`.
pub open spec fn holds(
    entries: Seq<(PayloadIdCacheKey, PayloadId)>,
    key: PayloadIdCacheKey,
) -> bool {
    exists|i: int| 0 <= i < entries.len() && (#[trigger] entries[i]).0 == key
}

/// The place of an entry filed under `key`.
pub open spec fn position(
    entries: Seq<(PayloadIdCacheKey, PayloadId)>,
    key: PayloadIdCacheKey,
) -> int {
    choose|i: int| 0 <= i < entries.len() && (#[trigger] entries[i]).0 == key
}

/// No two entries are filed under the same key.
pub open spec fn distinct_keys(entries: Seq<(PayloadIdCacheKey, PayloadId)>) -> bool {
    forall|i: int, j: int|
        0 <= i < j < entries.len() ==> (#[trigger] entries[i]).0 != (#[trigger] entries[j]).0
}

/// What holds of the entries of a payload identifier cache at all times: there are no more of
/// them than the cache may hold, and no two are filed under the same key.
pub open spec fn bounded(entries: Seq<(PayloadIdCacheKey, PayloadId)>) -> bool {
    entries.len() <= PAYLOAD_ID_LRU_CACHE_SIZE && distinct_keys(entries)
}

/// The identifier filed under `key`, if there is one.
pub open spec fn lookup(
    entries: Seq<(PayloadIdCacheKey, PayloadId)>,
    key: PayloadIdCacheKey,
) -> Option<PayloadId> {
    if holds(entries, key) {
        Some(entries[position(entries, key)].1)
    } else {
        None
    }
}

/// The entries after `key` was used: its entry, if there is one, has moved to the front.
pub open spec fn touched(
    entries: Seq<(PayloadIdCacheKey, PayloadId)>,
    key: PayloadIdCacheKey,
) -> Seq<(PayloadIdCacheKey, PayloadId)> {
    if holds(entries, key) {
        let at = position(entries, key);
        seq![entries[at]] + entries.remove(at)
    } else {
        entries
    }
}

/// The entries after `id` was filed under `key` in a cache that holds at most `capacity` of
/// them. The new entry stands at the front. It replaces the entry that was filed under `key`;
/// where there was none and the cache was full, the entry at the back, which is the one that
/// was used least recently, has left.
pub open spec fn inserted(
    entries: Seq<(PayloadIdCacheKey, PayloadId)>,
    capacity: nat,
    key: PayloadIdCacheKey,
    id: PayloadId,
) -> Seq<(PayloadIdCacheKey, PayloadId)> {
    if holds(entries, key) {
        seq![(key, id)] + entries.remove(position(entries, key))
    } else if entries.len() == capacity {
        seq![(key, id)] + entries.drop_last()
    } else {
        seq![(key, id)] + entries
    }
}

/// Whether filing something under `key` pushes the entry at the back out: the key is new and
/// the cache is full.
pub open spec fn evicts(
    entries: Seq<(PayloadIdCacheKey, PayloadId)>,
    capacity: nat,
    key: PayloadIdCacheKey,
) -> bool {
    !holds(entries, key) && entries.len() == capacity
}

/// `lru::LruCache::new`: an empty cache that holds at most `capacity` entries. Room for that
/// many is set aside at once, so that no more is asked for than the cache of payload
/// identifiers needs.
#[verifier::external_body]
fn new_lru(capacity: usize) -> (cache: LruCache<PayloadIdCacheKey, PayloadId>)
    requires
        0 < capacity <= PAYLOAD_ID_LRU_CACHE_SIZE,
    ensures
        cache_entries(cache) == Seq::<(PayloadIdCacheKey, PayloadId)>::empty(),
        cache_capacity(cache) == capacity,
{
    LruCache::new(std::num::NonZeroUsize::new(capacity).unwrap())
}

/// `lru::LruCache::get`: a copy of the identifier filed under `key`, whose entry moves to the
/// front; nothing, and no change, where there is no such entry.
#[verifier::external_body]
fn lru_get(
    cache: &mut LruCache<PayloadIdCacheKey, PayloadId>,
    key: &PayloadIdCacheKey,
) -> (found: Option<PayloadId>)
    ensures
        found == lookup(cache_entries(*old(cache)), *key),
        cache_entries(*final(cache)) == touched(cache_entries(*old(cache)), *key),
        cache_capacity(*final(cache)) == cache_capacity(*old(cache)),
    no_unwind
{
    cache.get(key).cloned()
}

/// `lru::LruCache::put`: files `id` under `key` at the front, in place of the entry that was
/// filed under `key` or, where there was none and the cache was full, of the entry at the
/// back.
#[verifier::external_body]
fn lru_put(
    cache: &mut LruCache<PayloadIdCacheKey, PayloadId>,
    key: PayloadIdCacheKey,
    id: PayloadId,
)
    ensures
        cache_entries(*final(cache)) == inserted(
            cache_entries(*old(cache)),
            cache_capacity(*old(cache)),
            key,
            id,
        ),
        cache_capacity(*final(cache)) == cache_capacity(*old(cache)),
    no_unwind
{
    cache.put(key, id);
}

/// `lru::LruCache::len`: the number of entries.
#[verifier::external_body]
fn lru_len(cache: &LruCache<PayloadIdCacheKey, PayloadId>) -> (len: usize)
    ensures
        len == cache_entries(*cache).len(),
{
    cache.len()
}

/// The payload identifiers that the endpoint has handed out, by the forkchoice call that asked
/// for each. It is filled as a side effect of forkchoice updates and never cleared: entries
/// leave only when newer ones need the room.
pub struct PayloadIdCache {
    cache: LruCache<PayloadIdCacheKey, PayloadId>,
}

impl View for PayloadIdCache {
    type V = Seq<(PayloadIdCacheKey, PayloadId)>;

    /// The entries, the most recently used first.
    closed spec fn view(&self) -> Seq<(PayloadIdCacheKey, PayloadId)> {
        cache_entries(self.cache)
    }
}

impl PayloadIdCache {
    #[verifier::type_invariant]
    spec fn inv(self) -> bool {
        &&& cache_capacity(self.cache) == PAYLOAD_ID_LRU_CACHE_SIZE
        &&& bounded(self@)
    }

    /// An empty cache.
    pub fn new() -> (cache: PayloadIdCache)
        ensures
            cache@ == Seq::<(PayloadIdCacheKey, PayloadId)>::empty(),
            bounded(cache@),
    {
        PayloadIdCache { cache: new_lru(PAYLOAD_ID_LRU_CACHE_SIZE) }
    }

    /// The number of entries.
    pub fn len(&self) -> (len: usize)
        ensures
            len == self@.len(),
            len <= PAYLOAD_ID_LRU_CACHE_SIZE,
            bounded(self@),
    {
        proof {
            use_type_invariant(self);
        }
        lru_len(&self.cache)
    }

    /// Returns a copy of the identifier filed under the head hash and the attributes, if there
    /// is one, and counts this as a use of the entry.
    pub fn get(
        &mut self,
        head_block_hash: &ExecutionBlockHash,
        payload_attributes: &PayloadAttributes,
    ) -> (found: Option<PayloadId>)
        ensures
            found == lookup(
                old(self)@,
                (PayloadIdCacheKey {
                    head_block_hash: *head_block_hash,
                    payload_attributes: *payload_attributes,
                }),
            ),
            final(self)@ == touched(
                old(self)@,
                (PayloadIdCacheKey {
                    head_block_hash: *head_block_hash,
                    payload_attributes: *payload_attributes,
                }),
            ),
            bounded(old(self)@),
            bounded(final(self)@),
        no_unwind
    {
        proof {
            use_type_invariant(&*self);
        }
        let key = PayloadIdCacheKey {
            head_block_hash: *head_block_hash,
            payload_attributes: *payload_attributes,
        };
        proof {
            lemma_touched_keeps_contents(self@, key, key);
        }
        lru_get(&mut self.cache, &key)
    }

    /// Files `id` under `key` as the most recently used entry. An entry that was filed under
    /// `key` is replaced; otherwise, where the cache is full, the least recently used entry
    /// leaves.
    pub fn put(&mut self, key: PayloadIdCacheKey, id: PayloadId)
        ensures
            final(self)@ == inserted(old(self)@, PAYLOAD_ID_LRU_CACHE_SIZE as nat, key, id),
            bounded(old(self)@),
            bounded(final(self)@),
        no_unwind
    {
        proof {
            use_type_invariant(&*self);
            lemma_inserted_contents(self@, PAYLOAD_ID_LRU_CACHE_SIZE as nat, key, id, key);
        }
        lru_put(&mut self.cache, key, id);
    }
}

/// The payload identifier that an answer to a forkchoice update brings for the cache: the one
/// it carries, where the update went well.
pub open spec fn returned_payload_id(
    response: Result<ForkchoiceUpdatedResponse, EngineApiError>,
) -> Option<PayloadId> {
    match response {
        Ok(answer) => answer.payload_id,
        Err(_) => None,
    }
}

impl PayloadIdCache {
    /// Takes note of the engine's answer to a forkchoice update that was made with
    /// `forkchoice_state` and `payload_attributes`, and hands the answer back as it is.
    ///
    /// A payload identifier in the answer is filed under the head and the attributes. Where the
    /// update was made without attributes there is nothing to file it under: it is dropped, and
    /// returned beside the answer so that the caller can report it.
    pub fn notify_forkchoice_updated(
        &mut self,
        forkchoice_state: ForkchoiceState,
        payload_attributes: Option<PayloadAttributes>,
        response: Result<ForkchoiceUpdatedResponse, EngineApiError>,
    ) -> (out: (Result<ForkchoiceUpdatedResponse, EngineApiError>, Option<PayloadId>))
        ensures
            out.0 == response,
            out.1 == if payload_attributes is None {
                returned_payload_id(response)
            } else {
                None
            },
            final(self)@ == match (returned_payload_id(response), payload_attributes) {
                (Some(payload_id), Some(attributes)) => inserted(
                    old(self)@,
                    PAYLOAD_ID_LRU_CACHE_SIZE as nat,
                    (PayloadIdCacheKey {
                        head_block_hash: forkchoice_state.head_block_hash,
                        payload_attributes: attributes,
                    }),
                    payload_id,
                ),
                _ => old(self)@,
            },
            bounded(old(self)@),
            bounded(final(self)@),
        no_unwind
    {
        proof {
            use_type_invariant(&*self);
        }
        let mut unexpected: Option<PayloadId> = None;
        if let Ok(answer) = &response {
            if let Some(payload_id) = answer.payload_id {
                if let Some(attributes) = payload_attributes {
                    let key = PayloadIdCacheKey {
                        head_block_hash: forkchoice_state.head_block_hash,
                        payload_attributes: attributes,
                    };
                    self.put(key, payload_id);
                } else {
                    unexpected = Some(payload_id);
                }
            }
        }
        (response, unexpected)
    }
}

/// Where the entry at place `at` of the touched or re-filed entries stood before the entry at
/// `from` moved to the front.
spec fn origin(from: int, at: int) -> int {
    if at == 0 {
        from
    } else if at - 1 < from {
        at - 1
    } else {
        at
    }
}

/// Under distinct keys an entry filed under `key` is the one that `position` and `lookup`
/// find.
pub proof fn lemma_found_at(
    entries: Seq<(PayloadIdCacheKey, PayloadId)>,
    key: PayloadIdCacheKey,
    at: int,
)
    requires
        distinct_keys(entries),
        0 <= at < entries.len(),
        entries[at].0 == key,
    ensures
        holds(entries, key),
        position(entries, key) == at,
        lookup(entries, key) == Some(entries[at].1),
{
    let found = position(entries, key);
    assert(0 <= found < entries.len() && entries[found].0 == key);
    if found < at {
        assert(entries[found].0 != entries[at].0);
    } else if at < found {
        assert(entries[at].0 != entries[found].0);
    }
}

/// Using a key reorders the entries and does nothing else: the keys stay distinct, the number
/// of entries stays, and every key finds what it found before.
pub proof fn lemma_touched_keeps_contents(
    entries: Seq<(PayloadIdCacheKey, PayloadId)>,
    key: PayloadIdCacheKey,
    other: PayloadIdCacheKey,
)
    requires
        distinct_keys(entries),
    ensures
        distinct_keys(touched(entries, key)),
        touched(entries, key).len() == entries.len(),
        lookup(touched(entries, key), other) == lookup(entries, other),
        holds(entries, key) ==> touched(entries, key)[0] == entries[position(entries, key)],
{
    if holds(entries, key) {
        let from = position(entries, key);
        let after = touched(entries, key);
        assert(0 <= from < entries.len() && entries[from].0 == key);
        assert(after.len() == entries.len());
        assert forall|at: int| 0 <= at < after.len() implies #[trigger] after[at] == entries[origin(
            from,
            at,
        )] by {}
        assert forall|i: int, j: int| 0 <= i < j < after.len() implies (#[trigger] after[i]).0 != (
        #[trigger] after[j]).0 by {
            let a = origin(from, i);
            let b = origin(from, j);
            assert(a != b);
            if a < b {
                assert(entries[a].0 != entries[b].0);
            } else {
                assert(entries[b].0 != entries[a].0);
            }
        }
        if holds(entries, other) {
            let was = position(entries, other);
            assert(0 <= was < entries.len() && entries[was].0 == other);
            let now = if was == from {
                0
            } else if was < from {
                was + 1
            } else {
                was
            };
            assert(origin(from, now) == was);
            assert(after[now] == entries[was]);
            lemma_found_at(after, other, now);
        } else if holds(after, other) {
            let now = position(after, other);
            assert(0 <= now < after.len() && after[now].0 == other);
            assert(entries[origin(from, now)].0 == other);
        }
    }
}

/// What filing an identifier does under distinct keys and within the capacity: the keys stay
/// distinct and the capacity is kept; the key finds the new identifier; the key at the back
/// is lost exactly when the key is new and the cache was full; every other key finds what it
/// found before.
pub proof fn lemma_inserted_contents(
    entries: Seq<(PayloadIdCacheKey, PayloadId)>,
    capacity: nat,
    key: PayloadIdCacheKey,
    id: PayloadId,
    other: PayloadIdCacheKey,
)
    requires
        distinct_keys(entries),
        entries.len() <= capacity,
        capacity > 0,
    ensures
        distinct_keys(inserted(entries, capacity, key, id)),
        inserted(entries, capacity, key, id).len() <= capacity,
        inserted(entries, capacity, key, id)[0] == (key, id),
        lookup(inserted(entries, capacity, key, id), key) == Some(id),
        other != key ==> lookup(inserted(entries, capacity, key, id), other) == if evicts(
            entries,
            capacity,
            key,
        ) && other == entries.last().0 {
            None
        } else {
            lookup(entries, other)
        },
{
    let after = inserted(entries, capacity, key, id);
    if holds(entries, key) {
        let from = position(entries, key);
        assert(0 <= from < entries.len() && entries[from].0 == key);
        assert(after.len() == entries.len());
        assert forall|at: int| 1 <= at < after.len() implies #[trigger] after[at] == entries[origin(
            from,
            at,
        )] by {}
        assert forall|i: int, j: int| 0 <= i < j < after.len() implies (#[trigger] after[i]).0 != (
        #[trigger] after[j]).0 by {
            let a = origin(from, i);
            let b = origin(from, j);
            assert(a != b);
            assert(after[i].0 == entries[a].0);
            if a < b {
                assert(entries[a].0 != entries[b].0);
            } else {
                assert(entries[b].0 != entries[a].0);
            }
        }
        lemma_found_at(after, key, 0);
        if other != key {
            if holds(entries, other) {
                let was = position(entries, other);
                assert(0 <= was < entries.len() && entries[was].0 == other);
                let now = if was < from {
                    was + 1
                } else {
                    was
                };
                assert(origin(from, now) == was);
                assert(after[now] == entries[was]);
                lemma_found_at(after, other, now);
            } else if holds(after, other) {
                let now = position(after, other);
                assert(0 <= now < after.len() && after[now].0 == other);
                assert(entries[origin(from, now)].0 == other);
            }
        }
    } else {
        let kept = if entries.len() == capacity {
            entries.drop_last()
        } else {
            entries
        };
        assert(after == seq![(key, id)] + kept);
        assert forall|at: int| 1 <= at < after.len() implies #[trigger] after[at] == entries[at
            - 1] by {}
        assert forall|i: int, j: int| 0 <= i < j < after.len() implies (#[trigger] after[i]).0 != (
        #[trigger] after[j]).0 by {
            if i == 0 {
                assert(entries[j - 1].0 != key);
            } else {
                assert(entries[i - 1].0 != entries[j - 1].0);
            }
        }
        lemma_found_at(after, key, 0);
        if other != key {
            if holds(entries, other) {
                let was = position(entries, other);
                assert(0 <= was < entries.len() && entries[was].0 == other);
                if was < kept.len() {
                    assert(after[was + 1] == entries[was]);
                    lemma_found_at(after, other, was + 1);
                } else {
                    assert(evicts(entries, capacity, key) && other == entries.last().0);
                    if holds(after, other) {
                        let now = position(after, other);
                        assert(0 <= now < after.len() && after[now].0 == other);
                        assert(entries[now - 1].0 != entries[was].0);
                    }
                }
            } else if holds(after, other) {
                let now = position(after, other);
                assert(0 <= now < after.len() && after[now].0 == other);
                assert(entries[now - 1].0 == other);
            }
        }
    }
}

/// The cache never holds more than it was made for, nor two entries under one key: neither a
/// use nor a filing leads out of that.
pub proof fn lemma_cache_stays_bounded(
    entries: Seq<(PayloadIdCacheKey, PayloadId)>,
    key: PayloadIdCacheKey,
    id: PayloadId,
)
    requires
        bounded(entries),
    ensures
        bounded(touched(entries, key)),
        bounded(inserted(entries, PAYLOAD_ID_LRU_CACHE_SIZE as nat, key, id)),
{
    lemma_touched_keeps_contents(entries, key, key);
    lemma_inserted_contents(entries, PAYLOAD_ID_LRU_CACHE_SIZE as nat, key, id, key);
}

/// An identifier that was filed is found under its key.
pub proof fn lemma_filed_id_is_found(
    entries: Seq<(PayloadIdCacheKey, PayloadId)>,
    key: PayloadIdCacheKey,
    id: PayloadId,
)
    requires
        bounded(entries),
    ensures
        lookup(inserted(entries, PAYLOAD_ID_LRU_CACHE_SIZE as nat, key, id), key) == Some(id),
{
    lemma_inserted_contents(entries, PAYLOAD_ID_LRU_CACHE_SIZE as nat, key, id, key);
}

/// Filing under a new key in a full cache pushes out the entry that was used least recently,
/// and no other: the newcomer stands at the front, the entry at the back is gone, and every
/// other key finds what it found before.
pub proof fn lemma_full_cache_evicts_least_recently_used(
    entries: Seq<(PayloadIdCacheKey, PayloadId)>,
    key: PayloadIdCacheKey,
    id: PayloadId,
    other: PayloadIdCacheKey,
)
    requires
        bounded(entries),
        entries.len() == PAYLOAD_ID_LRU_CACHE_SIZE,
        !holds(entries, key),
    ensures
        inserted(entries, PAYLOAD_ID_LRU_CACHE_SIZE as nat, key, id) == seq![(key, id)]
            + entries.drop_last(),
        inserted(entries, PAYLOAD_ID_LRU_CACHE_SIZE as nat, key, id).len()
            == PAYLOAD_ID_LRU_CACHE_SIZE,
        lookup(inserted(entries, PAYLOAD_ID_LRU_CACHE_SIZE as nat, key, id), entries.last().0)
            == None::<PayloadId>,
        other != key && other != entries.last().0 ==> lookup(
            inserted(entries, PAYLOAD_ID_LRU_CACHE_SIZE as nat, key, id),
            other,
        ) == lookup(entries, other),
{
    let last = entries.last().0;
    assert(last != key);
    lemma_inserted_contents(entries, PAYLOAD_ID_LRU_CACHE_SIZE as nat, key, id, last);
    lemma_inserted_contents(entries, PAYLOAD_ID_LRU_CACHE_SIZE as nat, key, id, other);
}

/// The entries after one use of the cache: after an identifier was filed under a key, or, where
/// `used` names no identifier, after the key was looked up.
pub open spec fn after_use(
    entries: Seq<(PayloadIdCacheKey, PayloadId)>,
    used: (PayloadIdCacheKey, Option<PayloadId>),
) -> Seq<(PayloadIdCacheKey, PayloadId)> {
    match used.1 {
        Some(id) => inserted(entries, PAYLOAD_ID_LRU_CACHE_SIZE as nat, used.0, id),
        None => touched(entries, used.0),
    }
}

/// The entries after a run of uses of the cache, in order.
pub open spec fn after_run(
    entries: Seq<(PayloadIdCacheKey, PayloadId)>,
    run: Seq<(PayloadIdCacheKey, Option<PayloadId>)>,
) -> Seq<(PayloadIdCacheKey, PayloadId)>
    decreases run.len(),
{
    if run.len() == 0 {
        entries
    } else {
        after_use(after_run(entries, run.drop_last()), run.last())
    }
}

/// The keys other than `key` that a run of uses names.
pub open spec fn other_keys(
    run: Seq<(PayloadIdCacheKey, Option<PayloadId>)>,
    key: PayloadIdCacheKey,
) -> Set<PayloadIdCacheKey> {
    Set::new(
        |other: PayloadIdCacheKey|
            other != key && exists|i: int| 0 <= i < run.len() && (#[trigger] run[i]).0 == other,
    )
}

/// The keys of the entries that stand before `place`: those that were used more recently than
/// the entry at `place`.
pub open spec fn keys_ahead(
    entries: Seq<(PayloadIdCacheKey, PayloadId)>,
    place: int,
) -> Set<PayloadIdCacheKey> {
    Set::new(
        |other: PayloadIdCacheKey|
            exists|j: int| 0 <= j < place && (#[trigger] entries[j]).0 == other,
    )
}

/// Whether a run of uses leaves what is filed under `key` alone: it may look the key up, but
/// files nothing under it.
pub open spec fn leaves_alone(
    run: Seq<(PayloadIdCacheKey, Option<PayloadId>)>,
    key: PayloadIdCacheKey,
) -> bool {
    forall|i: int| 0 <= i < run.len() && (#[trigger] run[i]).0 == key ==> run[i].1 is None
}

/// Under distinct keys there are as many keys ahead of a place as there are entries.
proof fn lemma_keys_ahead_len(entries: Seq<(PayloadIdCacheKey, PayloadId)>, place: int)
    requires
        distinct_keys(entries),
        0 <= place <= entries.len(),
    ensures
        keys_ahead(entries, place).finite(),
        keys_ahead(entries, place).len() == place,
    decreases place,
{
    if place == 0 {
        assert(keys_ahead(entries, place) =~= Set::<PayloadIdCacheKey>::empty());
    } else {
        lemma_keys_ahead_len(entries, place - 1);
        let earlier = keys_ahead(entries, place - 1);
        let last = entries[place - 1].0;
        assert(!earlier.contains(last)) by {
            if earlier.contains(last) {
                let j = choose|j: int| 0 <= j < place - 1 && (#[trigger] entries[j]).0 == last;
                assert(entries[j].0 != entries[place - 1].0);
            }
        }
        assert(keys_ahead(entries, place) =~= earlier.insert(last)) by {
            assert forall|other: PayloadIdCacheKey|
                keys_ahead(entries, place).contains(other) implies earlier.insert(last).contains(
                other,
            ) by {
                let j = choose|j: int| 0 <= j < place && (#[trigger] entries[j]).0 == other;
                if j < place - 1 {
                    assert(earlier.contains(other));
                }
            }
            assert forall|other: PayloadIdCacheKey|
                earlier.insert(last).contains(other) implies keys_ahead(entries, place).contains(
                other,
            ) by {
                if other == last {
                    assert(entries[place - 1].0 == other);
                } else {
                    let j = choose|j: int| 0 <= j < place - 1 && (#[trigger] entries[j]).0 == other;
                    assert(entries[j].0 == other);
                }
            }
        }
    }
}

/// A run names finitely many keys, and no fewer than the run without its last use does.
proof fn lemma_other_keys_grow(
    run: Seq<(PayloadIdCacheKey, Option<PayloadId>)>,
    key: PayloadIdCacheKey,
)
    ensures
        other_keys(run, key).finite(),
        run.len() > 0 ==> other_keys(run.drop_last(), key).subset_of(other_keys(run, key)),
        run.len() > 0 && run.last().0 != key ==> other_keys(run, key).contains(run.last().0),
    decreases run.len(),
{
    if run.len() == 0 {
        assert(other_keys(run, key) =~= Set::<PayloadIdCacheKey>::empty());
    } else {
        let earlier = run.drop_last();
        lemma_other_keys_grow(earlier, key);
        let last = run.last().0;
        assert forall|other: PayloadIdCacheKey|
            other_keys(earlier, key).contains(other) implies other_keys(run, key).contains(
            other,
        ) by {
            let i = choose|i: int| 0 <= i < earlier.len() && (#[trigger] earlier[i]).0 == other;
            assert(run[i].0 == other);
        }
        if last != key {
            assert(run[run.len() - 1].0 == last);
            assert(other_keys(run, key) =~= other_keys(earlier, key).insert(last)) by {
                assert forall|other: PayloadIdCacheKey|
                    other_keys(run, key).contains(other) implies other_keys(earlier, key).insert(
                    last,
                ).contains(other) by {
                    let i = choose|i: int| 0 <= i < run.len() && (#[trigger] run[i]).0 == other;
                    if i < run.len() - 1 {
                        assert(earlier[i].0 == other);
                    }
                }
            }
        } else {
            assert(other_keys(run, key) =~= other_keys(earlier, key)) by {
                assert forall|other: PayloadIdCacheKey|
                    other_keys(run, key).contains(other) implies other_keys(earlier, key).contains(
                    other,
                ) by {
                    let i = choose|i: int| 0 <= i < run.len() && (#[trigger] run[i]).0 == other;
                    assert(earlier[i].0 == other);
                }
            }
        }
    }
}

/// One use of the cache that files nothing under `key`, and does not push its entry out, leaves
/// what is filed under `key` as it is, and puts at most the key it names ahead of it.
proof fn lemma_use_keeps_entry(
    entries: Seq<(PayloadIdCacheKey, PayloadId)>,
    key: PayloadIdCacheKey,
    used: (PayloadIdCacheKey, Option<PayloadId>),
)
    requires
        bounded(entries),
        holds(entries, key),
        used.0 == key ==> used.1 is None,
        evicts(entries, PAYLOAD_ID_LRU_CACHE_SIZE as nat, used.0) && used.1 is Some ==> position(
            entries,
            key,
        ) < PAYLOAD_ID_LRU_CACHE_SIZE - 1,
    ensures
        bounded(after_use(entries, used)),
        holds(after_use(entries, used), key),
        lookup(after_use(entries, used), key) == lookup(entries, key),
        keys_ahead(after_use(entries, used), position(after_use(entries, used), key)).subset_of(
            keys_ahead(entries, position(entries, key)).insert(used.0),
        ),
        used.0 == key ==> position(after_use(entries, used), key) == 0,
{
    let capacity = PAYLOAD_ID_LRU_CACHE_SIZE as nat;
    let after = after_use(entries, used);
    let was = position(entries, key);
    assert(0 <= was < entries.len() && entries[was].0 == key);
    lemma_found_at(entries, key, was);
    match used.1 {
        Some(id) => {
            lemma_cache_stays_bounded(entries, used.0, id);
            lemma_inserted_contents(entries, capacity, used.0, id, key);
        },
        None => {
            lemma_touched_keeps_contents(entries, used.0, key);
        },
    }
    if holds(entries, used.0) {
        let from = position(entries, used.0);
        assert(0 <= from < entries.len() && entries[from].0 == used.0);
        assert(after.len() == entries.len());
        assert(after[0].0 == used.0);
        assert forall|at: int| 1 <= at < after.len() implies #[trigger] after[at] == entries[origin(
            from,
            at,
        )] by {}
        if used.0 == key {
            lemma_found_at(after, key, 0);
            assert(keys_ahead(after, 0) =~= Set::<PayloadIdCacheKey>::empty());
        } else {
            let now = if was < from {
                was + 1
            } else {
                was
            };
            assert(origin(from, now) == was);
            assert(after[now] == entries[was]);
            lemma_found_at(after, key, now);
            assert forall|other: PayloadIdCacheKey|
                keys_ahead(after, now).contains(other) implies keys_ahead(entries, was).insert(
                used.0,
            ).contains(other) by {
                let j = choose|j: int| 0 <= j < now && (#[trigger] after[j]).0 == other;
                if j > 0 {
                    assert(after[j] == entries[origin(from, j)]);
                    assert(origin(from, j) < was);
                    assert(entries[origin(from, j)].0 == other);
                }
            }
        }
    } else {
        match used.1 {
            Some(id) => {
                let kept = if entries.len() == capacity {
                    entries.drop_last()
                } else {
                    entries
                };
                assert(after == seq![(used.0, id)] + kept);
                assert(was < kept.len());
                assert forall|at: int| 1 <= at < after.len() implies #[trigger] after[at]
                    == entries[at - 1] by {}
                assert(after[was + 1] == entries[was]);
                lemma_found_at(after, key, was + 1);
                if entries.len() == capacity {
                    assert(entries[was].0 != entries[entries.len() - 1].0);
                }
                assert forall|other: PayloadIdCacheKey|
                    keys_ahead(after, was + 1).contains(other) implies keys_ahead(
                    entries,
                    was,
                ).insert(used.0).contains(other) by {
                    let j = choose|j: int| 0 <= j < was + 1 && (#[trigger] after[j]).0 == other;
                    if j > 0 {
                        assert(after[j] == entries[j - 1]);
                        assert(entries[j - 1].0 == other);
                    }
                }
            },
            None => {
                assert(after == entries);
                assert(keys_ahead(after, was).subset_of(keys_ahead(entries, was).insert(used.0)));
            },
        }
    }
}

/// What is filed under a key outlives the use of other keys, as long as these are few enough.
///
/// Take a cache in which `id` is filed under `key`, and a run of uses that files nothing else
/// under `key`. If the keys that were used more recently than `key` and the other keys that
/// the run names are together fewer than the cache has room for, then `id` is still found
/// under `key` after the run, and the cache is within its bounds.
pub proof fn lemma_entry_outlives_other_keys(
    entries: Seq<(PayloadIdCacheKey, PayloadId)>,
    key: PayloadIdCacheKey,
    id: PayloadId,
    run: Seq<(PayloadIdCacheKey, Option<PayloadId>)>,
)
    requires
        bounded(entries),
        lookup(entries, key) == Some(id),
        leaves_alone(run, key),
        position(entries, key) + other_keys(run, key).len() < PAYLOAD_ID_LRU_CACHE_SIZE,
    ensures
        bounded(after_run(entries, run)),
        lookup(after_run(entries, run), key) == Some(id),
        other_keys(run, key).finite(),
        keys_ahead(after_run(entries, run), position(after_run(entries, run), key)).subset_of(
            keys_ahead(entries, position(entries, key)).union(other_keys(run, key)),
        ),
    decreases run.len(),
{
    let start = position(entries, key);
    assert(holds(entries, key));
    assert(0 <= start < entries.len() && entries[start].0 == key);
    lemma_other_keys_grow(run, key);
    lemma_keys_ahead_len(entries, start);
    if run.len() > 0 {
        let earlier = run.drop_last();
        let used = run.last();
        lemma_other_keys_grow(earlier, key);
        vstd::set_lib::lemma_len_subset(other_keys(earlier, key), other_keys(run, key));
        assert(leaves_alone(earlier, key)) by {
            assert forall|i: int| 0 <= i < earlier.len() && (#[trigger] earlier[i]).0
                == key implies earlier[i].1 is None by {
                assert(run[i].0 == key);
            }
        }
        lemma_entry_outlives_other_keys(entries, key, id, earlier);
        let before = after_run(entries, earlier);
        let was = position(before, key);
        assert(holds(before, key));
        assert(0 <= was < before.len() && before[was].0 == key);
        let ahead = keys_ahead(before, was);
        let all = keys_ahead(entries, start).union(other_keys(run, key));
        lemma_keys_ahead_len(before, was);
        vstd::set_lib::lemma_len_union(keys_ahead(entries, start), other_keys(run, key));
        assert(run[run.len() - 1].0 == key ==> run[run.len() - 1].1 is None);
        if used.0 != key {
            assert(ahead.insert(used.0).subset_of(all));
        }
        if evicts(before, PAYLOAD_ID_LRU_CACHE_SIZE as nat, used.0) && used.1 is Some {
            assert(used.0 != key);
            assert(!ahead.contains(used.0)) by {
                if ahead.contains(used.0) {
                    let j = choose|j: int| 0 <= j < was && (#[trigger] before[j]).0 == used.0;
                    assert(holds(before, used.0));
                }
            }
            vstd::set_lib::lemma_len_subset(ahead.insert(used.0), all);
            assert(ahead.insert(used.0).len() == was + 1);
        }
        lemma_use_keeps_entry(before, key, used);
        let after = after_run(entries, run);
        assert(after == after_use(before, used));
        let now = position(after, key);
        if used.0 == key {
            assert(keys_ahead(after, now) =~= Set::<PayloadIdCacheKey>::empty());
        }
    }
}

/// An identifier that was filed is found under its key until fewer than as many other keys as
/// the cache has room for have been used and nothing else was filed under its key.
pub proof fn lemma_filed_id_outlives_other_keys(
    entries: Seq<(PayloadIdCacheKey, PayloadId)>,
    key: PayloadIdCacheKey,
    id: PayloadId,
    run: Seq<(PayloadIdCacheKey, Option<PayloadId>)>,
)
    requires
        bounded(entries),
        leaves_alone(run, key),
        other_keys(run, key).len() < PAYLOAD_ID_LRU_CACHE_SIZE,
    ensures
        lookup(
            after_run(inserted(entries, PAYLOAD_ID_LRU_CACHE_SIZE as nat, key, id), run),
            key,
        ) == Some(id),
{
    let filed = inserted(entries, PAYLOAD_ID_LRU_CACHE_SIZE as nat, key, id);
    lemma_inserted_contents(entries, PAYLOAD_ID_LRU_CACHE_SIZE as nat, key, id, key);
    lemma_found_at(filed, key, 0);
    lemma_entry_outlives_other_keys(filed, key, id, run);
}

} // verus!
