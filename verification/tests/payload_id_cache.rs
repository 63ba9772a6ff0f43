use execution_layer::engine_api::PayloadAttributes;
use execution_layer::payload_id_cache::{
    PayloadIdCache, PayloadIdCacheKey, PAYLOAD_ID_LRU_CACHE_SIZE,
};
use execution_layer::primitives::{Address, ExecutionBlockHash, Hash256};

fn numbered_attributes(number: u64) -> PayloadAttributes {
    PayloadAttributes {
        timestamp: number,
        prev_randao: Hash256([0; 32]),
        suggested_fee_recipient: Address([0; 20]),
    }
}

fn numbered_key(number: u64) -> PayloadIdCacheKey {
    PayloadIdCacheKey::new(&ExecutionBlockHash([1; 32]), &numbered_attributes(number))
}

fn numbered_id(number: u64) -> [u8; 8] {
    number.to_be_bytes()
}

fn filled_cache() -> PayloadIdCache {
    let mut cache = PayloadIdCache::new();
    for number in 0..512 {
        cache.put(numbered_key(number), numbered_id(number));
    }
    cache
}

#[test]
fn cache_key_holds_head_and_attributes() {
    let key = PayloadIdCacheKey::new(&ExecutionBlockHash([3; 32]), &numbered_attributes(9));
    assert_eq!(key.head_block_hash, ExecutionBlockHash([3; 32]));
    assert_eq!(key.payload_attributes, numbered_attributes(9));
}

#[test]
fn new_cache_is_empty() {
    let mut cache = PayloadIdCache::new();
    assert_eq!(cache.len(), 0);
    assert_eq!(cache.get(&ExecutionBlockHash([1; 32]), &numbered_attributes(0)), None);
    assert_eq!(PAYLOAD_ID_LRU_CACHE_SIZE, 512);
}

#[test]
fn cache_holds_512_entries() {
    let mut cache = filled_cache();
    assert_eq!(cache.len(), 512);
    for number in 0..512 {
        assert_eq!(
            cache.get(&ExecutionBlockHash([1; 32]), &numbered_attributes(number)),
            Some(numbered_id(number))
        );
    }
    assert_eq!(cache.len(), 512);
}

#[test]
fn the_513th_entry_evicts_the_least_recently_used() {
    let mut cache = filled_cache();
    cache.put(numbered_key(512), numbered_id(512));
    assert_eq!(cache.len(), 512);
    let head = ExecutionBlockHash([1; 32]);
    // Entry 0 was filed first and never used since: it is gone.
    assert_eq!(cache.get(&head, &numbered_attributes(0)), None);
    assert_eq!(cache.get(&head, &numbered_attributes(1)), Some(numbered_id(1)));
    assert_eq!(cache.get(&head, &numbered_attributes(511)), Some(numbered_id(511)));
    assert_eq!(cache.get(&head, &numbered_attributes(512)), Some(numbered_id(512)));
}

#[test]
fn a_lookup_counts_as_a_use() {
    let mut cache = filled_cache();
    let head = ExecutionBlockHash([1; 32]);
    // Entry 0 is looked up: entry 1 is now the least recently used.
    assert_eq!(cache.get(&head, &numbered_attributes(0)), Some(numbered_id(0)));
    cache.put(numbered_key(512), numbered_id(512));
    assert_eq!(cache.len(), 512);
    assert_eq!(cache.get(&head, &numbered_attributes(1)), None);
    assert_eq!(cache.get(&head, &numbered_attributes(0)), Some(numbered_id(0)));
    assert_eq!(cache.get(&head, &numbered_attributes(2)), Some(numbered_id(2)));
}

#[test]
fn a_failed_lookup_changes_nothing() {
    let mut cache = filled_cache();
    let head = ExecutionBlockHash([1; 32]);
    assert_eq!(cache.get(&head, &numbered_attributes(9999)), None);
    cache.put(numbered_key(512), numbered_id(512));
    assert_eq!(cache.get(&head, &numbered_attributes(0)), None);
    assert_eq!(cache.get(&head, &numbered_attributes(1)), Some(numbered_id(1)));
}

#[test]
fn filing_under_a_known_key_replaces_and_evicts_nothing() {
    let mut cache = filled_cache();
    let head = ExecutionBlockHash([1; 32]);
    cache.put(numbered_key(0), [0xff; 8]);
    assert_eq!(cache.len(), 512);
    // Entry 0 is now the most recently used: the next newcomer pushes entry 1 out.
    cache.put(numbered_key(600), numbered_id(600));
    assert_eq!(cache.get(&head, &numbered_attributes(0)), Some([0xff; 8]));
    assert_eq!(cache.get(&head, &numbered_attributes(1)), None);
    assert_eq!(cache.get(&head, &numbered_attributes(2)), Some(numbered_id(2)));
    assert_eq!(cache.len(), 512);
}

#[test]
fn an_identifier_outlives_fewer_than_512_other_keys() {
    let head = ExecutionBlockHash([1; 32]);
    let mut cache = PayloadIdCache::new();
    cache.put(numbered_key(0), numbered_id(0));
    // 511 other keys are used, many of them more than once, filed and looked up in turn.
    for round in 0..3 {
        for number in 1..512 {
            cache.put(numbered_key(number), numbered_id(number + round));
            assert_eq!(
                cache.get(&head, &numbered_attributes(number)),
                Some(numbered_id(number + round))
            );
        }
        // Looking up a key that was never filed names it, and changes nothing.
        assert_eq!(cache.get(&head, &numbered_attributes(100_000 + round)), None);
    }
    assert_eq!(cache.len(), 512);
    assert_eq!(cache.get(&head, &numbered_attributes(0)), Some(numbered_id(0)));

    // Entry 0 is the most recently used again. After 511 newcomers it is the least recently
    // used and still there; one more pushes it out.
    for number in 1000..1511 {
        cache.put(numbered_key(number), numbered_id(number));
    }
    assert_eq!(cache.len(), 512);
    cache.put(numbered_key(2000), numbered_id(2000));
    assert_eq!(cache.get(&head, &numbered_attributes(0)), None);
}
