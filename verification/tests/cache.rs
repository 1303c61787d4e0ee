use tx_replay::backend::{
    AccountInfo, BackendError, CachingBackend, Lookup, StateBackend, StateCache,
};
use tx_replay::primitives::{B160, RU256};

fn address(byte: u8) -> B160 {
    B160([byte; 20])
}

fn word(value: u64) -> RU256 {
    RU256::from_u64(value)
}

#[test]
fn fresh_cache_misses_everything() {
    let cache = StateCache::new();
    assert_eq!(cache.storage(&address(1), &word(0)), Lookup::Miss);
    assert_eq!(cache.account(&address(1)), Lookup::Miss);
}

#[test]
fn second_request_for_a_slot_is_a_hit() {
    let mut cache = StateCache::new();
    let mut fetches = 0;
    for _ in 0..2 {
        match cache.storage(&address(1), &word(5)) {
            Lookup::Hit(value) => assert_eq!(value, word(99)),
            Lookup::Miss => {
                fetches += 1;
                cache.record_storage(address(1), word(5), word(99));
            }
        }
    }
    assert_eq!(fetches, 1);
}

#[test]
fn many_requests_fetch_each_slot_once() {
    let mut cache = StateCache::new();
    let requests = [(1u8, 5u64), (2, 5), (1, 5), (1, 6), (2, 5), (1, 6), (1, 5)];
    let mut fetched = Vec::new();
    for (a, k) in requests {
        match cache.storage(&address(a), &word(k)) {
            Lookup::Hit(value) => assert_eq!(value, word(a as u64 * 1000 + k)),
            Lookup::Miss => {
                fetched.push((a, k));
                cache.record_storage(address(a), word(k), word(a as u64 * 1000 + k));
            }
        }
    }
    assert_eq!(fetched, vec![(1, 5), (2, 5), (1, 6)]);
}

#[test]
fn slots_are_told_apart_by_address_and_key() {
    let mut cache = StateCache::new();
    cache.record_storage(address(1), word(5), word(99));
    assert_eq!(cache.storage(&address(1), &word(5)), Lookup::Hit(word(99)));
    assert_eq!(cache.storage(&address(2), &word(5)), Lookup::Miss);
    assert_eq!(cache.storage(&address(1), &word(4)), Lookup::Miss);
    assert_eq!(cache.storage(&address(1), &RU256([5, 1, 0, 0])), Lookup::Miss);
}

#[test]
fn zero_value_is_remembered_too() {
    let mut cache = StateCache::new();
    cache.record_storage(address(1), word(5), RU256::zero());
    assert_eq!(cache.storage(&address(1), &word(5)), Lookup::Hit(RU256::zero()));
}

#[test]
fn later_recording_replaces_earlier() {
    let mut cache = StateCache::new();
    cache.record_storage(address(1), word(5), word(1));
    cache.record_storage(address(1), word(6), word(2));
    cache.record_storage(address(1), word(5), word(3));
    assert_eq!(cache.storage(&address(1), &word(5)), Lookup::Hit(word(3)));
    assert_eq!(cache.storage(&address(1), &word(6)), Lookup::Hit(word(2)));
}

#[test]
fn account_is_remembered() {
    let mut cache = StateCache::new();
    let info = AccountInfo { balance: word(10), nonce: 3, code: Some(vec![0x60, 0x00]) };
    cache.record_account(address(1), Some(info.clone()));
    assert_eq!(cache.account(&address(1)), Lookup::Hit(&Some(info)));
    assert_eq!(cache.account(&address(2)), Lookup::Miss);
}

#[test]
fn missing_account_is_remembered_as_missing() {
    let mut cache = StateCache::new();
    cache.record_account(address(1), None);
    assert_eq!(cache.account(&address(1)), Lookup::Hit(&None));
}

#[test]
fn accounts_and_slots_do_not_mix() {
    let mut cache = StateCache::new();
    cache.record_account(address(1), Some(AccountInfo::empty()));
    assert_eq!(cache.storage(&address(1), &word(0)), Lookup::Miss);
    cache.record_storage(address(2), word(0), word(1));
    assert_eq!(cache.account(&address(2)), Lookup::Miss);
    assert_eq!(cache.account(&address(1)), Lookup::Hit(&Some(AccountInfo::empty())));
}

#[test]
fn empty_account_has_nothing() {
    assert_eq!(AccountInfo::empty(), AccountInfo { balance: RU256::zero(), nonce: 0, code: None });
}

#[test]
fn fetched_value_is_settled_into_the_cache() {
    let mut cache = StateCache::new();
    assert_eq!(cache.settle_storage(address(1), word(5), Ok(word(8))), Ok(word(8)));
    assert_eq!(cache.storage(&address(1), &word(5)), Lookup::Hit(word(8)));
}

#[test]
fn fetched_account_is_settled_into_the_cache() {
    let mut cache = StateCache::new();
    let info = AccountInfo { balance: word(3), nonce: 2, code: None };
    assert_eq!(cache.settle_account(address(1), Ok(Some(info.clone()))), Ok(Some(info.clone())));
    assert_eq!(cache.account(&address(1)), Lookup::Hit(&Some(info)));
    assert_eq!(cache.settle_account(address(2), Ok(None)), Ok(None));
    assert_eq!(cache.account(&address(2)), Lookup::Hit(&None));
    assert_eq!(cache.settle_account(address(3), Err(BackendError::NotFound)), Err(BackendError::NotFound));
    assert_eq!(cache.account(&address(3)), Lookup::Miss);
}

#[test]
fn failed_fetch_is_handed_on_and_not_remembered() {
    let mut cache = StateCache::new();
    assert_eq!(
        cache.settle_storage(address(1), word(5), Err(BackendError::Unavailable)),
        Err(BackendError::Unavailable)
    );
    assert_eq!(
        cache.settle_storage(address(1), word(5), Err(BackendError::NotFound)),
        Err(BackendError::NotFound)
    );
    assert_eq!(cache.storage(&address(1), &word(5)), Lookup::Miss);
}

/// A backend that answers from a fixed rule and keeps a list of what it was asked.
struct Node {
    down: bool,
    accounts_asked: Vec<B160>,
    slots_asked: Vec<(B160, RU256)>,
}

impl Node {
    fn up() -> Self {
        Node { down: false, accounts_asked: Vec::new(), slots_asked: Vec::new() }
    }
}

impl StateBackend for Node {
    fn basic(&mut self, address: &B160) -> Result<Option<AccountInfo>, BackendError> {
        self.accounts_asked.push(*address);
        if self.down {
            return Err(BackendError::Unavailable);
        }
        if address.0[0] == 0 {
            return Ok(None);
        }
        Ok(Some(AccountInfo { balance: word(address.0[0] as u64), nonce: 1, code: Some(vec![address.0[0]]) }))
    }

    fn storage(&mut self, address: &B160, index: &RU256) -> Result<RU256, BackendError> {
        self.slots_asked.push((*address, *index));
        if self.down {
            return Err(BackendError::Unavailable);
        }
        if index.0[3] != 0 {
            return Err(BackendError::NotFound);
        }
        Ok(word(address.0[0] as u64 * 1000 + index.0[0]))
    }
}

#[test]
fn caching_backend_asks_once_for_a_slot() {
    let mut backend = CachingBackend::new(Node::up());
    assert_eq!(backend.fetches(), 0);
    assert_eq!(backend.storage(&address(1), &word(5)), Ok(word(1005)));
    assert_eq!(backend.fetches(), 1);
    assert_eq!(backend.storage(&address(1), &word(5)), Ok(word(1005)));
    assert_eq!(backend.storage(&address(1), &word(5)), Ok(word(1005)));
    assert_eq!(backend.fetches(), 1);
    assert_eq!(backend.into_upstream().slots_asked, vec![(address(1), word(5))]);
}

#[test]
fn caching_backend_keeps_slots_through_other_requests() {
    let mut backend = CachingBackend::new(Node::up());
    let requests = [(1u8, 5u64), (2, 5), (1, 5), (1, 6), (2, 5), (1, 6), (1, 5)];
    for (a, k) in requests {
        assert_eq!(backend.storage(&address(a), &word(k)), Ok(word(a as u64 * 1000 + k)));
    }
    assert_eq!(backend.fetches(), 3);
    assert_eq!(
        backend.into_upstream().slots_asked,
        vec![(address(1), word(5)), (address(2), word(5)), (address(1), word(6))]
    );
}

#[test]
fn caching_backend_asks_once_for_an_account() {
    let mut backend = CachingBackend::new(Node::up());
    let expected = AccountInfo { balance: word(7), nonce: 1, code: Some(vec![7]) };
    assert_eq!(backend.basic(&address(7)), Ok(Some(expected.clone())));
    assert_eq!(backend.basic(&address(7)), Ok(Some(expected)));
    assert_eq!(backend.fetches(), 1);
    assert_eq!(backend.into_upstream().accounts_asked, vec![address(7)]);
}

#[test]
fn caching_backend_remembers_that_an_account_is_missing() {
    let mut backend = CachingBackend::new(Node::up());
    assert_eq!(backend.basic(&address(0)), Ok(None));
    assert_eq!(backend.basic(&address(0)), Ok(None));
    assert_eq!(backend.fetches(), 1);
}

#[test]
fn caching_backend_counts_accounts_and_slots_together() {
    let mut backend = CachingBackend::new(Node::up());
    backend.basic(&address(1)).unwrap();
    backend.storage(&address(1), &word(0)).unwrap();
    backend.basic(&address(1)).unwrap();
    backend.storage(&address(1), &word(0)).unwrap();
    assert_eq!(backend.fetches(), 2);
}

#[test]
fn caching_backend_hands_errors_on_and_asks_again() {
    let mut node = Node::up();
    node.down = true;
    let mut backend = CachingBackend::new(node);
    assert_eq!(backend.storage(&address(1), &word(5)), Err(BackendError::Unavailable));
    assert_eq!(backend.basic(&address(1)), Err(BackendError::Unavailable));
    assert_eq!(backend.storage(&address(1), &word(5)), Err(BackendError::Unavailable));
    assert_eq!(backend.fetches(), 3);
    let node = backend.into_upstream();
    assert_eq!(node.slots_asked.len(), 2);
    assert_eq!(node.accounts_asked.len(), 1);
}

#[test]
fn caching_backend_keeps_not_found_apart_from_unavailable() {
    let mut backend = CachingBackend::new(Node::up());
    assert_eq!(backend.storage(&address(1), &RU256([0, 0, 0, 1])), Err(BackendError::NotFound));
    assert_eq!(backend.storage(&address(1), &word(1)), Ok(word(1001)));
}

#[test]
fn duplicate_is_equal() {
    let info = AccountInfo { balance: RU256([1, 2, 3, 4]), nonce: 9, code: Some(vec![1, 2, 3]) };
    assert_eq!(info.duplicate(), info);
    assert_eq!(AccountInfo::empty().duplicate(), AccountInfo::empty());
}
