//! The cache of the caching remote backend. It lives for one simulation and remembers every
//! account and every storage slot that was fetched, so that a value is fetched at most once.
//! The cache decides whether a request can be answered; fetching is left to the caller.

use crate::primitives::{B160, RU256};
use vstd::prelude::*;

verus! {

/// Why the backend has no answer.
#[derive(Clone, Copy, Debug, PartialEq, Eq)]
pub enum BackendError {
    /// The backend could not be reached or did not answer in time.
    Unavailable,
    /// The backend answered, and it does not hold what was asked for.
    NotFound,
}

/// Balance, nonce and code of one account.
#[derive(Clone, Debug, PartialEq, Eq)]
pub struct AccountInfo {
    pub balance: RU256,
    pub nonce: u64,
    pub code: Option<Vec<u8>>,
}

/// What is known of one account, in numbers and bytes.
pub struct AccountInfoView {
    pub balance: nat,
    pub nonce: u64,
    pub code: Option<Seq<u8>>,
}

impl View for AccountInfo {
    type V = AccountInfoView;

    open spec fn view(&self) -> AccountInfoView {
        AccountInfoView {
            balance: self.balance@,
            nonce: self.nonce,
            code: match self.code {
                Some(code) => Some(code@),
                None => None,
            },
        }
    }
}

/// What is known of an account that may not exist.
pub open spec fn account_view(account: Option<AccountInfo>) -> Option<AccountInfoView> {
    match account {
        Some(info) => Some(info@),
        None => None,
    }
}

impl AccountInfo {
    /// What an account that does not exist counts as: no balance, nonce zero, no code.
    pub fn empty() -> (info: Self)
        ensures
            info@ == (AccountInfoView { balance: 0, nonce: 0, code: None }),
    {
        AccountInfo { balance: RU256::zero(), nonce: 0, code: None }
    }

    /// A second copy of what is known of the account.
    pub fn duplicate(&self) -> (copy: Self)
        ensures
            copy@ == self@,
    {
        AccountInfo {
            balance: self.balance,
            nonce: self.nonce,
            code: match &self.code {
                Some(code) => Some(code.clone()),
                None => None,
            },
        }
    }
}

/// The answer of the cache to one request.
#[derive(Clone, Copy, Debug, PartialEq, Eq)]
pub enum Lookup<T> {
    /// The value was fetched before; no fetch is needed.
    Hit(T),
    /// The value was never fetched; the caller has to fetch it.
    Miss,
}

/// The identity of a storage slot: the account's address and the slot's key.
pub type SlotKey = (Seq<u8>, nat);

/// What a cache holds: for every account fetched so far what the backend said of it (`None`
/// for an account that does not exist), and for every slot fetched so far its value.
pub struct StateCacheView {
    pub accounts: Map<Seq<u8>, Option<AccountInfoView>>,
    pub storage: Map<SlotKey, nat>,
}

/// Whether a request for `slot` has to go to the backend: it has to exactly when the cache does
/// not hold the slot.
pub open spec fn needs_fetch(cache: Map<SlotKey, nat>, slot: SlotKey) -> bool {
    !cache.contains_key(slot)
}

/// The map that a list of recordings amounts to: a later recording of a key replaces an
/// earlier one.
pub open spec fn recorded<K, V>(entries: Seq<(K, V)>) -> Map<K, V>
    decreases entries.len(),
{
    if entries.len() == 0 {
        Map::empty()
    } else {
        recorded(entries.drop_last()).insert(entries.last().0, entries.last().1)
    }
}

/// A key that no recording has is not in the map.
proof fn lemma_recorded_absent<K, V>(entries: Seq<(K, V)>, key: K)
    requires
        forall|j: int| 0 <= j < entries.len() ==> (#[trigger] entries[j]).0 != key,
    ensures
        !recorded(entries).contains_key(key),
    decreases entries.len(),
{
    if entries.len() > 0 {
        assert(entries.last() == entries[entries.len() - 1]);
        lemma_recorded_absent(entries.drop_last(), key);
    }
}

/// The map gives a key the value of the last recording that has it.
proof fn lemma_recorded_last<K, V>(entries: Seq<(K, V)>, key: K, i: int)
    requires
        0 <= i < entries.len(),
        entries[i].0 == key,
        forall|j: int| i < j < entries.len() ==> (#[trigger] entries[j]).0 != key,
    ensures
        recorded(entries).contains_key(key),
        recorded(entries)[key] == entries[i].1,
    decreases entries.len(),
{
    if i < entries.len() - 1 {
        assert(entries.last() == entries[entries.len() - 1]);
        lemma_recorded_last(entries.drop_last(), key, i);
    }
}

/// The recordings of accounts, each as key and value.
pub open spec fn account_entries(entries: Seq<(B160, Option<AccountInfo>)>) -> Seq<
    (Seq<u8>, Option<AccountInfoView>),
> {
    entries.map_values(|entry: (B160, Option<AccountInfo>)| (entry.0@, account_view(entry.1)))
}

/// The recordings of storage slots, each as key and value.
pub open spec fn slot_entries(entries: Seq<(B160, RU256, RU256)>) -> Seq<(SlotKey, nat)> {
    entries.map_values(|entry: (B160, RU256, RU256)| ((entry.0@, entry.1@), entry.2@))
}

/// The cache of one simulation. It keeps what was fetched as a list of recordings in the order
/// they came and looks a key up from the latest recording back, comparing addresses byte by
/// byte and keys as numbers.
pub struct StateCache {
    accounts: Vec<(B160, Option<AccountInfo>)>,
    slots: Vec<(B160, RU256, RU256)>,
}

impl View for StateCache {
    type V = StateCacheView;

    closed spec fn view(&self) -> StateCacheView {
        StateCacheView {
            accounts: recorded(account_entries(self.accounts@)),
            storage: recorded(slot_entries(self.slots@)),
        }
    }
}

impl StateCache {
    /// The cache at the start of a simulation: nothing was fetched yet.
    pub fn new() -> (cache: Self)
        ensures
            cache@.accounts == Map::<Seq<u8>, Option<AccountInfoView>>::empty(),
            cache@.storage == Map::<SlotKey, nat>::empty(),
    {
        let cache = StateCache { accounts: Vec::new(), slots: Vec::new() };
        assert(account_entries(cache.accounts@) =~= Seq::empty());
        assert(slot_entries(cache.slots@) =~= Seq::empty());
        cache
    }

    /// Answers a request for a storage slot: a hit with the value fetched before, or a miss if
    /// the slot was never fetched in this simulation.
    pub fn storage(&self, address: &B160, index: &RU256) -> (answer: Lookup<RU256>)
        ensures
            answer is Miss <==> needs_fetch(self@.storage, (address@, index@)),
            match answer {
                Lookup::Hit(value) => self@.storage.contains_key((address@, index@))
                    && self@.storage[(address@, index@)] == value@,
                Lookup::Miss => !self@.storage.contains_key((address@, index@)),
            },
    {
        let ghost key: SlotKey = (address@, index@);
        let ghost entries = slot_entries(self.slots@);
        let mut i: usize = self.slots.len();
        while i > 0
            invariant
                i <= self.slots.len(),
                entries == slot_entries(self.slots@),
                key == (address@, index@),
                forall|j: int| i <= j < entries.len() ==> (#[trigger] entries[j]).0 != key,
            decreases i,
        {
            i = i - 1;
            if self.slots[i].0.same(address) && self.slots[i].1.same(index) {
                proof {
                    lemma_recorded_last(entries, key, i as int);
                }
                return Lookup::Hit(self.slots[i].2);
            }
        }
        proof {
            lemma_recorded_absent(entries, key);
        }
        Lookup::Miss
    }

    /// Remembers the value fetched for a storage slot. Nothing else changes.
    pub fn record_storage(&mut self, address: B160, index: RU256, value: RU256)
        ensures
            final(self)@.storage == old(self)@.storage.insert((address@, index@), value@),
            final(self)@.accounts == old(self)@.accounts,
    {
        self.slots.push((address, index, value));
        proof {
            let entries = slot_entries(self.slots@);
            assert(entries.drop_last() =~= slot_entries(old(self).slots@));
        }
    }

    /// Answers a request for an account: a hit with what was fetched before (`None` for an
    /// account that does not exist), or a miss if the account was never fetched in this
    /// simulation.
    pub fn account(&self, address: &B160) -> (answer: Lookup<&Option<AccountInfo>>)
        ensures
            match answer {
                Lookup::Hit(account) => self@.accounts.contains_key(address@)
                    && self@.accounts[address@] == account_view(*account),
                Lookup::Miss => !self@.accounts.contains_key(address@),
            },
    {
        let ghost key = address@;
        let ghost entries = account_entries(self.accounts@);
        let mut i: usize = self.accounts.len();
        while i > 0
            invariant
                i <= self.accounts.len(),
                entries == account_entries(self.accounts@),
                key == address@,
                forall|j: int| i <= j < entries.len() ==> (#[trigger] entries[j]).0 != key,
            decreases i,
        {
            i = i - 1;
            if self.accounts[i].0.same(address) {
                proof {
                    lemma_recorded_last(entries, key, i as int);
                }
                return Lookup::Hit(&self.accounts[i].1);
            }
        }
        proof {
            lemma_recorded_absent(entries, key);
        }
        Lookup::Miss
    }

    /// Remembers what was fetched for an account; `None` for an account that does not exist.
    /// Nothing else changes.
    pub fn record_account(&mut self, address: B160, account: Option<AccountInfo>)
        ensures
            final(self)@.accounts == old(self)@.accounts.insert(address@, account_view(account)),
            final(self)@.storage == old(self)@.storage,
    {
        self.accounts.push((address, account));
        proof {
            let entries = account_entries(self.accounts@);
            assert(entries.drop_last() =~= account_entries(old(self).accounts@));
        }
    }

    /// Takes the backend's answer to an account fetch that followed a miss. What was fetched
    /// is remembered and handed on, also where the account does not exist; an error is handed
    /// on as it is, and nothing is remembered.
    pub fn settle_account(
        &mut self,
        address: B160,
        fetched: Result<Option<AccountInfo>, BackendError>,
    ) -> (result: Result<Option<AccountInfo>, BackendError>)
        ensures
            result == fetched,
            final(self)@.storage == old(self)@.storage,
            final(self)@.accounts == match fetched {
                Ok(account) => old(self)@.accounts.insert(address@, account_view(account)),
                Err(_) => old(self)@.accounts,
            },
    {
        match fetched {
            Ok(account) => {
                let kept = match &account {
                    Some(info) => Some(info.duplicate()),
                    None => None,
                };
                self.record_account(address, kept);
                Ok(account)
            },
            Err(error) => Err(error),
        }
    }

    /// Takes the backend's answer to a storage fetch that followed a miss. A fetched value is
    /// remembered and handed on; an error is handed on as it is, and nothing is remembered.
    pub fn settle_storage(
        &mut self,
        address: B160,
        index: RU256,
        fetched: Result<RU256, BackendError>,
    ) -> (result: Result<RU256, BackendError>)
        ensures
            result == fetched,
            final(self)@.accounts == old(self)@.accounts,
            final(self)@.storage == match fetched {
                Ok(value) => old(self)@.storage.insert((address@, index@), value@),
                Err(_) => old(self)@.storage,
            },
    {
        match fetched {
            Ok(value) => {
                self.record_storage(address, index, value);
                Ok(value)
            },
            Err(error) => Err(error),
        }
    }
}

/// The contract that every state backend meets, whatever stands behind it: it answers for the
/// state of one block, fixed when the backend is made.
pub trait StateBackend {
    /// Balance, nonce and code of the account at `address`; `None` for an account that does
    /// not exist.
    fn basic(&mut self, address: &B160) -> Result<Option<AccountInfo>, BackendError>;

    /// The value of the storage slot `index` of the account at `address`.
    fn storage(&mut self, address: &B160, index: &RU256) -> Result<RU256, BackendError>;
}

/// The count of requests to the backend after one more; it stops at `u64::MAX`.
pub open spec fn counted(fetches: nat) -> nat {
    if fetches < u64::MAX {
        fetches + 1
    } else {
        fetches
    }
}

/// A caching backend: the backend behind it, what the cache holds, and how often the backend
/// behind it was asked.
pub struct CachingView<U> {
    pub upstream: U,
    pub cache: StateCacheView,
    pub fetches: nat,
}

/// How a caching backend serves a request for a storage slot. A slot that the cache holds is
/// answered from the cache, and nothing changes: the backend behind it is left as it is, for
/// it is not asked. Any other slot is asked for once; a value that comes back is remembered and
/// handed on, an error is handed on as it is and nothing is remembered.
pub open spec fn storage_served<U>(
    before: CachingView<U>,
    slot: SlotKey,
    after: CachingView<U>,
    answer: Result<nat, BackendError>,
) -> bool {
    if needs_fetch(before.cache.storage, slot) {
        &&& after.fetches == counted(before.fetches)
        &&& after.cache.accounts == before.cache.accounts
        &&& after.cache.storage == match answer {
            Ok(value) => before.cache.storage.insert(slot, value),
            Err(_) => before.cache.storage,
        }
    } else {
        &&& answer == Ok::<nat, BackendError>(before.cache.storage[slot])
        &&& after == before
    }
}

/// How a caching backend serves a request for an account, in the same way as for a slot.
pub open spec fn account_served<U>(
    before: CachingView<U>,
    address: Seq<u8>,
    after: CachingView<U>,
    answer: Result<Option<AccountInfoView>, BackendError>,
) -> bool {
    if before.cache.accounts.contains_key(address) {
        &&& answer == Ok::<Option<AccountInfoView>, BackendError>(before.cache.accounts[address])
        &&& after == before
    } else {
        &&& after.fetches == counted(before.fetches)
        &&& after.cache.storage == before.cache.storage
        &&& after.cache.accounts == match answer {
            Ok(account) => before.cache.accounts.insert(address, account),
            Err(_) => before.cache.accounts,
        }
    }
}

/// The number in a backend's answer to a storage request.
pub open spec fn storage_answer(answer: Result<RU256, BackendError>) -> Result<nat, BackendError> {
    match answer {
        Ok(value) => Ok(value@),
        Err(error) => Err(error),
    }
}

/// What a backend's answer to an account request says.
pub open spec fn account_answer(answer: Result<Option<AccountInfo>, BackendError>) -> Result<
    Option<AccountInfoView>,
    BackendError,
> {
    match answer {
        Ok(account) => Ok(account_view(account)),
        Err(error) => Err(error),
    }
}

/// A backend behind the cache of one simulation. It is a backend itself.
pub struct CachingBackend<U: StateBackend> {
    upstream: U,
    cache: StateCache,
    fetches: u64,
}

impl<U: StateBackend> View for CachingBackend<U> {
    type V = CachingView<U>;

    closed spec fn view(&self) -> CachingView<U> {
        CachingView { upstream: self.upstream, cache: self.cache@, fetches: self.fetches as nat }
    }
}

impl<U: StateBackend> CachingBackend<U> {
    /// Puts an empty cache in front of `upstream`.
    pub fn new(upstream: U) -> (backend: Self)
        ensures
            backend@.upstream == upstream,
            backend@.cache.accounts == Map::<Seq<u8>, Option<AccountInfoView>>::empty(),
            backend@.cache.storage == Map::<SlotKey, nat>::empty(),
            backend@.fetches == 0,
    {
        CachingBackend { upstream, cache: StateCache::new(), fetches: 0 }
    }

    /// How often the backend behind the cache was asked so far.
    pub fn fetches(&self) -> (count: u64)
        ensures
            count == self@.fetches,
    {
        self.fetches
    }

    /// Takes the cache away and hands back the backend behind it.
    pub fn into_upstream(self) -> (upstream: U)
        ensures
            upstream == self@.upstream,
    {
        self.upstream
    }

    fn count_fetch(&mut self)
        ensures
            final(self)@ == (CachingView {
                fetches: counted(old(self)@.fetches),
                ..old(self)@
            }),
    {
        if self.fetches < u64::MAX {
            self.fetches = self.fetches + 1;
        }
    }
}

impl<U: StateBackend> StateBackend for CachingBackend<U> {
    fn basic(&mut self, address: &B160) -> (answer: Result<Option<AccountInfo>, BackendError>)
        ensures
            account_served(old(self)@, address@, final(self)@, account_answer(answer)),
    {
        match self.cache.account(address) {
            Lookup::Hit(known) => {
                return Ok(
                    match known {
                        Some(info) => Some(info.duplicate()),
                        None => None,
                    },
                );
            },
            Lookup::Miss => {},
        }
        self.count_fetch();
        let fetched = self.upstream.basic(address);
        self.cache.settle_account(*address, fetched)
    }

    fn storage(&mut self, address: &B160, index: &RU256) -> (answer: Result<RU256, BackendError>)
        ensures
            storage_served(old(self)@, (address@, index@), final(self)@, storage_answer(answer)),
    {
        match self.cache.storage(address, index) {
            Lookup::Hit(value) => {
                return Ok(value);
            },
            Lookup::Miss => {},
        }
        self.count_fetch();
        let fetched = self.upstream.storage(address, index);
        self.cache.settle_storage(*address, *index, fetched)
    }
}

/// One request to a caching backend.
pub enum Request {
    Account(Seq<u8>),
    Storage(SlotKey),
}

/// The answer to one request.
pub enum Answer {
    Account(Result<Option<AccountInfoView>, BackendError>),
    Storage(Result<nat, BackendError>),
}

/// One request served by a caching backend: what was asked, what the backend held afterwards,
/// and what it answered.
pub struct Step<U> {
    pub request: Request,
    pub after: CachingView<U>,
    pub answer: Answer,
}

/// Whether `step` is a request served by a caching backend that held `before`.
pub open spec fn served<U>(before: CachingView<U>, step: Step<U>) -> bool {
    match (step.request, step.answer) {
        (Request::Account(address), Answer::Account(answer)) => account_served(
            before,
            address,
            step.after,
            answer,
        ),
        (Request::Storage(slot), Answer::Storage(answer)) => storage_served(
            before,
            slot,
            step.after,
            answer,
        ),
        _ => false,
    }
}

/// What a caching backend holds after a run of requests: what it held after the last of them,
/// or what it started with if there is none.
pub open spec fn run_end<U>(start: CachingView<U>, steps: Seq<Step<U>>) -> CachingView<U> {
    if steps.len() == 0 {
        start
    } else {
        steps.last().after
    }
}

/// Whether `steps` is a run of requests served one after the other by a caching backend that
/// held `start`.
pub open spec fn served_run<U>(start: CachingView<U>, steps: Seq<Step<U>>) -> bool
    decreases steps.len(),
{
    if steps.len() == 0 {
        true
    } else {
        &&& served_run(start, steps.drop_last())
        &&& served(run_end(start, steps.drop_last()), steps.last())
    }
}

/// A slot that the cache holds keeps its value through any run of requests.
pub proof fn lemma_slot_stays<U>(start: CachingView<U>, slot: SlotKey, steps: Seq<Step<U>>)
    requires
        start.cache.storage.contains_key(slot),
        served_run(start, steps),
    ensures
        run_end(start, steps).cache.storage.contains_key(slot),
        run_end(start, steps).cache.storage[slot] == start.cache.storage[slot],
    decreases steps.len(),
{
    if steps.len() > 0 {
        lemma_slot_stays(start, slot, steps.drop_last());
    }
}

/// An account that the cache holds stays as it is through any run of requests.
pub proof fn lemma_account_stays<U>(
    start: CachingView<U>,
    address: Seq<u8>,
    steps: Seq<Step<U>>,
)
    requires
        start.cache.accounts.contains_key(address),
        served_run(start, steps),
    ensures
        run_end(start, steps).cache.accounts.contains_key(address),
        run_end(start, steps).cache.accounts[address] == start.cache.accounts[address],
    decreases steps.len(),
{
    if steps.len() > 0 {
        lemma_account_stays(start, address, steps.drop_last());
    }
}

/// A storage slot that is requested twice in one simulation is fetched at most once. After a
/// request for the slot that was answered with a value, and whatever was requested since, a
/// request for the same slot gets the same value, and the backend behind the cache is not
/// asked: it is left as it was, and so are the count of its requests and the cache.
pub proof fn lemma_second_slot_request_hits<U>(
    first: CachingView<U>,
    slot: SlotKey,
    value: nat,
    second: CachingView<U>,
    between: Seq<Step<U>>,
    answer: Result<nat, BackendError>,
    last: CachingView<U>,
)
    requires
        storage_served(first, slot, second, Ok(value)),
        served_run(second, between),
        storage_served(run_end(second, between), slot, last, answer),
    ensures
        answer == Ok::<nat, BackendError>(value),
        last.upstream == run_end(second, between).upstream,
        last.fetches == run_end(second, between).fetches,
        last == run_end(second, between),
{
    lemma_slot_stays(second, slot, between);
}

/// An account that is requested twice in one simulation is fetched at most once, in the same
/// way as a storage slot; this holds of an account that does not exist, too.
pub proof fn lemma_second_account_request_hits<U>(
    first: CachingView<U>,
    address: Seq<u8>,
    account: Option<AccountInfoView>,
    second: CachingView<U>,
    between: Seq<Step<U>>,
    answer: Result<Option<AccountInfoView>, BackendError>,
    last: CachingView<U>,
)
    requires
        account_served(first, address, second, Ok(account)),
        served_run(second, between),
        account_served(run_end(second, between), address, last, answer),
    ensures
        answer == Ok::<Option<AccountInfoView>, BackendError>(account),
        last.upstream == run_end(second, between).upstream,
        last.fetches == run_end(second, between).fetches,
        last == run_end(second, between),
{
    lemma_account_stays(second, address, between);
}

} // verus!
