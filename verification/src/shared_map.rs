//! The key-value store that every plugin of one chain shares.
//!
//! Keys and values are byte strings. An entry may carry a deadline; once the
//! clock has reached it the entry is gone for every reader, and the first
//! `get` that notices removes it.

use dashmap::DashMap;
use std::time::Instant;
use vstd::prelude::*;

verus! {

/// Number of clock ticks (nanoseconds) in one second of time-to-live.
pub const TICKS_PER_SECOND: u128 = 1_000_000_000;

/// `dashmap::DashMap`, held as an opaque value.
#[verifier::external_type_specification]
#[verifier::external_body]
#[verifier::reject_recursive_types(K)]
#[verifier::reject_recursive_types(V)]
#[verifier::reject_recursive_types(S)]
pub struct ExDashMap<K, V, S>(DashMap<K, V, S>);

/// `std::time::Instant`, held as an opaque value.
#[verifier::external_type_specification]
#[verifier::external_body]
pub struct ExInstant(Instant);

/// One stored value with its optional deadline, in ticks of the store's clock.
#[derive(Debug, PartialEq, Eq)]
pub struct StoreValue {
    data: Vec<u8>,
    timeout: Option<u128>,
}

/// What a stored value is: its bytes and its deadline.
pub struct Entry {
    pub data: Seq<u8>,
    pub deadline: Option<u128>,
}

impl Entry {
    /// An entry can be read at time `now` when it has no deadline or the
    /// deadline lies strictly after `now`.
    pub open spec fn live_at(self, now: u128) -> bool {
        match self.deadline {
            None => true,
            Some(deadline) => now < deadline,
        }
    }
}

impl View for StoreValue {
    type V = Entry;

    closed spec fn view(&self) -> Entry {
        Entry { data: self.data@, deadline: self.timeout }
    }
}

/// The store that holds nothing.
pub open spec fn empty_store() -> Map<Seq<u8>, Entry> {
    Map::empty()
}

/// The entries that a `DashMap` of the store holds, by key.
pub uninterp spec fn store_entries(map: DashMap<Vec<u8>, StoreValue>) -> Map<Seq<u8>, Entry>;

/// `DashMap::new`: the new map holds no entry.
#[verifier::external_body]
fn store_new() -> (store: DashMap<Vec<u8>, StoreValue>)
    ensures
        store_entries(store) == empty_store(),
{
    DashMap::new()
}

/// `DashMap::insert`: afterwards the key maps to the given value, whether or
/// not it was present; every other key keeps what it had.
#[verifier::external_body]
fn store_insert(map: &mut DashMap<Vec<u8>, StoreValue>, key: Vec<u8>, value: StoreValue)
    ensures
        store_entries(*final(map)) == store_entries(*old(map)).insert(key@, value@),
{
    map.insert(key, value);
}

/// `DashMap::get`: a copy of what the key maps to, or `None` when the map
/// does not hold the key. The guard that `get` hands out is released again
/// before this returns, so no later call on the map can wait for it.
#[verifier::external_body]
fn store_get(map: &DashMap<Vec<u8>, StoreValue>, key: &Vec<u8>) -> (found: Option<StoreValue>)
    ensures
        match found {
            Some(value) => store_entries(*map).contains_key(key@) && value@ == store_entries(
                *map,
            )[key@],
            None => !store_entries(*map).contains_key(key@),
        },
{
    match map.get(key) {
        Some(entry) => Some(StoreValue { data: entry.data.clone(), timeout: entry.timeout }),
        None => None,
    }
}

/// `DashMap::remove`: afterwards the map does not hold the key; every other
/// key keeps what it had.
#[verifier::external_body]
fn store_remove(map: &mut DashMap<Vec<u8>, StoreValue>, key: &Vec<u8>)
    ensures
        store_entries(*final(map)) == store_entries(*old(map)).remove(key@),
{
    map.remove(key);
}

/// `Instant::now`: the reference point of a new store's clock.
#[verifier::external_body]
fn clock_start() -> Instant {
    Instant::now()
}

/// `Instant::elapsed`, in nanoseconds: the reading of a clock that started at
/// `start`. Nothing is promised of the reading.
#[verifier::external_body]
fn clock_read(start: &Instant) -> u128 {
    start.elapsed().as_nanos()
}

/// The deadline of an entry written at `now` with the given time-to-live in
/// seconds, as a mathematical integer.
pub open spec fn deadline_of(now: u128, ttl_seconds: u64) -> int {
    now + ttl_seconds * TICKS_PER_SECOND
}

/// The deadline as the store keeps it. A deadline beyond the clock's range can
/// never be reached, so it is kept as no deadline.
pub open spec fn stored_deadline(now: u128, ttl_seconds: Option<u64>) -> Option<u128> {
    match ttl_seconds {
        None => None,
        Some(ttl) => if deadline_of(now, ttl) <= u128::MAX {
            Some(deadline_of(now, ttl) as u128)
        } else {
            None
        },
    }
}

/// The store after `set` at time `now`.
pub open spec fn spec_set(
    entries: Map<Seq<u8>, Entry>,
    key: Seq<u8>,
    value: Seq<u8>,
    ttl_seconds: Option<u64>,
    now: u128,
) -> Map<Seq<u8>, Entry> {
    entries.insert(key, Entry { data: value, deadline: stored_deadline(now, ttl_seconds) })
}

/// What `get` returns at time `now`.
pub open spec fn spec_get(entries: Map<Seq<u8>, Entry>, key: Seq<u8>, now: u128) -> Option<
    Seq<u8>,
> {
    if entries.contains_key(key) && entries[key].live_at(now) {
        Some(entries[key].data)
    } else {
        None
    }
}

/// The store after `get` at time `now`: an entry whose deadline has been
/// reached is removed.
pub open spec fn spec_evict(entries: Map<Seq<u8>, Entry>, key: Seq<u8>, now: u128) -> Map<
    Seq<u8>,
    Entry,
> {
    if entries.contains_key(key) && !entries[key].live_at(now) {
        entries.remove(key)
    } else {
        entries
    }
}

/// The shared store of one chain.
pub struct SharedMap {
    store: DashMap<Vec<u8>, StoreValue>,
    started: Instant,
    latest: u128,
}

impl SharedMap {
    /// The latest reading that the store's clock has given; 0 before the first.
    pub closed spec fn latest(&self) -> u128 {
        self.latest
    }

    /// An empty store whose clock starts now.
    pub fn new() -> (map: SharedMap)
        ensures
            map@ == empty_store(),
            map.latest() == 0,
    {
        SharedMap { store: store_new(), started: clock_start(), latest: 0 }
    }

    /// The current reading of the store's clock. The clock never runs backwards:
    /// a reading is never less than one given before. The entries stay as they are.
    pub fn now(&mut self) -> (reading: u128)
        ensures
            reading >= old(self).latest(),
            final(self).latest() == reading,
            final(self)@ == old(self)@,
    {
        let read: u128 = clock_read(&self.started);
        if read > self.latest {
            self.latest = read;
        }
        self.latest
    }

    /// Writes `value` under `key` at time `now`, replacing what was there.
    /// With a time-to-live the entry expires `ttl_seconds` seconds after `now`.
    pub fn set_at(
        &mut self,
        key: Vec<u8>,
        value: Vec<u8>,
        ttl_seconds: Option<u64>,
        now: u128,
    )
        ensures
            final(self)@ == spec_set(old(self)@, key@, value@, ttl_seconds, now),
            final(self).latest() == old(self).latest(),
    {
        let timeout: Option<u128> = match ttl_seconds {
            None => None,
            Some(ttl) => {
                let ttl: u64 = ttl;
                assert(ttl * TICKS_PER_SECOND <= u128::MAX) by (nonlinear_arith)
                    requires
                        ttl <= u64::MAX,
                        TICKS_PER_SECOND == 1_000_000_000,
                ;
                now.checked_add(ttl as u128 * TICKS_PER_SECOND)
            },
        };
        store_insert(&mut self.store, key, StoreValue { data: value, timeout });
    }

    /// Reads `key` at time `now`. An entry whose deadline has been reached is
    /// removed and reported as absent.
    pub fn get_at(&mut self, key: &Vec<u8>, now: u128) -> (found: Option<Vec<u8>>)
        ensures
            match found {
                Some(data) => spec_get(old(self)@, key@, now) == Some(data@),
                None => spec_get(old(self)@, key@, now) is None,
            },
            final(self)@ == spec_evict(old(self)@, key@, now),
            final(self).latest() == old(self).latest(),
    {
        match store_get(&self.store, key) {
            None => None,
            Some(value) => {
                let expired = match value.timeout {
                    Some(deadline) => now >= deadline,
                    None => false,
                };
                if expired {
                    store_remove(&mut self.store, key);
                    None
                } else {
                    Some(value.data)
                }
            },
        }
    }

    /// Writes `value` under `key` at the clock's current reading, which is
    /// then the latest. With a timeout the entry expires that many seconds
    /// after that reading.
    pub fn map_set(&mut self, key: Vec<u8>, value: Vec<u8>, timeout: Option<u64>)
        ensures
            final(self).latest() >= old(self).latest(),
            final(self)@ == spec_set(old(self)@, key@, value@, timeout, final(self).latest()),
    {
        let now: u128 = self.now();
        self.set_at(key, value, timeout, now);
    }

    /// Reads `key` at the clock's current reading, which is then the latest;
    /// an entry that has expired by that reading is removed and reported as
    /// absent.
    pub fn map_get(&mut self, key: Vec<u8>) -> (found: Option<Vec<u8>>)
        ensures
            final(self).latest() >= old(self).latest(),
            final(self)@ == spec_evict(old(self)@, key@, final(self).latest()),
            match found {
                Some(data) => spec_get(old(self)@, key@, final(self).latest()) == Some(data@),
                None => spec_get(old(self)@, key@, final(self).latest()) is None,
            },
    {
        let now: u128 = self.now();
        self.get_at(&key, now)
    }

    /// Removes `key`, whether or not it is present.
    pub fn map_remove(&mut self, key: Vec<u8>)
        ensures
            final(self)@ == old(self)@.remove(key@),
            final(self).latest() == old(self).latest(),
    {
        store_remove(&mut self.store, &key);
    }
}

impl View for SharedMap {
    type V = Map<Seq<u8>, Entry>;

    closed spec fn view(&self) -> Map<Seq<u8>, Entry> {
        store_entries(self.store)
    }
}

/// An entry written at time `t0` with a time-to-live of `ttl_seconds` is read
/// back unchanged at every time before `t0` plus the time-to-live, and is
/// absent at every time from then on.
pub proof fn lemma_get_after_set_with_ttl(
    entries: Map<Seq<u8>, Entry>,
    key: Seq<u8>,
    value: Seq<u8>,
    ttl_seconds: u64,
    t0: u128,
    t: u128,
)
    ensures
        t < deadline_of(t0, ttl_seconds) ==> spec_get(
            spec_set(entries, key, value, Some(ttl_seconds), t0),
            key,
            t,
        ) == Some(value),
        t >= deadline_of(t0, ttl_seconds) ==> spec_get(
            spec_set(entries, key, value, Some(ttl_seconds), t0),
            key,
            t,
        ) is None,
{
}

/// An entry written without a time-to-live is read back unchanged at every
/// time.
pub proof fn lemma_get_after_set_without_ttl(
    entries: Map<Seq<u8>, Entry>,
    key: Seq<u8>,
    value: Seq<u8>,
    t0: u128,
    t: u128,
)
    ensures
        spec_get(spec_set(entries, key, value, None, t0), key, t) == Some(value),
{
}

/// Writing one key changes what no other key reads.
pub proof fn lemma_set_leaves_other_keys(
    entries: Map<Seq<u8>, Entry>,
    key: Seq<u8>,
    value: Seq<u8>,
    ttl_seconds: Option<u64>,
    t0: u128,
    other: Seq<u8>,
    t: u128,
)
    requires
        other != key,
    ensures
        spec_get(spec_set(entries, key, value, ttl_seconds, t0), other, t) == spec_get(
            entries,
            other,
            t,
        ),
{
}

/// The removal that a read performs cannot be observed: whatever a later
/// read of any key would have returned without it, it returns with it.
pub proof fn lemma_eviction_is_unobservable(
    entries: Map<Seq<u8>, Entry>,
    key: Seq<u8>,
    t: u128,
    other: Seq<u8>,
    later: u128,
)
    requires
        t <= later,
    ensures
        spec_get(spec_evict(entries, key, t), other, later) == spec_get(entries, other, later),
{
}

/// After a removal the key is absent at every time.
pub proof fn lemma_get_after_remove(entries: Map<Seq<u8>, Entry>, key: Seq<u8>, t: u128)
    ensures
        spec_get(entries.remove(key), key, t) is None,
{
}

} // verus!
