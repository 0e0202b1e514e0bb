//! A registry of entries that expire: each key holds a payload and the
//! instant from which the entry no longer counts.
//!
//! The entries are kept in a `DashMap`. Its methods lock a shard of the map
//! for the length of a call and may block while the caller holds a reference
//! into the map; here every value is copied out before a call returns, so
//! no such reference exists when the next call is made.

use crate::clock::{deadline, deadline_of, live, live_at};
use dashmap::DashMap;
use vstd::prelude::*;

verus! {

#[verifier::external_type_specification]
#[verifier::external_body]
#[verifier::reject_recursive_types(K)]
#[verifier::reject_recursive_types(V)]
#[verifier::reject_recursive_types(S)]
pub struct ExDashMap<K, V, S>(DashMap<K, V, S>);

/// What is stored under a key: the expiry instant and the payload.
pub type Slot = (u64, Vec<u8>);

/// What a registry holds: for each key, the expiry instant and the payload.
pub type Entries = Map<Seq<char>, (u64, Seq<u8>)>;

/// The entries of a concurrent map, by key.
pub uninterp spec fn dashmap_entries(map: DashMap<String, Slot>) -> Map<
    Seq<char>,
    (u64, Seq<u8>),
>;

/// `DashMap::new`. Trusted: the new map holds nothing.
#[verifier::external_body]
fn dashmap_new() -> (fresh: DashMap<String, Slot>)
    ensures
        dashmap_entries(fresh) == Entries::empty(),
{
    DashMap::new()
}

/// `DashMap::insert`. Trusted: afterwards the key holds the new value, in
/// place of any it held, and every other key holds what it held.
#[verifier::external_body]
fn dashmap_insert(
    map: &mut DashMap<String, Slot>,
    key: String,
    expires_at: u64,
    payload: Vec<u8>,
)
    ensures
        dashmap_entries(*final(map)) == dashmap_entries(*old(map)).insert(
            key@,
            (expires_at, payload@),
        ),
{
    map.insert(key, (expires_at, payload));
}

/// `DashMap::get`. Trusted: it finds the value of a key that the map holds,
/// of which a copy is handed out, and nothing for any other key.
#[verifier::external_body]
fn dashmap_get(map: &DashMap<String, Slot>, key: &str) -> (found: Option<Slot>)
    ensures
        match found {
            Some(entry) => dashmap_entries(*map).contains_key(key@) && dashmap_entries(*map)[key@]
                == (entry.0, entry.1@),
            None => !dashmap_entries(*map).contains_key(key@),
        },
{
    map.get(key).map(|entry| entry.value().clone())
}

/// `DashMap::remove`. Trusted: afterwards the map does not hold the key, and
/// every other key holds what it held.
#[verifier::external_body]
fn dashmap_remove(map: &mut DashMap<String, Slot>, key: &str)
    ensures
        dashmap_entries(*final(map)) == dashmap_entries(*old(map)).remove(key@),
{
    map.remove(key);
}

/// `DashMap::retain`, keeping the entries that are live at `now`. Trusted:
/// the entries for which the closure answers yes stay as they are, and all
/// others leave.
#[verifier::external_body]
fn dashmap_retain_live(map: &mut DashMap<String, Slot>, now: u64)
    ensures
        dashmap_entries(*final(map)) == swept(dashmap_entries(*old(map)), now),
{
    map.retain(|_, entry| live(entry.0, now));
}

/// Whether `entries` holds `key` with an entry that is live at `now`.
pub open spec fn holds_live(entries: Entries, key: Seq<char>, now: u64) -> bool {
    entries.contains_key(key) && live_at(entries[key].0, now)
}

/// `entries` without those that are no longer live at `now`.
pub open spec fn swept(entries: Entries, now: u64) -> Entries {
    entries.restrict(Set::new(|key: Seq<char>| live_at(entries[key].0, now)))
}

/// A registry of expiring entries, keyed by text.
pub struct TimedRegistry {
    map: DashMap<String, Slot>,
}

impl View for TimedRegistry {
    type V = Entries;

    closed spec fn view(&self) -> Entries {
        dashmap_entries(self.map)
    }
}

impl TimedRegistry {
    /// A registry that holds nothing.
    pub fn new() -> (registry: TimedRegistry)
        ensures
            registry@ == Entries::empty(),
    {
        TimedRegistry { map: dashmap_new() }
    }

    /// Stores `payload` under `key` until `ttl` has elapsed from `now`, in
    /// place of whatever the key held.
    pub fn insert(&mut self, key: String, payload: Vec<u8>, now: u64, ttl: u64)
        requires
            deadline_of(now, ttl) <= u64::MAX,
        ensures
            final(self)@ == old(self)@.insert(key@, (deadline_of(now, ttl) as u64, payload@)),
    {
        let expires_at: u64 = deadline(now, ttl);
        dashmap_insert(&mut self.map, key, expires_at, payload);
    }

    /// The entry under `key`, live or not.
    pub fn get(&self, key: &str) -> (found: Option<Slot>)
        ensures
            found is Some <==> self@.contains_key(key@),
            found matches Some(entry) ==> self@[key@] == (entry.0, entry.1@),
    {
        dashmap_get(&self.map, key)
    }

    /// The payload under `key`, if the registry holds the key and its entry
    /// is live at `now`. The registry stays as it is.
    pub fn get_live(&self, key: &str, now: u64) -> (found: Option<Vec<u8>>)
        ensures
            found is Some <==> holds_live(self@, key@, now),
            found matches Some(payload) ==> payload@ == self@[key@].1,
    {
        match dashmap_get(&self.map, key) {
            Some(entry) => {
                if live(entry.0, now) {
                    Some(entry.1)
                } else {
                    None
                }
            },
            None => None,
        }
    }

    /// Whether the registry holds `key`, live or not.
    pub fn contains(&self, key: &str) -> (held: bool)
        ensures
            held == self@.contains_key(key@),
    {
        dashmap_get(&self.map, key).is_some()
    }

    /// Deletes the entry under `key`, live or not.
    pub fn remove(&mut self, key: &str)
        ensures
            final(self)@ == old(self)@.remove(key@),
    {
        dashmap_remove(&mut self.map, key);
    }

    /// Deletes every entry that is no longer live at `now`.
    pub fn sweep(&mut self, now: u64)
        ensures
            final(self)@ == swept(old(self)@, now),
    {
        dashmap_retain_live(&mut self.map, now);
    }
}

} // verus!
