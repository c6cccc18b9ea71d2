//! Key-value store with a byte-accounted capacity ceiling.
//!
//! Entries live in a sharded concurrent map. This verified layer takes the
//! store exclusively, so the capacity check and the size update form a single
//! atomic step: the accounted size can never transiently exceed the ceiling.
//! That closes the check-then-update race a fully concurrent discipline would
//! reopen; sharing the store between sessions is the embedding's concern.

use vstd::prelude::*;

verus! {

#[verifier::external_type_specification]
#[verifier::external_body]
#[verifier::reject_recursive_types(K)]
#[verifier::reject_recursive_types(V)]
#[verifier::reject_recursive_types(S)]
pub struct ExDashMap<K, V, S>(dashmap::DashMap<K, V, S>);

/// The entries a backing map holds, as a mathematical map from key characters
/// to value bytes.
pub uninterp spec fn kv_contents(m: dashmap::DashMap<String, Vec<u8>>) -> Map<Seq<char>, Seq<u8>>;

/// The empty contents.
pub open spec fn kv_empty() -> Map<Seq<char>, Seq<u8>> {
    Map::empty()
}

/// Relies on dashmap::DashMap::new: the created map has no entries.
#[verifier::external_body]
fn dash_new() -> (r: dashmap::DashMap<String, Vec<u8>>)
    ensures
        kv_contents(r) == kv_empty(),
{
    dashmap::DashMap::new()
}

/// Relies on dashmap::DashMap::insert: the key now maps to the value; every
/// other entry is unchanged.
#[verifier::external_body]
fn dash_insert(m: &mut dashmap::DashMap<String, Vec<u8>>, key: &str, value: Vec<u8>)
    ensures
        kv_contents(*final(m)) == kv_contents(*old(m)).insert(key@, value@),
{
    m.insert(key.to_string(), value);
}

/// Relies on dashmap::DashMap::get: returns the value under the key if there
/// is one; the guard it hands back is cloned out to a plain value.
#[verifier::external_body]
fn dash_get(m: &dashmap::DashMap<String, Vec<u8>>, key: &str) -> (r: Option<Vec<u8>>)
    ensures
        match r {
            Some(v) => kv_contents(*m).contains_key(key@) && v@ == kv_contents(*m)[key@],
            None => !kv_contents(*m).contains_key(key@),
        },
{
    m.get(key).map(|entry| entry.value().clone())
}

/// Relies on dashmap::DashMap::remove: the entry under the key is gone, every
/// other entry is unchanged, and the removed value is handed back.
#[verifier::external_body]
fn dash_remove(m: &mut dashmap::DashMap<String, Vec<u8>>, key: &str) -> (r: Option<Vec<u8>>)
    ensures
        kv_contents(*final(m)) == kv_contents(*old(m)).remove(key@),
        match r {
            Some(v) => kv_contents(*old(m)).contains_key(key@) && v@ == kv_contents(*old(m))[key@],
            None => !kv_contents(*old(m)).contains_key(key@),
        },
{
    m.remove(key).map(|kv| kv.1)
}

/// Relies on dashmap::DashMap::len: the number of entries held.
#[verifier::external_body]
fn dash_len(m: &dashmap::DashMap<String, Vec<u8>>) -> (r: usize)
    ensures
        r == kv_contents(*m).dom().len(),
{
    m.len()
}

/// The views of a sequence of keys.
pub open spec fn key_views(keys: Seq<String>) -> Seq<Seq<char>> {
    keys.map_values(|s: String| s@)
}

/// Relies on dashmap::DashMap::iter: yields each entry exactly once; the keys
/// are cloned out, in whatever order the iteration of the moment produces.
#[verifier::external_body]
fn dash_keys(m: &dashmap::DashMap<String, Vec<u8>>) -> (r: Vec<String>)
    ensures
        key_views(r@).to_set() == kv_contents(*m).dom(),
        key_views(r@).no_duplicates(),
{
    m.iter().map(|entry| entry.key().clone()).collect()
}

/// Sum of the byte lengths of the values of `m` under the keys of `s`.
pub open spec fn total_over(s: Set<Seq<char>>, m: Map<Seq<char>, Seq<u8>>) -> nat
    decreases s.len(),
{
    if s.finite() && s.len() > 0 {
        let k = s.choose();
        m[k].len() + total_over(s.remove(k), m)
    } else {
        0
    }
}

/// Accounted size of a map: the sum of its values' byte lengths.
pub open spec fn total_size(m: Map<Seq<char>, Seq<u8>>) -> nat {
    total_over(m.dom(), m)
}

/// Splitting the sum at any member, not only at the chosen one.
proof fn lemma_total_over_remove(s: Set<Seq<char>>, m: Map<Seq<char>, Seq<u8>>, k: Seq<char>)
    requires
        s.finite(),
        s.contains(k),
    ensures
        total_over(s, m) == m[k].len() + total_over(s.remove(k), m),
    decreases s.len(),
{
    let c = s.choose();
    assert(s.contains(c));
    if c == k {
    } else {
        lemma_total_over_remove(s.remove(c), m, k);
        lemma_total_over_remove(s.remove(k), m, c);
        assert(s.remove(c).remove(k) =~= s.remove(k).remove(c));
    }
}

/// The sum depends only on the values under the keys of `s`.
proof fn lemma_total_over_agree(
    s: Set<Seq<char>>,
    m1: Map<Seq<char>, Seq<u8>>,
    m2: Map<Seq<char>, Seq<u8>>,
)
    requires
        s.finite(),
        forall|k: Seq<char>| #[trigger] s.contains(k) ==> m1[k] == m2[k],
    ensures
        total_over(s, m1) == total_over(s, m2),
    decreases s.len(),
{
    if s.len() > 0 {
        let c = s.choose();
        assert(s.contains(c));
        lemma_total_over_agree(s.remove(c), m1, m2);
    }
}

/// Inserting under a fresh key grows the accounted size by the value's length.
pub proof fn lemma_total_size_insert_new(m: Map<Seq<char>, Seq<u8>>, k: Seq<char>, v: Seq<u8>)
    requires
        m.dom().finite(),
        !m.contains_key(k),
    ensures
        total_size(m.insert(k, v)) == total_size(m) + v.len(),
{
    let m2 = m.insert(k, v);
    lemma_total_over_remove(m2.dom(), m2, k);
    assert(m2.dom().remove(k) =~= m.dom());
    lemma_total_over_agree(m.dom(), m2, m);
}

/// Removing a present key shrinks the accounted size by its value's length.
pub proof fn lemma_total_size_remove(m: Map<Seq<char>, Seq<u8>>, k: Seq<char>)
    requires
        m.dom().finite(),
        m.contains_key(k),
    ensures
        total_size(m) == total_size(m.remove(k)) + m[k].len(),
{
    lemma_total_over_remove(m.dom(), m, k);
    assert(m.remove(k).dom() =~= m.dom().remove(k));
    lemma_total_over_agree(m.dom().remove(k), m, m.remove(k));
}

/// Replacing the value under a present key moves the accounted size by the
/// difference of the two lengths.
pub proof fn lemma_total_size_replace(m: Map<Seq<char>, Seq<u8>>, k: Seq<char>, v: Seq<u8>)
    requires
        m.dom().finite(),
        m.contains_key(k),
    ensures
        total_size(m.insert(k, v)) + m[k].len() == total_size(m) + v.len(),
{
    lemma_total_size_remove(m, k);
    lemma_total_size_insert_new(m.remove(k), k, v);
    assert(m.insert(k, v) =~= m.remove(k).insert(k, v));
}

/// Mathematical state of the store: its entries, its accounted size, and its
/// capacity ceiling.
pub struct StoreView {
    pub map: Map<Seq<char>, Seq<u8>>,
    pub size: u64,
    pub max_size: u64,
}

impl StoreView {
    /// The accounted size really is the sum of the stored values' lengths,
    /// and stays within the ceiling.
    pub open spec fn wf(self) -> bool {
        self.map.dom().finite() && self.size as nat == total_size(self.map) && self.size
            <= self.max_size
    }

    /// Byte length of the value currently under `k`, zero if absent.
    pub open spec fn prior_len(self, k: Seq<char>) -> int {
        if self.map.contains_key(k) {
            self.map[k].len() as int
        } else {
            0
        }
    }

    /// Whether installing `v` under `k` keeps the accounted size within the
    /// ceiling: the length delta must fit in the remaining room.
    pub open spec fn accepts(self, k: Seq<char>, v: Seq<u8>) -> bool {
        v.len() as int - self.prior_len(k) <= self.max_size as int - self.size as int
    }
}

/// Storage failure: the mutation would push the accounted size past the
/// capacity ceiling.
#[derive(Clone, Copy, Debug, PartialEq, Eq, Structural)]
pub enum StoreError {
    CapacityExceeded,
}

/// In-memory key-value store whose accounted size never exceeds the ceiling
/// it was created with.
pub struct KeyValueStore {
    data: dashmap::DashMap<String, Vec<u8>>,
    size: u64,
    max_size: u64,
}

impl View for KeyValueStore {
    type V = StoreView;

    closed spec fn view(&self) -> StoreView {
        StoreView { map: kv_contents(self.data), size: self.size, max_size: self.max_size }
    }
}

impl KeyValueStore {
    /// A well-formed store: see `StoreView::wf`.
    pub open spec fn wf(&self) -> bool {
        self@.wf()
    }

    /// An empty store with the given capacity ceiling in bytes.
    pub fn new(max_size: u64) -> (r: KeyValueStore)
        ensures
            r.wf(),
            r@.map == Map::<Seq<char>, Seq<u8>>::empty(),
            r@.size == 0,
            r@.max_size == max_size,
    {
        let r = KeyValueStore { data: dash_new(), size: 0, max_size };
        proof {
            assert(r@.map.dom() =~= Set::<Seq<char>>::empty());
        }
        r
    }

    /// Installs `value` under `key` unless the byte-length delta relative to
    /// any existing value would push the accounted size past the ceiling; on
    /// rejection the store is left exactly as it was.
    pub fn set(&mut self, key: &str, value: Vec<u8>) -> (r: Result<(), StoreError>)
        requires
            old(self).wf(),
        ensures
            final(self).wf(),
            final(self)@.max_size == old(self)@.max_size,
            match r {
                Ok(()) => old(self)@.accepts(key@, value@) && final(self)@.map == old(
                    self,
                )@.map.insert(key@, value@) && final(self)@.size as int == old(self)@.size as int
                    + value@.len() - old(self)@.prior_len(key@),
                Err(e) => e == StoreError::CapacityExceeded && !old(self)@.accepts(key@, value@)
                    && final(self)@ == old(self)@,
            },
    {
        let value_size = value.len() as u64;
        match dash_get(&self.data, key) {
            Some(existing) => {
                let existing_size = existing.len() as u64;
                proof {
                    lemma_total_size_remove(old(self)@.map, key@);
                }
                if value_size > existing_size && value_size - existing_size > self.max_size
                    - self.size {
                    return Err(StoreError::CapacityExceeded);
                }
                proof {
                    lemma_total_size_replace(old(self)@.map, key@, value@);
                }
                self.size = self.size - existing_size + value_size;
                dash_insert(&mut self.data, key, value);
                Ok(())
            },
            None => {
                if value_size > self.max_size - self.size {
                    return Err(StoreError::CapacityExceeded);
                }
                proof {
                    lemma_total_size_insert_new(old(self)@.map, key@, value@);
                }
                self.size = self.size + value_size;
                dash_insert(&mut self.data, key, value);
                Ok(())
            },
        }
    }

    /// A copy of the value under `key`, if present; never mutates.
    pub fn get(&self, key: &str) -> (r: Option<Vec<u8>>)
        ensures
            match r {
                Some(v) => self@.map.contains_key(key@) && v@ == self@.map[key@],
                None => !self@.map.contains_key(key@),
            },
    {
        dash_get(&self.data, key)
    }

    /// Removes the entry under `key` and gives its length back to the
    /// accounted size; deleting an absent key is a no-op, not an error, and
    /// leaves the store exactly as it was.
    pub fn delete(&mut self, key: &str)
        requires
            old(self).wf(),
        ensures
            final(self).wf(),
            final(self)@.max_size == old(self)@.max_size,
            if old(self)@.map.contains_key(key@) {
                final(self)@.map == old(self)@.map.remove(key@) && final(self)@.size as int == old(
                    self,
                )@.size as int - old(self)@.map[key@].len()
            } else {
                final(self)@ == old(self)@
            },
    {
        match dash_remove(&mut self.data, key) {
            Some(value) => {
                proof {
                    lemma_total_size_remove(old(self)@.map, key@);
                }
                self.size = self.size - value.len() as u64;
            },
            None => {
                proof {
                    assert(old(self)@.map.remove(key@) =~= old(self)@.map);
                }
            },
        }
    }

    /// Every key present at the moment of the call, each exactly once, in no
    /// particular order.
    pub fn list_keys(&self) -> (r: Vec<String>)
        ensures
            key_views(r@).to_set() == self@.map.dom(),
            key_views(r@).no_duplicates(),
    {
        dash_keys(&self.data)
    }

    /// The accounted size: the sum of all stored values' byte lengths.
    pub fn current_size(&self) -> (r: u64)
        ensures
            r == self@.size,
    {
        self.size
    }

    /// The number of entries held.
    pub fn entry_count(&self) -> (r: usize)
        ensures
            r == self@.map.dom().len(),
    {
        dash_len(&self.data)
    }
}

/// Capacity invariant: after any successful mutation the store is well-formed
/// again, and a well-formed store's accounted size is within its ceiling.
pub proof fn lemma_capacity_invariant(s: StoreView)
    requires
        s.wf(),
    ensures
        s.size <= s.max_size,
        s.size as nat == total_size(s.map),
{
}

/// List completeness corollary: a listing that holds every key exactly once
/// is exactly as long as the store has entries.
pub proof fn lemma_listing_length(ks: Seq<Seq<char>>, m: Map<Seq<char>, Seq<u8>>)
    requires
        ks.to_set() == m.dom(),
        ks.no_duplicates(),
    ensures
        ks.len() == m.dom().len(),
{
    ks.unique_seq_to_set();
}

} // verus!
