use vstd::prelude::*;

use vstd::hash_map::StringHashMap;

use crate::deadline_passed;

verus! {

/// Mathematical model of one cached record: the stored payload and the
/// optional absolute deadline (epoch seconds). An absent deadline means
/// the record never expires.
pub struct EntryView {
    pub data: Seq<char>,
    pub expires_at: Option<u64>,
}

/// One cached record as it sits in the map.
struct Entry {
    data: String,
    expires_at: Option<u64>,
}

impl View for Entry {
    type V = EntryView;

    closed spec fn view(&self) -> EntryView {
        EntryView { data: self.data@, expires_at: self.expires_at }
    }
}

/// A record is live at `now` when it has no deadline or its deadline is
/// strictly in the future. Liveness is derived at each read, never stored.
pub open spec fn entry_live(e: EntryView, now: u64) -> bool {
    match e.expires_at {
        None => true,
        Some(d) => !deadline_passed(d, now),
    }
}

/// What a read of `k` at instant `now` observes in the map `m`: the payload
/// when a live record is present, and nothing when the key is absent or the
/// record has expired. Expiry is indistinguishable from absence.
pub open spec fn lookup(m: Map<Seq<char>, EntryView>, k: Seq<char>, now: u64) -> Option<Seq<char>> {
    if m.contains_key(k) && entry_live(m[k], now) {
        Some(m[k].data)
    } else {
        None
    }
}

/// The record written by a plain `set`: payload `v`, no deadline.
pub open spec fn permanent_entry(v: Seq<char>) -> EntryView {
    EntryView { data: v, expires_at: None }
}

/// The record written by `set_with_ttl`: payload `v`, deadline `d`.
pub open spec fn expiring_entry(v: Seq<char>, d: u64) -> EntryView {
    EntryView { data: v, expires_at: Some(d) }
}

/// The mapping from key to record, keys unique, insertion order irrelevant.
/// Every operation replaces, removes or reads whole records; no record is
/// ever updated field by field.
pub struct Store {
    entries: StringHashMap<Entry>,
}

impl View for Store {
    type V = Map<Seq<char>, EntryView>;

    closed spec fn view(&self) -> Map<Seq<char>, EntryView> {
        self.entries@.map_values(|e: Entry| e@)
    }
}

impl Store {
    /// An empty store: no key has ever been written.
    pub fn new() -> (r: Self)
        ensures
            r@ == Map::<Seq<char>, EntryView>::empty(),
    {
        let s = Store { entries: StringHashMap::new() };
        proof {
            assert(s@ =~= Map::<Seq<char>, EntryView>::empty());
        }
        s
    }

    /// Insert or replace the record for `key` with payload `value` and no
    /// deadline; any prior deadline on `key` is gone with the old record.
    pub fn set(&mut self, key: &str, value: &str)
        ensures
            final(self)@ == old(self)@.insert(key@, permanent_entry(value@)),
    {
        let entry = Entry { data: value.to_owned(), expires_at: None };
        self.entries.insert(key.to_owned(), entry);
        proof {
            assert(self@ =~= old(self)@.insert(key@, permanent_entry(value@)));
        }
    }

    /// Insert or replace the record for `key` with payload `value` and the
    /// absolute deadline `deadline` (epoch seconds).
    pub fn set_with_deadline(&mut self, key: &str, value: &str, deadline: u64)
        ensures
            final(self)@ == old(self)@.insert(key@, expiring_entry(value@, deadline)),
    {
        let entry = Entry { data: value.to_owned(), expires_at: Some(deadline) };
        self.entries.insert(key.to_owned(), entry);
        proof {
            assert(self@ =~= old(self)@.insert(key@, expiring_entry(value@, deadline)));
        }
    }

    /// Read `key` at instant `now`. Returns the payload of a live record,
    /// and `None` when the key is absent or its record has expired; an
    /// expired record is left in place, it merely stops being visible.
    pub fn get(&self, key: &str, now: u64) -> (r: Option<String>)
        ensures
            r.deep_view() == lookup(self@, key@, now),
    {
        match self.entries.get(key) {
            None => None,
            Some(entry) => {
                proof {
                    assert(self@[key@] == entry@);
                }
                match entry.expires_at {
                    Some(d) => {
                        if crate::is_deadline_passed(d, now) {
                            None
                        } else {
                            Some(entry.data.clone())
                        }
                    },
                    None => Some(entry.data.clone()),
                }
            },
        }
    }

    /// Remove the record for `key`; removing an absent key leaves the store
    /// as it was.
    pub fn delete(&mut self, key: &str)
        ensures
            final(self)@ == old(self)@.remove(key@),
    {
        self.entries.remove(key);
        proof {
            assert(self@ =~= old(self)@.remove(key@));
        }
    }

    /// Remove every record.
    pub fn clear(&mut self)
        ensures
            final(self)@ == Map::<Seq<char>, EntryView>::empty(),
    {
        self.entries.clear();
        proof {
            assert(self@ =~= Map::<Seq<char>, EntryView>::empty());
        }
    }
}

/// A key that is absent from the map reads as `None`, at every instant.
pub proof fn lemma_get_absent(m: Map<Seq<char>, EntryView>, k: Seq<char>, now: u64)
    requires
        !m.contains_key(k),
    ensures
        lookup(m, k, now) is None,
{
}

/// After a plain `set`, the key reads as its new payload at every instant:
/// the written record is permanent, so a prior deadline on the key has no
/// effect any more.
pub proof fn lemma_set_then_get(m: Map<Seq<char>, EntryView>, k: Seq<char>, v: Seq<char>, now: u64)
    ensures
        lookup(m.insert(k, permanent_entry(v)), k, now) == Some(v),
{
}

/// After a `set` with deadline `d`, the key reads as the new payload
/// strictly before `d` and as `None` from `d` on.
pub proof fn lemma_set_with_deadline_then_get(
    m: Map<Seq<char>, EntryView>,
    k: Seq<char>,
    v: Seq<char>,
    d: u64,
    now: u64,
)
    ensures
        now < d ==> lookup(m.insert(k, expiring_entry(v, d)), k, now) == Some(v),
        d <= now ==> lookup(m.insert(k, expiring_entry(v, d)), k, now) is None,
{
}

/// After a delete, the key reads as `None`, at every instant.
pub proof fn lemma_delete_then_get(m: Map<Seq<char>, EntryView>, k: Seq<char>, now: u64)
    ensures
        lookup(m.remove(k), k, now) is None,
{
}

/// Deleting an absent key is a no-op on the whole map.
pub proof fn lemma_delete_absent_noop(m: Map<Seq<char>, EntryView>, k: Seq<char>)
    requires
        !m.contains_key(k),
    ensures
        m.remove(k) == m,
{
    assert(m.remove(k) =~= m);
}

/// After a clear, every key reads as `None`, at every instant.
pub proof fn lemma_clear_then_get(k: Seq<char>, now: u64)
    ensures
        lookup(Map::<Seq<char>, EntryView>::empty(), k, now) is None,
{
}

/// Writes to one key do not disturb reads of another: with distinct keys,
/// a `set` of `k1` leaves what `k2` reads unchanged, so concurrent writers
/// of distinct keys, serialized in any order by the store's lock, lose
/// nothing.
pub proof fn lemma_set_preserves_other_keys(
    m: Map<Seq<char>, EntryView>,
    k1: Seq<char>,
    v1: Seq<char>,
    k2: Seq<char>,
    now: u64,
)
    requires
        k1 != k2,
    ensures
        lookup(m.insert(k1, permanent_entry(v1)), k2, now) == lookup(m, k2, now),
{
}

} // verus!
