//! A small keyed store: the map from keys to values that the ledger keeps its
//! records in. A key is found again by its model, so two strings with the
//! same characters are one key.

use vstd::prelude::*;
use crate::types::Address;

verus! {

/// What a key of a [`Mapping`] must offer besides its model: a test whether
/// two keys have the same one.
pub trait Key: DeepView + Sized {
    fn same(&self, other: &Self) -> (r: bool)
        ensures
            r == (self.deep_view() == other.deep_view()),
    ;
}

impl Key for String {
    fn same(&self, other: &String) -> (r: bool) {
        *self == *other
    }
}

impl Key for u64 {
    fn same(&self, other: &u64) -> (r: bool) {
        *self == *other
    }
}

impl Key for Address {
    fn same(&self, other: &Address) -> (r: bool) {
        *self == *other
    }
}

/// One stored pair.
pub struct Entry<K, V> {
    pub key: K,
    pub value: V,
}

/// A map from keys to values. Its model is a `Map` from the keys' models to
/// the values.
pub struct Mapping<K, V> {
    entries: Vec<Entry<K, V>>,
}

/// The map that a list of entries stands for: a later entry overrides an
/// earlier one with the same key.
pub open spec fn entries_map<K: DeepView, V>(s: Seq<Entry<K, V>>) -> Map<K::V, V>
    decreases s.len(),
{
    if s.len() == 0 {
        Map::empty()
    } else {
        entries_map(s.drop_last()).insert(s.last().key.deep_view(), s.last().value)
    }
}

proof fn lemma_absent<K: DeepView, V>(s: Seq<Entry<K, V>>, k: K::V)
    requires
        forall|j: int| 0 <= j < s.len() ==> (#[trigger] s[j]).key.deep_view() != k,
    ensures
        !entries_map(s).contains_key(k),
    decreases s.len(),
{
    if s.len() > 0 {
        assert(s.last() == s[s.len() - 1]);
        assert forall|j: int| 0 <= j < s.drop_last().len() implies (
        #[trigger] s.drop_last()[j]).key.deep_view() != k by {
            assert(s.drop_last()[j] == s[j]);
        }
        lemma_absent(s.drop_last(), k);
    }
}

proof fn lemma_found<K: DeepView, V>(s: Seq<Entry<K, V>>, i: int, k: K::V)
    requires
        0 <= i < s.len(),
        s[i].key.deep_view() == k,
        forall|j: int| i < j < s.len() ==> (#[trigger] s[j]).key.deep_view() != k,
    ensures
        entries_map(s).contains_key(k),
        entries_map(s)[k] == s[i].value,
    decreases s.len(),
{
    if i < s.len() - 1 {
        assert(s.last() == s[s.len() - 1]);
        assert forall|j: int| i < j < s.drop_last().len() implies (
        #[trigger] s.drop_last()[j]).key.deep_view() != k by {
            assert(s.drop_last()[j] == s[j]);
        }
        lemma_found(s.drop_last(), i, k);
    }
}

proof fn lemma_replaced<K: DeepView, V>(s: Seq<Entry<K, V>>, i: int, e: Entry<K, V>)
    requires
        0 <= i < s.len(),
        s[i].key.deep_view() == e.key.deep_view(),
        forall|j: int| i < j < s.len() ==> (#[trigger] s[j]).key.deep_view() != e.key.deep_view(),
    ensures
        entries_map(s.update(i, e)) == entries_map(s).insert(e.key.deep_view(), e.value),
    decreases s.len(),
{
    let k = e.key.deep_view();
    let t = s.update(i, e);
    if i == s.len() - 1 {
        assert(t.drop_last() =~= s.drop_last());
        assert(entries_map(t) =~= entries_map(s).insert(k, e.value));
    } else {
        assert(s.last() == s[s.len() - 1]);
        assert(t.last() == s.last());
        assert(t.drop_last() =~= s.drop_last().update(i, e));
        assert forall|j: int| i < j < s.drop_last().len() implies (
        #[trigger] s.drop_last()[j]).key.deep_view() != k by {
            assert(s.drop_last()[j] == s[j]);
        }
        lemma_replaced(s.drop_last(), i, e);
        assert(entries_map(t) =~= entries_map(s).insert(k, e.value));
    }
}

impl<K: DeepView, V> View for Mapping<K, V> {
    type V = Map<K::V, V>;

    closed spec fn view(&self) -> Map<K::V, V> {
        entries_map(self.entries@)
    }
}

/// A map's values taken by their models.
pub open spec fn deep<K, V: DeepView>(m: Map<K, V>) -> Map<K, V::V> {
    Map::new(|k: K| m.contains_key(k), |k: K| m[k].deep_view())
}

/// Storing a value stores its model.
pub proof fn lemma_deep_insert<K, V: DeepView>(m: Map<K, V>, k: K, v: V)
    ensures
        deep(m.insert(k, v)) == deep(m).insert(k, v.deep_view()),
{
    assert(deep(m.insert(k, v)) =~= deep(m).insert(k, v.deep_view()));
}

impl<K: DeepView, V: DeepView> DeepView for Mapping<K, V> {
    type V = Map<<K as DeepView>::V, <V as DeepView>::V>;

    open spec fn deep_view(&self) -> Map<<K as DeepView>::V, <V as DeepView>::V> {
        deep(self@)
    }
}

impl<K: Key, V> Mapping<K, V> {
    /// The empty map.
    pub fn new() -> (r: Self)
        ensures
            r@ == Map::<K::V, V>::empty(),
    {
        Mapping { entries: Vec::new() }
    }

    /// The map that the entries stand for.
    pub fn from_entries(entries: Vec<Entry<K, V>>) -> (r: Self)
        ensures
            r@ == entries_map(entries@),
    {
        Mapping { entries }
    }

    /// Entries that stand for the map: handed to `from_entries`, they give
    /// the same map again.
    pub fn entries(&self) -> (r: &Vec<Entry<K, V>>)
        ensures
            entries_map(r@) == self@,
    {
        &self.entries
    }

    /// Where the entry that decides `key` stands, if the map has the key.
    fn position(&self, key: &K) -> (r: Option<usize>)
        ensures
            match r {
                Some(i) => {
                    &&& i < self.entries@.len()
                    &&& self.entries@[i as int].key.deep_view() == key.deep_view()
                    &&& forall|j: int|
                        i < j < self.entries@.len() ==> (
                        #[trigger] self.entries@[j]).key.deep_view() != key.deep_view()
                },
                None => forall|j: int|
                    0 <= j < self.entries@.len() ==> (#[trigger] self.entries@[j]).key.deep_view()
                        != key.deep_view(),
            },
    {
        let mut i: usize = self.entries.len();
        while i > 0
            invariant
                i <= self.entries@.len(),
                forall|j: int|
                    i <= j < self.entries@.len() ==> (#[trigger] self.entries@[j]).key.deep_view()
                        != key.deep_view(),
            decreases i,
        {
            i = i - 1;
            if self.entries[i].key.same(key) {
                return Some(i);
            }
        }
        None
    }

    /// The value stored under `key`, if there is one.
    pub fn get(&self, key: &K) -> (r: Option<&V>)
        ensures
            match r {
                Some(v) => self@.contains_key(key.deep_view()) && *v == self@[key.deep_view()],
                None => !self@.contains_key(key.deep_view()),
            },
    {
        match self.position(key) {
            Some(i) => {
                proof {
                    lemma_found(self.entries@, i as int, key.deep_view());
                }
                Some(&self.entries[i].value)
            },
            None => {
                proof {
                    lemma_absent(self.entries@, key.deep_view());
                }
                None
            },
        }
    }

    /// Whether a value is stored under `key`.
    pub fn contains(&self, key: &K) -> (r: bool)
        ensures
            r == self@.contains_key(key.deep_view()),
    {
        self.get(key).is_some()
    }

    /// Stores `value` under `key`, in place of what was stored there.
    pub fn insert(&mut self, key: K, value: V)
        ensures
            final(self)@ == old(self)@.insert(key.deep_view(), value),
    {
        match self.position(&key) {
            Some(i) => {
                proof {
                    lemma_replaced(self.entries@, i as int, Entry { key, value });
                }
                self.entries[i] = Entry { key, value };
            },
            None => {
                let ghost before = self.entries@;
                self.entries.push(Entry { key, value });
                proof {
                    assert(self.entries@.drop_last() =~= before);
                }
            },
        }
    }
}

} // verus!
