//! A keyed store: a finite map from keys to records, with get, set and has,
//! and no versioning; and the indexes that are kept beside the records.

use crate::identity::Address;
use crate::text::{clone_strings, texts, texts_push};
use vstd::prelude::*;

verus! {

/// What a store can be keyed by: a value that is told apart by its view.
pub trait Key: View + Sized {
    /// Whether two keys address the same record.
    fn same_key(&self, other: &Self) -> (b: bool)
        ensures
            b == (self@ == other@),
    ;
}

impl Key for String {
    fn same_key(&self, other: &String) -> (b: bool) {
        *self == *other
    }
}

impl Key for Address {
    fn same_key(&self, other: &Address) -> (b: bool) {
        self.same(other)
    }
}

impl<A: Key, B: Key> Key for (A, B) {
    fn same_key(&self, other: &(A, B)) -> (b: bool) {
        self.0.same_key(&other.0) && self.1.same_key(&other.1)
    }
}

/// One key with its record.
struct Entry<K, V> {
    key: K,
    val: V,
}

/// A store of records under keys. No key occurs twice.
pub struct Table<K: Key, V> {
    entries: Vec<Entry<K, V>>,
}

impl<K: Key, V: View> View for Table<K, V> {
    type V = Map<K::V, V::V>;

    closed spec fn view(&self) -> Map<K::V, V::V> {
        Map::new(
            |k: K::V| exists|i: int| 0 <= i < self.entries.len() && self.entries[i].key@ == k,
            |k: K::V|
                self.entries[choose|i: int|
                    0 <= i < self.entries.len() && self.entries[i].key@ == k].val@,
        )
    }
}

impl<K: Key, V> Table<K, V> {
    #[verifier::type_invariant]
    spec fn distinct_keys(&self) -> bool {
        forall|i: int, j: int|
            0 <= i < j < self.entries.len() ==> self.entries[i].key@ != self.entries[j].key@
    }
}

impl<K: Key, V: View> Table<K, V> {
    /// The empty store.
    pub fn new() -> (t: Table<K, V>)
        ensures
            t@ == Map::<K::V, V::V>::empty(),
    {
        let t = Table { entries: Vec::new() };
        assert(t@ =~= Map::<K::V, V::V>::empty());
        t
    }

    fn position(&self, key: &K) -> (r: Option<usize>)
        ensures
            match r {
                Some(i) => i < self.entries.len() && self.entries[i as int].key@ == key@,
                None => forall|j: int| 0 <= j < self.entries.len() ==> self.entries[j].key@ != key@,
            },
    {
        let mut i: usize = 0;
        while i < self.entries.len()
            invariant
                i <= self.entries.len(),
                forall|j: int| 0 <= j < i ==> self.entries[j].key@ != key@,
            decreases self.entries.len() - i,
        {
            if self.entries[i].key.same_key(key) {
                return Some(i);
            }
            i += 1;
        }
        None
    }

    /// Whether a record is stored under the key.
    pub fn has(&self, key: &K) -> (b: bool)
        ensures
            b == self@.dom().contains(key@),
    {
        self.position(key).is_some()
    }

    /// The record stored under the key, if there is one.
    pub fn get(&self, key: &K) -> (r: Option<&V>)
        ensures
            match r {
                Some(v) => self@.dom().contains(key@) && v@ == self@[key@],
                None => !self@.dom().contains(key@),
            },
    {
        proof {
            use_type_invariant(self);
        }
        match self.position(key) {
            Some(i) => Some(&self.entries[i].val),
            None => None,
        }
    }

    /// Stores the record under the key, in place of the one that was there.
    pub fn set(&mut self, key: K, val: V)
        ensures
            final(self)@ == old(self)@.insert(key@, val@),
    {
        proof {
            use_type_invariant(&*self);
        }
        let ghost before = *self;
        let found = self.position(&key);
        let mut entries: Vec<Entry<K, V>> = Vec::new();
        core::mem::swap(&mut self.entries, &mut entries);
        match found {
            Some(i) => {
                entries.set(i, Entry { key, val });
            },
            None => {
                entries.push(Entry { key, val });
            },
        }
        self.entries = entries;
        proof {
            let after = *self;
            let target = before@.insert(key@, val@);
            let at = match found {
                Some(i) => i as int,
                None => before.entries.len() as int,
            };
            assert(after.entries[at].key@ == key@);
            assert forall|k: K::V| after@.dom().contains(k) implies target.dom().contains(k) by {
                let j = choose|j: int| 0 <= j < after.entries.len() && after.entries[j].key@ == k;
                if k != key@ {
                    assert(before.entries[j].key@ == k);
                }
            }
            assert forall|k: K::V| target.dom().contains(k) implies after@.dom().contains(k) by {
                if k != key@ {
                    let j = choose|j: int|
                        0 <= j < before.entries.len() && before.entries[j].key@ == k;
                    assert(after.entries[j].key@ == k);
                }
            }
            assert forall|k: K::V| after@.dom().contains(k) implies after@[k] == target[k] by {
                let j = choose|j: int| 0 <= j < after.entries.len() && after.entries[j].key@ == k;
                if k == key@ {
                    assert(j == at);
                } else {
                    assert(before.entries[j].key@ == k);
                    let g = choose|g: int|
                        0 <= g < before.entries.len() && before.entries[g].key@ == k;
                    assert(g == j);
                }
            }
            assert(after@ =~= target);
        }
    }
}

/// An ordered list of record ids, as an index keeps it: ids are appended and
/// never removed.
pub struct IdList {
    ids: Vec<String>,
}

impl View for IdList {
    type V = Seq<Seq<char>>;

    closed spec fn view(&self) -> Seq<Seq<char>> {
        texts(self.ids@)
    }
}

impl IdList {
    /// The empty list.
    pub fn new() -> (l: IdList)
        ensures
            l@ == Seq::<Seq<char>>::empty(),
    {
        let l = IdList { ids: Vec::new() };
        assert(l@ =~= Seq::<Seq<char>>::empty());
        l
    }

    /// The list with one more id at its end.
    pub fn with(&self, id: String) -> (l: IdList)
        ensures
            l@ == self@.push(id@),
    {
        let mut ids = clone_strings(&self.ids);
        proof {
            texts_push(ids@, id);
        }
        ids.push(id);
        IdList { ids }
    }

    /// The ids, in the order in which they were appended.
    pub fn to_vec(&self) -> (v: Vec<String>)
        ensures
            texts(v@) == self@,
    {
        clone_strings(&self.ids)
    }
}

/// The list that an index holds for an owner: empty where it holds none.
pub open spec fn listed<O>(index: Map<O, Seq<Seq<char>>>, owner: O) -> Seq<Seq<char>> {
    if index.dom().contains(owner) {
        index[owner]
    } else {
        Seq::empty()
    }
}

/// Appending an id for one owner puts it at the end of that owner's list and
/// leaves every other owner's list as it was: an index only grows.
pub proof fn appending_grows_one_list<O>(
    index: Map<O, Seq<Seq<char>>>,
    owner: O,
    id: Seq<char>,
    other: O,
)
    ensures
        listed(index.insert(owner, listed(index, owner).push(id)), owner) == listed(
            index,
            owner,
        ).push(id),
        other != owner ==> listed(index.insert(owner, listed(index, owner).push(id)), other)
            == listed(index, other),
{
}

/// Appends an id to the list that the index holds for the owner.
pub fn append_id<K: Key>(index: &mut Table<K, IdList>, owner: K, id: String)
    ensures
        final(index)@ == old(index)@.insert(owner@, listed(old(index)@, owner@).push(id@)),
{
    let list = match index.get(&owner) {
        Some(l) => l.with(id),
        None => IdList::new().with(id),
    };
    index.set(owner, list);
}

/// The ids that the index holds for the owner, oldest first.
pub fn ids_of<K: Key>(index: &Table<K, IdList>, owner: &K) -> (v: Vec<String>)
    ensures
        texts(v@) == listed(index@, owner@),
{
    match index.get(owner) {
        Some(l) => l.to_vec(),
        None => {
            let v: Vec<String> = Vec::new();
            assert(texts(v@) =~= Seq::<Seq<char>>::empty());
            v
        },
    }
}

} // verus!
