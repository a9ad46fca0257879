//! A string-keyed dictionary in which no key occurs twice.
//!
//! The dictionary keeps its entries in insertion order. Its view is the
//! mathematical map from each key's characters to the view of its value.

use vstd::prelude::*;

verus! {

/// One key/value pair of a [`Dict`].
#[derive(Debug, Clone, PartialEq)]
pub struct DictEntry<V> {
    pub key: String,
    pub value: V,
}

/// The map that a sequence of entries stands for: the entries are inserted
/// from first to last.
pub open spec fn entries_map<V: View>(es: Seq<DictEntry<V>>) -> Map<Seq<char>, V::V>
    decreases es.len(),
{
    if es.len() == 0 {
        Map::empty()
    } else {
        entries_map(es.drop_last()).insert(es.last().key@, es.last().value@)
    }
}

/// No two entries of the sequence have the same key.
pub open spec fn distinct_keys<V>(es: Seq<DictEntry<V>>) -> bool {
    forall|i: int, j: int|
        0 <= i < j < es.len() ==> (#[trigger] es[i]).key@ != (#[trigger] es[j]).key@
}

/// Some entry of the sequence has the key `k`.
pub open spec fn has_key<V>(es: Seq<DictEntry<V>>, k: Seq<char>) -> bool {
    exists|i: int| 0 <= i < es.len() && (#[trigger] es[i]).key@ == k
}

/// Where no key occurs twice in a sequence, none occurs twice in the sequence
/// without its last entry.
pub proof fn lemma_distinct_keys_front<V>(es: Seq<DictEntry<V>>)
    requires
        distinct_keys(es),
        es.len() > 0,
    ensures
        distinct_keys(es.drop_last()),
{
    let front = es.drop_last();
    assert forall|a: int, b: int| 0 <= a < b < front.len() implies (#[trigger] front[a]).key@ != (
    #[trigger] front[b]).key@ by {
        assert(front[a] == es[a] && front[b] == es[b]);
    }
}

/// The map of a sequence holds exactly the keys of its entries, and is finite.
pub proof fn lemma_entries_map_keys<V: View>(es: Seq<DictEntry<V>>)
    ensures
        entries_map(es).dom().finite(),
        forall|k: Seq<char>| #[trigger] entries_map(es).contains_key(k) <==> has_key(es, k),
    decreases es.len(),
{
    if es.len() > 0 {
        let front = es.drop_last();
        lemma_entries_map_keys(front);
        assert forall|k: Seq<char>| #[trigger]
            entries_map(es).contains_key(k) <==> has_key(es, k) by {
            if has_key(es, k) {
                let i = choose|i: int| 0 <= i < es.len() && (#[trigger] es[i]).key@ == k;
                if i < es.len() - 1 {
                    assert(front[i].key@ == k);
                    assert(has_key(front, k));
                }
            }
            if entries_map(es).contains_key(k) && k != es.last().key@ {
                assert(has_key(front, k));
                let i = choose|i: int| 0 <= i < front.len() && (#[trigger] front[i]).key@ == k;
                assert(es[i].key@ == k);
            }
            if k == es.last().key@ {
                assert(es[es.len() - 1].key@ == k);
            }
        }
    }
}

/// Where no key occurs twice, the map sends each entry's key to that entry's
/// value.
pub proof fn lemma_entries_map_value<V: View>(es: Seq<DictEntry<V>>, i: int)
    requires
        distinct_keys(es),
        0 <= i < es.len(),
    ensures
        entries_map(es).contains_key(es[i].key@),
        entries_map(es)[es[i].key@] == es[i].value@,
    decreases es.len(),
{
    if i < es.len() - 1 {
        let front = es.drop_last();
        assert(front[i] == es[i]);
        assert(es[i].key@ != es[es.len() - 1].key@);
        lemma_distinct_keys_front(es);
        lemma_entries_map_value(front, i);
    }
}

/// Where no key occurs twice, the map has as many keys as the sequence has
/// entries.
pub proof fn lemma_entries_map_len<V: View>(es: Seq<DictEntry<V>>)
    requires
        distinct_keys(es),
    ensures
        entries_map(es).dom().finite(),
        entries_map(es).dom().len() == es.len(),
    decreases es.len(),
{
    lemma_entries_map_keys(es);
    if es.len() > 0 {
        let front = es.drop_last();
        lemma_distinct_keys_front(es);
        lemma_entries_map_len(front);
        lemma_entries_map_keys(front);
        let k = es.last().key@;
        if has_key(front, k) {
            let i = choose|i: int| 0 <= i < front.len() && (#[trigger] front[i]).key@ == k;
            assert(es[i].key@ == es[es.len() - 1].key@);
        }
        assert(!entries_map(front).dom().contains(k));
        assert(entries_map(es).dom() =~= entries_map(front).dom().insert(k));
    } else {
        assert(entries_map(es).dom() =~= Set::<Seq<char>>::empty());
    }
}

/// Replacing the value of an entry is an insertion under that entry's key.
pub proof fn lemma_entries_map_update<V: View>(es: Seq<DictEntry<V>>, i: int, e: DictEntry<V>)
    requires
        distinct_keys(es),
        0 <= i < es.len(),
        e.key@ == es[i].key@,
    ensures
        distinct_keys(es.update(i, e)),
        entries_map(es.update(i, e)) == entries_map(es).insert(e.key@, e.value@),
    decreases es.len(),
{
    let us = es.update(i, e);
    assert(distinct_keys(us)) by {
        assert forall|a: int, b: int| 0 <= a < b < us.len() implies (#[trigger] us[a]).key@ != (
        #[trigger] us[b]).key@ by {
            assert(us[a].key@ == es[a].key@ && us[b].key@ == es[b].key@);
        }
    }
    let front = es.drop_last();
    lemma_distinct_keys_front(es);
    if i == es.len() - 1 {
        assert(us.drop_last() =~= front);
        assert(entries_map(us) =~= entries_map(es).insert(e.key@, e.value@));
    } else {
        assert(us.drop_last() =~= front.update(i, e));
        assert(front[i] == es[i]);
        lemma_entries_map_update(front, i, e);
        assert(es[i].key@ != es[es.len() - 1].key@);
        assert(us.last() == es.last());
        assert(entries_map(us) =~= entries_map(es).insert(e.key@, e.value@));
    }
}

/// A dictionary from strings to values of type `V`, in which no key occurs
/// twice.
#[derive(Debug)]
pub struct Dict<V> {
    entries: Vec<DictEntry<V>>,
}

impl<V> Dict<V> {
    #[verifier::type_invariant]
    spec fn keys_are_distinct(self) -> bool {
        distinct_keys(self.entries@)
    }

    /// The entries of the dictionary, in insertion order.
    pub closed spec fn spec_entries(&self) -> Seq<DictEntry<V>> {
        self.entries@
    }
}

impl<V: View> View for Dict<V> {
    type V = Map<Seq<char>, V::V>;

    closed spec fn view(&self) -> Map<Seq<char>, V::V> {
        entries_map(self.entries@)
    }
}

impl<V: View> Dict<V> {
    /// An empty dictionary.
    pub fn new() -> (d: Self)
        ensures
            d@ == Map::<Seq<char>, V::V>::empty(),
            d.spec_entries().len() == 0,
    {
        Dict { entries: Vec::new() }
    }

    /// The number of keys.
    pub fn len(&self) -> (n: usize)
        ensures
            self@.dom().finite(),
            n == self@.dom().len(),
            n == self.spec_entries().len(),
    {
        proof {
            use_type_invariant(self);
            lemma_entries_map_len(self.entries@);
        }
        self.entries.len()
    }

    /// Whether the dictionary holds no key.
    pub fn is_empty(&self) -> (b: bool)
        ensures
            b <==> self@ == Map::<Seq<char>, V::V>::empty(),
    {
        proof {
            use_type_invariant(self);
            lemma_entries_map_len(self.entries@);
            if self.entries@.len() == 0 {
                assert(self@ =~= Map::<Seq<char>, V::V>::empty());
            }
        }
        self.entries.len() == 0
    }

    /// The position of the entry with the given key, if there is one.
    fn position(&self, key: &String) -> (r: Option<usize>)
        ensures
            match r {
                Some(i) => i < self.entries@.len() && self.entries@[i as int].key@ == key@,
                None => !has_key(self.entries@, key@),
            },
    {
        let mut i: usize = 0;
        while i < self.entries.len()
            invariant
                i <= self.entries@.len(),
                forall|j: int| 0 <= j < i ==> (#[trigger] self.entries@[j]).key@ != key@,
            decreases self.entries@.len() - i,
        {
            if self.entries[i].key == *key {
                return Some(i);
            }
            i = i + 1;
        }
        None
    }

    /// The value stored under `key`, if there is one.
    pub fn get(&self, key: &str) -> (r: Option<&V>)
        ensures
            match r {
                Some(v) => self@.contains_key(key@) && v@ == self@[key@],
                None => !self@.contains_key(key@),
            },
    {
        let owned = key.to_owned();
        proof {
            use_type_invariant(self);
            lemma_entries_map_keys(self.entries@);
        }
        match self.position(&owned) {
            Some(i) => {
                proof {
                    lemma_entries_map_value(self.entries@, i as int);
                }
                Some(&self.entries[i].value)
            },
            None => None,
        }
    }

    /// Whether a value is stored under `key`.
    pub fn contains_key(&self, key: &str) -> (b: bool)
        ensures
            b == self@.contains_key(key@),
    {
        self.get(key).is_some()
    }

    /// Stores `value` under `key`, in place of the value that was stored
    /// under it, if there was one.
    pub fn insert(&mut self, key: String, value: V)
        ensures
            final(self)@ == old(self)@.insert(key@, value@),
    {
        proof {
            use_type_invariant(&*self);
            lemma_entries_map_keys(self.entries@);
        }
        let ghost before = self.entries@;
        let found = self.position(&key);
        let mut entries: Vec<DictEntry<V>> = Vec::new();
        core::mem::swap(&mut self.entries, &mut entries);
        let entry = DictEntry { key, value };
        match found {
            Some(i) => {
                proof {
                    lemma_entries_map_update(before, i as int, entry);
                }
                entries.set(i, entry);
            },
            None => {
                proof {
                    let after = before.push(entry);
                    assert(after.drop_last() =~= before);
                    assert(distinct_keys(after)) by {
                        assert forall|a: int, b: int| 0 <= a < b < after.len() implies (
                        #[trigger] after[a]).key@ != (#[trigger] after[b]).key@ by {
                            if b == after.len() - 1 {
                                assert(before[a].key@ != key@);
                            } else {
                                assert(after[a] == before[a] && after[b] == before[b]);
                            }
                        }
                    }
                }
                entries.push(entry);
            },
        }
        self.entries = entries;
    }

    /// The entries in insertion order. The dictionary is the map that they
    /// stand for, and no two of them share a key.
    pub fn entries(&self) -> (es: &Vec<DictEntry<V>>)
        ensures
            es@ == self.spec_entries(),
            distinct_keys(es@),
            entries_map(es@) == self@,
    {
        proof {
            use_type_invariant(self);
        }
        &self.entries
    }
}

} // verus!
