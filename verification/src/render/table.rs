//! A small map from text keys to values that keeps the order of insertion.

use vstd::prelude::*;

verus! {

/// The map that a list of entries stands for: later entries win.
pub open spec fn entries_map<V>(list: Seq<(String, V)>) -> Map<Seq<char>, V>
    decreases list.len(),
{
    if list.len() == 0 {
        Map::empty()
    } else {
        entries_map(list.drop_last()).insert(list.last().0@, list.last().1)
    }
}

/// No key occurs twice.
pub open spec fn distinct_keys<V>(list: Seq<(String, V)>) -> bool {
    forall|i: int, j: int| 0 <= i < j < list.len() ==> list[i].0@ != list[j].0@
}

/// A key is in the map exactly where it is in the list.
pub proof fn lemma_keys<V>(list: Seq<(String, V)>, key: Seq<char>)
    ensures
        entries_map(list).dom().contains(key) <==> exists|i: int|
            0 <= i < list.len() && #[trigger] list[i].0@ == key,
    decreases list.len(),
{
    if list.len() > 0 {
        let rest = list.drop_last();
        lemma_keys(rest, key);
        if entries_map(list).dom().contains(key) {
            if list.last().0@ == key {
                assert(list[list.len() - 1].0@ == key);
            } else {
                let i = choose|i: int| 0 <= i < rest.len() && #[trigger] rest[i].0@ == key;
                assert(list[i].0@ == key);
            }
        }
        if exists|i: int| 0 <= i < list.len() && #[trigger] list[i].0@ == key {
            let i = choose|i: int| 0 <= i < list.len() && #[trigger] list[i].0@ == key;
            if i < list.len() - 1 {
                assert(rest[i].0@ == key);
            }
        }
    }
}

/// With distinct keys, the entry at `i` is what the map holds for its key.
pub proof fn lemma_entry<V>(list: Seq<(String, V)>, i: int)
    requires
        distinct_keys(list),
        0 <= i < list.len(),
    ensures
        entries_map(list).dom().contains(list[i].0@),
        entries_map(list)[list[i].0@] == list[i].1,
    decreases list.len(),
{
    let rest = list.drop_last();
    if i < list.len() - 1 {
        assert(distinct_keys(rest)) by {
            assert forall|a: int, b: int| 0 <= a < b < rest.len() implies rest[a].0@ != rest[b].0@ by {
                assert(list[a].0@ != list[b].0@);
            }
        }
        lemma_entry(rest, i);
        assert(rest[i] == list[i]);
        assert(list[i].0@ != list.last().0@);
    }
}

/// With distinct keys, replacing the value of the entry at `i` is an insert
/// into the map.
pub proof fn lemma_replace<V>(list: Seq<(String, V)>, i: int, entry: (String, V))
    requires
        distinct_keys(list),
        0 <= i < list.len(),
        entry.0@ == list[i].0@,
    ensures
        entries_map(list.update(i, entry)) == entries_map(list).insert(entry.0@, entry.1),
        distinct_keys(list.update(i, entry)),
    decreases list.len(),
{
    let changed = list.update(i, entry);
    let rest = list.drop_last();
    assert(distinct_keys(changed)) by {
        assert forall|a: int, b: int| 0 <= a < b < changed.len() implies changed[a].0@ != changed[b].0@ by {
            assert(list[a].0@ != list[b].0@);
        }
    }
    if i == list.len() - 1 {
        assert(changed.drop_last() == rest);
        assert(entries_map(changed) == entries_map(list).insert(entry.0@, entry.1));
    } else {
        assert(distinct_keys(rest)) by {
            assert forall|a: int, b: int| 0 <= a < b < rest.len() implies rest[a].0@ != rest[b].0@ by {
                assert(list[a].0@ != list[b].0@);
            }
        }
        lemma_replace(rest, i, entry);
        assert(changed.drop_last() == rest.update(i, entry));
        assert(changed.last() == list.last());
        assert(list[i].0@ != list.last().0@);
        assert(entries_map(changed) == entries_map(list).insert(entry.0@, entry.1));
    }
}

/// A map from text keys to values, in the order in which the keys came.
#[derive(Debug)]
pub struct Table<V> {
    entries: Vec<(String, V)>,
}

impl<V> View for Table<V> {
    type V = Map<Seq<char>, V>;

    closed spec fn view(&self) -> Map<Seq<char>, V> {
        entries_map(self.entries@)
    }
}

impl<V> Table<V> {
    /// No key is held twice.
    pub closed spec fn wf(&self) -> bool {
        distinct_keys(self.entries@)
    }

    /// The keys in the order in which they came.
    pub closed spec fn keys(&self) -> Seq<Seq<char>> {
        self.entries@.map_values(|e: (String, V)| e.0@)
    }

    pub fn new() -> (r: Table<V>)
        ensures
            r.wf(),
            r@ == Map::<Seq<char>, V>::empty(),
            r.keys().len() == 0,
    {
        Table { entries: Vec::new() }
    }

    /// The number of keys.  The keys of the table are the keys of its map,
    /// each once.
    pub fn len(&self) -> (r: usize)
        requires
            self.wf(),
        ensures
            r == self.keys().len(),
            self.keys().no_duplicates(),
            forall|k: Seq<char>| self@.dom().contains(k) <==> self.keys().contains(k),
    {
        proof {
            let keys = self.keys();
            assert forall|k: Seq<char>| self@.dom().contains(k) <==> keys.contains(k) by {
                lemma_keys(self.entries@, k);
                if keys.contains(k) {
                    let i = choose|i: int| 0 <= i < keys.len() && keys[i] == k;
                    assert(self.entries@[i].0@ == k);
                }
                if self@.dom().contains(k) {
                    let i = choose|i: int|
                        0 <= i < self.entries@.len() && #[trigger] self.entries@[i].0@ == k;
                    assert(keys[i] == k);
                }
            }
        }
        self.entries.len()
    }

    fn position(&self, key: &String) -> (r: Option<usize>)
        ensures
            match r {
                Some(i) => i < self.entries@.len() && self.entries@[i as int].0@ == key@,
                None => forall|i: int| 0 <= i < self.entries@.len() ==> self.entries@[i].0@ != key@,
            },
    {
        let mut i: usize = 0;
        while i < self.entries.len()
            invariant
                i <= self.entries@.len(),
                forall|k: int| 0 <= k < i ==> self.entries@[k].0@ != key@,
            decreases self.entries@.len() - i,
        {
            if self.entries[i].0 == *key {
                return Some(i);
            }
            i = i + 1;
        }
        None
    }

    /// Sets the value of `key`, in place where the key is held already and
    /// at the end where it is new.
    pub fn insert(&mut self, key: &str, value: V)
        requires
            old(self).wf(),
        ensures
            final(self).wf(),
            final(self)@ == old(self)@.insert(key@, value),
            final(self).keys() == if old(self)@.dom().contains(key@) {
                old(self).keys()
            } else {
                old(self).keys().push(key@)
            },
    {
        let owned = key.to_owned();
        let found = self.position(&owned);
        let entry = (owned, value);
        match found {
            Some(i) => {
                proof {
                    lemma_replace(self.entries@, i as int, entry);
                    lemma_keys(self.entries@, key@);
                }
                self.entries.set(i, entry);
                assert(self.keys() =~= old(self).keys());
            },
            None => {
                proof {
                    assert(self.entries@.push(entry).drop_last() == self.entries@);
                    assert(distinct_keys(self.entries@.push(entry)));
                    lemma_keys(self.entries@, key@);
                }
                self.entries.push(entry);
                assert(self.keys() =~= old(self).keys().push(key@));
            },
        }
    }

    /// The value of `key`, where the table holds one.
    pub fn get(&self, key: &str) -> (r: Option<&V>)
        requires
            self.wf(),
        ensures
            match r {
                Some(v) => self@.dom().contains(key@) && *v == self@[key@],
                None => !self@.dom().contains(key@),
            },
    {
        let owned = key.to_owned();
        match self.position(&owned) {
            Some(i) => {
                proof {
                    lemma_entry(self.entries@, i as int);
                }
                Some(&self.entries[i].1)
            },
            None => {
                proof {
                    lemma_keys(self.entries@, key@);
                }
                None
            },
        }
    }

    /// The key and the value at position `index` in the order of insertion.
    pub fn entry(&self, index: usize) -> (r: (&str, &V))
        requires
            self.wf(),
            index < self.keys().len(),
        ensures
            r.0@ == self.keys()[index as int],
            self@.dom().contains(r.0@),
            *r.1 == self@[r.0@],
    {
        proof {
            lemma_entry(self.entries@, index as int);
        }
        (self.entries[index].0.as_str(), &self.entries[index].1)
    }
}

} // verus!
