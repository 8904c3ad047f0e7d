//! The asset cache: one asset per description, however often the
//! description is asked for, and none that nobody refers to any more.
//!
//! Assets live in numbered slots.  A [`Handle`] names a slot together with
//! the generation of the slot at the time the handle was made, so that a
//! handle to an evicted asset is recognized as stale.  Each slot counts the
//! handles that were handed out and not yet released.

use vstd::prelude::*;
use crate::render::material::Material;
use crate::render::shape::ShapeEnum;

verus! {

/// A description that can be compared with another one.
pub trait Description {
    /// Whether both describe the same thing.
    spec fn same(&self, other: &Self) -> bool;

    fn matches(&self, other: &Self) -> (r: bool)
        ensures
            r == self.same(other),
    ;
}

impl Description for ShapeEnum {
    open spec fn same(&self, other: &ShapeEnum) -> bool {
        self.same_value(*other)
    }

    fn matches(&self, other: &ShapeEnum) -> (r: bool) {
        self.equals(other)
    }
}

impl Description for Material {
    open spec fn same(&self, other: &Material) -> bool {
        self.same_value(*other)
    }

    fn matches(&self, other: &Material) -> (r: bool) {
        self.equals(other)
    }
}

/// The name of a cached asset.
#[derive(Debug, Clone, Copy, PartialEq, Eq, Structural)]
pub struct Handle {
    pub index: usize,
    pub generation: u64,
}

/// A cached asset with its description and the number of handles to it.
pub struct Entry<K, V> {
    pub key: K,
    pub asset: V,
    pub references: usize,
}

/// A cache of assets by description.
pub struct AssetStore<K, V> {
    slots: Vec<Option<Entry<K, V>>>,
    generations: Vec<u64>,
}

/// Whether slot `i` holds an entry whose description is the same as `key`,
/// asked either way round.
pub open spec fn describes<K: Description, V>(slots: Seq<Option<Entry<K, V>>>, i: int, key: K) -> bool {
    &&& 0 <= i < slots.len()
    &&& slots[i] matches Some(entry) && (entry.key.same(&key) || key.same(&entry.key))
}

/// Whether no slot holds an entry for `key`.
pub open spec fn unknown<K: Description, V>(slots: Seq<Option<Entry<K, V>>>, key: K) -> bool {
    forall|i: int| 0 <= i < slots.len() ==> !#[trigger] describes(slots, i, key)
}

/// Whether slot `i` is the first slot that holds an entry for `key`.
pub open spec fn first_for<K: Description, V>(slots: Seq<Option<Entry<K, V>>>, i: int, key: K) -> bool {
    &&& describes(slots, i, key)
    &&& forall|j: int| 0 <= j < i ==> !#[trigger] describes(slots, j, key)
}

/// Whether two descriptions are the same, asked either way round.
pub open spec fn alike<K: Description>(a: K, b: K) -> bool {
    a.same(&b) || b.same(&a)
}

/// Whether two descriptions differ, and nothing is the same as both.
pub open spec fn apart<K: Description>(a: K, b: K) -> bool {
    &&& !alike(a, b)
    &&& forall|other: K| !(#[trigger] alike(other, a) && alike(other, b))
}

/// Whether slot `i` can take a new entry: it is empty and its generation can
/// still be told from the next one.
pub open spec fn reusable<K, V>(slots: Seq<Option<Entry<K, V>>>, generations: Seq<u64>, i: int) -> bool {
    &&& 0 <= i < slots.len()
    &&& slots[i] is None
    &&& generations[i] < u64::MAX
}

/// Where a new entry goes and what that does to the number of slots: into
/// the first slot that can take it, or, where none can, into a new slot at
/// the end.
pub open spec fn placed<K, V>(
    slots: Seq<Option<Entry<K, V>>>,
    generations: Seq<u64>,
    index: int,
    slots_after: int,
) -> bool {
    &&& 0 <= index <= slots.len()
    &&& forall|j: int| 0 <= j < index ==> !reusable(slots, generations, j)
    &&& if index < slots.len() {
        reusable(slots, generations, index) && slots_after == slots.len()
    } else {
        slots_after == slots.len() + 1
    }
}

/// The count after one more handle: it stays at the largest count once it
/// has reached it.
pub open spec fn one_more(references: usize) -> usize {
    if references < usize::MAX {
        (references + 1) as usize
    } else {
        references
    }
}

/// The entry with one more handle to it.
pub open spec fn referred<K, V>(entry: Entry<K, V>) -> Entry<K, V> {
    Entry { key: entry.key, asset: entry.asset, references: one_more(entry.references) }
}

/// The count after one handle less: a count that has reached the largest
/// count stays there.
pub open spec fn one_less(references: usize) -> usize {
    if 0 < references < usize::MAX {
        (references - 1) as usize
    } else {
        references
    }
}

/// The entry with one handle less to it.
pub open spec fn released<K, V>(entry: Entry<K, V>) -> Entry<K, V> {
    Entry { key: entry.key, asset: entry.asset, references: one_less(entry.references) }
}

/// Whether a slot holds an entry that no handle refers to.
pub open spec fn unused<K, V>(slot: Option<Entry<K, V>>) -> bool {
    slot matches Some(entry) && entry.references == 0
}

/// The assets of the unused entries, in the order of their slots.
pub open spec fn unused_assets<K, V>(slots: Seq<Option<Entry<K, V>>>) -> Seq<V>
    decreases slots.len(),
{
    if slots.len() == 0 {
        Seq::empty()
    } else if unused(slots.last()) {
        unused_assets(slots.drop_last()).push(slots.last().unwrap().asset)
    } else {
        unused_assets(slots.drop_last())
    }
}

/// The generation that a slot has after a sweep.
pub open spec fn swept_generation<K, V>(slot: Option<Entry<K, V>>, generation: u64) -> u64 {
    if unused(slot) && generation < u64::MAX {
        (generation + 1) as u64
    } else {
        generation
    }
}

impl<K: Description, V> AssetStore<K, V> {
    /// The slots: an entry or nothing each.
    pub closed spec fn slots(&self) -> Seq<Option<Entry<K, V>>> {
        self.slots@
    }

    /// The generation of each slot.
    pub closed spec fn generations(&self) -> Seq<u64> {
        self.generations@
    }

    /// Every slot has a generation, and no two entries describe the same
    /// thing.
    pub open spec fn wf(&self) -> bool {
        &&& self.slots().len() == self.generations().len()
        &&& forall|i: int, j: int|
            0 <= i < self.slots().len() && 0 <= j < self.slots().len() && i != j
                && self.slots()[i] is Some && self.slots()[j] is Some ==> !self.slots()[i].unwrap().key.same(
                &self.slots()[j].unwrap().key,
            )
    }

    /// Whether `handle` names an entry of the store.
    pub open spec fn holds(&self, handle: Handle) -> bool {
        &&& handle.index < self.slots().len()
        &&& self.slots()[handle.index as int] is Some
        &&& self.generations()[handle.index as int] == handle.generation
    }

    /// Whether every handle that `before` held is held still, and names the
    /// description and the asset that it named.
    pub open spec fn keeps(&self, before: AssetStore<K, V>) -> bool {
        forall|handle: Handle| #[trigger]
            before.holds(handle) ==> {
                &&& self.holds(handle)
                &&& self.slots()[handle.index as int].unwrap().key == before.slots()[handle.index as int].unwrap().key
                &&& self.slots()[handle.index as int].unwrap().asset == before.slots()[handle.index
                    as int].unwrap().asset
            }
    }

    /// What asking for the asset of `key` makes of a store: `after` is the
    /// store that `before` becomes, and `handle` the handle that comes out.
    /// Where no entry is for the key, the handle is a new one and names an
    /// entry made for the key, and all other entries stay; else the handle is
    /// that of the first entry for the key, which counts one handle more.
    pub open spec fn asked(before: AssetStore<K, V>, key: K, after: AssetStore<K, V>, handle: Handle) -> bool {
        &&& after.wf()
        &&& after.holds(handle)
        &&& unknown(before.slots(), key) ==> {
            &&& !before.holds(handle)
            &&& after.slots()[handle.index as int].unwrap().key == key
            &&& after.slots()[handle.index as int].unwrap().references == 1
            &&& forall|j: int|
                0 <= j < before.slots().len() && j != handle.index ==> #[trigger] after.slots()[j]
                    == before.slots()[j]
        }
        &&& !unknown(before.slots(), key) ==> {
            &&& first_for(before.slots(), handle.index as int, key)
            &&& handle == before.handle_of(handle.index as int)
            &&& after.slots() == before.slots().update(
                handle.index as int,
                Some(referred(before.slots()[handle.index as int].unwrap())),
            )
            &&& after.generations() == before.generations()
        }
    }

    /// What a sweep makes of a store: the entries without handles go, their
    /// slots get a new generation and their assets come out in the order of
    /// the slots; all other entries stay.
    pub open spec fn swept(before: AssetStore<K, V>, after: AssetStore<K, V>, out: Seq<V>) -> bool {
        &&& after.wf()
        &&& after.slots().len() == before.slots().len()
        &&& forall|i: int|
            0 <= i < before.slots().len() ==> #[trigger] after.slots()[i] == if unused(before.slots()[i]) {
                None
            } else {
                before.slots()[i]
            }
        &&& forall|i: int|
            0 <= i < before.slots().len() ==> #[trigger] after.generations()[i] == swept_generation(
                before.slots()[i],
                before.generations()[i],
            )
        &&& out == unused_assets(before.slots())
    }

    /// The handle of slot `i`.
    pub open spec fn handle_of(&self, i: int) -> Handle {
        Handle { index: i as usize, generation: self.generations()[i] }
    }

    /// The store without any slot.
    pub fn new() -> (r: AssetStore<K, V>)
        ensures
            r.wf(),
            r.slots().len() == 0,
    {
        AssetStore { slots: Vec::new(), generations: Vec::new() }
    }

    /// The first slot that holds an entry for `key`.
    fn find(&self, key: &K) -> (r: Option<usize>)
        requires
            self.wf(),
        ensures
            match r {
                Some(i) => describes(self.slots(), i as int, *key) && forall|j: int|
                    0 <= j < i ==> !describes(self.slots(), j, *key),
                None => unknown(self.slots(), *key),
            },
    {
        let mut i: usize = 0;
        while i < self.slots.len()
            invariant
                i <= self.slots@.len(),
                forall|j: int| 0 <= j < i ==> !describes(self.slots@, j, *key),
            decreases self.slots@.len() - i,
        {
            let hit = match &self.slots[i] {
                Some(entry) => entry.key.matches(key) || key.matches(&entry.key),
                None => false,
            };
            if hit {
                return Some(i);
            }
            i = i + 1;
        }
        None
    }

    /// The first slot that can take a new entry.
    fn vacancy(&self) -> (r: Option<usize>)
        requires
            self.wf(),
        ensures
            match r {
                Some(i) => reusable(self.slots(), self.generations(), i as int) && forall|j: int|
                    0 <= j < i ==> !reusable(self.slots(), self.generations(), j),
                None => forall|j: int|
                    0 <= j < self.slots().len() ==> !reusable(self.slots(), self.generations(), j),
            },
    {
        let mut i: usize = 0;
        while i < self.slots.len()
            invariant
                i <= self.slots@.len(),
                self.slots@.len() == self.generations@.len(),
                forall|j: int| 0 <= j < i ==> !reusable(self.slots@, self.generations@, j),
            decreases self.slots@.len() - i,
        {
            if self.slots[i].is_none() && self.generations[i] < u64::MAX {
                return Some(i);
            }
            i = i + 1;
        }
        None
    }

    /// Counts one more handle to the entry in slot `i` and makes the handle.
    fn refer(&mut self, i: usize) -> (r: Handle)
        requires
            old(self).wf(),
            i < old(self).slots().len(),
            old(self).slots()[i as int] is Some,
        ensures
            final(self).wf(),
            final(self).slots() == old(self).slots().update(
                i as int,
                Some(referred(old(self).slots()[i as int].unwrap())),
            ),
            final(self).generations() == old(self).generations(),
            r == old(self).handle_of(i as int),
            final(self).keeps(*old(self)),
            final(self).holds(r),
    {
        let slot = self.slots.remove(i);
        let entry = slot.unwrap();
        let references = if entry.references < usize::MAX {
            entry.references + 1
        } else {
            entry.references
        };
        self.slots.insert(i, Some(Entry { key: entry.key, asset: entry.asset, references }));
        assert(self.slots@ == old(self).slots@.update(i as int, Some(referred(old(self).slots@[i as int].unwrap()))));
        Handle { index: i, generation: self.generations[i] }
    }

    /// Puts a new entry with one handle into the first slot that can take
    /// it, or into a new slot, and makes the handle.
    fn settle(&mut self, key: K, asset: V) -> (r: Handle)
        requires
            old(self).wf(),
            unknown(old(self).slots(), key),
        ensures
            final(self).wf(),
            final(self).holds(r),
            final(self).slots()[r.index as int] == Some(Entry { key, asset, references: 1 }),
            forall|j: int|
                0 <= j < old(self).slots().len() && j != r.index ==> #[trigger] final(self).slots()[j] == old(self).slots()[j],
            forall|j: int|
                0 <= j < old(self).slots().len() && j != r.index ==> #[trigger] final(self).generations()[j]
                    == old(self).generations()[j],
            r.index < old(self).slots().len() ==> reusable(
                old(self).slots(),
                old(self).generations(),
                r.index as int,
            ) && final(self).slots().len() == old(self).slots().len() && r.generation == old(self).generations()[r.index as int],
            r.index >= old(self).slots().len() ==> r.index == old(self).slots().len() && final(self).slots().len() == old(self).slots().len() + 1 && r.generation == 0,
            forall|j: int| 0 <= j < r.index ==> !reusable(old(self).slots(), old(self).generations(), j),
            !old(self).holds(r),
            final(self).keeps(*old(self)),
    {
        let handle = match self.vacancy() {
            Some(i) => {
                let _ = self.slots.remove(i);
                self.slots.insert(i, Some(Entry { key, asset, references: 1 }));
                assert(self.slots@ == old(self).slots@.update(i as int, Some(Entry { key, asset, references: 1 })));
                Handle { index: i, generation: self.generations[i] }
            },
            None => {
                let i = self.slots.len();
                self.slots.push(Some(Entry { key, asset, references: 1 }));
                self.generations.push(0);
                Handle { index: i, generation: 0 }
            },
        };
        proof {
            let at = handle.index as int;
            assert forall|i: int, j: int|
                0 <= i < self.slots@.len() && 0 <= j < self.slots@.len() && i != j && self.slots@[i] is Some
                    && self.slots@[j] is Some implies !self.slots@[i].unwrap().key.same(
                &self.slots@[j].unwrap().key,
            ) by {
                if i == at {
                    assert(!describes(old(self).slots@, j, key));
                } else if j == at {
                    assert(!describes(old(self).slots@, i, key));
                } else {
                    assert(self.slots@[i] == old(self).slots@[i]);
                    assert(self.slots@[j] == old(self).slots@[j]);
                }
            }
        }
        handle
    }

    /// The handle of the asset for `key`: the one that the store holds
    /// already, with one more handle counted and `value` dropped, or `value`
    /// in a slot of its own.
    pub fn insert(&mut self, key: K, value: V) -> (r: Handle)
        requires
            old(self).wf(),
        ensures
            final(self).wf(),
            final(self).holds(r),
            final(self).keeps(*old(self)),
            AssetStore::asked(*old(self), key, *final(self), r),
            old(self).slots().len() <= final(self).slots().len() <= old(self).slots().len() + 1,
            unknown(old(self).slots(), key) ==> {
                &&& !old(self).holds(r)
                &&& placed(
                    old(self).slots(),
                    old(self).generations(),
                    r.index as int,
                    final(self).slots().len() as int,
                )
                &&& final(self).slots()[r.index as int] == Some(Entry { key, asset: value, references: 1 })
                &&& forall|j: int|
                    0 <= j < old(self).slots().len() && j != r.index ==> final(self).slots()[j] == old(self).slots()[j]
            },
            !unknown(old(self).slots(), key) ==> {
                &&& describes(old(self).slots(), r.index as int, key)
                &&& r == old(self).handle_of(r.index as int)
                &&& final(self).slots() == old(self).slots().update(
                    r.index as int,
                    Some(referred(old(self).slots()[r.index as int].unwrap())),
                )
                &&& final(self).generations() == old(self).generations()
            },
    {
        match self.find(&key) {
            Some(i) => {
                assert(describes(self.slots(), i as int, key));
                self.refer(i)
            },
            None => self.settle(key, value),
        }
    }

    /// The handle of the asset for `key`: the one that the store holds
    /// already, with one more handle counted and nothing created, or what
    /// `create` makes of the key, in a slot of its own.
    pub fn get_or_create<F: Fn(&K) -> V>(&mut self, key: K, create: F) -> (r: Handle)
        requires
            old(self).wf(),
            forall|k: &K| create.requires((k,)),
        ensures
            final(self).wf(),
            final(self).holds(r),
            final(self).keeps(*old(self)),
            AssetStore::asked(*old(self), key, *final(self), r),
            old(self).slots().len() <= final(self).slots().len() <= old(self).slots().len() + 1,
            unknown(old(self).slots(), key) ==> {
                &&& !old(self).holds(r)
                &&& placed(
                    old(self).slots(),
                    old(self).generations(),
                    r.index as int,
                    final(self).slots().len() as int,
                )
                &&& final(self).slots()[r.index as int].unwrap().key == key
                &&& final(self).slots()[r.index as int].unwrap().references == 1
                &&& create.ensures((&key,), final(self).slots()[r.index as int].unwrap().asset)
                &&& forall|j: int|
                    0 <= j < old(self).slots().len() && j != r.index ==> final(self).slots()[j] == old(self).slots()[j]
            },
            !unknown(old(self).slots(), key) ==> {
                &&& describes(old(self).slots(), r.index as int, key)
                &&& r == old(self).handle_of(r.index as int)
                &&& final(self).slots() == old(self).slots().update(
                    r.index as int,
                    Some(referred(old(self).slots()[r.index as int].unwrap())),
                )
                &&& final(self).generations() == old(self).generations()
            },
    {
        match self.find(&key) {
            Some(i) => {
                assert(describes(self.slots(), i as int, key));
                self.refer(i)
            },
            None => {
                let asset = create(&key);
                self.settle(key, asset)
            },
        }
    }

    /// A further handle to the asset for `key`, where the store holds one.
    pub fn get(&mut self, key: &K) -> (r: Option<Handle>)
        requires
            old(self).wf(),
        ensures
            final(self).wf(),
            final(self).keeps(*old(self)),
            match r {
                Some(handle) => {
                    &&& describes(old(self).slots(), handle.index as int, *key)
                    &&& handle == old(self).handle_of(handle.index as int)
                    &&& final(self).holds(handle)
                    &&& final(self).slots() == old(self).slots().update(
                        handle.index as int,
                        Some(referred(old(self).slots()[handle.index as int].unwrap())),
                    )
                    &&& final(self).generations() == old(self).generations()
                },
                None => unknown(old(self).slots(), *key) && final(self).slots() == old(self).slots()
                    && final(self).generations() == old(self).generations(),
            },
    {
        match self.find(key) {
            Some(i) => Some(self.refer(i)),
            None => None,
        }
    }

    /// The asset that `handle` names, where the handle is not stale.
    pub fn asset(&self, handle: Handle) -> (r: Option<&V>)
        requires
            self.wf(),
        ensures
            match r {
                Some(asset) => self.holds(handle) && *asset == self.slots()[handle.index as int].unwrap().asset,
                None => !self.holds(handle),
            },
    {
        if handle.index < self.slots.len() && self.generations[handle.index] == handle.generation {
            match &self.slots[handle.index] {
                Some(entry) => Some(&entry.asset),
                None => None,
            }
        } else {
            None
        }
    }

    /// The number of handles to the entry that `handle` names.
    pub fn references(&self, handle: Handle) -> (r: Option<usize>)
        requires
            self.wf(),
        ensures
            match r {
                Some(n) => self.holds(handle) && n == self.slots()[handle.index as int].unwrap().references,
                None => !self.holds(handle),
            },
    {
        if handle.index < self.slots.len() && self.generations[handle.index] == handle.generation {
            match &self.slots[handle.index] {
                Some(entry) => Some(entry.references),
                None => None,
            }
        } else {
            None
        }
    }

    /// Gives a handle back: counts one handle less to the entry that it
    /// names.  Says whether the handle named an entry with a handle to give
    /// back; a count that has reached the largest count stays there.
    pub fn release(&mut self, handle: Handle) -> (r: bool)
        requires
            old(self).wf(),
        ensures
            final(self).wf(),
            final(self).generations() == old(self).generations(),
            r == (old(self).holds(handle) && old(self).slots()[handle.index as int].unwrap().references > 0),
            r ==> final(self).slots().len() == old(self).slots().len() && forall|j: int|
                0 <= j < old(self).slots().len() && j != handle.index ==> final(self).slots()[j] == old(self).slots()[j],
            r ==> final(self).slots()[handle.index as int] == Some(
                released(old(self).slots()[handle.index as int].unwrap()),
            ),
            !r ==> final(self).slots() == old(self).slots(),
    {
        if !(handle.index < self.slots.len() && self.generations[handle.index] == handle.generation) {
            return false;
        }
        let held = match &self.slots[handle.index] {
            Some(entry) => entry.references > 0,
            None => false,
        };
        if !held {
            return false;
        }
        let slot = self.slots.remove(handle.index);
        let entry = slot.unwrap();
        let references = if entry.references < usize::MAX {
            entry.references - 1
        } else {
            entry.references
        };
        self.slots.insert(handle.index, Some(Entry { key: entry.key, asset: entry.asset, references }));
        true
    }

    /// Evicts every entry that no handle refers to, and hands their assets
    /// out for disposal.  Entries with handles stay as they are; the handles
    /// to evicted entries become stale.
    pub fn clean_unused(&mut self) -> (r: Vec<V>)
        requires
            old(self).wf(),
        ensures
            final(self).wf(),
            final(self).slots().len() == old(self).slots().len(),
            forall|i: int|
                0 <= i < old(self).slots().len() ==> final(self).slots()[i] == if unused(
                    old(self).slots()[i],
                ) {
                    None
                } else {
                    old(self).slots()[i]
                },
            forall|i: int|
                0 <= i < old(self).slots().len() ==> final(self).generations()[i] == swept_generation(
                    old(self).slots()[i],
                    old(self).generations()[i],
                ),
            r@ == unused_assets(old(self).slots()),
            AssetStore::swept(*old(self), *final(self), r@),
    {
        let mut out: Vec<V> = Vec::new();
        let mut i: usize = 0;
        while i < self.slots.len()
            invariant
                i <= self.slots@.len(),
                self.slots@.len() == old(self).slots@.len(),
                self.generations@.len() == old(self).generations@.len(),
                old(self).wf(),
                forall|k: int|
                    0 <= k < i ==> self.slots@[k] == if unused(old(self).slots@[k]) {
                        None
                    } else {
                        old(self).slots@[k]
                    },
                forall|k: int|
                    0 <= k < i ==> self.generations@[k] == swept_generation(
                        old(self).slots@[k],
                        old(self).generations@[k],
                    ),
                forall|k: int| i <= k < self.slots@.len() ==> self.slots@[k] == old(self).slots@[k],
                forall|k: int|
                    i <= k < self.slots@.len() ==> self.generations@[k] == old(self).generations@[k],
                out@ == unused_assets(old(self).slots@.take(i as int)),
            decreases self.slots@.len() - i,
        {
            proof {
                let next = old(self).slots@.take(i + 1);
                assert(next.drop_last() == old(self).slots@.take(i as int));
                assert(next.last() == old(self).slots@[i as int]);
            }
            let slot = self.slots.remove(i);
            match slot {
                Some(entry) => {
                    if entry.references == 0 {
                        out.push(entry.asset);
                        self.slots.insert(i, None);
                        let generation = self.generations[i];
                        if generation < u64::MAX {
                            self.generations.set(i, generation + 1);
                        }
                    } else {
                        self.slots.insert(i, Some(entry));
                    }
                },
                None => {
                    self.slots.insert(i, None);
                },
            }
            i = i + 1;
        }
        assert(old(self).slots@.take(i as int) == old(self).slots@);
        out
    }
}

/// Sweeping a store in which every entry has a handle gives no asset out.
proof fn lemma_nothing_unused<K, V>(slots: Seq<Option<Entry<K, V>>>)
    requires
        forall|i: int| 0 <= i < slots.len() ==> !unused(#[trigger] slots[i]),
    ensures
        unused_assets(slots).len() == 0,
    decreases slots.len(),
{
    if slots.len() > 0 {
        assert(!unused(slots[slots.len() - 1]));
        assert forall|i: int| 0 <= i < slots.drop_last().len() implies !unused(
            #[trigger] slots.drop_last()[i],
        ) by {
            assert(slots.drop_last()[i] == slots[i]);
        }
        lemma_nothing_unused(slots.drop_last());
    }
}

impl<K: Description, V> AssetStore<K, V> {
    /// Asking twice for the asset of one description gives one handle: the
    /// second time nothing is made.  The description must be the same as
    /// itself, which a description with a not-a-number in it is not.
    pub proof fn law_same_description_same_handle(
        start: AssetStore<K, V>,
        once: AssetStore<K, V>,
        twice: AssetStore<K, V>,
        key: K,
        first: Handle,
        second: Handle,
    )
        requires
            start.wf(),
            key.same(&key),
            AssetStore::asked(start, key, once, first),
            AssetStore::asked(once, key, twice, second),
        ensures
            first == second,
            twice.slots()[second.index as int].unwrap().key == once.slots()[first.index as int].unwrap().key,
            twice.slots()[second.index as int].unwrap().asset == once.slots()[first.index
                as int].unwrap().asset,
    {
        let at = first.index as int;
        assert(describes(once.slots(), at, key));
        assert(!unknown(once.slots(), key));
        let found = second.index as int;
        if found < at {
            assert(describes(once.slots(), found, key));
            if unknown(start.slots(), key) {
                assert(once.slots()[found] == start.slots()[found]);
                assert(describes(start.slots(), found, key));
            } else {
                assert(describes(start.slots(), found, key));
            }
        }
    }

    /// Asking for the assets of two descriptions that differ gives two
    /// handles.
    pub proof fn law_other_description_other_handle(
        start: AssetStore<K, V>,
        once: AssetStore<K, V>,
        twice: AssetStore<K, V>,
        one: K,
        other: K,
        first: Handle,
        second: Handle,
    )
        requires
            start.wf(),
            apart(one, other),
            AssetStore::asked(start, one, once, first),
            AssetStore::asked(once, other, twice, second),
        ensures
            first != second,
    {
        if first == second {
            let at = first.index as int;
            let held = once.slots()[at].unwrap().key;
            assert(!unknown(once.slots(), other));
            assert(describes(once.slots(), at, other));
            assert(alike(held, other));
            if unknown(start.slots(), one) {
                assert(held == one);
            } else {
                assert(describes(start.slots(), at, one));
                assert(alike(held, one));
            }
        }
    }

    /// A sweep evicts the entry of a handle that was the last one to it:
    /// once the handle is given back and the store is swept, the handle is
    /// stale.
    pub proof fn law_unreferenced_is_evicted(
        before: AssetStore<K, V>,
        after: AssetStore<K, V>,
        out: Seq<V>,
        handle: Handle,
    )
        requires
            before.wf(),
            before.holds(handle),
            before.slots()[handle.index as int].unwrap().references == 0,
            AssetStore::swept(before, after, out),
        ensures
            !after.holds(handle),
            after.slots()[handle.index as int] is None,
    {
        assert(unused(before.slots()[handle.index as int]));
    }

    /// A sweep of a store in which every entry has a handle evicts nothing.
    pub proof fn law_referenced_stays(before: AssetStore<K, V>, after: AssetStore<K, V>, out: Seq<V>)
        requires
            before.wf(),
            forall|i: int|
                0 <= i < before.slots().len() && before.slots()[i] is Some ==> (
                #[trigger] before.slots()[i]).unwrap().references > 0,
            AssetStore::swept(before, after, out),
        ensures
            after.slots() == before.slots(),
            after.generations() == before.generations(),
            out.len() == 0,
            after.keeps(before),
    {
        assert forall|i: int| 0 <= i < before.slots().len() implies !unused(#[trigger] before.slots()[i]) by {
        }
        lemma_nothing_unused(before.slots());
        assert(after.slots() =~= before.slots());
        assert(after.generations().len() == before.generations().len());
        assert(after.generations() =~= before.generations());
    }
}

} // verus!
