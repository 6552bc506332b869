use vstd::prelude::*;
use vstd::std_specs::iter::IteratorSpec;
use std::collections::HashMap;
use std::collections::HashSet;

verus! {

broadcast use vstd::std_specs::hash::group_hash_axioms;

/// A collection that takes a diff: a value of the same shape that holds only what changes.
/// `insert` writes each entry of the diff into the collection, over what was there; `remove`
/// deletes each key of the diff from it, whatever value the diff holds for that key.
pub trait Updatable<Updater> {
    fn insert(&mut self, update: Updater);

    fn remove(&mut self, update: Updater);
}

/// Whether `x` is among the first `n` items of `s`.
pub open spec fn among(s: Seq<&u32>, n: int, x: u32) -> bool {
    exists|j: int| 0 <= j < n && *#[trigger] s[j] == x
}

/// The items that an iteration over the keys of a map yields are the keys of the map.
pub proof fn lemma_keys_cover<V>(s: Seq<&u32>, m: Map<u32, V>)
    requires
        s.unref().to_set() == m.dom(),
    ensures
        forall|j: int| 0 <= j < s.len() ==> m.contains_key(*#[trigger] s[j]),
        forall|x: u32| m.contains_key(x) ==> among(s, s.len() as int, x),
{
    assert forall|j: int| 0 <= j < s.len() implies m.contains_key(*#[trigger] s[j]) by {
        assert(s.unref()[j] == *s[j]);
        assert(s.unref().to_set().contains(s.unref()[j]));
    }
    assert forall|x: u32| m.contains_key(x) implies among(s, s.len() as int, x) by {
        assert(s.unref().to_set().contains(x));
        let j = choose|j: int| 0 <= j < s.unref().len() && s.unref()[j] == x;
        assert(*s[j] == x);
    }
}

/// The items that an iteration over a set yields are the members of the set.
pub proof fn lemma_members_cover(s: Seq<&u32>, m: Set<u32>)
    requires
        s.unref().to_set() == m,
    ensures
        forall|j: int| 0 <= j < s.len() ==> m.contains(*#[trigger] s[j]),
        forall|x: u32| m.contains(x) ==> among(s, s.len() as int, x),
{
    assert forall|j: int| 0 <= j < s.len() implies m.contains(*#[trigger] s[j]) by {
        assert(s.unref()[j] == *s[j]);
        assert(s.unref().to_set().contains(s.unref()[j]));
    }
    assert forall|x: u32| m.contains(x) implies among(s, s.len() as int, x) by {
        assert(s.unref().to_set().contains(x));
        let j = choose|j: int| 0 <= j < s.unref().len() && s.unref()[j] == x;
        assert(*s[j] == x);
    }
}

/// Writes each entry of `diff` into `target`, over the entry that `target` had for that key.
pub fn upsert_all<V: Copy>(target: &mut HashMap<u32, V>, diff: &HashMap<u32, V>)
    ensures
        final(target)@ == old(target)@.union_prefer_right(diff@),
{
    let ghost before = target@;
    let keys = diff.keys();
    proof {
        lemma_keys_cover(keys.remaining(), diff@);
    }
    for k in it: keys
        invariant
            forall|j: int| 0 <= j < it.seq().len() ==> diff@.contains_key(*#[trigger] it.seq()[j]),
            forall|x: u32| diff@.contains_key(x) ==> among(it.seq(), it.seq().len() as int, x),
            forall|x: u32| #[trigger]
                target@.contains_key(x) <==> (before.contains_key(x) || among(
                    it.seq(),
                    it.index(),
                    x,
                )),
            forall|x: u32| #[trigger]
                target@.contains_key(x) ==> target@[x] == (if among(it.seq(), it.index(), x) {
                    diff@[x]
                } else {
                    before[x]
                }),
    {
        match diff.get(k) {
            Some(v) => {
                target.insert(*k, *v);
            },
            None => {},
        }
    }
    assert(target@ =~= before.union_prefer_right(diff@));
}

/// Deletes each key of `diff` from `target`. The values of `diff` are not read.
pub fn remove_all<V, W>(target: &mut HashMap<u32, V>, diff: &HashMap<u32, W>)
    ensures
        final(target)@ == old(target)@.remove_keys(diff@.dom()),
{
    let ghost before = target@;
    let keys = diff.keys();
    proof {
        lemma_keys_cover(keys.remaining(), diff@);
    }
    for k in it: keys
        invariant
            forall|j: int| 0 <= j < it.seq().len() ==> diff@.contains_key(*#[trigger] it.seq()[j]),
            forall|x: u32| diff@.contains_key(x) ==> among(it.seq(), it.seq().len() as int, x),
            forall|x: u32| #[trigger]
                target@.contains_key(x) <==> (before.contains_key(x) && !among(
                    it.seq(),
                    it.index(),
                    x,
                )),
            forall|x: u32| #[trigger] target@.contains_key(x) ==> target@[x] == before[x],
    {
        target.remove(k);
    }
    assert(target@ =~= before.remove_keys(diff@.dom()));
}

/// Adds each member of `diff` to `target`.
pub fn include_all(target: &mut HashSet<u32>, diff: &HashSet<u32>)
    ensures
        final(target)@ == old(target)@.union(diff@),
{
    let ghost before = target@;
    let members = diff.iter();
    proof {
        lemma_members_cover(members.remaining(), diff@);
    }
    for k in it: members
        invariant
            forall|j: int| 0 <= j < it.seq().len() ==> diff@.contains(*#[trigger] it.seq()[j]),
            forall|x: u32| diff@.contains(x) ==> among(it.seq(), it.seq().len() as int, x),
            forall|x: u32| #[trigger]
                target@.contains(x) <==> (before.contains(x) || among(it.seq(), it.index(), x)),
    {
        target.insert(*k);
    }
    assert(target@ =~= before.union(diff@));
}

/// Takes each member of `diff` out of `target`.
pub fn exclude_all(target: &mut HashSet<u32>, diff: &HashSet<u32>)
    ensures
        final(target)@ == old(target)@.difference(diff@),
{
    let ghost before = target@;
    let members = diff.iter();
    proof {
        lemma_members_cover(members.remaining(), diff@);
    }
    for k in it: members
        invariant
            forall|j: int| 0 <= j < it.seq().len() ==> diff@.contains(*#[trigger] it.seq()[j]),
            forall|x: u32| diff@.contains(x) ==> among(it.seq(), it.seq().len() as int, x),
            forall|x: u32| #[trigger]
                target@.contains(x) <==> (before.contains(x) && !among(it.seq(), it.index(), x)),
    {
        target.remove(k);
    }
    assert(target@ =~= before.difference(diff@));
}

/// One entry of a combined diff: what is to be done with the entry of a collection that has
/// the same key.
#[derive(Clone, Copy, Debug, PartialEq, Eq)]
pub enum Update<I, U> {
    /// The entry is written, over what was there.
    Insert(I),
    /// The entry is changed in place, where there is one.
    Update(U),
    /// The entry is deleted.
    Remove,
}

/// The number of an inner item.
#[derive(Clone, Copy, Debug, Hash, PartialEq, Eq, Structural)]
pub struct InnerId(pub u32);

/// An item that can be switched on and off.
#[derive(Clone, Copy, Debug, PartialEq, Eq, Structural)]
pub struct Inner {
    pub id: InnerId,
    pub enabled: bool,
}

/// The number of an outer collection.
#[derive(Clone, Copy, Debug, Hash, PartialEq, Eq, Structural)]
pub struct OuterId(pub u32);

/// A collection of inner items by the numbers of their ids.
pub struct Outer {
    pub id: OuterId,
    pub inners: HashMap<u32, Inner>,
}

/// A diff of an inner item: the new state of the switch, where it changes.
#[derive(Clone, Copy, Debug, PartialEq, Eq)]
pub struct InnerUpdate {
    pub enabled: Option<bool>,
}

/// A combined diff of an outer collection: for each key, an item to write, a diff of the item,
/// or the order to delete it.
pub struct OuterUpdate {
    pub inners: HashMap<u32, Update<Inner, InnerUpdate>>,
}

impl Inner {
    /// The item after `update` has been applied to it.
    pub open spec fn updated(self, update: InnerUpdate) -> Inner {
        match update.enabled {
            Some(enabled) => Inner { enabled, ..self },
            None => self,
        }
    }

    /// Applies `update` to the item.
    pub fn update(&mut self, update: InnerUpdate)
        ensures
            *final(self) == old(self).updated(update),
    {
        if let Some(enabled) = update.enabled {
            self.enabled = enabled;
        }
    }
}

/// The items `inners` after the combined diff `update` has been applied to them: a key for
/// which the diff holds an item has that item, a key for which it holds a diff has the changed
/// item where it had one before, a key that it deletes has none, and every other key has what
/// it had.
pub open spec fn combined(
    inners: Map<u32, Inner>,
    update: Map<u32, Update<Inner, InnerUpdate>>,
) -> Map<u32, Inner> {
    Map::new(
        |k: u32|
            if update.contains_key(k) {
                match update[k] {
                    Update::Insert(_) => true,
                    Update::Update(_) => inners.contains_key(k),
                    Update::Remove => false,
                }
            } else {
                inners.contains_key(k)
            },
        |k: u32|
            if update.contains_key(k) {
                match update[k] {
                    Update::Insert(inner) => inner,
                    Update::Update(inner_update) => inners[k].updated(inner_update),
                    Update::Remove => inners[k],
                }
            } else {
                inners[k]
            },
    )
}

impl Outer {
    /// Applies the combined diff `update` to the collection.
    pub fn update(&mut self, update: OuterUpdate)
        ensures
            final(self).id == old(self).id,
            final(self).inners@ == combined(old(self).inners@, update.inners@),
    {
        let ghost before = self.inners@;
        let ghost diff = update.inners@;
        let keys = update.inners.keys();
        proof {
            lemma_keys_cover(keys.remaining(), diff);
        }
        for k in it: keys
            invariant
                it.seq().no_duplicates(),
                diff == update.inners@,
                self.id == old(self).id,
                forall|j: int| 0 <= j < it.seq().len() ==> diff.contains_key(*#[trigger] it.seq()[j]),
                forall|x: u32| diff.contains_key(x) ==> among(it.seq(), it.seq().len() as int, x),
                forall|x: u32| #[trigger]
                    self.inners@.contains_key(x) <==> (if among(it.seq(), it.index(), x) {
                        combined(before, diff).contains_key(x)
                    } else {
                        before.contains_key(x)
                    }),
                forall|x: u32| #[trigger]
                    self.inners@.contains_key(x) ==> self.inners@[x] == (if among(
                        it.seq(),
                        it.index(),
                        x,
                    ) {
                        combined(before, diff)[x]
                    } else {
                        before[x]
                    }),
        {
            let ghost seen = it.index();
            assert(!among(it.seq(), seen, *k)) by {
                if among(it.seq(), seen, *k) {
                    let j = choose|j: int| 0 <= j < seen && *#[trigger] it.seq()[j] == *k;
                    assert(it.seq()[j] == it.seq()[seen]);
                }
            }
            match update.inners.get(k) {
                Some(Update::Insert(new_inner)) => {
                    self.inners.insert(*k, *new_inner);
                },
                Some(Update::Update(inner_update)) => {
                    let changed = match self.inners.get(k) {
                        Some(inner) => {
                            let mut inner = *inner;
                            inner.update(*inner_update);
                            Some(inner)
                        },
                        None => None,
                    };
                    if let Some(inner) = changed {
                        self.inners.insert(*k, inner);
                    }
                },
                Some(Update::Remove) => {
                    self.inners.remove(k);
                },
                None => {},
            }
        }
        assert(self.inners@ =~= combined(before, diff));
    }
}

} // verus!
