use gameplay_core::updatable::{
    exclude_all, include_all, remove_all, upsert_all, Inner, InnerId, InnerUpdate, Outer, OuterId,
    OuterUpdate, Update,
};
use std::collections::{HashMap, HashSet};

fn inner(id: u32, enabled: bool) -> Inner {
    Inner { id: InnerId(id), enabled }
}

fn outer() -> Outer {
    let mut inners = HashMap::new();
    inners.insert(1, inner(1, false));
    inners.insert(2, inner(2, true));
    inners.insert(3, inner(3, false));
    Outer { id: OuterId(7), inners }
}

#[test]
fn inner_update_replaces_what_is_present() {
    let mut item = inner(4, false);
    item.update(InnerUpdate { enabled: None });
    assert_eq!(item, inner(4, false));
    item.update(InnerUpdate { enabled: Some(true) });
    assert_eq!(item, inner(4, true));
    item.update(InnerUpdate { enabled: Some(true) });
    assert_eq!(item, inner(4, true));
    item.update(InnerUpdate { enabled: Some(false) });
    assert_eq!(item, inner(4, false));
}

#[test]
fn combined_update_inserts_changes_and_removes() {
    let mut collection = outer();
    let mut inners = HashMap::new();
    inners.insert(1, Update::Update(InnerUpdate { enabled: Some(true) }));
    inners.insert(2, Update::Remove);
    inners.insert(4, Update::Insert(inner(4, true)));
    inners.insert(5, Update::Update(InnerUpdate { enabled: Some(true) }));
    inners.insert(6, Update::Remove);
    collection.update(OuterUpdate { inners });
    let mut expected = HashMap::new();
    expected.insert(1, inner(1, true));
    expected.insert(3, inner(3, false));
    expected.insert(4, inner(4, true));
    assert_eq!(collection.inners, expected);
    assert_eq!(collection.id, OuterId(7));
}

#[test]
fn combined_update_overwrites_on_insert() {
    let mut collection = outer();
    let mut inners = HashMap::new();
    inners.insert(3, Update::Insert(inner(30, true)));
    inners.insert(2, Update::Update(InnerUpdate { enabled: None }));
    collection.update(OuterUpdate { inners });
    assert_eq!(collection.inners.len(), 3);
    assert_eq!(collection.inners[&3], inner(30, true));
    assert_eq!(collection.inners[&2], inner(2, true));
    assert_eq!(collection.inners[&1], inner(1, false));
    collection.update(OuterUpdate { inners: HashMap::new() });
    assert_eq!(collection.inners.len(), 3);
}

#[test]
fn maps_take_and_lose_the_keys_of_a_diff() {
    let mut target: HashMap<u32, u8> = [(1, 10), (2, 20), (3, 30)].into_iter().collect();
    let diff: HashMap<u32, u8> = [(2, 21), (4, 41)].into_iter().collect();
    upsert_all(&mut target, &diff);
    let written: HashMap<u32, u8> = [(1, 10), (2, 21), (3, 30), (4, 41)].into_iter().collect();
    assert_eq!(target, written);
    let keys: HashMap<u32, bool> = [(1, true), (4, false), (9, true)].into_iter().collect();
    remove_all(&mut target, &keys);
    let left: HashMap<u32, u8> = [(2, 21), (3, 30)].into_iter().collect();
    assert_eq!(target, left);
}

#[test]
fn sets_take_and_lose_the_members_of_a_diff() {
    let mut target: HashSet<u32> = [1, 2, 3].into_iter().collect();
    let diff: HashSet<u32> = [3, 4].into_iter().collect();
    include_all(&mut target, &diff);
    assert_eq!(target, [1, 2, 3, 4].into_iter().collect::<HashSet<u32>>());
    let gone: HashSet<u32> = [1, 4, 8].into_iter().collect();
    exclude_all(&mut target, &gone);
    assert_eq!(target, [2, 3].into_iter().collect::<HashSet<u32>>());
    exclude_all(&mut target, &HashSet::new());
    include_all(&mut target, &HashSet::new());
    assert_eq!(target.len(), 2);
}
