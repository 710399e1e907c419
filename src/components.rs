use vstd::prelude::*;
use crate::store::{EntityId, EntityStore};

verus! {

/// What a list of entries maps each entity to.
pub open spec fn entries_view<T>(items: Seq<(EntityId, T)>) -> Map<EntityId, T> {
    Map::new(
        |e: EntityId| exists|i: int| 0 <= i < items.len() && items[i].0 == e,
        |e: EntityId| items[choose|i: int| 0 <= i < items.len() && items[i].0 == e].1,
    )
}

/// Values of one component type attached to entities, at most one per
/// entity.
pub struct ComponentStorage<T> {
    items: Vec<(EntityId, T)>,
}

impl<T> ComponentStorage<T> {
    /// No entity appears twice.
    pub closed spec fn wf(&self) -> bool {
        forall|i: int, j: int|
            0 <= i < self.items@.len() && 0 <= j < self.items@.len() && i != j ==> (
            #[trigger] self.items@[i]).0 != (#[trigger] self.items@[j]).0
    }

    pub closed spec fn view(&self) -> Map<EntityId, T> {
        entries_view(self.items@)
    }

    /// A storage with no component.
    pub fn new() -> (r: ComponentStorage<T>)
        ensures
            r.wf(),
            r.view() == Map::<EntityId, T>::empty(),
    {
        let r = ComponentStorage { items: Vec::new() };
        assert(r.view() =~= Map::<EntityId, T>::empty());
        r
    }

    /// The position of `e` in the list, if it has a component.
    fn find(&self, e: EntityId) -> (r: Option<usize>)
        requires
            self.wf(),
        ensures
            match r {
                Some(i) => i < self.items@.len() && self.items@[i as int].0 == e,
                None => forall|i: int| 0 <= i < self.items@.len() ==> self.items@[i].0 != e,
            },
    {
        let mut k: usize = 0;
        while k < self.items.len()
            invariant
                k <= self.items@.len(),
                forall|i: int| 0 <= i < k ==> self.items@[i].0 != e,
            decreases self.items@.len() - k,
        {
            if self.items[k].0 == e {
                return Some(k);
            }
            k = k + 1;
        }
        None
    }

    /// Whether `e` has a component here.
    pub fn contains(&self, e: EntityId) -> (r: bool)
        requires
            self.wf(),
        ensures
            r == self.view().contains_key(e),
    {
        let r = self.find(e);
        proof {
            if let Some(i) = r {
                assert(self.items@[i as int].0 == e);
            }
        }
        r.is_some()
    }

    /// The component of `e`.
    pub fn get(&self, e: EntityId) -> (r: Option<&T>)
        requires
            self.wf(),
        ensures
            r == (if self.view().contains_key(e) {
                Some(&self.view()[e])
            } else {
                None
            }),
    {
        match self.find(e) {
            Some(i) => {
                proof {
                    assert(self.view().contains_key(e));
                    let j = choose|j: int| 0 <= j < self.items@.len() && self.items@[j].0 == e;
                    assert(i == j);
                }
                Some(&self.items[i].1)
            },
            None => None,
        }
    }

    /// Attaches `value` to `e`, replacing a component `e` had.
    pub fn insert(&mut self, e: EntityId, value: T)
        requires
            old(self).wf(),
        ensures
            final(self).wf(),
            final(self).view() == old(self).view().insert(e, value),
    {
        let ghost old_items = self.items@;
        match self.find(e) {
            Some(i) => {
                self.items.set(i, (e, value));
                proof {
                    assert forall|x: EntityId| #[trigger] self.view().contains_key(x)
                        == old(self).view().insert(e, value).contains_key(x) by {
                        if x != e && old(self).view().contains_key(x) {
                            let j = choose|j: int| 0 <= j < old_items.len() && old_items[j].0 == x;
                            assert(self.items@[j].0 == x);
                        }
                        if x == e {
                            assert(self.items@[i as int].0 == x);
                        }
                        if self.view().contains_key(x) && x != e {
                            let j = choose|j: int| 0 <= j < self.items@.len() && self.items@[j].0 == x;
                            assert(j != i);
                            assert(old_items[j].0 == x);
                        }
                    }
                    assert forall|x: EntityId| #[trigger] self.view().contains_key(x) implies
                        self.view()[x] == old(self).view().insert(e, value)[x] by {
                        let j = choose|j: int| 0 <= j < self.items@.len() && self.items@[j].0 == x;
                        if x == e {
                            assert(j == i);
                        } else {
                            let k = choose|k: int| 0 <= k < old_items.len() && old_items[k].0 == x;
                            assert(j == k);
                        }
                    }
                    assert(self.view() =~= old(self).view().insert(e, value));
                }
            },
            None => {
                self.items.push((e, value));
                proof {
                    let n = old_items.len() as int;
                    assert forall|x: EntityId| #[trigger] self.view().contains_key(x)
                        == old(self).view().insert(e, value).contains_key(x) by {
                        if x != e && old(self).view().contains_key(x) {
                            let j = choose|j: int| 0 <= j < old_items.len() && old_items[j].0 == x;
                            assert(self.items@[j].0 == x);
                        }
                        if x == e {
                            assert(self.items@[n].0 == x);
                        }
                    }
                    assert forall|x: EntityId| #[trigger] self.view().contains_key(x) implies
                        self.view()[x] == old(self).view().insert(e, value)[x] by {
                        let j = choose|j: int| 0 <= j < self.items@.len() && self.items@[j].0 == x;
                        if x == e {
                            assert(j == n);
                        } else {
                            let k = choose|k: int| 0 <= k < old_items.len() && old_items[k].0 == x;
                            assert(j == k);
                        }
                    }
                    assert(self.view() =~= old(self).view().insert(e, value));
                }
            },
        }
    }

    /// Detaches the component of `e`, handing it back.
    pub fn remove(&mut self, e: EntityId) -> (r: Option<T>)
        requires
            old(self).wf(),
        ensures
            final(self).wf(),
            r == (if old(self).view().contains_key(e) {
                Some(old(self).view()[e])
            } else {
                None
            }),
            final(self).view() == old(self).view().remove(e),
    {
        let ghost old_items = self.items@;
        match self.find(e) {
            Some(i) => {
                let (_, value) = self.items.remove(i);
                proof {
                    self.lemma_removed_at(old_items, i as int);
                    assert(old(self).view().contains_key(e));
                    let j = choose|j: int| 0 <= j < old_items.len() && old_items[j].0 == e;
                    assert(j == i);
                }
                Some(value)
            },
            None => {
                proof {
                    assert(!old(self).view().contains_key(e));
                    assert(self.view() =~= old(self).view().remove(e));
                }
                None
            },
        }
    }

    /// Detaches every component whose entity is no longer live in `store`.
    pub fn retain_live(&mut self, store: &EntityStore)
        requires
            old(self).wf(),
        ensures
            final(self).wf(),
            final(self).view() == old(self).view().restrict(store.view().entities.dom()),
    {
        let ghost v0 = self.view();
        let ghost live = store.view().entities.dom();
        let mut k: usize = 0;
        while k < self.items.len()
            invariant
                self.wf(),
                k <= self.items@.len(),
                live == store.view().entities.dom(),
                forall|i: int| 0 <= i < k ==> live.contains(#[trigger] self.items@[i].0),
                forall|x: EntityId| #[trigger]
                    self.view().contains_key(x) ==> v0.contains_key(x) && self.view()[x] == v0[x],
                forall|x: EntityId|
                    v0.contains_key(x) && live.contains(x) ==> #[trigger] self.view().contains_key(
                        x,
                    ),
            decreases self.items@.len() - k,
        {
            let e = self.items[k].0;
            if store.is_alive(e) {
                k = k + 1;
            } else {
                let ghost before = self.items@;
                let ghost before_view = self.view();
                let _ = self.items.remove(k);
                proof {
                    self.lemma_removed_at(before, k as int);
                    assert(self.view() == before_view.remove(e));
                    assert forall|i: int| 0 <= i < k implies live.contains(
                        #[trigger] self.items@[i].0,
                    ) by {
                        assert(self.items@[i] == before[i]);
                    }
                    assert(!live.contains(e));
                }
            }
        }
        proof {
            assert forall|x: EntityId| #[trigger] self.view().contains_key(x) == v0.restrict(
                live,
            ).contains_key(x) by {
                if self.view().contains_key(x) {
                    let j = choose|j: int| 0 <= j < self.items@.len() && self.items@[j].0 == x;
                    assert(live.contains(self.items@[j].0));
                }
            }
            assert(self.view() =~= v0.restrict(live));
        }
    }

    /// After the entry at `i` of `old_items` was removed, the storage maps
    /// what it mapped before but that entry's entity.
    proof fn lemma_removed_at(&self, old_items: Seq<(EntityId, T)>, i: int)
        requires
            0 <= i < old_items.len(),
            self.items@ == old_items.remove(i),
            forall|a: int, b: int|
                0 <= a < old_items.len() && 0 <= b < old_items.len() && a != b ==> (
                #[trigger] old_items[a]).0 != (#[trigger] old_items[b]).0,
        ensures
            self.wf(),
            self.view() == entries_view(old_items).remove(
                old_items[i].0,
            ),
    {
        let e = old_items[i].0;
        let old_view = entries_view(old_items);
        assert forall|a: int, b: int|
            0 <= a < self.items@.len() && 0 <= b < self.items@.len() && a != b implies (
            #[trigger] self.items@[a]).0 != (#[trigger] self.items@[b]).0 by {
            let oa = if a < i { a } else { a + 1 };
            let ob = if b < i { b } else { b + 1 };
            assert(self.items@[a] == old_items[oa]);
            assert(self.items@[b] == old_items[ob]);
        }
        assert forall|x: EntityId| #[trigger] self.view().contains_key(x)
            == old_view.remove(e).contains_key(x) by {
            if self.view().contains_key(x) {
                let j = choose|j: int| 0 <= j < self.items@.len() && self.items@[j].0 == x;
                let oj = if j < i { j } else { j + 1 };
                assert(old_items[oj].0 == x);
                assert(oj != i);
            }
            if old_view.contains_key(x) && x != e {
                let j = choose|j: int| 0 <= j < old_items.len() && old_items[j].0 == x;
                assert(j != i);
                let nj = if j < i { j } else { j - 1 };
                assert(self.items@[nj].0 == x);
            }
        }
        assert forall|x: EntityId| #[trigger] self.view().contains_key(x) implies self.view()[x]
            == old_view[x] by {
            let j = choose|j: int| 0 <= j < self.items@.len() && self.items@[j].0 == x;
            let oj = if j < i { j } else { j + 1 };
            assert(old_items[oj].0 == x);
            let k = choose|k: int| 0 <= k < old_items.len() && old_items[k].0 == x;
            assert(k == oj);
        }
        assert(self.view() =~= old_view.remove(e));
    }
}

} // verus!
