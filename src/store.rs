use vstd::prelude::*;
use crate::elements::FacetSet;
use crate::kind::FacetKind;

verus! {

/// Identifier of an entity; unique among live entities and never handed out
/// twice by one store.
#[derive(Clone, Copy, Debug, PartialEq, Eq, Structural, Hash)]
pub struct EntityId {
    pub index: usize,
    pub generation: u64,
}

/// What a store holds: the facets of each live entity, and the live entities
/// whose removal waits for the next `maintain`.
pub struct StoreView {
    pub entities: Map<EntityId, FacetSet>,
    pub pending: Set<EntityId>,
}

impl StoreView {
    /// The state after `create` handed out `e` with `facets`.
    pub open spec fn created(self, e: EntityId, facets: FacetSet) -> StoreView {
        StoreView { entities: self.entities.insert(e, facets), pending: self.pending }
    }

    /// The state after a deferred `delete` of `e`: nothing is removed yet.
    pub open spec fn deleted(self, e: EntityId) -> StoreView {
        if self.entities.contains_key(e) {
            StoreView { entities: self.entities, pending: self.pending.insert(e) }
        } else {
            self
        }
    }

    /// The state after `destroy` removed `e` at once.
    pub open spec fn destroyed(self, e: EntityId) -> StoreView {
        StoreView { entities: self.entities.remove(e), pending: self.pending.remove(e) }
    }

    /// The state after `maintain` applied every deferred removal.
    pub open spec fn maintained(self) -> StoreView {
        StoreView {
            entities: self.entities.remove_keys(self.pending),
            pending: Set::empty(),
        }
    }
}

/// Storage slot of one entity index.
#[derive(Clone, Copy)]
struct Slot {
    generation: u64,
    alive: bool,
    facets: FacetSet,
}

/// Entity store: hands out identifiers, holds each entity's facets, and defers
/// removals requested while systems may be reading.
pub struct EntityStore {
    slots: Vec<Slot>,
    free: Vec<usize>,
    doomed: Vec<EntityId>,
}

impl EntityStore {
    /// `e` names the entity that currently occupies its slot.
    spec fn is_live(&self, e: EntityId) -> bool {
        &&& e.index < self.slots@.len()
        &&& self.slots@[e.index as int].alive
        &&& self.slots@[e.index as int].generation == e.generation
    }

    /// `e` was handed out by this store at some point (it may be gone since).
    pub closed spec fn issued(&self, e: EntityId) -> bool {
        &&& e.index < self.slots@.len()
        &&& e.generation <= self.slots@[e.index as int].generation
    }

    /// Internal consistency: every deferred removal names an issued entity.
    /// `new` establishes it and every method keeps it.
    pub closed spec fn wf(&self) -> bool {
        forall|j: int| 0 <= j < self.doomed@.len() ==> self.issued(#[trigger] self.doomed@[j])
    }

    pub closed spec fn view(&self) -> StoreView {
        StoreView {
            entities: Map::new(
                |e: EntityId| self.is_live(e),
                |e: EntityId| self.slots@[e.index as int].facets,
            ),
            pending: Set::new(|e: EntityId| self.doomed@.contains(e) && self.is_live(e)),
        }
    }

    /// Live entities are issued ones, and pending removals are live entities.
    pub proof fn lemma_view_facts(&self)
        ensures
            forall|e: EntityId| #[trigger]
                self.view().entities.contains_key(e) ==> self.issued(e),
            self.view().pending.subset_of(self.view().entities.dom()),
    {
    }

    /// An empty store.
    pub fn new() -> (r: EntityStore)
        ensures
            r.wf(),
            r.view().entities == Map::<EntityId, FacetSet>::empty(),
            r.view().pending == Set::<EntityId>::empty(),
            forall|e: EntityId| !r.issued(e),
    {
        let r = EntityStore { slots: Vec::new(), free: Vec::new(), doomed: Vec::new() };
        assert(r.view().entities =~= Map::<EntityId, FacetSet>::empty());
        assert(r.view().pending =~= Set::<EntityId>::empty());
        r
    }

    /// Whether `e` is live.
    pub fn is_alive(&self, e: EntityId) -> (r: bool)
        ensures
            r == self.view().entities.contains_key(e),
    {
        e.index < self.slots.len() && self.slots[e.index].alive && self.slots[e.index].generation
            == e.generation
    }

    /// The facets of `e`, or `None` when `e` is not live.
    pub fn facets(&self, e: EntityId) -> (r: Option<FacetSet>)
        ensures
            r == (if self.view().entities.contains_key(e) {
                Some(self.view().entities[e])
            } else {
                None
            }),
    {
        if self.is_alive(e) {
            Some(self.slots[e.index].facets)
        } else {
            None
        }
    }

    /// Whether `e` is live and carries the facet `f`.
    pub fn has_facet(&self, e: EntityId, f: FacetKind) -> (r: bool)
        ensures
            r == (self.view().entities.contains_key(e) && self.view().entities[e].kinds().contains(
                f,
            )),
    {
        match self.facets(e) {
            Some(fs) => fs.contains(f),
            None => false,
        }
    }

    /// Creates an entity with `facets`; its identifier was never issued before.
    pub fn create(&mut self, facets: FacetSet) -> (r: EntityId)
        requires
            old(self).wf(),
        ensures
            final(self).wf(),
            !old(self).issued(r),
            final(self).issued(r),
            final(self).view() == old(self).view().created(r, facets),
            forall|e: EntityId| old(self).issued(e) ==> final(self).issued(e),
    {
        let ghost old_store = *self;
        let mut reuse: Option<usize> = None;
        match self.free.pop() {
            Some(i) => {
                if i < self.slots.len() && !self.slots[i].alive && self.slots[i].generation
                    < u64::MAX {
                    reuse = Some(i);
                }
            },
            None => {},
        }
        let r = match reuse {
            Some(i) => {
                let generation = self.slots[i].generation + 1;
                self.slots.set(i, Slot { generation, alive: true, facets });
                EntityId { index: i, generation }
            },
            None => {
                let index = self.slots.len();
                self.slots.push(Slot { generation: 0, alive: true, facets });
                EntityId { index, generation: 0 }
            },
        };
        proof {
            assert forall|e: EntityId| old_store.issued(e) implies self.issued(e) by {}
            assert forall|j: int| 0 <= j < self.doomed@.len() implies self.issued(
                #[trigger] self.doomed@[j],
            ) by {
                assert(old_store.issued(old_store.doomed@[j]));
            }
            assert forall|e: EntityId| #[trigger] self.is_live(e) == (old_store.is_live(e) || e == r) by {}
            assert(self.view().entities =~= old_store.view().entities.insert(r, facets));
            assert forall|e: EntityId| self.doomed@.contains(e) implies e != r by {
                let j = choose|j: int| 0 <= j < self.doomed@.len() && self.doomed@[j] == e;
                assert(old_store.issued(old_store.doomed@[j]));
            }
            assert(self.view().pending =~= old_store.view().pending);
        }
        r
    }

    /// Requests removal of `e` at the next `maintain`; until then it stays
    /// live with its facets. Returns whether `e` was live.
    pub fn delete(&mut self, e: EntityId) -> (r: bool)
        requires
            old(self).wf(),
        ensures
            final(self).wf(),
            r == old(self).view().entities.contains_key(e),
            final(self).view() == old(self).view().deleted(e),
            forall|x: EntityId| old(self).issued(x) <==> final(self).issued(x),
    {
        let ghost old_store = *self;
        if self.is_alive(e) {
            self.doomed.push(e);
            proof {
                assert forall|j: int| 0 <= j < self.doomed@.len() implies self.issued(
                    #[trigger] self.doomed@[j],
                ) by {
                    if j < old_store.doomed@.len() {
                        assert(old_store.issued(old_store.doomed@[j]));
                    }
                }
                assert(self.view().entities =~= old_store.view().entities);
                assert forall|x: EntityId| #[trigger] self.view().pending.contains(x)
                    == old_store.view().pending.insert(e).contains(x) by {
                    assert(self.is_live(x) == old_store.is_live(x));
                    if old_store.doomed@.contains(x) {
                        let j = choose|j: int|
                            0 <= j < old_store.doomed@.len() && old_store.doomed@[j] == x;
                        assert(self.doomed@[j] == x);
                    }
                    if x == e {
                        assert(self.doomed@[self.doomed@.len() - 1] == x);
                    }
                    if self.doomed@.contains(x) && x != e {
                        let j = choose|j: int| 0 <= j < self.doomed@.len() && self.doomed@[j] == x;
                        assert(old_store.doomed@[j] == x);
                    }
                }
                assert(self.view().pending =~= old_store.view().pending.insert(e));
            }
            true
        } else {
            false
        }
    }

    /// Removes `e` at once, with all its facets. Returns whether `e` was live.
    pub fn destroy(&mut self, e: EntityId) -> (r: bool)
        requires
            old(self).wf(),
        ensures
            final(self).wf(),
            r == old(self).view().entities.contains_key(e),
            final(self).view() == old(self).view().destroyed(e),
            forall|x: EntityId| old(self).issued(x) <==> final(self).issued(x),
    {
        let ghost old_store = *self;
        if self.is_alive(e) {
            self.kill(e);
            proof {
                assert(self.view().entities =~= old_store.view().entities.remove(e));
                assert(self.view().pending =~= old_store.view().pending.remove(e));
            }
            true
        } else {
            proof {
                assert(self.view().entities =~= old_store.view().entities.remove(e));
                assert(self.view().pending =~= old_store.view().pending.remove(e));
            }
            false
        }
    }

    /// Marks the slot of a live `e` free; other entities keep their facets.
    fn kill(&mut self, e: EntityId)
        requires
            old(self).wf(),
            old(self).is_live(e),
        ensures
            final(self).wf(),
            final(self).doomed@ == old(self).doomed@,
            forall|x: EntityId| old(self).issued(x) <==> final(self).issued(x),
            forall|x: EntityId| #[trigger] final(self).is_live(x) == (old(self).is_live(x) && x != e),
            forall|x: EntityId| #[trigger] final(self).is_live(x)
                ==> final(self).slots@[x.index as int].facets == old(self).slots@[x.index as int].facets,
    {
        let ghost old_store = *self;
        let generation = self.slots[e.index].generation;
        self.slots.set(e.index, Slot { generation, alive: false, facets: FacetSet::empty() });
        self.free.push(e.index);
        proof {
            assert forall|x: EntityId| old_store.issued(x) <==> self.issued(x) by {}
            assert forall|j: int| 0 <= j < self.doomed@.len() implies self.issued(
                #[trigger] self.doomed@[j],
            ) by {
                assert(old_store.issued(old_store.doomed@[j]));
            }
        }
    }

    /// Applies every deferred removal: the entities whose `delete` came since
    /// the last call are gone afterwards, and no other entity changes.
    pub fn maintain(&mut self)
        requires
            old(self).wf(),
        ensures
            final(self).wf(),
            final(self).view() == old(self).view().maintained(),
            forall|x: EntityId| old(self).issued(x) <==> final(self).issued(x),
    {
        let ghost old_store = *self;
        let n = self.doomed.len();
        let mut k: usize = 0;
        while k < n
            invariant
                self.wf(),
                0 <= k <= n,
                n == self.doomed@.len(),
                self.doomed@ == old_store.doomed@,
                forall|x: EntityId| old_store.issued(x) <==> self.issued(x),
                forall|x: EntityId| #[trigger] self.is_live(x) == (old_store.is_live(x)
                    && !(exists|j: int| 0 <= j < k && old_store.doomed@[j] == x)),
                forall|x: EntityId| #[trigger] self.is_live(x)
                    ==> self.slots@[x.index as int].facets == old_store.slots@[x.index as int].facets,
            decreases n - k,
        {
            let e = self.doomed[k];
            let ghost before = *self;
            if self.is_alive(e) {
                self.kill(e);
            }
            proof {
                assert forall|x: EntityId| #[trigger] self.is_live(x) == (old_store.is_live(x)
                    && !(exists|j: int| 0 <= j < k + 1 && old_store.doomed@[j] == x)) by {
                    if exists|j: int| 0 <= j < k + 1 && old_store.doomed@[j] == x {
                        let j = choose|j: int| 0 <= j < k + 1 && old_store.doomed@[j] == x;
                        if j < k {
                            assert(!before.is_live(x));
                        }
                    } else {
                        assert(x != e);
                    }
                }
            }
            k = k + 1;
        }
        let ghost after_loop = *self;
        self.doomed = Vec::new();
        proof {
            assert forall|x: EntityId| #[trigger] self.is_live(x) == (old_store.is_live(x)
                && !old_store.doomed@.contains(x)) by {
                assert(self.is_live(x) == after_loop.is_live(x));
                assert(after_loop.is_live(x) == (old_store.is_live(x)
                    && !(exists|j: int| 0 <= j < n && old_store.doomed@[j] == x)));
                if old_store.doomed@.contains(x) {
                    let j = choose|j: int| 0 <= j < old_store.doomed@.len() && old_store.doomed@[j] == x;
                    assert(exists|j: int| 0 <= j < n && old_store.doomed@[j] == x);
                }
                if exists|j: int| 0 <= j < n && old_store.doomed@[j] == x {
                    let j = choose|j: int| 0 <= j < n && old_store.doomed@[j] == x;
                    assert(old_store.doomed@.contains(x));
                }
            }
            assert forall|x: EntityId| #[trigger] self.is_live(x)
                implies self.slots@[x.index as int].facets == old_store.slots@[x.index as int].facets by {
                assert(after_loop.is_live(x));
            }
            assert(self.view().entities =~= old_store.view().maintained().entities);
            assert(self.view().pending =~= Set::<EntityId>::empty());
        }
    }
}

/// Deferred removal: an entity deleted during a tick keeps its facets for
/// every read until the tick ends, and is gone once the tick's `maintain` ran.
/// Entities not deleted are untouched by that `maintain`.
pub proof fn lemma_deferred_delete(s: StoreView, e: EntityId)
    requires
        s.pending.subset_of(s.entities.dom()),
        s.entities.contains_key(e),
    ensures
        s.deleted(e).entities.contains_key(e),
        s.deleted(e).entities[e] == s.entities[e],
        !s.deleted(e).maintained().entities.contains_key(e),
        forall|x: EntityId|
            s.entities.contains_key(x) && x != e && !s.pending.contains(x) ==> #[trigger] s.deleted(
                e,
            ).maintained().entities.contains_key(x) && s.deleted(e).maintained().entities[x]
                == s.entities[x],
{
}

} // verus!
