use vstd::prelude::*;
use crate::elements::{CBaseObject, FacetSet};
use crate::kind::{FacetKind, ObjectKind, facets_of, kind_of_tag, TYPE_PLAYER, TYPE_VEHICLE};
use crate::registry::{AltResource, RawObject, RegistryError};
use crate::store::{EntityId, EntityStore, StoreView};

verus! {

/// What a world holds: the registered host objects, keyed by kind and
/// handle, and the entity store.
pub struct WorldView {
    pub objects: Map<(ObjectKind, usize), EntityId>,
    pub store: StoreView,
}

impl WorldView {
    /// The result of looking `handle` up among the objects of `kind`.
    pub open spec fn lookup(self, kind: ObjectKind, handle: usize) -> Result<
        EntityId,
        RegistryError,
    > {
        if self.objects.contains_key((kind, handle)) {
            Ok(self.objects[(kind, handle)])
        } else {
            Err(RegistryError::NotFound { kind, handle })
        }
    }

    /// The result of resolving a polymorphic entity reference: a player or a
    /// vehicle, chosen by the reference's type tag.
    pub open spec fn entity_lookup(self, obj: RawObject) -> Result<EntityId, RegistryError> {
        if obj.type_tag == TYPE_PLAYER {
            self.lookup(ObjectKind::Player, obj.handle)
        } else if obj.type_tag == TYPE_VEHICLE {
            self.lookup(ObjectKind::Vehicle, obj.handle)
        } else {
            Err(RegistryError::UnexpectedEntityType { type_tag: obj.type_tag })
        }
    }

    /// Like `entity_lookup`, where handle 0 means that no entity is referenced.
    pub open spec fn optional_entity_lookup(self, obj: RawObject) -> Result<
        Option<EntityId>,
        RegistryError,
    > {
        if obj.handle == 0 {
            Ok(None)
        } else {
            match self.entity_lookup(obj) {
                Ok(e) => Ok(Some(e)),
                Err(err) => Err(err),
            }
        }
    }

    /// The state after `register(kind, handle)` created `e`.
    pub open spec fn registered(self, kind: ObjectKind, handle: usize, e: EntityId) -> WorldView {
        WorldView {
            objects: self.objects.insert((kind, handle), e),
            store: self.store.created(e, FacetSet::of_object(kind, handle)),
        }
    }

    /// The state after `unregister(kind, handle)` of a registered object.
    pub open spec fn unregistered(self, kind: ObjectKind, handle: usize) -> WorldView {
        WorldView {
            objects: self.objects.remove((kind, handle)),
            store: self.store.destroyed(self.objects[(kind, handle)]),
        }
    }
}

/// The mirror of one resource: its entity store and the registry from host
/// handles to entities.
pub struct World {
    store: EntityStore,
    objects: AltResource,
}

impl World {
    pub closed spec fn view(&self) -> WorldView {
        WorldView {
            objects: Map::new(
                |p: (ObjectKind, usize)| self.objects.map_of(p.0).contains_key(p.1),
                |p: (ObjectKind, usize)| self.objects.map_of(p.0)[p.1],
            ),
            store: self.store.view(),
        }
    }

    /// Consistency of the mirror: the store is consistent, every registered
    /// entity was issued by the store, and no entity is registered twice.
    /// `new` establishes it and every method keeps it; the fields are private,
    /// so no other code can break it.
    pub closed spec fn wf(&self) -> bool {
        &&& self.store.wf()
        &&& forall|k: ObjectKind, h: usize| #[trigger]
            self.objects.map_of(k).contains_key(h) ==> self.store.issued(
                self.objects.map_of(k)[h],
            )
        &&& forall|k1: ObjectKind, h1: usize, k2: ObjectKind, h2: usize|
            #![trigger self.objects.map_of(k1)[h1], self.objects.map_of(k2)[h2]]
            self.objects.map_of(k1).contains_key(h1) && self.objects.map_of(k2).contains_key(h2)
                && (k1 != k2 || h1 != h2) ==> self.objects.map_of(k1)[h1]
                != self.objects.map_of(k2)[h2]
    }

    /// A consistent world has no entity registered under two keys.
    pub proof fn lemma_registered_distinct(&self)
        requires
            self.wf(),
        ensures
            forall|p: (ObjectKind, usize), q: (ObjectKind, usize)|
                #![trigger self.view().objects[p], self.view().objects[q]]
                self.view().objects.contains_key(p) && self.view().objects.contains_key(q) && p
                    != q ==> self.view().objects[p] != self.view().objects[q],
    {
        assert forall|p: (ObjectKind, usize), q: (ObjectKind, usize)|
            self.view().objects.contains_key(p) && self.view().objects.contains_key(q) && p
                != q implies #[trigger] self.view().objects[p] != #[trigger] self.view().objects[q] by {
            assert(self.objects.map_of(p.0)[p.1] != self.objects.map_of(q.0)[q.1]);
        }
    }

    /// An empty world.
    pub fn new() -> (r: World)
        ensures
            r.wf(),
            r.view().objects == Map::<(ObjectKind, usize), EntityId>::empty(),
            r.view().store.entities == Map::<EntityId, FacetSet>::empty(),
            r.view().store.pending == Set::<EntityId>::empty(),
    {
        let r = World { store: EntityStore::new(), objects: AltResource::new() };
        assert(r.view().objects =~= Map::<(ObjectKind, usize), EntityId>::empty());
        r
    }

    /// The entity store, for reads.
    pub fn store(&self) -> (r: &EntityStore)
        ensures
            r.view() == self.view().store,
    {
        &self.store
    }

    /// The entity registered for `handle` among the objects of `kind`, or
    /// `NotFound`.
    pub fn resolve(&self, kind: ObjectKind, handle: usize) -> (r: Result<EntityId, RegistryError>)
        ensures
            r == self.view().lookup(kind, handle),
    {
        match self.objects.get(kind, handle) {
            Some(e) => Ok(e),
            None => Err(RegistryError::NotFound { kind, handle }),
        }
    }

    /// Resolves a polymorphic entity reference by its type tag.
    pub fn resolve_entity(&self, obj: RawObject) -> (r: Result<EntityId, RegistryError>)
        ensures
            r == self.view().entity_lookup(obj),
    {
        if obj.type_tag == TYPE_PLAYER {
            self.resolve(ObjectKind::Player, obj.handle)
        } else if obj.type_tag == TYPE_VEHICLE {
            self.resolve(ObjectKind::Vehicle, obj.handle)
        } else {
            Err(RegistryError::UnexpectedEntityType { type_tag: obj.type_tag })
        }
    }

    /// Resolves a polymorphic entity reference that may be absent (handle 0).
    pub fn resolve_optional_entity(&self, obj: RawObject) -> (r: Result<
        Option<EntityId>,
        RegistryError,
    >)
        ensures
            r == self.view().optional_entity_lookup(obj),
    {
        if obj.handle == 0 {
            Ok(None)
        } else {
            match self.resolve_entity(obj) {
                Ok(e) => Ok(Some(e)),
                Err(err) => Err(err),
            }
        }
    }

    /// Mirrors a newly announced host object: creates an entity with the
    /// facets of `kind`, each wrapping `handle`, and maps `handle` to it.
    /// Refused when `handle` is already registered for `kind`.
    pub fn register(&mut self, kind: ObjectKind, handle: usize) -> (r: Result<
        EntityId,
        RegistryError,
    >)
        requires
            old(self).wf(),
        ensures
            final(self).wf(),
            match r {
                Ok(e) => {
                    &&& !old(self).view().objects.contains_key((kind, handle))
                    &&& !old(self).view().store.entities.contains_key(e)
                    &&& final(self).view() == old(self).view().registered(kind, handle, e)
                },
                Err(err) => {
                    &&& old(self).view().objects.contains_key((kind, handle))
                    &&& err == RegistryError::AlreadyRegistered { kind, handle }
                    &&& final(self).view() == old(self).view()
                },
            },
    {
        if self.objects.get(kind, handle).is_some() {
            return Err(RegistryError::AlreadyRegistered { kind, handle });
        }
        let ghost old_world = *self;
        let facets = FacetSet::for_object(kind, handle);
        let e = self.store.create(facets);
        self.objects.insert(kind, handle, e);
        proof {
            old_world.store.lemma_view_facts();
            assert forall|k: ObjectKind, h: usize| #[trigger]
                self.objects.map_of(k).contains_key(h) implies self.store.issued(
                self.objects.map_of(k)[h],
            ) by {
                if k != kind || h != handle {
                    assert(old_world.objects.map_of(k).contains_key(h));
                    assert(old_world.store.issued(old_world.objects.map_of(k)[h]));
                }
            }
            assert forall|k1: ObjectKind, h1: usize, k2: ObjectKind, h2: usize|
                self.objects.map_of(k1).contains_key(h1) && self.objects.map_of(k2).contains_key(h2)
                    && (k1 != k2 || h1 != h2) implies #[trigger] self.objects.map_of(k1)[h1]
                != #[trigger] self.objects.map_of(k2)[h2] by {
                if (k1 != kind || h1 != handle) {
                    assert(old_world.store.issued(old_world.objects.map_of(k1)[h1]));
                }
                if (k2 != kind || h2 != handle) {
                    assert(old_world.store.issued(old_world.objects.map_of(k2)[h2]));
                }
            }
            assert(self.view().objects =~= old_world.view().objects.insert((kind, handle), e));
        }
        Ok(e)
    }

    /// Forgets a host object the host removed: drops its mapping and destroys
    /// its entity at once. `NotFound` when it was never registered.
    pub fn unregister(&mut self, kind: ObjectKind, handle: usize) -> (r: Result<
        EntityId,
        RegistryError,
    >)
        requires
            old(self).wf(),
        ensures
            final(self).wf(),
            r == old(self).view().lookup(kind, handle),
            r is Ok ==> final(self).view() == old(self).view().unregistered(kind, handle),
            r is Err ==> final(self).view() == old(self).view(),
    {
        let ghost old_world = *self;
        match self.objects.remove(kind, handle) {
            Some(e) => {
                self.store.destroy(e);
                proof {
                    assert forall|k: ObjectKind, h: usize| #[trigger]
                        self.objects.map_of(k).contains_key(h) implies self.store.issued(
                        self.objects.map_of(k)[h],
                    ) by {
                        assert(old_world.objects.map_of(k).contains_key(h));
                        assert(old_world.store.issued(old_world.objects.map_of(k)[h]));
                    }
                    assert forall|k1: ObjectKind, h1: usize, k2: ObjectKind, h2: usize|
                        self.objects.map_of(k1).contains_key(h1)
                            && self.objects.map_of(k2).contains_key(h2) && (k1 != k2 || h1
                            != h2) implies #[trigger] self.objects.map_of(k1)[h1]
                        != #[trigger] self.objects.map_of(k2)[h2] by {
                        assert(old_world.objects.map_of(k1)[h1] != old_world.objects.map_of(
                            k2,
                        )[h2]);
                    }
                    assert(self.view().objects =~= old_world.view().objects.remove(
                        (kind, handle),
                    ));
                }
                Ok(e)
            },
            None => {
                proof {
                    assert(self.view().objects =~= old_world.view().objects);
                }
                Err(RegistryError::NotFound { kind, handle })
            },
        }
    }

    /// The host handle behind a live entity, read from its base-object facet;
    /// `None` when `e` is not live or mirrors no host object.
    pub fn handle_of(&self, e: EntityId) -> (r: Option<usize>)
        ensures
            r == (if self.view().store.entities.contains_key(e) {
                match self.view().store.entities[e].base_object {
                    Some(b) => Some(b.handle),
                    None => None,
                }
            } else {
                None
            }),
    {
        match self.store.facets(e) {
            Some(fs) => match fs.base_object {
                Some(b) => Some(b.handle),
                None => None,
            },
            None => None,
        }
    }

    /// Host object-create callback: registers the object if its type tag
    /// names a mirrored kind; other objects are ignored (`Ok(None)`).
    pub fn create_object(&mut self, obj: RawObject) -> (r: Result<Option<EntityId>, RegistryError>)
        requires
            old(self).wf(),
        ensures
            final(self).wf(),
            match kind_of_tag(obj.type_tag) {
                None => r == Ok::<Option<EntityId>, RegistryError>(None) && final(self).view()
                    == old(self).view(),
                Some(kind) => match r {
                    Ok(Some(e)) => {
                        &&& !old(self).view().objects.contains_key((kind, obj.handle))
                        &&& !old(self).view().store.entities.contains_key(e)
                        &&& final(self).view() == old(self).view().registered(kind, obj.handle, e)
                    },
                    Ok(None) => false,
                    Err(err) => {
                        &&& old(self).view().objects.contains_key((kind, obj.handle))
                        &&& err == RegistryError::AlreadyRegistered { kind, handle: obj.handle }
                        &&& final(self).view() == old(self).view()
                    },
                },
            },
    {
        match ObjectKind::from_type_tag(obj.type_tag) {
            None => Ok(None),
            Some(kind) => match self.register(kind, obj.handle) {
                Ok(e) => Ok(Some(e)),
                Err(err) => Err(err),
            },
        }
    }

    /// Host object-remove callback: unregisters the object if its type tag
    /// names a mirrored kind; other objects are ignored (`Ok(None)`).
    pub fn remove_object(&mut self, obj: RawObject) -> (r: Result<Option<EntityId>, RegistryError>)
        requires
            old(self).wf(),
        ensures
            final(self).wf(),
            match kind_of_tag(obj.type_tag) {
                None => r == Ok::<Option<EntityId>, RegistryError>(None) && final(self).view()
                    == old(self).view(),
                Some(kind) => {
                    &&& r == match old(self).view().lookup(kind, obj.handle) {
                        Ok(e) => Ok(Some(e)),
                        Err(err) => Err(err),
                    }
                    &&& r is Ok ==> final(self).view() == old(self).view().unregistered(kind, obj.handle)
                    &&& r is Err ==> final(self).view() == old(self).view()
                },
            },
    {
        match ObjectKind::from_type_tag(obj.type_tag) {
            None => Ok(None),
            Some(kind) => match self.unregister(kind, obj.handle) {
                Ok(e) => Ok(Some(e)),
                Err(err) => Err(err),
            },
        }
    }

    /// Creates an entity that mirrors no host object (for game logic's own
    /// use); it is registered under no handle.
    pub fn create_entity(&mut self, facets: FacetSet) -> (r: EntityId)
        requires
            old(self).wf(),
        ensures
            final(self).wf(),
            !old(self).view().store.entities.contains_key(r),
            final(self).view().objects == old(self).view().objects,
            final(self).view().store == old(self).view().store.created(r, facets),
    {
        let ghost old_world = *self;
        proof {
            old_world.store.lemma_view_facts();
        }
        let e = self.store.create(facets);
        proof {
            assert forall|k: ObjectKind, h: usize| #[trigger]
                self.objects.map_of(k).contains_key(h) implies self.store.issued(
                self.objects.map_of(k)[h],
            ) by {
                assert(old_world.store.issued(old_world.objects.map_of(k)[h]));
            }
            assert(self.view().objects =~= old_world.view().objects);
        }
        e
    }

    /// Requests removal of `e` at the end of the tick; it stays readable until
    /// then. Returns whether `e` was live.
    pub fn delete(&mut self, e: EntityId) -> (r: bool)
        requires
            old(self).wf(),
        ensures
            final(self).wf(),
            r == old(self).view().store.entities.contains_key(e),
            final(self).view().objects == old(self).view().objects,
            final(self).view().store == old(self).view().store.deleted(e),
    {
        let ghost old_world = *self;
        let r = self.store.delete(e);
        proof {
            assert forall|k: ObjectKind, h: usize| #[trigger]
                self.objects.map_of(k).contains_key(h) implies self.store.issued(
                self.objects.map_of(k)[h],
            ) by {
                assert(old_world.store.issued(old_world.objects.map_of(k)[h]));
            }
            assert(self.view().objects =~= old_world.view().objects);
        }
        r
    }

    /// End of a tick: applies every deferred removal.
    pub fn maintain(&mut self)
        requires
            old(self).wf(),
        ensures
            final(self).wf(),
            final(self).view().objects == old(self).view().objects,
            final(self).view().store == old(self).view().store.maintained(),
    {
        let ghost old_world = *self;
        self.store.maintain();
        proof {
            assert forall|k: ObjectKind, h: usize| #[trigger]
                self.objects.map_of(k).contains_key(h) implies self.store.issued(
                self.objects.map_of(k)[h],
            ) by {
                assert(old_world.store.issued(old_world.objects.map_of(k)[h]));
            }
            assert(self.view().objects =~= old_world.view().objects);
        }
    }
}

/// Round trip: once an unregistered `handle` of `kind` is registered as `e`,
/// resolving it gives `e`, and the base-object facet of `e` leads back to
/// `handle`; after unregistering, resolving fails with `NotFound`.
pub proof fn lemma_register_round_trip(w: WorldView, kind: ObjectKind, handle: usize, e: EntityId)
    requires
        !w.objects.contains_key((kind, handle)),
    ensures
        w.registered(kind, handle, e).lookup(kind, handle) == Ok::<EntityId, RegistryError>(e),
        w.registered(kind, handle, e).store.entities[e].base_object == Some(CBaseObject { handle }),
        w.registered(kind, handle, e).unregistered(kind, handle).lookup(kind, handle) == Err::<
            EntityId,
            RegistryError,
        >(RegistryError::NotFound { kind, handle }),
{
}

/// Bijection: in a consistent world no entity is registered under two
/// handles of one kind, nor under handles of two kinds.
pub proof fn lemma_registry_bijection(world: &World)
    requires
        world.wf(),
    ensures
        forall|k1: ObjectKind, h1: usize, k2: ObjectKind, h2: usize|
            #![trigger world.view().objects[(k1, h1)], world.view().objects[(k2, h2)]]
            world.view().objects.contains_key((k1, h1)) && world.view().objects.contains_key(
                (k2, h2),
            ) && (k1 != k2 || h1 != h2) ==> world.view().objects[(k1, h1)] != world.view().objects[(
                k2,
                h2,
            )],
{
    world.lemma_registered_distinct();
    assert forall|k1: ObjectKind, h1: usize, k2: ObjectKind, h2: usize|
        world.view().objects.contains_key((k1, h1)) && world.view().objects.contains_key((k2, h2))
            && (k1 != k2 || h1 != h2) implies #[trigger] world.view().objects[(k1, h1)]
        != #[trigger] world.view().objects[(k2, h2)] by {
        assert((k1, h1) != (k2, h2));
    }
}

/// Facet completeness: right after `register(kind, handle)` the new entity
/// carries exactly the facets of `kind`, each wrapping `handle`.
pub proof fn lemma_register_facets(w: WorldView, kind: ObjectKind, handle: usize, e: EntityId)
    ensures
        w.registered(kind, handle, e).store.entities.contains_key(e),
        w.registered(kind, handle, e).store.entities[e].kinds() == facets_of(kind),
        w.registered(kind, handle, e).store.entities[e].all_wrap(handle),
{
    FacetSet::lemma_of_object(kind, handle);
}

/// Facet completeness of a vehicle: right after `register(Vehicle, handle)`
/// the entity has exactly the facets {RefCountable, BaseObject, WorldObject,
/// NetworkedEntity, Vehicle}.
pub proof fn lemma_vehicle_facets(w: WorldView, handle: usize, e: EntityId)
    ensures
        w.registered(ObjectKind::Vehicle, handle, e).store.entities[e].kinds() == set![
            FacetKind::RefCountable,
            FacetKind::BaseObject,
            FacetKind::WorldObject,
            FacetKind::NetworkedEntity,
            FacetKind::Vehicle,
        ],
{
    lemma_register_facets(w, ObjectKind::Vehicle, handle, e);
    assert(facets_of(ObjectKind::Vehicle) =~= set![
        FacetKind::RefCountable,
        FacetKind::BaseObject,
        FacetKind::WorldObject,
        FacetKind::NetworkedEntity,
        FacetKind::Vehicle,
    ]);
}

} // verus!
