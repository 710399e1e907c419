use altv::elements::{CPlayer, FacetSet};
use altv::kind::{FacetKind, ObjectKind};
use altv::store::EntityStore;
use altv::world::World;

#[test]
fn deleted_entity_stays_until_maintain() {
    let mut world = World::new();
    let p = world.register(ObjectKind::Player, 1).unwrap();
    let q = world.register(ObjectKind::Player, 2).unwrap();
    let before = world.store().facets(p);
    assert!(world.delete(p));
    assert!(world.store().is_alive(p));
    assert_eq!(world.store().facets(p), before);
    assert!(world.store().has_facet(p, FacetKind::Player));
    world.maintain();
    assert!(!world.store().is_alive(p));
    assert_eq!(world.store().facets(p), None);
    assert!(world.store().is_alive(q));
}

#[test]
fn delete_of_dead_entity_is_ignored() {
    let mut store = EntityStore::new();
    let e = store.create(FacetSet::empty());
    assert!(store.destroy(e));
    assert!(!store.destroy(e));
    assert!(!store.delete(e));
    store.maintain();
    assert!(!store.is_alive(e));
}

#[test]
fn maintain_spares_entities_created_in_a_reused_slot() {
    let mut store = EntityStore::new();
    let a = store.create(FacetSet::empty());
    assert!(store.delete(a));
    assert!(store.destroy(a));
    let mut facets = FacetSet::empty();
    facets.player = Some(CPlayer::new(8));
    let b = store.create(facets);
    assert_ne!(a, b);
    store.maintain();
    assert!(store.is_alive(b));
    assert_eq!(store.facets(b), Some(facets));
}

#[test]
fn user_entities_are_not_registered() {
    let mut world = World::new();
    let e = world.create_entity(FacetSet::empty());
    assert!(world.store().is_alive(e));
    assert_eq!(world.handle_of(e), None);
    let p = world.register(ObjectKind::Player, 1).unwrap();
    assert_ne!(e, p);
}

#[test]
fn facet_set_for_object_wraps_handle() {
    let facets = FacetSet::for_object(ObjectKind::Checkpoint, 77);
    assert_eq!(facets.checkpoint.unwrap().handle(), 77);
    assert_eq!(facets.collision_shape.unwrap().handle(), 77);
    assert!(facets.player.is_none());
    assert!(facets.contains(FacetKind::WorldObject));
    assert!(!facets.contains(FacetKind::NetworkedEntity));
    assert!(!FacetSet::empty().contains(FacetKind::RefCountable));
}
