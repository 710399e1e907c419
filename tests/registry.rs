use altv::elements::CBaseObject;
use altv::kind::{FacetKind, ObjectKind, TYPE_BLIP, TYPE_PLAYER, TYPE_VEHICLE, TYPE_WEBVIEW};
use altv::registry::{RawObject, RegistryError};
use altv::world::World;

const ALL_FACETS: [FacetKind; 10] = [
    FacetKind::RefCountable,
    FacetKind::BaseObject,
    FacetKind::WorldObject,
    FacetKind::NetworkedEntity,
    FacetKind::Player,
    FacetKind::Vehicle,
    FacetKind::Blip,
    FacetKind::VoiceChannel,
    FacetKind::CollisionShape,
    FacetKind::Checkpoint,
];

fn facet_kinds(world: &World, e: altv::store::EntityId) -> Vec<FacetKind> {
    ALL_FACETS
        .iter()
        .copied()
        .filter(|f| world.store().has_facet(e, *f))
        .collect()
}

#[test]
fn register_then_resolve_round_trips() {
    let mut world = World::new();
    let e = world.register(ObjectKind::Player, 0x1000).unwrap();
    assert_eq!(world.resolve(ObjectKind::Player, 0x1000), Ok(e));
    assert_eq!(world.handle_of(e), Some(0x1000));
    let facets = world.store().facets(e).unwrap();
    assert_eq!(facets.base_object, Some(CBaseObject::new(0x1000)));
    assert_eq!(world.unregister(ObjectKind::Player, 0x1000), Ok(e));
    assert_eq!(
        world.resolve(ObjectKind::Player, 0x1000),
        Err(RegistryError::NotFound { kind: ObjectKind::Player, handle: 0x1000 })
    );
    assert!(!world.store().is_alive(e));
    assert_eq!(world.handle_of(e), None);
}

#[test]
fn unregister_unknown_handle_is_not_found() {
    let mut world = World::new();
    assert_eq!(
        world.unregister(ObjectKind::Blip, 7),
        Err(RegistryError::NotFound { kind: ObjectKind::Blip, handle: 7 })
    );
}

#[test]
fn duplicate_registration_is_refused() {
    let mut world = World::new();
    let e = world.register(ObjectKind::Vehicle, 42).unwrap();
    assert_eq!(
        world.register(ObjectKind::Vehicle, 42),
        Err(RegistryError::AlreadyRegistered { kind: ObjectKind::Vehicle, handle: 42 })
    );
    assert_eq!(world.resolve(ObjectKind::Vehicle, 42), Ok(e));
}

#[test]
fn registered_entities_are_distinct() {
    let mut world = World::new();
    let a = world.register(ObjectKind::Player, 1).unwrap();
    let b = world.register(ObjectKind::Player, 2).unwrap();
    let c = world.register(ObjectKind::Vehicle, 1).unwrap();
    let d = world.register(ObjectKind::Checkpoint, 3).unwrap();
    let ids = [a, b, c, d];
    for i in 0..ids.len() {
        for j in 0..ids.len() {
            if i != j {
                assert_ne!(ids[i], ids[j]);
            }
        }
    }
    assert_eq!(world.resolve(ObjectKind::Player, 1), Ok(a));
    assert_eq!(world.resolve(ObjectKind::Vehicle, 1), Ok(c));
}

#[test]
fn recycled_slot_gets_a_new_identifier() {
    let mut world = World::new();
    let a = world.register(ObjectKind::Player, 1).unwrap();
    world.unregister(ObjectKind::Player, 1).unwrap();
    let b = world.register(ObjectKind::Player, 1).unwrap();
    assert_ne!(a, b);
    assert!(!world.store().is_alive(a));
    assert!(world.store().is_alive(b));
    assert_eq!(world.resolve(ObjectKind::Player, 1), Ok(b));
}

#[test]
fn vehicle_gets_exactly_its_facets() {
    let mut world = World::new();
    let e = world.register(ObjectKind::Vehicle, 0xbeef).unwrap();
    assert_eq!(
        facet_kinds(&world, e),
        vec![
            FacetKind::RefCountable,
            FacetKind::BaseObject,
            FacetKind::WorldObject,
            FacetKind::NetworkedEntity,
            FacetKind::Vehicle,
        ]
    );
    let facets = world.store().facets(e).unwrap();
    assert_eq!(facets.vehicle.unwrap().handle(), 0xbeef);
    assert_eq!(facets.entity.unwrap().handle(), 0xbeef);
}

#[test]
fn every_kind_gets_its_facet_table() {
    let mut world = World::new();
    let cases = [
        (ObjectKind::Player, vec![FacetKind::RefCountable, FacetKind::BaseObject, FacetKind::WorldObject, FacetKind::NetworkedEntity, FacetKind::Player]),
        (ObjectKind::Blip, vec![FacetKind::RefCountable, FacetKind::BaseObject, FacetKind::WorldObject, FacetKind::Blip]),
        (ObjectKind::VoiceChannel, vec![FacetKind::RefCountable, FacetKind::BaseObject, FacetKind::VoiceChannel]),
        (ObjectKind::CollisionShape, vec![FacetKind::RefCountable, FacetKind::BaseObject, FacetKind::WorldObject, FacetKind::CollisionShape]),
        (ObjectKind::Checkpoint, vec![FacetKind::RefCountable, FacetKind::BaseObject, FacetKind::WorldObject, FacetKind::CollisionShape, FacetKind::Checkpoint]),
    ];
    for (i, (kind, expected)) in cases.iter().enumerate() {
        let e = world.register(*kind, 100 + i).unwrap();
        assert_eq!(&facet_kinds(&world, e), expected);
    }
}

#[test]
fn object_callbacks_dispatch_on_type_tag() {
    let mut world = World::new();
    let e = world
        .create_object(RawObject { handle: 9, type_tag: TYPE_BLIP })
        .unwrap()
        .unwrap();
    assert_eq!(world.resolve(ObjectKind::Blip, 9), Ok(e));
    assert_eq!(world.create_object(RawObject { handle: 10, type_tag: TYPE_WEBVIEW }), Ok(None));
    assert_eq!(world.remove_object(RawObject { handle: 10, type_tag: TYPE_WEBVIEW }), Ok(None));
    assert_eq!(world.remove_object(RawObject { handle: 9, type_tag: TYPE_BLIP }), Ok(Some(e)));
    assert_eq!(
        world.remove_object(RawObject { handle: 9, type_tag: TYPE_BLIP }),
        Err(RegistryError::NotFound { kind: ObjectKind::Blip, handle: 9 })
    );
}

#[test]
fn polymorphic_reference_follows_type_tag() {
    let mut world = World::new();
    let p = world.register(ObjectKind::Player, 5).unwrap();
    let v = world.register(ObjectKind::Vehicle, 6).unwrap();
    assert_eq!(world.resolve_entity(RawObject { handle: 5, type_tag: TYPE_PLAYER }), Ok(p));
    assert_eq!(world.resolve_entity(RawObject { handle: 6, type_tag: TYPE_VEHICLE }), Ok(v));
    assert_eq!(
        world.resolve_entity(RawObject { handle: 6, type_tag: TYPE_PLAYER }),
        Err(RegistryError::NotFound { kind: ObjectKind::Player, handle: 6 })
    );
    assert_eq!(
        world.resolve_entity(RawObject { handle: 5, type_tag: TYPE_BLIP }),
        Err(RegistryError::UnexpectedEntityType { type_tag: TYPE_BLIP })
    );
    assert_eq!(world.resolve_optional_entity(RawObject { handle: 0, type_tag: TYPE_PLAYER }), Ok(None));
    assert_eq!(world.resolve_optional_entity(RawObject { handle: 5, type_tag: TYPE_PLAYER }), Ok(Some(p)));
}

#[test]
fn type_tags_round_trip() {
    let kinds = [
        ObjectKind::Player,
        ObjectKind::Vehicle,
        ObjectKind::Blip,
        ObjectKind::VoiceChannel,
        ObjectKind::CollisionShape,
        ObjectKind::Checkpoint,
    ];
    for k in kinds {
        assert_eq!(ObjectKind::from_type_tag(k.type_tag()), Some(k));
    }
    assert_eq!(ObjectKind::from_type_tag(TYPE_WEBVIEW), None);
    assert_eq!(ObjectKind::from_type_tag(200), None);
    assert!(ObjectKind::Checkpoint.has_facet(FacetKind::CollisionShape));
    assert!(!ObjectKind::VoiceChannel.has_facet(FacetKind::WorldObject));
}
