use altv::kind::ObjectKind;
use altv::registry::RegistryError;
use altv::resources::{ResourceError, ResourceRegistry};
use altv::world::World;

#[test]
fn resources_keep_independent_registries() {
    let mut resources: ResourceRegistry<World> = ResourceRegistry::new();
    assert!(resources.on_create(0xa, Some(World::new())));
    assert!(resources.on_create(0xb, Some(World::new())));

    let mut a = resources.take(0xa).unwrap();
    let ea = a.register(ObjectKind::Player, 1).unwrap();
    resources.restore(0xa, a);

    let mut b = resources.take(0xb).unwrap();
    assert_eq!(
        b.resolve(ObjectKind::Player, 1),
        Err(RegistryError::NotFound { kind: ObjectKind::Player, handle: 1 })
    );
    let eb = b.register(ObjectKind::Player, 1).unwrap();
    resources.restore(0xb, b);

    assert!(resources.on_destroy(0xa).is_some());
    assert!(!resources.contains(0xa));
    assert!(resources.contains(0xb));
    assert_eq!(resources.get(0xb).unwrap().resolve(ObjectKind::Player, 1), Ok(eb));
    let _ = ea;
}

#[test]
fn failed_load_stores_nothing() {
    let mut resources: ResourceRegistry<World> = ResourceRegistry::new();
    assert!(!resources.on_create(0xa, None));
    assert!(!resources.contains(0xa));
    assert!(matches!(
        resources.take(0xa),
        Err(ResourceError::UnknownResource { resource: 0xa })
    ));
    assert!(resources.on_destroy(0xa).is_none());
}
