use altv::components::ComponentStorage;
use altv::kind::ObjectKind;
use altv::world::World;

#[test]
fn components_attach_replace_and_detach() {
    let mut world = World::new();
    let a = world.register(ObjectKind::Player, 1).unwrap();
    let b = world.register(ObjectKind::Player, 2).unwrap();
    let mut team: ComponentStorage<u8> = ComponentStorage::new();
    assert!(!team.contains(a));
    team.insert(a, 1);
    team.insert(b, 2);
    team.insert(a, 3);
    assert_eq!(team.get(a), Some(&3));
    assert_eq!(team.get(b), Some(&2));
    assert_eq!(team.remove(a), Some(3));
    assert_eq!(team.remove(a), None);
    assert!(!team.contains(a));
    assert!(team.contains(b));
}

#[test]
fn components_of_removed_entities_are_dropped() {
    let mut world = World::new();
    let a = world.register(ObjectKind::Player, 1).unwrap();
    let b = world.register(ObjectKind::Vehicle, 2).unwrap();
    let c = world.register(ObjectKind::Blip, 3).unwrap();
    let mut names: ComponentStorage<String> = ComponentStorage::new();
    names.insert(a, String::from("alice"));
    names.insert(b, String::from("bus"));
    names.insert(c, String::from("marker"));
    world.delete(b);
    names.retain_live(world.store());
    assert!(names.contains(b));
    world.maintain();
    world.unregister(ObjectKind::Blip, 3).unwrap();
    names.retain_live(world.store());
    assert_eq!(names.get(a).map(|s| s.as_str()), Some("alice"));
    assert!(!names.contains(b));
    assert!(!names.contains(c));
}
