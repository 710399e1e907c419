use altv::decoder::RawEvent;
use altv::events::{
    CEvent, EVENT_COLSHAPE, EVENT_CONSOLE_COMMAND, EVENT_DATA_NODE_RECEIVED, EVENT_FIRE,
    EVENT_PLAYER_CHANGE_VEHICLE_SEAT, EVENT_PLAYER_CONNECT, EVENT_PLAYER_DAMAGE,
    EVENT_PLAYER_DEATH, EVENT_PLAYER_ENTER_VEHICLE, EVENT_REMOVE_ENTITY, EVENT_SERVER_SCRIPT,
    EVENT_SYNCED_META_CHANGE, EVENT_WEAPON_DAMAGE,
};
use altv::kind::{ObjectKind, TYPE_BLIP, TYPE_PLAYER, TYPE_VEHICLE};
use altv::mvalue::{MValue, Vector3};
use altv::registry::{RawObject, RegistryError};
use altv::world::World;

fn player(handle: usize) -> RawObject {
    RawObject { handle, type_tag: TYPE_PLAYER }
}

fn vehicle(handle: usize) -> RawObject {
    RawObject { handle, type_tag: TYPE_VEHICLE }
}

#[test]
fn player_connect_resolves_target() {
    let mut world = World::new();
    let e = world.register(ObjectKind::Player, 0x51).unwrap();
    let mut raw = RawEvent::new(EVENT_PLAYER_CONNECT);
    raw.target = player(0x51);
    match world.decode(raw) {
        Ok(Some(CEvent::PlayerConnect(ev))) => {
            assert_eq!(ev.get_target(), e);
            assert_eq!(ev.get_reason(), "");
        }
        other => panic!("unexpected decode result: {:?}", other),
    }
}

#[test]
fn unknown_type_decodes_to_nothing() {
    let mut world = World::new();
    let e = world.register(ObjectKind::Player, 3).unwrap();
    let mut raw = RawEvent::new(999);
    raw.target = player(3);
    assert!(matches!(world.decode(raw), Ok(None)));
    let mut fire = RawEvent::new(EVENT_FIRE);
    fire.target = player(77);
    assert!(matches!(world.decode(fire), Ok(None)));
    assert_eq!(world.resolve(ObjectKind::Player, 3), Ok(e));
    assert!(world.store().is_alive(e));
}

#[test]
fn unregistered_target_is_a_decode_error() {
    let world = World::new();
    let mut raw = RawEvent::new(EVENT_PLAYER_CONNECT);
    raw.target = player(0x77);
    assert!(matches!(
        world.decode(raw),
        Err(RegistryError::NotFound { kind: ObjectKind::Player, handle: 0x77 })
    ));
}

#[test]
fn unresolved_second_reference_gives_no_event() {
    let mut world = World::new();
    world.register(ObjectKind::Vehicle, 10).unwrap();
    let mut raw = RawEvent::new(EVENT_PLAYER_ENTER_VEHICLE);
    raw.target = vehicle(10);
    raw.other = player(11);
    assert!(matches!(
        world.decode(raw),
        Err(RegistryError::NotFound { kind: ObjectKind::Player, handle: 11 })
    ));
}

#[test]
fn vehicle_events_resolve_both_objects() {
    let mut world = World::new();
    let v = world.register(ObjectKind::Vehicle, 10).unwrap();
    let p = world.register(ObjectKind::Player, 11).unwrap();
    let mut raw = RawEvent::new(EVENT_PLAYER_ENTER_VEHICLE);
    raw.target = vehicle(10);
    raw.other = player(11);
    raw.seat = 2;
    match world.decode(raw) {
        Ok(Some(CEvent::PlayerEnterVehicle(ev))) => {
            assert_eq!(ev.get_target(), v);
            assert_eq!(ev.get_player(), p);
            assert_eq!(ev.get_seat(), 2);
        }
        other => panic!("unexpected decode result: {:?}", other),
    }
    let mut raw = RawEvent::new(EVENT_PLAYER_CHANGE_VEHICLE_SEAT);
    raw.target = vehicle(10);
    raw.other = player(11);
    raw.seat = 1;
    raw.new_seat = 3;
    match world.decode(raw) {
        Ok(Some(CEvent::PlayerChangeVehicleSeat(ev))) => {
            assert_eq!(ev.get_old_seat(), 1);
            assert_eq!(ev.get_new_seat(), 3);
        }
        other => panic!("unexpected decode result: {:?}", other),
    }
}

#[test]
fn damage_without_attacker_has_none() {
    let mut world = World::new();
    let p = world.register(ObjectKind::Player, 4).unwrap();
    let v = world.register(ObjectKind::Vehicle, 5).unwrap();
    let mut raw = RawEvent::new(EVENT_PLAYER_DAMAGE);
    raw.target = player(4);
    raw.damage = 25;
    raw.weapon = 0x1b06d571;
    match world.decode(raw) {
        Ok(Some(CEvent::PlayerDamage(ev))) => {
            assert_eq!(ev.get_target(), p);
            assert_eq!(ev.get_attacker(), None);
            assert_eq!(ev.get_damage(), 25);
            assert_eq!(ev.get_weapon(), 0x1b06d571);
        }
        other => panic!("unexpected decode result: {:?}", other),
    }
    let mut raw = RawEvent::new(EVENT_PLAYER_DEATH);
    raw.target = player(4);
    raw.other = vehicle(5);
    match world.decode(raw) {
        Ok(Some(CEvent::PlayerDeath(ev))) => assert_eq!(ev.get_killer(), Some(v)),
        other => panic!("unexpected decode result: {:?}", other),
    }
}

#[test]
fn polymorphic_reference_with_bad_tag_is_an_error() {
    let mut world = World::new();
    world.register(ObjectKind::Player, 4).unwrap();
    world.register(ObjectKind::Blip, 8).unwrap();
    let mut raw = RawEvent::new(EVENT_WEAPON_DAMAGE);
    raw.target = player(4);
    raw.other = RawObject { handle: 8, type_tag: TYPE_BLIP };
    assert!(matches!(
        world.decode(raw),
        Err(RegistryError::UnexpectedEntityType { type_tag: TYPE_BLIP })
    ));
}

#[test]
fn weapon_damage_keeps_payload() {
    let mut world = World::new();
    let shooter = world.register(ObjectKind::Player, 4).unwrap();
    let victim = world.register(ObjectKind::Vehicle, 6).unwrap();
    let mut raw = RawEvent::new(EVENT_WEAPON_DAMAGE);
    raw.target = player(4);
    raw.other = vehicle(6);
    raw.weapon = 7;
    raw.damage = 30;
    raw.body_part = 3;
    raw.position = Vector3::new(1, 2, 3);
    match world.decode(raw) {
        Ok(Some(CEvent::WeaponDamageEvent(ev))) => {
            assert_eq!(ev.get_source(), shooter);
            assert_eq!(ev.get_target(), Some(victim));
            assert_eq!(ev.get_weapon(), 7);
            assert_eq!(ev.get_damage(), 30);
            assert_eq!(ev.get_body_part(), 3);
            assert_eq!(ev.get_shot_offset(), Vector3::new(1, 2, 3));
        }
        other => panic!("unexpected decode result: {:?}", other),
    }
}

#[test]
fn collision_shape_event_resolves_shape_and_entity() {
    let mut world = World::new();
    let shape = world.register(ObjectKind::CollisionShape, 20).unwrap();
    let car = world.register(ObjectKind::Vehicle, 21).unwrap();
    let mut raw = RawEvent::new(EVENT_COLSHAPE);
    raw.target = RawObject { handle: 20, type_tag: 5 };
    raw.other = vehicle(21);
    raw.state = true;
    match world.decode(raw) {
        Ok(Some(CEvent::CollisionShapeEvent(ev))) => {
            assert_eq!(ev.get_target(), shape);
            assert_eq!(ev.get_entity(), car);
            assert!(ev.get_state());
        }
        other => panic!("unexpected decode result: {:?}", other),
    }
}

#[test]
fn meta_and_remove_events_use_entity_references() {
    let mut world = World::new();
    let v = world.register(ObjectKind::Vehicle, 30).unwrap();
    let mut raw = RawEvent::new(EVENT_SYNCED_META_CHANGE);
    raw.target = vehicle(30);
    raw.name = String::from("fuel");
    raw.value = MValue::Int(40);
    raw.old_value = MValue::Int(50);
    match world.decode(raw) {
        Ok(Some(CEvent::SyncedMetaChange(ev))) => {
            assert_eq!(ev.get_target(), v);
            assert_eq!(ev.get_key(), "fuel");
            assert!(matches!(ev.get_value(), MValue::Int(40)));
            assert!(matches!(ev.get_old_value(), MValue::Int(50)));
        }
        other => panic!("unexpected decode result: {:?}", other),
    }
    let mut raw = RawEvent::new(EVENT_REMOVE_ENTITY);
    raw.target = vehicle(30);
    match world.decode(raw) {
        Ok(Some(CEvent::RemoveEntity(ev))) => assert_eq!(ev.get_target(), v),
        other => panic!("unexpected decode result: {:?}", other),
    }
}

#[test]
fn text_events_carry_their_payload() {
    let world = World::new();
    let mut raw = RawEvent::new(EVENT_CONSOLE_COMMAND);
    raw.name = String::from("spawn");
    raw.words = vec![String::from("adder"), String::from("2")];
    match world.decode(raw) {
        Ok(Some(CEvent::ConsoleCommand(ev))) => {
            assert_eq!(ev.get_name(), "spawn");
            assert_eq!(ev.get_args(), &vec![String::from("adder"), String::from("2")]);
        }
        other => panic!("unexpected decode result: {:?}", other),
    }
    let mut raw = RawEvent::new(EVENT_DATA_NODE_RECEIVED);
    raw.name = String::from("node");
    raw.text = String::from("{\"a\":1}");
    match world.decode(raw) {
        Ok(Some(CEvent::DataNodeReceived(ev))) => {
            assert_eq!(ev.get_name(), "node");
            assert_eq!(ev.get_json(), "{\"a\":1}");
        }
        other => panic!("unexpected decode result: {:?}", other),
    }
    let mut raw = RawEvent::new(EVENT_SERVER_SCRIPT);
    raw.name = String::from("round_end");
    raw.args = vec![MValue::Bool(true), MValue::String(String::from("red"))];
    match world.decode(raw) {
        Ok(Some(CEvent::ServerScript(ev))) => {
            assert_eq!(ev.get_name(), "round_end");
            assert_eq!(ev.get_args().len(), 2);
        }
        other => panic!("unexpected decode result: {:?}", other),
    }
}
