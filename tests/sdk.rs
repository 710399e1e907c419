use altv::elements::CollisionShapeType;
use altv::events::{
    CCollisionShapeEvent, CConsoleCommandEvent, CDataNodeReceivedEvent, CPlayerChangeVehicleSeatEvent,
    CPlayerConnectEvent, CPlayerDamageEvent, CPlayerDeathEvent, CPlayerDisconnectEvent,
    CPlayerEnterVehicleEvent, CPlayerLeaveVehicleEvent, CRemoveEntityEvent, CEvent,
    EVENT_PLAYER_CONNECT, EVENT_REMOVE_ENTITY,
};
use altv::hash;
use altv::logger::{ConsoleChannel, Level, Logger};
use altv::rgba::Rgba;
use altv::store::EntityId;
use altv::string::{String as AltString, StringView};

fn id(index: usize) -> EntityId {
    EntityId { index, generation: 0 }
}

#[test]
fn hash_matches_known_names() {
    assert_eq!(hash(""), 0);
    assert_eq!(hash("a"), 0xca2e9442);
    assert_eq!(hash("adder"), 0xb779a091);
    assert_eq!(hash("weapon_pistol"), 0x1b06d571);
    assert_eq!(hash("mp_m_freemode_01"), 0x705e61f2);
}

#[test]
fn rgba_keeps_channels() {
    let c = Rgba::new(1, 2, 3, 4);
    assert_eq!((c.r, c.g, c.b, c.a), (1, 2, 3, 4));
}

#[test]
fn strings_report_byte_size() {
    let s = AltString::new("héllo");
    assert_eq!(s.get_size(), 6);
    assert!(!s.is_empty());
    assert_eq!(s.get_data(), "héllo");
    let v = StringView::new("");
    assert!(v.is_empty());
    assert_eq!(v.get_size(), 0);
    assert_eq!(StringView::new("abc").get_data(), "abc");
}

#[test]
fn collision_shape_codes_round_trip() {
    for code in 0u8..6 {
        assert_eq!(CollisionShapeType::from_code(code).unwrap().code(), code);
    }
    assert_eq!(CollisionShapeType::from_code(3), Some(CollisionShapeType::Cuboid));
    assert_eq!(CollisionShapeType::from_code(6), None);
}

#[test]
fn logger_forwards_info_and_above() {
    let logger = Logger;
    assert!(logger.enabled(Level::Error));
    assert!(logger.enabled(Level::Info));
    assert!(!logger.enabled(Level::Debug));
    assert!(!logger.enabled(Level::Trace));
    assert_eq!(logger.channel(Level::Warn), Some(ConsoleChannel::Warning));
    assert_eq!(logger.channel(Level::Trace), None);
}

#[test]
fn event_getters_return_fields() {
    let c = CPlayerConnectEvent::new(id(1), String::from("joined"));
    assert_eq!(c.get_target(), id(1));
    assert_eq!(c.get_reason(), "joined");
    assert_eq!(CEvent::PlayerConnect(c).get_type(), EVENT_PLAYER_CONNECT);
    let d = CPlayerDisconnectEvent::new(id(2), String::from("timeout"));
    assert_eq!(d.get_target(), id(2));
    assert_eq!(d.get_reason(), "timeout");
    let dmg = CPlayerDamageEvent::new(id(3), Some(id(4)), 12, 99);
    assert_eq!(dmg.get_target(), id(3));
    assert_eq!(dmg.get_attacker(), Some(id(4)));
    assert_eq!(dmg.get_damage(), 12);
    assert_eq!(dmg.get_weapon(), 99);
    let death = CPlayerDeathEvent::new(id(3), None, 5);
    assert_eq!(death.get_target(), id(3));
    assert_eq!(death.get_killer(), None);
    assert_eq!(death.get_weapon(), 5);
    let shape = CCollisionShapeEvent::new(id(5), id(6), false);
    assert_eq!(shape.get_target(), id(5));
    assert_eq!(shape.get_entity(), id(6));
    assert!(!shape.get_state());
    let enter = CPlayerEnterVehicleEvent::new(id(7), id(8), 1);
    assert_eq!((enter.get_target(), enter.get_player(), enter.get_seat()), (id(7), id(8), 1));
    let leave = CPlayerLeaveVehicleEvent::new(id(7), id(8), 2);
    assert_eq!((leave.get_target(), leave.get_player(), leave.get_seat()), (id(7), id(8), 2));
    let seat = CPlayerChangeVehicleSeatEvent::new(id(7), id(8), 0, 3);
    assert_eq!(seat.get_target(), id(7));
    assert_eq!(seat.get_player(), id(8));
    assert_eq!((seat.get_old_seat(), seat.get_new_seat()), (0, 3));
    let removed = CRemoveEntityEvent::new(id(9));
    assert_eq!(removed.get_target(), id(9));
    assert_eq!(CEvent::RemoveEntity(removed).get_type(), EVENT_REMOVE_ENTITY);
    let node = CDataNodeReceivedEvent::new(String::from("n"), String::from("{}"));
    assert_eq!((node.get_name(), node.get_json()), ("n", "{}"));
    let cmd = CConsoleCommandEvent::new(String::from("kick"), vec![String::from("7")]);
    assert_eq!(cmd.get_name(), "kick");
    assert_eq!(cmd.get_args(), &vec![String::from("7")]);
}
