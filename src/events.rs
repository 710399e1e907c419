use vstd::prelude::*;
use crate::mvalue::{MValue, Vector3};
use crate::store::EntityId;

verus! {

/// Host event type code: no event.
pub const EVENT_NONE: u32 = 0;
/// Host event type code: a player connected.
pub const EVENT_PLAYER_CONNECT: u32 = 1;
/// Host event type code: a player disconnected.
pub const EVENT_PLAYER_DISCONNECT: u32 = 2;
/// Host event type code: a resource started (not decoded).
pub const EVENT_RESOURCE_START: u32 = 3;
/// Host event type code: a resource stopped (not decoded).
pub const EVENT_RESOURCE_STOP: u32 = 4;
/// Host event type code: a resource failed (not decoded).
pub const EVENT_RESOURCE_ERROR: u32 = 5;
/// Host event type code: a server script event.
pub const EVENT_SERVER_SCRIPT: u32 = 6;
/// Host event type code: a client script event.
pub const EVENT_CLIENT_SCRIPT: u32 = 7;
/// Host event type code: plain meta data changed (not decoded).
pub const EVENT_META_CHANGE: u32 = 8;
/// Host event type code: synced meta data of an entity changed.
pub const EVENT_SYNCED_META_CHANGE: u32 = 9;
/// Host event type code: stream-synced meta data of an entity changed.
pub const EVENT_STREAM_SYNCED_META_CHANGE: u32 = 10;
/// Host event type code: global meta data changed.
pub const EVENT_GLOBAL_META_CHANGE: u32 = 11;
/// Host event type code: global synced meta data changed.
pub const EVENT_GLOBAL_SYNCED_META_CHANGE: u32 = 12;
/// Host event type code: a player took damage.
pub const EVENT_PLAYER_DAMAGE: u32 = 13;
/// Host event type code: a player died.
pub const EVENT_PLAYER_DEATH: u32 = 14;
/// Host event type code: a fire started (not decoded).
pub const EVENT_FIRE: u32 = 15;
/// Host event type code: an explosion.
pub const EVENT_EXPLOSION: u32 = 16;
/// Host event type code: weapon damage.
pub const EVENT_WEAPON_DAMAGE: u32 = 17;
/// Host event type code: a vehicle was destroyed (not decoded).
pub const EVENT_VEHICLE_DESTROY: u32 = 18;
/// Host event type code: a checkpoint event (not decoded).
pub const EVENT_CHECKPOINT: u32 = 19;
/// Host event type code: an entity entered or left a collision shape.
pub const EVENT_COLSHAPE: u32 = 20;
/// Host event type code: a player entered a vehicle.
pub const EVENT_PLAYER_ENTER_VEHICLE: u32 = 21;
/// Host event type code: a player left a vehicle.
pub const EVENT_PLAYER_LEAVE_VEHICLE: u32 = 22;
/// Host event type code: a player changed seats.
pub const EVENT_PLAYER_CHANGE_VEHICLE_SEAT: u32 = 23;
/// Host event type code: an entity is about to be removed.
pub const EVENT_REMOVE_ENTITY: u32 = 24;
/// Host event type code: out-of-band data arrived.
pub const EVENT_DATA_NODE_RECEIVED: u32 = 25;
/// Host event type code: a console command.
pub const EVENT_CONSOLE_COMMAND: u32 = 26;

/// A player finished connecting.
#[derive(Debug)]
pub struct CPlayerConnectEvent {
    pub target: EntityId,
    pub reason: String,
}

impl CPlayerConnectEvent {
    /// An event from its fields.
    pub fn new(target: EntityId, reason: String) -> (r: CPlayerConnectEvent)
        ensures
            r == (CPlayerConnectEvent { target, reason }),
    {
        CPlayerConnectEvent { target, reason }
    }

    pub fn get_target(&self) -> (r: EntityId)
        ensures
            r == self.target,
    {
        self.target
    }

    pub fn get_reason(&self) -> (r: &str)
        ensures
            r@ == self.reason@,
    {
        self.reason.as_str()
    }
}

/// A player left.
#[derive(Debug)]
pub struct CPlayerDisconnectEvent {
    pub target: EntityId,
    pub reason: String,
}

impl CPlayerDisconnectEvent {
    /// An event from its fields.
    pub fn new(target: EntityId, reason: String) -> (r: CPlayerDisconnectEvent)
        ensures
            r == (CPlayerDisconnectEvent { target, reason }),
    {
        CPlayerDisconnectEvent { target, reason }
    }

    pub fn get_target(&self) -> (r: EntityId)
        ensures
            r == self.target,
    {
        self.target
    }

    pub fn get_reason(&self) -> (r: &str)
        ensures
            r@ == self.reason@,
    {
        self.reason.as_str()
    }
}

/// A script event raised on the server.
#[derive(Debug)]
pub struct CServerScriptEvent {
    pub name: String,
    pub args: Vec<MValue>,
}

impl CServerScriptEvent {
    /// An event from its fields.
    pub fn new(name: String, args: Vec<MValue>) -> (r: CServerScriptEvent)
        ensures
            r == (CServerScriptEvent { name, args }),
    {
        CServerScriptEvent { name, args }
    }

    pub fn get_name(&self) -> (r: &str)
        ensures
            r@ == self.name@,
    {
        self.name.as_str()
    }

    pub fn get_args(&self) -> (r: &Vec<MValue>)
        ensures
            *r == self.args,
    {
        &self.args
    }
}

/// A script event a player's client sent.
#[derive(Debug)]
pub struct CClientScriptEvent {
    pub target: EntityId,
    pub name: String,
    pub args: Vec<MValue>,
}

impl CClientScriptEvent {
    /// An event from its fields.
    pub fn new(target: EntityId, name: String, args: Vec<MValue>) -> (r: CClientScriptEvent)
        ensures
            r == (CClientScriptEvent { target, name, args }),
    {
        CClientScriptEvent { target, name, args }
    }

    pub fn get_target(&self) -> (r: EntityId)
        ensures
            r == self.target,
    {
        self.target
    }

    pub fn get_name(&self) -> (r: &str)
        ensures
            r@ == self.name@,
    {
        self.name.as_str()
    }

    pub fn get_args(&self) -> (r: &Vec<MValue>)
        ensures
            *r == self.args,
    {
        &self.args
    }
}

/// Synced meta data of an entity changed.
#[derive(Debug)]
pub struct CSyncedMetaChangeEvent {
    pub target: EntityId,
    pub key: String,
    pub value: MValue,
    pub old_value: MValue,
}

impl CSyncedMetaChangeEvent {
    /// An event from its fields.
    pub fn new(target: EntityId, key: String, value: MValue, old_value: MValue) -> (r: CSyncedMetaChangeEvent)
        ensures
            r == (CSyncedMetaChangeEvent { target, key, value, old_value }),
    {
        CSyncedMetaChangeEvent { target, key, value, old_value }
    }

    pub fn get_target(&self) -> (r: EntityId)
        ensures
            r == self.target,
    {
        self.target
    }

    pub fn get_key(&self) -> (r: &str)
        ensures
            r@ == self.key@,
    {
        self.key.as_str()
    }

    pub fn get_value(&self) -> (r: &MValue)
        ensures
            *r == self.value,
    {
        &self.value
    }

    pub fn get_old_value(&self) -> (r: &MValue)
        ensures
            *r == self.old_value,
    {
        &self.old_value
    }
}

/// Stream-synced meta data of an entity changed.
#[derive(Debug)]
pub struct CStreamSyncedMetaChangeEvent {
    pub target: EntityId,
    pub key: String,
    pub value: MValue,
    pub old_value: MValue,
}

impl CStreamSyncedMetaChangeEvent {
    /// An event from its fields.
    pub fn new(target: EntityId, key: String, value: MValue, old_value: MValue) -> (r: CStreamSyncedMetaChangeEvent)
        ensures
            r == (CStreamSyncedMetaChangeEvent { target, key, value, old_value }),
    {
        CStreamSyncedMetaChangeEvent { target, key, value, old_value }
    }

    pub fn get_target(&self) -> (r: EntityId)
        ensures
            r == self.target,
    {
        self.target
    }

    pub fn get_key(&self) -> (r: &str)
        ensures
            r@ == self.key@,
    {
        self.key.as_str()
    }

    pub fn get_value(&self) -> (r: &MValue)
        ensures
            *r == self.value,
    {
        &self.value
    }

    pub fn get_old_value(&self) -> (r: &MValue)
        ensures
            *r == self.old_value,
    {
        &self.old_value
    }
}

/// Global meta data changed.
#[derive(Debug)]
pub struct CGlobalMetaChangeEvent {
    pub key: String,
    pub value: MValue,
    pub old_value: MValue,
}

impl CGlobalMetaChangeEvent {
    /// An event from its fields.
    pub fn new(key: String, value: MValue, old_value: MValue) -> (r: CGlobalMetaChangeEvent)
        ensures
            r == (CGlobalMetaChangeEvent { key, value, old_value }),
    {
        CGlobalMetaChangeEvent { key, value, old_value }
    }

    pub fn get_key(&self) -> (r: &str)
        ensures
            r@ == self.key@,
    {
        self.key.as_str()
    }

    pub fn get_value(&self) -> (r: &MValue)
        ensures
            *r == self.value,
    {
        &self.value
    }

    pub fn get_old_value(&self) -> (r: &MValue)
        ensures
            *r == self.old_value,
    {
        &self.old_value
    }
}

/// Global synced meta data changed.
#[derive(Debug)]
pub struct CGlobalSyncedMetaChangeEvent {
    pub key: String,
    pub value: MValue,
    pub old_value: MValue,
}

impl CGlobalSyncedMetaChangeEvent {
    /// An event from its fields.
    pub fn new(key: String, value: MValue, old_value: MValue) -> (r: CGlobalSyncedMetaChangeEvent)
        ensures
            r == (CGlobalSyncedMetaChangeEvent { key, value, old_value }),
    {
        CGlobalSyncedMetaChangeEvent { key, value, old_value }
    }

    pub fn get_key(&self) -> (r: &str)
        ensures
            r@ == self.key@,
    {
        self.key.as_str()
    }

    pub fn get_value(&self) -> (r: &MValue)
        ensures
            *r == self.value,
    {
        &self.value
    }

    pub fn get_old_value(&self) -> (r: &MValue)
        ensures
            *r == self.old_value,
    {
        &self.old_value
    }
}

/// A player took damage, from an attacker if there was one.
#[derive(Debug)]
pub struct CPlayerDamageEvent {
    pub target: EntityId,
    pub attacker: Option<EntityId>,
    pub damage: u16,
    pub weapon: u32,
}

impl CPlayerDamageEvent {
    /// An event from its fields.
    pub fn new(target: EntityId, attacker: Option<EntityId>, damage: u16, weapon: u32) -> (r: CPlayerDamageEvent)
        ensures
            r == (CPlayerDamageEvent { target, attacker, damage, weapon }),
    {
        CPlayerDamageEvent { target, attacker, damage, weapon }
    }

    pub fn get_target(&self) -> (r: EntityId)
        ensures
            r == self.target,
    {
        self.target
    }

    pub fn get_attacker(&self) -> (r: Option<EntityId>)
        ensures
            r == self.attacker,
    {
        self.attacker
    }

    pub fn get_damage(&self) -> (r: u16)
        ensures
            r == self.damage,
    {
        self.damage
    }

    pub fn get_weapon(&self) -> (r: u32)
        ensures
            r == self.weapon,
    {
        self.weapon
    }
}

/// A player died, by a killer if there was one.
#[derive(Debug)]
pub struct CPlayerDeathEvent {
    pub target: EntityId,
    pub killer: Option<EntityId>,
    pub weapon: u32,
}

impl CPlayerDeathEvent {
    /// An event from its fields.
    pub fn new(target: EntityId, killer: Option<EntityId>, weapon: u32) -> (r: CPlayerDeathEvent)
        ensures
            r == (CPlayerDeathEvent { target, killer, weapon }),
    {
        CPlayerDeathEvent { target, killer, weapon }
    }

    pub fn get_target(&self) -> (r: EntityId)
        ensures
            r == self.target,
    {
        self.target
    }

    pub fn get_killer(&self) -> (r: Option<EntityId>)
        ensures
            r == self.killer,
    {
        self.killer
    }

    pub fn get_weapon(&self) -> (r: u32)
        ensures
            r == self.weapon,
    {
        self.weapon
    }
}

/// A player caused an explosion.
#[derive(Debug)]
pub struct CExplosionEvent {
    pub source: EntityId,
    pub explosion_type: u8,
    pub position: Vector3,
    pub explosion_fx: u32,
}

impl CExplosionEvent {
    /// An event from its fields.
    pub fn new(source: EntityId, explosion_type: u8, position: Vector3, explosion_fx: u32) -> (r: CExplosionEvent)
        ensures
            r == (CExplosionEvent { source, explosion_type, position, explosion_fx }),
    {
        CExplosionEvent { source, explosion_type, position, explosion_fx }
    }

    pub fn get_source(&self) -> (r: EntityId)
        ensures
            r == self.source,
    {
        self.source
    }

    pub fn get_explosion_type(&self) -> (r: u8)
        ensures
            r == self.explosion_type,
    {
        self.explosion_type
    }

    pub fn get_position(&self) -> (r: Vector3)
        ensures
            r == self.position,
    {
        self.position
    }

    pub fn get_explosion_fx(&self) -> (r: u32)
        ensures
            r == self.explosion_fx,
    {
        self.explosion_fx
    }
}

/// A player's weapon hit something.
#[derive(Debug)]
pub struct CWeaponDamageEvent {
    pub source: EntityId,
    pub target: Option<EntityId>,
    pub weapon: u32,
    pub damage: u16,
    pub shot_offset: Vector3,
    pub body_part: u8,
}

impl CWeaponDamageEvent {
    /// An event from its fields.
    pub fn new(source: EntityId, target: Option<EntityId>, weapon: u32, damage: u16, shot_offset: Vector3, body_part: u8) -> (r: CWeaponDamageEvent)
        ensures
            r == (CWeaponDamageEvent { source, target, weapon, damage, shot_offset, body_part }),
    {
        CWeaponDamageEvent { source, target, weapon, damage, shot_offset, body_part }
    }

    pub fn get_source(&self) -> (r: EntityId)
        ensures
            r == self.source,
    {
        self.source
    }

    pub fn get_target(&self) -> (r: Option<EntityId>)
        ensures
            r == self.target,
    {
        self.target
    }

    pub fn get_weapon(&self) -> (r: u32)
        ensures
            r == self.weapon,
    {
        self.weapon
    }

    pub fn get_damage(&self) -> (r: u16)
        ensures
            r == self.damage,
    {
        self.damage
    }

    pub fn get_shot_offset(&self) -> (r: Vector3)
        ensures
            r == self.shot_offset,
    {
        self.shot_offset
    }

    pub fn get_body_part(&self) -> (r: u8)
        ensures
            r == self.body_part,
    {
        self.body_part
    }
}

/// An entity entered (`state` true) or left a collision shape.
#[derive(Debug)]
pub struct CCollisionShapeEvent {
    pub target: EntityId,
    pub entity: EntityId,
    pub state: bool,
}

impl CCollisionShapeEvent {
    /// An event from its fields.
    pub fn new(target: EntityId, entity: EntityId, state: bool) -> (r: CCollisionShapeEvent)
        ensures
            r == (CCollisionShapeEvent { target, entity, state }),
    {
        CCollisionShapeEvent { target, entity, state }
    }

    pub fn get_target(&self) -> (r: EntityId)
        ensures
            r == self.target,
    {
        self.target
    }

    pub fn get_entity(&self) -> (r: EntityId)
        ensures
            r == self.entity,
    {
        self.entity
    }

    pub fn get_state(&self) -> (r: bool)
        ensures
            r == self.state,
    {
        self.state
    }
}

/// A player entered a vehicle.
#[derive(Debug)]
pub struct CPlayerEnterVehicleEvent {
    pub target: EntityId,
    pub player: EntityId,
    pub seat: u8,
}

impl CPlayerEnterVehicleEvent {
    /// An event from its fields.
    pub fn new(target: EntityId, player: EntityId, seat: u8) -> (r: CPlayerEnterVehicleEvent)
        ensures
            r == (CPlayerEnterVehicleEvent { target, player, seat }),
    {
        CPlayerEnterVehicleEvent { target, player, seat }
    }

    pub fn get_target(&self) -> (r: EntityId)
        ensures
            r == self.target,
    {
        self.target
    }

    pub fn get_player(&self) -> (r: EntityId)
        ensures
            r == self.player,
    {
        self.player
    }

    pub fn get_seat(&self) -> (r: u8)
        ensures
            r == self.seat,
    {
        self.seat
    }
}

/// A player left a vehicle.
#[derive(Debug)]
pub struct CPlayerLeaveVehicleEvent {
    pub target: EntityId,
    pub player: EntityId,
    pub seat: u8,
}

impl CPlayerLeaveVehicleEvent {
    /// An event from its fields.
    pub fn new(target: EntityId, player: EntityId, seat: u8) -> (r: CPlayerLeaveVehicleEvent)
        ensures
            r == (CPlayerLeaveVehicleEvent { target, player, seat }),
    {
        CPlayerLeaveVehicleEvent { target, player, seat }
    }

    pub fn get_target(&self) -> (r: EntityId)
        ensures
            r == self.target,
    {
        self.target
    }

    pub fn get_player(&self) -> (r: EntityId)
        ensures
            r == self.player,
    {
        self.player
    }

    pub fn get_seat(&self) -> (r: u8)
        ensures
            r == self.seat,
    {
        self.seat
    }
}

/// A player moved to another seat of a vehicle.
#[derive(Debug)]
pub struct CPlayerChangeVehicleSeatEvent {
    pub target: EntityId,
    pub player: EntityId,
    pub old_seat: u8,
    pub new_seat: u8,
}

impl CPlayerChangeVehicleSeatEvent {
    /// An event from its fields.
    pub fn new(target: EntityId, player: EntityId, old_seat: u8, new_seat: u8) -> (r: CPlayerChangeVehicleSeatEvent)
        ensures
            r == (CPlayerChangeVehicleSeatEvent { target, player, old_seat, new_seat }),
    {
        CPlayerChangeVehicleSeatEvent { target, player, old_seat, new_seat }
    }

    pub fn get_target(&self) -> (r: EntityId)
        ensures
            r == self.target,
    {
        self.target
    }

    pub fn get_player(&self) -> (r: EntityId)
        ensures
            r == self.player,
    {
        self.player
    }

    pub fn get_old_seat(&self) -> (r: u8)
        ensures
            r == self.old_seat,
    {
        self.old_seat
    }

    pub fn get_new_seat(&self) -> (r: u8)
        ensures
            r == self.new_seat,
    {
        self.new_seat
    }
}

/// The host is about to remove an entity.
#[derive(Debug)]
pub struct CRemoveEntityEvent {
    pub target: EntityId,
}

impl CRemoveEntityEvent {
    /// An event from its fields.
    pub fn new(target: EntityId) -> (r: CRemoveEntityEvent)
        ensures
            r == (CRemoveEntityEvent { target }),
    {
        CRemoveEntityEvent { target }
    }

    pub fn get_target(&self) -> (r: EntityId)
        ensures
            r == self.target,
    {
        self.target
    }
}

/// Out-of-band data arrived.
#[derive(Debug)]
pub struct CDataNodeReceivedEvent {
    pub name: String,
    pub json: String,
}

impl CDataNodeReceivedEvent {
    /// An event from its fields.
    pub fn new(name: String, json: String) -> (r: CDataNodeReceivedEvent)
        ensures
            r == (CDataNodeReceivedEvent { name, json }),
    {
        CDataNodeReceivedEvent { name, json }
    }

    pub fn get_name(&self) -> (r: &str)
        ensures
            r@ == self.name@,
    {
        self.name.as_str()
    }

    pub fn get_json(&self) -> (r: &str)
        ensures
            r@ == self.json@,
    {
        self.json.as_str()
    }
}

/// A command was typed on the server console.
#[derive(Debug)]
pub struct CConsoleCommandEvent {
    pub name: String,
    pub args: Vec<String>,
}

impl CConsoleCommandEvent {
    /// An event from its fields.
    pub fn new(name: String, args: Vec<String>) -> (r: CConsoleCommandEvent)
        ensures
            r == (CConsoleCommandEvent { name, args }),
    {
        CConsoleCommandEvent { name, args }
    }

    pub fn get_name(&self) -> (r: &str)
        ensures
            r@ == self.name@,
    {
        self.name.as_str()
    }

    pub fn get_args(&self) -> (r: &Vec<String>)
        ensures
            *r == self.args,
    {
        &self.args
    }
}

/// A decoded host event; every object reference is an entity already.
#[derive(Debug)]
pub enum CEvent {
    PlayerConnect(CPlayerConnectEvent),
    PlayerDisconnect(CPlayerDisconnectEvent),
    ServerScript(CServerScriptEvent),
    ClientScript(CClientScriptEvent),
    SyncedMetaChange(CSyncedMetaChangeEvent),
    StreamSyncedMetaChange(CStreamSyncedMetaChangeEvent),
    GlobalMetaChange(CGlobalMetaChangeEvent),
    GlobalSyncedMetaChange(CGlobalSyncedMetaChangeEvent),
    PlayerDamage(CPlayerDamageEvent),
    PlayerDeath(CPlayerDeathEvent),
    ExplosionEvent(CExplosionEvent),
    WeaponDamageEvent(CWeaponDamageEvent),
    CollisionShapeEvent(CCollisionShapeEvent),
    PlayerEnterVehicle(CPlayerEnterVehicleEvent),
    PlayerLeaveVehicle(CPlayerLeaveVehicleEvent),
    PlayerChangeVehicleSeat(CPlayerChangeVehicleSeatEvent),
    RemoveEntity(CRemoveEntityEvent),
    DataNodeReceived(CDataNodeReceivedEvent),
    ConsoleCommand(CConsoleCommandEvent),
}

/// The host event type code of a decoded event.
pub open spec fn type_code(e: CEvent) -> u32 {
    match e {
        CEvent::PlayerConnect(_) => EVENT_PLAYER_CONNECT,
        CEvent::PlayerDisconnect(_) => EVENT_PLAYER_DISCONNECT,
        CEvent::ServerScript(_) => EVENT_SERVER_SCRIPT,
        CEvent::ClientScript(_) => EVENT_CLIENT_SCRIPT,
        CEvent::SyncedMetaChange(_) => EVENT_SYNCED_META_CHANGE,
        CEvent::StreamSyncedMetaChange(_) => EVENT_STREAM_SYNCED_META_CHANGE,
        CEvent::GlobalMetaChange(_) => EVENT_GLOBAL_META_CHANGE,
        CEvent::GlobalSyncedMetaChange(_) => EVENT_GLOBAL_SYNCED_META_CHANGE,
        CEvent::PlayerDamage(_) => EVENT_PLAYER_DAMAGE,
        CEvent::PlayerDeath(_) => EVENT_PLAYER_DEATH,
        CEvent::ExplosionEvent(_) => EVENT_EXPLOSION,
        CEvent::WeaponDamageEvent(_) => EVENT_WEAPON_DAMAGE,
        CEvent::CollisionShapeEvent(_) => EVENT_COLSHAPE,
        CEvent::PlayerEnterVehicle(_) => EVENT_PLAYER_ENTER_VEHICLE,
        CEvent::PlayerLeaveVehicle(_) => EVENT_PLAYER_LEAVE_VEHICLE,
        CEvent::PlayerChangeVehicleSeat(_) => EVENT_PLAYER_CHANGE_VEHICLE_SEAT,
        CEvent::RemoveEntity(_) => EVENT_REMOVE_ENTITY,
        CEvent::DataNodeReceived(_) => EVENT_DATA_NODE_RECEIVED,
        CEvent::ConsoleCommand(_) => EVENT_CONSOLE_COMMAND,
    }
}

impl CEvent {
    /// The host event type code this event was decoded from.
    pub fn get_type(&self) -> (r: u32)
        ensures
            r == type_code(*self),
    {
        match self {
            CEvent::PlayerConnect(_) => EVENT_PLAYER_CONNECT,
            CEvent::PlayerDisconnect(_) => EVENT_PLAYER_DISCONNECT,
            CEvent::ServerScript(_) => EVENT_SERVER_SCRIPT,
            CEvent::ClientScript(_) => EVENT_CLIENT_SCRIPT,
            CEvent::SyncedMetaChange(_) => EVENT_SYNCED_META_CHANGE,
            CEvent::StreamSyncedMetaChange(_) => EVENT_STREAM_SYNCED_META_CHANGE,
            CEvent::GlobalMetaChange(_) => EVENT_GLOBAL_META_CHANGE,
            CEvent::GlobalSyncedMetaChange(_) => EVENT_GLOBAL_SYNCED_META_CHANGE,
            CEvent::PlayerDamage(_) => EVENT_PLAYER_DAMAGE,
            CEvent::PlayerDeath(_) => EVENT_PLAYER_DEATH,
            CEvent::ExplosionEvent(_) => EVENT_EXPLOSION,
            CEvent::WeaponDamageEvent(_) => EVENT_WEAPON_DAMAGE,
            CEvent::CollisionShapeEvent(_) => EVENT_COLSHAPE,
            CEvent::PlayerEnterVehicle(_) => EVENT_PLAYER_ENTER_VEHICLE,
            CEvent::PlayerLeaveVehicle(_) => EVENT_PLAYER_LEAVE_VEHICLE,
            CEvent::PlayerChangeVehicleSeat(_) => EVENT_PLAYER_CHANGE_VEHICLE_SEAT,
            CEvent::RemoveEntity(_) => EVENT_REMOVE_ENTITY,
            CEvent::DataNodeReceived(_) => EVENT_DATA_NODE_RECEIVED,
            CEvent::ConsoleCommand(_) => EVENT_CONSOLE_COMMAND,
        }
    }
}

} // verus!
