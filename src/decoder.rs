use vstd::prelude::*;
use crate::events::{
    CClientScriptEvent,
    CCollisionShapeEvent,
    CConsoleCommandEvent,
    CDataNodeReceivedEvent,
    CEvent,
    CExplosionEvent,
    CGlobalMetaChangeEvent,
    CGlobalSyncedMetaChangeEvent,
    CPlayerChangeVehicleSeatEvent,
    CPlayerConnectEvent,
    CPlayerDamageEvent,
    CPlayerDeathEvent,
    CPlayerDisconnectEvent,
    CPlayerEnterVehicleEvent,
    CPlayerLeaveVehicleEvent,
    CRemoveEntityEvent,
    CServerScriptEvent,
    CStreamSyncedMetaChangeEvent,
    CSyncedMetaChangeEvent,
    CWeaponDamageEvent,
    EVENT_CLIENT_SCRIPT,
    EVENT_COLSHAPE,
    EVENT_CONSOLE_COMMAND,
    EVENT_DATA_NODE_RECEIVED,
    EVENT_EXPLOSION,
    EVENT_GLOBAL_META_CHANGE,
    EVENT_GLOBAL_SYNCED_META_CHANGE,
    EVENT_PLAYER_CHANGE_VEHICLE_SEAT,
    EVENT_PLAYER_CONNECT,
    EVENT_PLAYER_DAMAGE,
    EVENT_PLAYER_DEATH,
    EVENT_PLAYER_DISCONNECT,
    EVENT_PLAYER_ENTER_VEHICLE,
    EVENT_PLAYER_LEAVE_VEHICLE,
    EVENT_REMOVE_ENTITY,
    EVENT_SERVER_SCRIPT,
    EVENT_STREAM_SYNCED_META_CHANGE,
    EVENT_SYNCED_META_CHANGE,
    EVENT_WEAPON_DAMAGE,
};
use crate::kind::ObjectKind;
use crate::mvalue::{MValue, Vector3};
use crate::registry::{RawObject, RegistryError};
use crate::store::EntityId;
use crate::world::{World, WorldView};

verus! {

/// One host event record as the host adapter reads it: the type code and
/// every field an event of that type can carry. Fields that the type does
/// not use are ignored.
#[derive(Debug)]
pub struct RawEvent {
    pub event_type: u32,
    /// The event's target or source object.
    pub target: RawObject,
    /// A second object: attacker, killer, the player of a vehicle event, the
    /// entity of a collision shape event, or the target of weapon damage.
    pub other: RawObject,
    /// Script event name, meta data key, data node name or command name.
    pub name: String,
    /// Disconnect reason or data node JSON.
    pub text: String,
    pub args: Vec<MValue>,
    pub words: Vec<String>,
    pub value: MValue,
    pub old_value: MValue,
    pub weapon: u32,
    pub damage: u16,
    pub seat: u8,
    pub new_seat: u8,
    pub state: bool,
    pub explosion_type: u8,
    pub explosion_fx: u32,
    pub body_part: u8,
    pub position: Vector3,
}

impl RawEvent {
    /// A record of type `event_type` with every field empty: no objects
    /// (handle 0), empty texts and lists, empty values and zero numbers.
    pub fn new(event_type: u32) -> (r: RawEvent)
        ensures
            r.event_type == event_type,
            r.target == (RawObject { handle: 0, type_tag: 0 }),
            r.other == (RawObject { handle: 0, type_tag: 0 }),
            r.name@.len() == 0,
            r.text@.len() == 0,
            r.args@.len() == 0,
            r.words@.len() == 0,
            r.value is Empty,
            r.old_value is Empty,
            r.weapon == 0,
            r.damage == 0,
            r.seat == 0,
            r.new_seat == 0,
            !r.state,
            r.explosion_type == 0,
            r.explosion_fx == 0,
            r.body_part == 0,
            r.position == (Vector3 { x: 0, y: 0, z: 0 }),
    {
        RawEvent {
            event_type,
            target: RawObject { handle: 0, type_tag: 0 },
            other: RawObject { handle: 0, type_tag: 0 },
            name: String::new(),
            text: String::new(),
            args: Vec::new(),
            words: Vec::new(),
            value: MValue::Empty,
            old_value: MValue::Empty,
            weapon: 0,
            damage: 0,
            seat: 0,
            new_seat: 0,
            state: false,
            explosion_type: 0,
            explosion_fx: 0,
            body_part: 0,
            position: Vector3 { x: 0, y: 0, z: 0 },
        }
    }
}

/// Wraps a decoded event, or passes a lookup failure on.
pub open spec fn with_entity(
    r: Result<EntityId, RegistryError>,
    ev: spec_fn(EntityId) -> CEvent,
) -> Result<Option<CEvent>, RegistryError> {
    match r {
        Ok(e) => Ok(Some(ev(e))),
        Err(err) => Err(err),
    }
}

/// What decoding `raw` against the objects of `w` gives: the typed event,
/// `None` for a type code that is not decoded, or the first reference that
/// does not resolve.
pub open spec fn decoded(w: WorldView, raw: RawEvent) -> Result<Option<CEvent>, RegistryError> {
    let t = raw.event_type;
    if t == EVENT_PLAYER_CONNECT {
        with_entity(
            w.lookup(ObjectKind::Player, raw.target.handle),
            |e| CEvent::PlayerConnect(CPlayerConnectEvent { target: e, reason: raw.text }),
        )
    } else if t == EVENT_PLAYER_DISCONNECT {
        with_entity(
            w.lookup(ObjectKind::Player, raw.target.handle),
            |e| CEvent::PlayerDisconnect(CPlayerDisconnectEvent { target: e, reason: raw.text }),
        )
    } else if t == EVENT_CLIENT_SCRIPT {
        with_entity(
            w.lookup(ObjectKind::Player, raw.target.handle),
            |e|
                CEvent::ClientScript(
                    CClientScriptEvent { target: e, name: raw.name, args: raw.args },
                ),
        )
    } else if t == EVENT_SERVER_SCRIPT {
        Ok(Some(CEvent::ServerScript(CServerScriptEvent { name: raw.name, args: raw.args })))
    } else if t == EVENT_SYNCED_META_CHANGE {
        with_entity(
            w.entity_lookup(raw.target),
            |e|
                CEvent::SyncedMetaChange(
                    CSyncedMetaChangeEvent {
                        target: e,
                        key: raw.name,
                        value: raw.value,
                        old_value: raw.old_value,
                    },
                ),
        )
    } else if t == EVENT_STREAM_SYNCED_META_CHANGE {
        with_entity(
            w.entity_lookup(raw.target),
            |e|
                CEvent::StreamSyncedMetaChange(
                    CStreamSyncedMetaChangeEvent {
                        target: e,
                        key: raw.name,
                        value: raw.value,
                        old_value: raw.old_value,
                    },
                ),
        )
    } else if t == EVENT_GLOBAL_META_CHANGE {
        Ok(
            Some(
                CEvent::GlobalMetaChange(
                    CGlobalMetaChangeEvent {
                        key: raw.name,
                        value: raw.value,
                        old_value: raw.old_value,
                    },
                ),
            ),
        )
    } else if t == EVENT_GLOBAL_SYNCED_META_CHANGE {
        Ok(
            Some(
                CEvent::GlobalSyncedMetaChange(
                    CGlobalSyncedMetaChangeEvent {
                        key: raw.name,
                        value: raw.value,
                        old_value: raw.old_value,
                    },
                ),
            ),
        )
    } else if t == EVENT_PLAYER_DAMAGE {
        match w.lookup(ObjectKind::Player, raw.target.handle) {
            Err(err) => Err(err),
            Ok(target) => match w.optional_entity_lookup(raw.other) {
                Err(err) => Err(err),
                Ok(attacker) => Ok(
                    Some(
                        CEvent::PlayerDamage(
                            CPlayerDamageEvent {
                                target,
                                attacker,
                                damage: raw.damage,
                                weapon: raw.weapon,
                            },
                        ),
                    ),
                ),
            },
        }
    } else if t == EVENT_PLAYER_DEATH {
        match w.lookup(ObjectKind::Player, raw.target.handle) {
            Err(err) => Err(err),
            Ok(target) => match w.optional_entity_lookup(raw.other) {
                Err(err) => Err(err),
                Ok(killer) => Ok(
                    Some(
                        CEvent::PlayerDeath(
                            CPlayerDeathEvent { target, killer, weapon: raw.weapon },
                        ),
                    ),
                ),
            },
        }
    } else if t == EVENT_EXPLOSION {
        with_entity(
            w.lookup(ObjectKind::Player, raw.target.handle),
            |e|
                CEvent::ExplosionEvent(
                    CExplosionEvent {
                        source: e,
                        explosion_type: raw.explosion_type,
                        position: raw.position,
                        explosion_fx: raw.explosion_fx,
                    },
                ),
        )
    } else if t == EVENT_WEAPON_DAMAGE {
        match w.lookup(ObjectKind::Player, raw.target.handle) {
            Err(err) => Err(err),
            Ok(source) => match w.optional_entity_lookup(raw.other) {
                Err(err) => Err(err),
                Ok(target) => Ok(
                    Some(
                        CEvent::WeaponDamageEvent(
                            CWeaponDamageEvent {
                                source,
                                target,
                                weapon: raw.weapon,
                                damage: raw.damage,
                                shot_offset: raw.position,
                                body_part: raw.body_part,
                            },
                        ),
                    ),
                ),
            },
        }
    } else if t == EVENT_COLSHAPE {
        match w.lookup(ObjectKind::CollisionShape, raw.target.handle) {
            Err(err) => Err(err),
            Ok(target) => with_entity(
                w.entity_lookup(raw.other),
                |e|
                    CEvent::CollisionShapeEvent(
                        CCollisionShapeEvent { target, entity: e, state: raw.state },
                    ),
            ),
        }
    } else if t == EVENT_PLAYER_ENTER_VEHICLE {
        match w.lookup(ObjectKind::Vehicle, raw.target.handle) {
            Err(err) => Err(err),
            Ok(target) => with_entity(
                w.lookup(ObjectKind::Player, raw.other.handle),
                |e|
                    CEvent::PlayerEnterVehicle(
                        CPlayerEnterVehicleEvent { target, player: e, seat: raw.seat },
                    ),
            ),
        }
    } else if t == EVENT_PLAYER_LEAVE_VEHICLE {
        match w.lookup(ObjectKind::Vehicle, raw.target.handle) {
            Err(err) => Err(err),
            Ok(target) => with_entity(
                w.lookup(ObjectKind::Player, raw.other.handle),
                |e|
                    CEvent::PlayerLeaveVehicle(
                        CPlayerLeaveVehicleEvent { target, player: e, seat: raw.seat },
                    ),
            ),
        }
    } else if t == EVENT_PLAYER_CHANGE_VEHICLE_SEAT {
        match w.lookup(ObjectKind::Vehicle, raw.target.handle) {
            Err(err) => Err(err),
            Ok(target) => with_entity(
                w.lookup(ObjectKind::Player, raw.other.handle),
                |e|
                    CEvent::PlayerChangeVehicleSeat(
                        CPlayerChangeVehicleSeatEvent {
                            target,
                            player: e,
                            old_seat: raw.seat,
                            new_seat: raw.new_seat,
                        },
                    ),
            ),
        }
    } else if t == EVENT_REMOVE_ENTITY {
        with_entity(
            w.entity_lookup(raw.target),
            |e| CEvent::RemoveEntity(CRemoveEntityEvent { target: e }),
        )
    } else if t == EVENT_DATA_NODE_RECEIVED {
        Ok(
            Some(
                CEvent::DataNodeReceived(CDataNodeReceivedEvent { name: raw.name, json: raw.text }),
            ),
        )
    } else if t == EVENT_CONSOLE_COMMAND {
        Ok(Some(CEvent::ConsoleCommand(CConsoleCommandEvent { name: raw.name, args: raw.words })))
    } else {
        Ok(None)
    }
}

impl World {
    /// Decodes one host event record. Type codes that are not decoded give
    /// `Ok(None)`; a reference to an object that was never registered, or a
    /// polymorphic reference to neither a player nor a vehicle, gives the
    /// lookup's error and no event. The world is only read.
    pub fn decode(&self, raw: RawEvent) -> (r: Result<Option<CEvent>, RegistryError>)
        ensures
            r == decoded(self.view(), raw),
    {
        let RawEvent {
            event_type: t,
            target: target_obj,
            other,
            name,
            text,
            args,
            words,
            value,
            old_value,
            weapon,
            damage,
            seat,
            new_seat,
            state,
            explosion_type,
            explosion_fx,
            body_part,
            position,
        } = raw;
        if t == EVENT_PLAYER_CONNECT {
            let target = match self.resolve(ObjectKind::Player, target_obj.handle) {
                Ok(e) => e,
                Err(err) => return Err(err),
            };
            Ok(Some(CEvent::PlayerConnect(CPlayerConnectEvent { target, reason: text })))
        } else if t == EVENT_PLAYER_DISCONNECT {
            let target = match self.resolve(ObjectKind::Player, target_obj.handle) {
                Ok(e) => e,
                Err(err) => return Err(err),
            };
            Ok(Some(CEvent::PlayerDisconnect(CPlayerDisconnectEvent { target, reason: text })))
        } else if t == EVENT_CLIENT_SCRIPT {
            let target = match self.resolve(ObjectKind::Player, target_obj.handle) {
                Ok(e) => e,
                Err(err) => return Err(err),
            };
            Ok(Some(CEvent::ClientScript(CClientScriptEvent { target, name, args })))
        } else if t == EVENT_SERVER_SCRIPT {
            Ok(Some(CEvent::ServerScript(CServerScriptEvent { name, args })))
        } else if t == EVENT_SYNCED_META_CHANGE {
            let target = match self.resolve_entity(target_obj) {
                Ok(e) => e,
                Err(err) => return Err(err),
            };
            Ok(
                Some(
                    CEvent::SyncedMetaChange(
                        CSyncedMetaChangeEvent { target, key: name, value, old_value },
                    ),
                ),
            )
        } else if t == EVENT_STREAM_SYNCED_META_CHANGE {
            let target = match self.resolve_entity(target_obj) {
                Ok(e) => e,
                Err(err) => return Err(err),
            };
            Ok(
                Some(
                    CEvent::StreamSyncedMetaChange(
                        CStreamSyncedMetaChangeEvent { target, key: name, value, old_value },
                    ),
                ),
            )
        } else if t == EVENT_GLOBAL_META_CHANGE {
            Ok(
                Some(
                    CEvent::GlobalMetaChange(
                        CGlobalMetaChangeEvent { key: name, value, old_value },
                    ),
                ),
            )
        } else if t == EVENT_GLOBAL_SYNCED_META_CHANGE {
            Ok(
                Some(
                    CEvent::GlobalSyncedMetaChange(
                        CGlobalSyncedMetaChangeEvent { key: name, value, old_value },
                    ),
                ),
            )
        } else if t == EVENT_PLAYER_DAMAGE {
            let target = match self.resolve(ObjectKind::Player, target_obj.handle) {
                Ok(e) => e,
                Err(err) => return Err(err),
            };
            let attacker = match self.resolve_optional_entity(other) {
                Ok(e) => e,
                Err(err) => return Err(err),
            };
            Ok(
                Some(
                    CEvent::PlayerDamage(CPlayerDamageEvent { target, attacker, damage, weapon }),
                ),
            )
        } else if t == EVENT_PLAYER_DEATH {
            let target = match self.resolve(ObjectKind::Player, target_obj.handle) {
                Ok(e) => e,
                Err(err) => return Err(err),
            };
            let killer = match self.resolve_optional_entity(other) {
                Ok(e) => e,
                Err(err) => return Err(err),
            };
            Ok(Some(CEvent::PlayerDeath(CPlayerDeathEvent { target, killer, weapon })))
        } else if t == EVENT_EXPLOSION {
            let source = match self.resolve(ObjectKind::Player, target_obj.handle) {
                Ok(e) => e,
                Err(err) => return Err(err),
            };
            Ok(
                Some(
                    CEvent::ExplosionEvent(
                        CExplosionEvent { source, explosion_type, position, explosion_fx },
                    ),
                ),
            )
        } else if t == EVENT_WEAPON_DAMAGE {
            let source = match self.resolve(ObjectKind::Player, target_obj.handle) {
                Ok(e) => e,
                Err(err) => return Err(err),
            };
            let target = match self.resolve_optional_entity(other) {
                Ok(e) => e,
                Err(err) => return Err(err),
            };
            Ok(
                Some(
                    CEvent::WeaponDamageEvent(
                        CWeaponDamageEvent {
                            source,
                            target,
                            weapon,
                            damage,
                            shot_offset: position,
                            body_part,
                        },
                    ),
                ),
            )
        } else if t == EVENT_COLSHAPE {
            let target = match self.resolve(ObjectKind::CollisionShape, target_obj.handle) {
                Ok(e) => e,
                Err(err) => return Err(err),
            };
            let entity = match self.resolve_entity(other) {
                Ok(e) => e,
                Err(err) => return Err(err),
            };
            Ok(Some(CEvent::CollisionShapeEvent(CCollisionShapeEvent { target, entity, state })))
        } else if t == EVENT_PLAYER_ENTER_VEHICLE {
            let target = match self.resolve(ObjectKind::Vehicle, target_obj.handle) {
                Ok(e) => e,
                Err(err) => return Err(err),
            };
            let player = match self.resolve(ObjectKind::Player, other.handle) {
                Ok(e) => e,
                Err(err) => return Err(err),
            };
            Ok(
                Some(
                    CEvent::PlayerEnterVehicle(CPlayerEnterVehicleEvent { target, player, seat }),
                ),
            )
        } else if t == EVENT_PLAYER_LEAVE_VEHICLE {
            let target = match self.resolve(ObjectKind::Vehicle, target_obj.handle) {
                Ok(e) => e,
                Err(err) => return Err(err),
            };
            let player = match self.resolve(ObjectKind::Player, other.handle) {
                Ok(e) => e,
                Err(err) => return Err(err),
            };
            Ok(
                Some(
                    CEvent::PlayerLeaveVehicle(CPlayerLeaveVehicleEvent { target, player, seat }),
                ),
            )
        } else if t == EVENT_PLAYER_CHANGE_VEHICLE_SEAT {
            let target = match self.resolve(ObjectKind::Vehicle, target_obj.handle) {
                Ok(e) => e,
                Err(err) => return Err(err),
            };
            let player = match self.resolve(ObjectKind::Player, other.handle) {
                Ok(e) => e,
                Err(err) => return Err(err),
            };
            Ok(
                Some(
                    CEvent::PlayerChangeVehicleSeat(
                        CPlayerChangeVehicleSeatEvent {
                            target,
                            player,
                            old_seat: seat,
                            new_seat,
                        },
                    ),
                ),
            )
        } else if t == EVENT_REMOVE_ENTITY {
            let target = match self.resolve_entity(target_obj) {
                Ok(e) => e,
                Err(err) => return Err(err),
            };
            Ok(Some(CEvent::RemoveEntity(CRemoveEntityEvent { target })))
        } else if t == EVENT_DATA_NODE_RECEIVED {
            Ok(Some(CEvent::DataNodeReceived(CDataNodeReceivedEvent { name, json: text })))
        } else if t == EVENT_CONSOLE_COMMAND {
            Ok(Some(CEvent::ConsoleCommand(CConsoleCommandEvent { name, args: words })))
        } else {
            Ok(None)
        }
    }
}

/// The type codes that the decoder turns into events.
pub open spec fn is_decoded_type(t: u32) -> bool {
    t == EVENT_PLAYER_CONNECT || t == EVENT_PLAYER_DISCONNECT || t == EVENT_CLIENT_SCRIPT || t
        == EVENT_SERVER_SCRIPT || t == EVENT_SYNCED_META_CHANGE || t
        == EVENT_STREAM_SYNCED_META_CHANGE || t == EVENT_GLOBAL_META_CHANGE || t
        == EVENT_GLOBAL_SYNCED_META_CHANGE || t == EVENT_PLAYER_DAMAGE || t == EVENT_PLAYER_DEATH
        || t == EVENT_EXPLOSION || t == EVENT_WEAPON_DAMAGE || t == EVENT_COLSHAPE || t
        == EVENT_PLAYER_ENTER_VEHICLE || t == EVENT_PLAYER_LEAVE_VEHICLE || t
        == EVENT_PLAYER_CHANGE_VEHICLE_SEAT || t == EVENT_REMOVE_ENTITY || t
        == EVENT_DATA_NODE_RECEIVED || t == EVENT_CONSOLE_COMMAND
}

/// The type codes whose target must be a registered player.
pub open spec fn targets_player(t: u32) -> bool {
    t == EVENT_PLAYER_CONNECT || t == EVENT_PLAYER_DISCONNECT || t == EVENT_CLIENT_SCRIPT || t
        == EVENT_PLAYER_DAMAGE || t == EVENT_PLAYER_DEATH || t == EVENT_EXPLOSION || t
        == EVENT_WEAPON_DAMAGE
}

/// The type codes whose target must be a registered vehicle.
pub open spec fn targets_vehicle(t: u32) -> bool {
    t == EVENT_PLAYER_ENTER_VEHICLE || t == EVENT_PLAYER_LEAVE_VEHICLE || t
        == EVENT_PLAYER_CHANGE_VEHICLE_SEAT
}

/// A player-connect record whose target handle is registered as the player
/// entity `e` decodes to a player-connect event for `e`, with the record's
/// reason.
pub proof fn lemma_decode_player_connect(w: WorldView, raw: RawEvent, e: EntityId)
    requires
        raw.event_type == EVENT_PLAYER_CONNECT,
        w.objects.contains_key((ObjectKind::Player, raw.target.handle)),
        w.objects[(ObjectKind::Player, raw.target.handle)] == e,
    ensures
        decoded(w, raw) == Ok::<Option<CEvent>, RegistryError>(
            Some(CEvent::PlayerConnect(CPlayerConnectEvent { target: e, reason: raw.text })),
        ),
{
}

/// A record whose type code is not decoded gives no event and no error,
/// whatever the world holds.
pub proof fn lemma_decode_unknown_type(w: WorldView, raw: RawEvent)
    requires
        !is_decoded_type(raw.event_type),
    ensures
        decoded(w, raw) == Ok::<Option<CEvent>, RegistryError>(None),
{
}

/// A record whose player or vehicle target was never registered fails with
/// `NotFound` for that handle: no event comes out.
pub proof fn lemma_decode_unresolved_target(w: WorldView, raw: RawEvent)
    ensures
        targets_player(raw.event_type) && !w.objects.contains_key(
            (ObjectKind::Player, raw.target.handle),
        ) ==> decoded(w, raw) == Err::<Option<CEvent>, RegistryError>(
            RegistryError::NotFound { kind: ObjectKind::Player, handle: raw.target.handle },
        ),
        targets_vehicle(raw.event_type) && !w.objects.contains_key(
            (ObjectKind::Vehicle, raw.target.handle),
        ) ==> decoded(w, raw) == Err::<Option<CEvent>, RegistryError>(
            RegistryError::NotFound { kind: ObjectKind::Vehicle, handle: raw.target.handle },
        ),
{
}

} // verus!
