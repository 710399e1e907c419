use std::collections::HashMap;
use vstd::prelude::*;
use crate::kind::ObjectKind;
use crate::store::EntityId;

verus! {

broadcast use vstd::std_specs::hash::group_hash_axioms;

/// Why a registry operation was refused. Each one means that the host broke
/// its ordering promise, so callers treat it as fatal.
#[derive(Clone, Copy, Debug, PartialEq, Eq, Structural)]
pub enum RegistryError {
    /// The host announced the same object twice.
    AlreadyRegistered { kind: ObjectKind, handle: usize },
    /// The handle was never announced, or was already removed.
    NotFound { kind: ObjectKind, handle: usize },
    /// A polymorphic entity reference whose type tag is neither a player nor
    /// a vehicle.
    UnexpectedEntityType { type_tag: u8 },
}

/// A reference to a host object as the host hands it over: its handle and
/// its type tag. Handle 0 stands for no object.
#[derive(Clone, Copy, Debug, PartialEq, Eq, Structural)]
pub struct RawObject {
    pub handle: usize,
    pub type_tag: u8,
}

/// One map per object kind, from native handle to entity.
pub struct AltResource {
    players: HashMap<usize, EntityId>,
    vehicles: HashMap<usize, EntityId>,
    blips: HashMap<usize, EntityId>,
    voice_channels: HashMap<usize, EntityId>,
    collision_shapes: HashMap<usize, EntityId>,
    checkpoints: HashMap<usize, EntityId>,
}

impl AltResource {
    /// The map of `kind`.
    pub closed spec fn map_of(&self, kind: ObjectKind) -> Map<usize, EntityId> {
        match kind {
            ObjectKind::Player => self.players@,
            ObjectKind::Vehicle => self.vehicles@,
            ObjectKind::Blip => self.blips@,
            ObjectKind::VoiceChannel => self.voice_channels@,
            ObjectKind::CollisionShape => self.collision_shapes@,
            ObjectKind::Checkpoint => self.checkpoints@,
        }
    }

    /// Six empty maps.
    pub fn new() -> (r: AltResource)
        ensures
            forall|k: ObjectKind| #[trigger] r.map_of(k) == Map::<usize, EntityId>::empty(),
    {
        AltResource {
            players: HashMap::new(),
            vehicles: HashMap::new(),
            blips: HashMap::new(),
            voice_channels: HashMap::new(),
            collision_shapes: HashMap::new(),
            checkpoints: HashMap::new(),
        }
    }

    /// The entity registered for `handle` in the map of `kind`.
    pub fn get(&self, kind: ObjectKind, handle: usize) -> (r: Option<EntityId>)
        ensures
            r == (if self.map_of(kind).contains_key(handle) {
                Some(self.map_of(kind)[handle])
            } else {
                None
            }),
    {
        let m = match kind {
            ObjectKind::Player => &self.players,
            ObjectKind::Vehicle => &self.vehicles,
            ObjectKind::Blip => &self.blips,
            ObjectKind::VoiceChannel => &self.voice_channels,
            ObjectKind::CollisionShape => &self.collision_shapes,
            ObjectKind::Checkpoint => &self.checkpoints,
        };
        match m.get(&handle) {
            Some(e) => Some(*e),
            None => None,
        }
    }

    /// Maps `handle` to `e` in the map of `kind`; the other maps stay.
    pub(crate) fn insert(&mut self, kind: ObjectKind, handle: usize, e: EntityId)
        ensures
            final(self).map_of(kind) == old(self).map_of(kind).insert(handle, e),
            forall|k: ObjectKind| k != kind ==> #[trigger] final(self).map_of(k) == old(self).map_of(k),
    {
        match kind {
            ObjectKind::Player => {
                self.players.insert(handle, e);
            },
            ObjectKind::Vehicle => {
                self.vehicles.insert(handle, e);
            },
            ObjectKind::Blip => {
                self.blips.insert(handle, e);
            },
            ObjectKind::VoiceChannel => {
                self.voice_channels.insert(handle, e);
            },
            ObjectKind::CollisionShape => {
                self.collision_shapes.insert(handle, e);
            },
            ObjectKind::Checkpoint => {
                self.checkpoints.insert(handle, e);
            },
        }
    }

    /// Removes `handle` from the map of `kind`, returning its entity.
    pub(crate) fn remove(&mut self, kind: ObjectKind, handle: usize) -> (r: Option<EntityId>)
        ensures
            r == (if old(self).map_of(kind).contains_key(handle) {
                Some(old(self).map_of(kind)[handle])
            } else {
                None
            }),
            final(self).map_of(kind) == old(self).map_of(kind).remove(handle),
            forall|k: ObjectKind| k != kind ==> #[trigger] final(self).map_of(k) == old(self).map_of(k),
    {
        match kind {
            ObjectKind::Player => self.players.remove(&handle),
            ObjectKind::Vehicle => self.vehicles.remove(&handle),
            ObjectKind::Blip => self.blips.remove(&handle),
            ObjectKind::VoiceChannel => self.voice_channels.remove(&handle),
            ObjectKind::CollisionShape => self.collision_shapes.remove(&handle),
            ObjectKind::Checkpoint => self.checkpoints.remove(&handle),
        }
    }
}

} // verus!
