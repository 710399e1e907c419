use vstd::prelude::*;

verus! {

/// Closed set of host object categories that the mirror tracks.
#[derive(Clone, Copy, Debug, PartialEq, Eq, Structural)]
pub enum ObjectKind {
    Player,
    Vehicle,
    Blip,
    VoiceChannel,
    CollisionShape,
    Checkpoint,
}

/// A capability that an entity can carry, mirroring one host interface.
#[derive(Clone, Copy, Debug, PartialEq, Eq, Structural)]
pub enum FacetKind {
    RefCountable,
    BaseObject,
    WorldObject,
    NetworkedEntity,
    Player,
    Vehicle,
    Blip,
    VoiceChannel,
    CollisionShape,
    Checkpoint,
}

/// Host type tag of a player object.
pub const TYPE_PLAYER: u8 = 0;
/// Host type tag of a vehicle object.
pub const TYPE_VEHICLE: u8 = 1;
/// Host type tag of a blip object.
pub const TYPE_BLIP: u8 = 2;
/// Host type tag of a web view (not mirrored).
pub const TYPE_WEBVIEW: u8 = 3;
/// Host type tag of a voice channel object.
pub const TYPE_VOICE_CHANNEL: u8 = 4;
/// Host type tag of a collision shape object.
pub const TYPE_COLSHAPE: u8 = 5;
/// Host type tag of a checkpoint object.
pub const TYPE_CHECKPOINT: u8 = 6;

/// The kind that a host type tag denotes, if the mirror tracks it.
pub open spec fn kind_of_tag(tag: u8) -> Option<ObjectKind> {
    if tag == TYPE_PLAYER {
        Some(ObjectKind::Player)
    } else if tag == TYPE_VEHICLE {
        Some(ObjectKind::Vehicle)
    } else if tag == TYPE_BLIP {
        Some(ObjectKind::Blip)
    } else if tag == TYPE_VOICE_CHANNEL {
        Some(ObjectKind::VoiceChannel)
    } else if tag == TYPE_COLSHAPE {
        Some(ObjectKind::CollisionShape)
    } else if tag == TYPE_CHECKPOINT {
        Some(ObjectKind::Checkpoint)
    } else {
        None
    }
}

/// The facets that an object of `kind` implements on the host side.
pub open spec fn facets_of(kind: ObjectKind) -> Set<FacetKind> {
    let common = set![FacetKind::RefCountable, FacetKind::BaseObject];
    match kind {
        ObjectKind::Player => common.insert(FacetKind::WorldObject).insert(
            FacetKind::NetworkedEntity,
        ).insert(FacetKind::Player),
        ObjectKind::Vehicle => common.insert(FacetKind::WorldObject).insert(
            FacetKind::NetworkedEntity,
        ).insert(FacetKind::Vehicle),
        ObjectKind::Blip => common.insert(FacetKind::WorldObject).insert(FacetKind::Blip),
        ObjectKind::VoiceChannel => common.insert(FacetKind::VoiceChannel),
        ObjectKind::CollisionShape => common.insert(FacetKind::WorldObject).insert(
            FacetKind::CollisionShape,
        ),
        ObjectKind::Checkpoint => common.insert(FacetKind::WorldObject).insert(
            FacetKind::CollisionShape,
        ).insert(FacetKind::Checkpoint),
    }
}

impl ObjectKind {
    /// Reads a host type tag; `None` for objects the mirror does not track.
    pub fn from_type_tag(tag: u8) -> (r: Option<ObjectKind>)
        ensures
            r == kind_of_tag(tag),
    {
        if tag == TYPE_PLAYER {
            Some(ObjectKind::Player)
        } else if tag == TYPE_VEHICLE {
            Some(ObjectKind::Vehicle)
        } else if tag == TYPE_BLIP {
            Some(ObjectKind::Blip)
        } else if tag == TYPE_VOICE_CHANNEL {
            Some(ObjectKind::VoiceChannel)
        } else if tag == TYPE_COLSHAPE {
            Some(ObjectKind::CollisionShape)
        } else if tag == TYPE_CHECKPOINT {
            Some(ObjectKind::Checkpoint)
        } else {
            None
        }
    }

    /// The host type tag of this kind.
    pub fn type_tag(self) -> (r: u8)
        ensures
            kind_of_tag(r) == Some(self),
    {
        match self {
            ObjectKind::Player => TYPE_PLAYER,
            ObjectKind::Vehicle => TYPE_VEHICLE,
            ObjectKind::Blip => TYPE_BLIP,
            ObjectKind::VoiceChannel => TYPE_VOICE_CHANNEL,
            ObjectKind::CollisionShape => TYPE_COLSHAPE,
            ObjectKind::Checkpoint => TYPE_CHECKPOINT,
        }
    }

    /// Whether an object of this kind carries `facet`.
    pub fn has_facet(self, facet: FacetKind) -> (r: bool)
        ensures
            r == facets_of(self).contains(facet),
    {
        match facet {
            FacetKind::RefCountable | FacetKind::BaseObject => true,
            FacetKind::WorldObject => !matches!(self, ObjectKind::VoiceChannel),
            FacetKind::NetworkedEntity => matches!(self, ObjectKind::Player | ObjectKind::Vehicle),
            FacetKind::Player => matches!(self, ObjectKind::Player),
            FacetKind::Vehicle => matches!(self, ObjectKind::Vehicle),
            FacetKind::Blip => matches!(self, ObjectKind::Blip),
            FacetKind::VoiceChannel => matches!(self, ObjectKind::VoiceChannel),
            FacetKind::CollisionShape => matches!(
                self,
                ObjectKind::CollisionShape | ObjectKind::Checkpoint
            ),
            FacetKind::Checkpoint => matches!(self, ObjectKind::Checkpoint),
        }
    }
}

} // verus!
