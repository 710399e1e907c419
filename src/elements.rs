use vstd::prelude::*;
use crate::kind::{FacetKind, ObjectKind, facets_of};

verus! {

/// A facet that lets the host's reference count of an object be read.
#[derive(Clone, Copy, Debug, PartialEq, Eq, Structural)]
pub struct CRefCountable {
    pub handle: usize,
}

/// A facet for any host object: identity and meta data.
#[derive(Clone, Copy, Debug, PartialEq, Eq, Structural)]
pub struct CBaseObject {
    pub handle: usize,
}

/// A facet for an object that occupies a position and a dimension.
#[derive(Clone, Copy, Debug, PartialEq, Eq, Structural)]
pub struct CWorldObject {
    pub handle: usize,
}

/// A facet for an object that the host synchronises over the network.
#[derive(Clone, Copy, Debug, PartialEq, Eq, Structural)]
pub struct CEntity {
    pub handle: usize,
}

/// A facet for a connected player.
#[derive(Clone, Copy, Debug, PartialEq, Eq, Structural)]
pub struct CPlayer {
    pub handle: usize,
}

/// A facet for a vehicle.
#[derive(Clone, Copy, Debug, PartialEq, Eq, Structural)]
pub struct CVehicle {
    pub handle: usize,
}

/// A facet for a collision volume.
#[derive(Clone, Copy, Debug, PartialEq, Eq, Structural)]
pub struct CCollisionShape {
    pub handle: usize,
}

/// A facet for a checkpoint.
#[derive(Clone, Copy, Debug, PartialEq, Eq, Structural)]
pub struct CCheckpoint {
    pub handle: usize,
}

/// A facet for a map blip.
#[derive(Clone, Copy, Debug, PartialEq, Eq, Structural)]
pub struct CBlip {
    pub handle: usize,
}

/// A facet for a voice channel.
#[derive(Clone, Copy, Debug, PartialEq, Eq, Structural)]
pub struct CVoiceChannel {
    pub handle: usize,
}

impl CRefCountable {
    /// Wraps a host handle; the host keeps owning the object.
    pub fn new(handle: usize) -> (r: CRefCountable)
        ensures
            r.handle == handle,
    {
        CRefCountable { handle }
    }

    /// The host handle this facet forwards to.
    pub fn handle(&self) -> (r: usize)
        ensures
            r == self.handle,
    {
        self.handle
    }
}

impl CBaseObject {
    /// Wraps a host handle; the host keeps owning the object.
    pub fn new(handle: usize) -> (r: CBaseObject)
        ensures
            r.handle == handle,
    {
        CBaseObject { handle }
    }

    /// The host handle this facet forwards to.
    pub fn handle(&self) -> (r: usize)
        ensures
            r == self.handle,
    {
        self.handle
    }
}

impl CWorldObject {
    /// Wraps a host handle; the host keeps owning the object.
    pub fn new(handle: usize) -> (r: CWorldObject)
        ensures
            r.handle == handle,
    {
        CWorldObject { handle }
    }

    /// The host handle this facet forwards to.
    pub fn handle(&self) -> (r: usize)
        ensures
            r == self.handle,
    {
        self.handle
    }
}

impl CEntity {
    /// Wraps a host handle; the host keeps owning the object.
    pub fn new(handle: usize) -> (r: CEntity)
        ensures
            r.handle == handle,
    {
        CEntity { handle }
    }

    /// The host handle this facet forwards to.
    pub fn handle(&self) -> (r: usize)
        ensures
            r == self.handle,
    {
        self.handle
    }
}

impl CPlayer {
    /// Wraps a host handle; the host keeps owning the object.
    pub fn new(handle: usize) -> (r: CPlayer)
        ensures
            r.handle == handle,
    {
        CPlayer { handle }
    }

    /// The host handle this facet forwards to.
    pub fn handle(&self) -> (r: usize)
        ensures
            r == self.handle,
    {
        self.handle
    }
}

impl CVehicle {
    /// Wraps a host handle; the host keeps owning the object.
    pub fn new(handle: usize) -> (r: CVehicle)
        ensures
            r.handle == handle,
    {
        CVehicle { handle }
    }

    /// The host handle this facet forwards to.
    pub fn handle(&self) -> (r: usize)
        ensures
            r == self.handle,
    {
        self.handle
    }
}

impl CCollisionShape {
    /// Wraps a host handle; the host keeps owning the object.
    pub fn new(handle: usize) -> (r: CCollisionShape)
        ensures
            r.handle == handle,
    {
        CCollisionShape { handle }
    }

    /// The host handle this facet forwards to.
    pub fn handle(&self) -> (r: usize)
        ensures
            r == self.handle,
    {
        self.handle
    }
}

impl CCheckpoint {
    /// Wraps a host handle; the host keeps owning the object.
    pub fn new(handle: usize) -> (r: CCheckpoint)
        ensures
            r.handle == handle,
    {
        CCheckpoint { handle }
    }

    /// The host handle this facet forwards to.
    pub fn handle(&self) -> (r: usize)
        ensures
            r == self.handle,
    {
        self.handle
    }
}

impl CBlip {
    /// Wraps a host handle; the host keeps owning the object.
    pub fn new(handle: usize) -> (r: CBlip)
        ensures
            r.handle == handle,
    {
        CBlip { handle }
    }

    /// The host handle this facet forwards to.
    pub fn handle(&self) -> (r: usize)
        ensures
            r == self.handle,
    {
        self.handle
    }
}

impl CVoiceChannel {
    /// Wraps a host handle; the host keeps owning the object.
    pub fn new(handle: usize) -> (r: CVoiceChannel)
        ensures
            r.handle == handle,
    {
        CVoiceChannel { handle }
    }

    /// The host handle this facet forwards to.
    pub fn handle(&self) -> (r: usize)
        ensures
            r == self.handle,
    {
        self.handle
    }
}

/// The shapes a collision volume can take on the host.
#[derive(Clone, Copy, Debug, PartialEq, Eq, Structural)]
pub enum CollisionShapeType {
    Sphere,
    Cylinder,
    Circle,
    Cuboid,
    Rectangle,
    CheckpointCylinder,
}

/// The shape that a host shape code denotes.
pub open spec fn shape_of_code(code: u8) -> Option<CollisionShapeType> {
    if code == 0 {
        Some(CollisionShapeType::Sphere)
    } else if code == 1 {
        Some(CollisionShapeType::Cylinder)
    } else if code == 2 {
        Some(CollisionShapeType::Circle)
    } else if code == 3 {
        Some(CollisionShapeType::Cuboid)
    } else if code == 4 {
        Some(CollisionShapeType::Rectangle)
    } else if code == 5 {
        Some(CollisionShapeType::CheckpointCylinder)
    } else {
        None
    }
}

impl CollisionShapeType {
    /// Reads a host shape code; `None` for a code outside the known shapes.
    pub fn from_code(code: u8) -> (r: Option<CollisionShapeType>)
        ensures
            r == shape_of_code(code),
    {
        if code == 0 {
            Some(CollisionShapeType::Sphere)
        } else if code == 1 {
            Some(CollisionShapeType::Cylinder)
        } else if code == 2 {
            Some(CollisionShapeType::Circle)
        } else if code == 3 {
            Some(CollisionShapeType::Cuboid)
        } else if code == 4 {
            Some(CollisionShapeType::Rectangle)
        } else if code == 5 {
            Some(CollisionShapeType::CheckpointCylinder)
        } else {
            None
        }
    }

    /// The host shape code of this shape.
    pub fn code(self) -> (r: u8)
        ensures
            shape_of_code(r) == Some(self),
    {
        match self {
            CollisionShapeType::Sphere => 0,
            CollisionShapeType::Cylinder => 1,
            CollisionShapeType::Circle => 2,
            CollisionShapeType::Cuboid => 3,
            CollisionShapeType::Rectangle => 4,
            CollisionShapeType::CheckpointCylinder => 5,
        }
    }
}

/// The facets attached to one entity; each present facet wraps a host handle.
#[derive(Clone, Copy, Debug, PartialEq, Eq, Structural)]
pub struct FacetSet {
    pub ref_countable: Option<CRefCountable>,
    pub base_object: Option<CBaseObject>,
    pub world_object: Option<CWorldObject>,
    pub entity: Option<CEntity>,
    pub player: Option<CPlayer>,
    pub vehicle: Option<CVehicle>,
    pub blip: Option<CBlip>,
    pub voice_channel: Option<CVoiceChannel>,
    pub collision_shape: Option<CCollisionShape>,
    pub checkpoint: Option<CCheckpoint>,
}

impl FacetSet {
    /// Whether the facet of kind `f` is present.
    pub open spec fn has(self, f: FacetKind) -> bool {
        match f {
            FacetKind::RefCountable => self.ref_countable.is_some(),
            FacetKind::BaseObject => self.base_object.is_some(),
            FacetKind::WorldObject => self.world_object.is_some(),
            FacetKind::NetworkedEntity => self.entity.is_some(),
            FacetKind::Player => self.player.is_some(),
            FacetKind::Vehicle => self.vehicle.is_some(),
            FacetKind::Blip => self.blip.is_some(),
            FacetKind::VoiceChannel => self.voice_channel.is_some(),
            FacetKind::CollisionShape => self.collision_shape.is_some(),
            FacetKind::Checkpoint => self.checkpoint.is_some(),
        }
    }

    /// The kinds of the facets present.
    pub open spec fn kinds(self) -> Set<FacetKind> {
        Set::new(|f: FacetKind| self.has(f))
    }

    /// Every present facet wraps `handle`.
    pub open spec fn all_wrap(self, handle: usize) -> bool {
        &&& (self.ref_countable matches Some(c) ==> c.handle == handle)
        &&& (self.base_object matches Some(c) ==> c.handle == handle)
        &&& (self.world_object matches Some(c) ==> c.handle == handle)
        &&& (self.entity matches Some(c) ==> c.handle == handle)
        &&& (self.player matches Some(c) ==> c.handle == handle)
        &&& (self.vehicle matches Some(c) ==> c.handle == handle)
        &&& (self.blip matches Some(c) ==> c.handle == handle)
        &&& (self.voice_channel matches Some(c) ==> c.handle == handle)
        &&& (self.collision_shape matches Some(c) ==> c.handle == handle)
        &&& (self.checkpoint matches Some(c) ==> c.handle == handle)
    }

    /// The facets that a host object of `kind` at `handle` carries, each
    /// wrapping `handle`.
    pub open spec fn of_object(kind: ObjectKind, handle: usize) -> FacetSet {
        let fs = facets_of(kind);
        FacetSet {
            ref_countable: Some(CRefCountable { handle }),
            base_object: Some(CBaseObject { handle }),
            world_object: if fs.contains(FacetKind::WorldObject) {
                Some(CWorldObject { handle })
            } else {
                None
            },
            entity: if fs.contains(FacetKind::NetworkedEntity) {
                Some(CEntity { handle })
            } else {
                None
            },
            player: if fs.contains(FacetKind::Player) {
                Some(CPlayer { handle })
            } else {
                None
            },
            vehicle: if fs.contains(FacetKind::Vehicle) {
                Some(CVehicle { handle })
            } else {
                None
            },
            blip: if fs.contains(FacetKind::Blip) {
                Some(CBlip { handle })
            } else {
                None
            },
            voice_channel: if fs.contains(FacetKind::VoiceChannel) {
                Some(CVoiceChannel { handle })
            } else {
                None
            },
            collision_shape: if fs.contains(FacetKind::CollisionShape) {
                Some(CCollisionShape { handle })
            } else {
                None
            },
            checkpoint: if fs.contains(FacetKind::Checkpoint) {
                Some(CCheckpoint { handle })
            } else {
                None
            },
        }
    }

    /// The facets of an object carry exactly the kinds its object kind has,
    /// all wrapping the object's handle.
    pub proof fn lemma_of_object(kind: ObjectKind, handle: usize)
        ensures
            FacetSet::of_object(kind, handle).kinds() == facets_of(kind),
            FacetSet::of_object(kind, handle).all_wrap(handle),
    {
        let r = FacetSet::of_object(kind, handle);
        assert forall|f: FacetKind| r.has(f) == facets_of(kind).contains(f) by {
            if f == FacetKind::RefCountable || f == FacetKind::BaseObject {
                assert(facets_of(kind).contains(f));
            }
        }
        assert(r.kinds() =~= facets_of(kind));
    }

    /// A set with no facet.
    pub fn empty() -> (r: FacetSet)
        ensures
            r.kinds() == Set::<FacetKind>::empty(),
    {
        let r = FacetSet {
            ref_countable: None,
            base_object: None,
            world_object: None,
            entity: None,
            player: None,
            vehicle: None,
            blip: None,
            voice_channel: None,
            collision_shape: None,
            checkpoint: None,
        };
        assert(r.kinds() =~= Set::<FacetKind>::empty());
        r
    }

    /// The facets that a host object of `kind` at `handle` carries.
    pub fn for_object(kind: ObjectKind, handle: usize) -> (r: FacetSet)
        ensures
            r == FacetSet::of_object(kind, handle),
            r.kinds() == facets_of(kind),
            r.all_wrap(handle),
    {
        let r = FacetSet {
            ref_countable: Some(CRefCountable::new(handle)),
            base_object: Some(CBaseObject::new(handle)),
            world_object: if kind.has_facet(FacetKind::WorldObject) {
                Some(CWorldObject::new(handle))
            } else {
                None
            },
            entity: if kind.has_facet(FacetKind::NetworkedEntity) {
                Some(CEntity::new(handle))
            } else {
                None
            },
            player: if kind.has_facet(FacetKind::Player) {
                Some(CPlayer::new(handle))
            } else {
                None
            },
            vehicle: if kind.has_facet(FacetKind::Vehicle) {
                Some(CVehicle::new(handle))
            } else {
                None
            },
            blip: if kind.has_facet(FacetKind::Blip) {
                Some(CBlip::new(handle))
            } else {
                None
            },
            voice_channel: if kind.has_facet(FacetKind::VoiceChannel) {
                Some(CVoiceChannel::new(handle))
            } else {
                None
            },
            collision_shape: if kind.has_facet(FacetKind::CollisionShape) {
                Some(CCollisionShape::new(handle))
            } else {
                None
            },
            checkpoint: if kind.has_facet(FacetKind::Checkpoint) {
                Some(CCheckpoint::new(handle))
            } else {
                None
            },
        };
        proof {
            FacetSet::lemma_of_object(kind, handle);
        }
        r
    }

    /// Whether the facet of kind `f` is present.
    pub fn contains(&self, f: FacetKind) -> (r: bool)
        ensures
            r == self.kinds().contains(f),
    {
        match f {
            FacetKind::RefCountable => self.ref_countable.is_some(),
            FacetKind::BaseObject => self.base_object.is_some(),
            FacetKind::WorldObject => self.world_object.is_some(),
            FacetKind::NetworkedEntity => self.entity.is_some(),
            FacetKind::Player => self.player.is_some(),
            FacetKind::Vehicle => self.vehicle.is_some(),
            FacetKind::Blip => self.blip.is_some(),
            FacetKind::VoiceChannel => self.voice_channel.is_some(),
            FacetKind::CollisionShape => self.collision_shape.is_some(),
            FacetKind::Checkpoint => self.checkpoint.is_some(),
        }
    }
}

} // verus!
