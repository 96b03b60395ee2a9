//! What a minecart has in common with other entities.

use vstd::prelude::*;
use crate::float_bits::Single;
use crate::geometry::Vec3;
use crate::identifier::{Identifier, IdentifierView};

verus! {

/// The size of an entity.
#[derive(Clone, Copy, Debug, PartialEq, Eq, Structural)]
pub struct EntityDimensions {
    pub width: Single,
    pub height: Single,
}

/// A kind of entity.
#[derive(Debug)]
pub struct EntityType {
    pub key: Identifier,
    pub dimensions: EntityDimensions,
}

/// What an [`EntityType`] stands for.
#[verifier::ext_equal]
pub struct EntityTypeView {
    pub key: IdentifierView,
    pub dimensions: EntityDimensions,
}

impl View for EntityType {
    type V = EntityTypeView;

    open spec fn view(&self) -> EntityTypeView {
        EntityTypeView { key: self.key@, dimensions: self.dimensions }
    }
}

/// Why an entity is no longer in the world.
#[derive(Clone, Copy, Debug, PartialEq, Eq, Structural)]
pub enum RemovalReason {
    Killed,
    Discarded,
    UnloadedToChunk,
    UnloadedWithPlayer,
    ChangedDimension,
}

/// The state that every entity has.
#[derive(Clone, Copy, Debug, PartialEq, Eq, Structural)]
pub struct EntityBase {
    pub id: i32,
    pub position: Vec3,
    pub dimensions: EntityDimensions,
    /// Whether clients still have to be told that the entity was hit.
    pub hurt_marked: bool,
    pub removal: Option<RemovalReason>,
}

/// What is known of an entity that comes out of a save.
#[derive(Clone, Copy, Debug, PartialEq, Eq, Structural)]
pub struct EntityBaseLoad {
    pub id: i32,
    pub position: Vec3,
}

impl EntityBase {
    /// An entity that has just come into the world.
    pub open spec fn fresh(id: i32, position: Vec3, dimensions: EntityDimensions) -> EntityBase {
        EntityBase { id, position, dimensions, hurt_marked: false, removal: None }
    }

    pub fn new(id: i32, position: Vec3, dimensions: EntityDimensions) -> (result: EntityBase)
        ensures
            result == EntityBase::fresh(id, position, dimensions),
    {
        EntityBase { id, position, dimensions, hurt_marked: false, removal: None }
    }

    pub fn from_load(load: EntityBaseLoad, dimensions: EntityDimensions) -> (result: EntityBase)
        ensures
            result == EntityBase::fresh(load.id, load.position, dimensions),
    {
        EntityBase::new(load.id, load.position, dimensions)
    }

    /// Whether the entity is gone.
    pub fn is_removed(&self) -> (result: bool)
        ensures
            result == (self.removal is Some),
    {
        self.removal.is_some()
    }
}

/// The values of a vehicle that clients are kept up to date on.
#[derive(Clone, Copy, Debug, PartialEq, Eq, Structural)]
pub struct VehicleData {
    /// Ticks for which the vehicle goes on shaking.
    pub id_hurt: i32,
    /// The side that it leans to: 1 or -1.
    pub id_hurtdir: i32,
    /// The damage that is shown.
    pub id_damage: Single,
}

impl VehicleData {
    /// A vehicle that was not hit.
    pub open spec fn unhurt() -> VehicleData {
        VehicleData { id_hurt: 0, id_hurtdir: 1, id_damage: Single { bits: 0 } }
    }

    /// The shaking is short, and the vehicle leans to one side or the other.
    pub open spec fn wf(self) -> bool {
        &&& 0 <= self.id_hurt <= 10
        &&& self.id_hurtdir == 1 || self.id_hurtdir == -1
    }

    pub fn new() -> (result: VehicleData)
        ensures
            result == VehicleData::unhurt(),
            result.wf(),
    {
        VehicleData { id_hurt: 0, id_hurtdir: 1, id_damage: Single { bits: 0 } }
    }
}

} // verus!
