//! Physics descriptors: the collision shape, the mobility and the collision
//! groups of a spawned object, and the classification that builds them.

use crate::error::UnsupportedIdentifier;
use crate::groups::{GroupLabel, GroupSet};
use crate::identifier::{is_crystal, is_crystal_name, SPIKE_GRID_VALUE};
use vstd::prelude::*;

verus! {

/// A point in object space: offsets from the object's origin, in the units
/// of its visual footprint.
#[derive(Clone, Copy, Debug, PartialEq, Eq, Structural)]
pub struct Point {
    pub x: i32,
    pub y: i32,
}

/// The point with the given offsets.
pub open spec fn point(x: int, y: int) -> Point {
    Point { x: x as i32, y: y as i32 }
}

/// A collision shape in object space.
#[derive(Clone, Copy, Debug, PartialEq, Eq, Structural)]
pub enum Shape {
    /// An axis-aligned rectangle centred on the origin.
    Rectangle { half_width: u32, half_height: u32 },
    /// The triangle with the three given corners.
    Triangle { p0: Point, p1: Point, p2: Point },
}

/// How a body moves under simulation.
#[derive(Clone, Copy, Debug, PartialEq, Eq, Structural)]
pub enum Mobility {
    /// Never moved by simulation forces: static geometry.
    Fixed,
    /// Moved by forces and contacts.
    Dynamic,
    /// Moved by the game only.
    Kinematic,
}

/// The mathematical content of a physics descriptor.
#[verifier::ext_equal]
pub struct PhysicsDescriptor {
    pub shape: Shape,
    pub mobility: Mobility,
    /// The groups that the shape belongs to.
    pub membership: Set<GroupLabel>,
    /// The groups that the shape interacts with.
    pub filter_mask: Set<GroupLabel>,
}

/// The descriptor of a spike tile: a fixed triangle over the tile's
/// footprint, which is terrain and is found by rays and by the player's
/// sensor.
pub open spec fn spike_descriptor() -> PhysicsDescriptor {
    PhysicsDescriptor {
        shape: Shape::Triangle { p0: point(-4, -4), p1: point(4, -4), p2: point(0, 4) },
        mobility: Mobility::Fixed,
        membership: set![GroupLabel::Terrain],
        filter_mask: set![GroupLabel::LightRay, GroupLabel::PlayerSensor, GroupLabel::WhiteRay],
    }
}

/// The descriptor of a crystal: a fixed square, which is terrain and
/// collides with rays and with the player's body.
pub open spec fn crystal_descriptor() -> PhysicsDescriptor {
    PhysicsDescriptor {
        shape: Shape::Rectangle { half_width: 4, half_height: 4 },
        mobility: Mobility::Fixed,
        membership: set![GroupLabel::Terrain],
        filter_mask: set![GroupLabel::LightRay, GroupLabel::PlayerCollider, GroupLabel::WhiteRay],
    }
}

/// The descriptor that belongs to a grid value, where the value is supported.
pub open spec fn grid_value_descriptor(value: i32) -> Option<PhysicsDescriptor> {
    if value == SPIKE_GRID_VALUE {
        Some(spike_descriptor())
    } else {
        None
    }
}

/// The descriptor that belongs to an entity name, where the name is supported.
pub open spec fn name_descriptor(name: Seq<char>) -> Option<PhysicsDescriptor> {
    if is_crystal_name(name) {
        Some(crystal_descriptor())
    } else {
        None
    }
}

/// The physics descriptor of a spawned object that never moves.
///
/// It is built by classification only and offers no mutator. Its view is a
/// [`PhysicsDescriptor`].
#[derive(Clone, Copy, Debug, PartialEq, Eq)]
pub struct FixedEntityBundle {
    shape: Shape,
    mobility: Mobility,
    membership: GroupSet,
    filter_mask: GroupSet,
}

impl View for FixedEntityBundle {
    type V = PhysicsDescriptor;

    closed spec fn view(&self) -> PhysicsDescriptor {
        PhysicsDescriptor {
            shape: self.shape,
            mobility: self.mobility,
            membership: self.membership@,
            filter_mask: self.filter_mask@,
        }
    }
}

impl FixedEntityBundle {
    /// What a classification result says: the descriptor it carries, or
    /// nothing where the identifier was rejected.
    pub open spec fn outcome(
        r: Result<FixedEntityBundle, UnsupportedIdentifier>,
    ) -> Option<PhysicsDescriptor> {
        match r {
            Ok(bundle) => Some(bundle@),
            Err(_) => None,
        }
    }

    /// Classifies the value of a grid cell. The spike value gives the spike
    /// descriptor; every other value is rejected.
    pub fn build_from_grid_value(value: i32) -> (r: Result<FixedEntityBundle, UnsupportedIdentifier>)
        ensures
            r is Ok <==> value == SPIKE_GRID_VALUE,
            r matches Ok(bundle) ==> bundle@ =~= spike_descriptor(),
            Self::outcome(r) =~= grid_value_descriptor(value),
    {
        if value == SPIKE_GRID_VALUE {
            let sensed_by = GroupSet::single(GroupLabel::LightRay).union(
                GroupSet::single(GroupLabel::PlayerSensor),
            ).union(GroupSet::single(GroupLabel::WhiteRay));
            Ok(
                FixedEntityBundle {
                    shape: Shape::Triangle {
                        p0: Point { x: -4, y: -4 },
                        p1: Point { x: 4, y: -4 },
                        p2: Point { x: 0, y: 4 },
                    },
                    mobility: Mobility::Fixed,
                    membership: GroupSet::single(GroupLabel::Terrain),
                    filter_mask: sensed_by,
                },
            )
        } else {
            Err(UnsupportedIdentifier)
        }
    }

    /// Classifies the name of a placed entity. The two crystal names give
    /// the crystal descriptor; every other name is rejected.
    pub fn build_from_name(name: &str) -> (r: Result<FixedEntityBundle, UnsupportedIdentifier>)
        ensures
            r is Ok <==> is_crystal_name(name@),
            r matches Ok(bundle) ==> bundle@ =~= crystal_descriptor(),
            Self::outcome(r) =~= name_descriptor(name@),
    {
        if is_crystal(name) {
            let collides_with = GroupSet::single(GroupLabel::LightRay).union(
                GroupSet::single(GroupLabel::PlayerCollider),
            ).union(GroupSet::single(GroupLabel::WhiteRay));
            Ok(
                FixedEntityBundle {
                    shape: Shape::Rectangle { half_width: 4, half_height: 4 },
                    mobility: Mobility::Fixed,
                    membership: GroupSet::single(GroupLabel::Terrain),
                    filter_mask: collides_with,
                },
            )
        } else {
            Err(UnsupportedIdentifier)
        }
    }

    /// Classification keeps no hidden state: whatever two calls return for
    /// the same grid value, both succeed or both fail, and two descriptors
    /// that they build are the same field for field.
    pub proof fn lemma_grid_value_results_agree(
        value: i32,
        first: Result<FixedEntityBundle, UnsupportedIdentifier>,
        second: Result<FixedEntityBundle, UnsupportedIdentifier>,
    )
        requires
            Self::outcome(first) == grid_value_descriptor(value),
            Self::outcome(second) == grid_value_descriptor(value),
        ensures
            first is Ok <==> second is Ok,
            first is Ok ==> Self::same_fields(first->Ok_0, second->Ok_0),
    {
    }

    /// Classification keeps no hidden state: whatever two calls return for
    /// the same name, both succeed or both fail, and two descriptors that
    /// they build are the same field for field.
    pub proof fn lemma_name_results_agree(
        name: Seq<char>,
        first: Result<FixedEntityBundle, UnsupportedIdentifier>,
        second: Result<FixedEntityBundle, UnsupportedIdentifier>,
    )
        requires
            Self::outcome(first) == name_descriptor(name),
            Self::outcome(second) == name_descriptor(name),
        ensures
            first is Ok <==> second is Ok,
            first is Ok ==> Self::same_fields(first->Ok_0, second->Ok_0),
    {
    }

    /// Whether two descriptors agree in each of their four fields.
    pub open spec fn same_fields(a: FixedEntityBundle, b: FixedEntityBundle) -> bool {
        &&& a@.shape == b@.shape
        &&& a@.mobility == b@.mobility
        &&& a@.membership == b@.membership
        &&& a@.filter_mask == b@.filter_mask
    }

    /// The collision shape.
    pub fn shape(&self) -> (shape: Shape)
        ensures
            shape == self@.shape,
    {
        self.shape
    }

    /// The mobility of the body.
    pub fn mobility(&self) -> (mobility: Mobility)
        ensures
            mobility == self@.mobility,
    {
        self.mobility
    }

    /// The groups that the shape belongs to.
    pub fn membership(&self) -> (groups: GroupSet)
        ensures
            groups@ == self@.membership,
    {
        self.membership
    }

    /// The groups that the shape interacts with.
    pub fn filter_mask(&self) -> (groups: GroupSet)
        ensures
            groups@ == self@.filter_mask,
    {
        self.filter_mask
    }
}

} // verus!
