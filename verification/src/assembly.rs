//! Composite assembly: the components that one spawned object receives.
//!
//! An object that comes from a grid cell is a hazard and receives its
//! physics descriptor, the hurt marker and its spike state together. An
//! object that comes from a named entity is plain terrain and receives its
//! physics descriptor alone.

use crate::error::UnsupportedIdentifier;
use crate::hazard::{HurtMarker, Spike};
use crate::identifier::{RawIdentifier, SPIKE_GRID_VALUE};
use crate::physics::{crystal_descriptor, spike_descriptor, FixedEntityBundle};
use vstd::prelude::*;

verus! {

/// The components of a spike, attached as one unit.
#[derive(Debug, PartialEq, Eq)]
pub struct SpikeBundle {
    pub fixed_entity_bundle: FixedEntityBundle,
    pub hurt_marker: HurtMarker,
    pub spike: Spike,
}

impl SpikeBundle {
    /// Assembles the components of the hazard in a grid cell. The spike
    /// value gives the spike descriptor with a spike that has caused no
    /// death; every other value is rejected, and nothing is assembled.
    pub fn build_from_grid_value(value: i32) -> (r: Result<SpikeBundle, UnsupportedIdentifier>)
        ensures
            r is Ok <==> value == SPIKE_GRID_VALUE,
            r matches Ok(bundle) ==> bundle.is_new_spike(),
    {
        match FixedEntityBundle::build_from_grid_value(value) {
            Ok(fixed_entity_bundle) => match Spike::build_from_grid_value(value) {
                Ok(spike) => Ok(SpikeBundle { fixed_entity_bundle, hurt_marker: HurtMarker, spike }),
                Err(unsupported) => Err(unsupported),
            },
            Err(unsupported) => Err(unsupported),
        }
    }

    /// Whether this is what a spike is spawned with: the spike descriptor
    /// and a count of zero.
    pub open spec fn is_new_spike(&self) -> bool {
        &&& self.fixed_entity_bundle@ =~= spike_descriptor()
        &&& self.spike@ == 0
    }
}

/// What one spawned object receives.
#[derive(Debug, PartialEq, Eq)]
pub enum Assembly {
    /// A hazard: descriptor, hurt marker and spike state, all three.
    Hazard(SpikeBundle),
    /// Fixed terrain: the descriptor alone.
    Terrain(FixedEntityBundle),
}

impl Assembly {
    /// Whether the object carries the hurt marker.
    pub open spec fn has_hurt_marker(&self) -> bool {
        self is Hazard
    }

    /// Whether the object carries spike state.
    pub open spec fn has_spike(&self) -> bool {
        self is Hazard
    }

    /// No object carries part of a hazard: the hurt marker and the spike
    /// state come together or not at all.
    pub proof fn lemma_hazard_is_never_partial(assembly: Assembly)
        ensures
            assembly.has_hurt_marker() <==> assembly.has_spike(),
    {
    }
}

/// Assembles the components of the object that `identifier` stands for.
///
/// A grid value yields a hazard with all of its three components, a name
/// yields terrain without hurt marker and spike state, and an unsupported
/// identifier yields nothing.
pub fn assemble(identifier: RawIdentifier<'_>) -> (r: Result<Assembly, UnsupportedIdentifier>)
    ensures
        r is Ok <==> identifier.is_supported(),
        r matches Ok(assembly) ==> {
            &&& assembly.has_hurt_marker() <==> identifier is GridValue
            &&& assembly.has_spike() <==> identifier is GridValue
            &&& assembly matches Assembly::Hazard(bundle) ==> bundle.is_new_spike()
            &&& assembly matches Assembly::Terrain(bundle) ==> bundle@ =~= crystal_descriptor()
        },
{
    match identifier {
        RawIdentifier::GridValue(value) => match SpikeBundle::build_from_grid_value(value) {
            Ok(bundle) => Ok(Assembly::Hazard(bundle)),
            Err(unsupported) => Err(unsupported),
        },
        RawIdentifier::Name(name) => match FixedEntityBundle::build_from_name(name) {
            Ok(bundle) => Ok(Assembly::Terrain(bundle)),
            Err(unsupported) => Err(unsupported),
        },
    }
}

} // verus!
