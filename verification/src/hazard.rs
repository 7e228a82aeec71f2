//! Hazard state: the marker of objects that hurt on contact, and the counter
//! of the deaths that a spike has caused.

use crate::error::UnsupportedIdentifier;
use crate::identifier::SPIKE_GRID_VALUE;
use vstd::prelude::*;

verus! {

/// Marks an object that hurts on contact. It carries no data.
#[derive(Clone, Copy, Debug, PartialEq, Eq, Structural)]
pub struct HurtMarker;

impl Default for HurtMarker {
    fn default() -> (marker: HurtMarker)
        ensures
            marker == HurtMarker,
    {
        HurtMarker
    }
}

/// The state of a spike: how many deaths it has caused.
///
/// Its view is that number. It starts at zero and only `add_death` changes
/// it.
#[derive(Debug, PartialEq, Eq)]
pub struct Spike {
    num_deaths: u64,
}

impl View for Spike {
    type V = nat;

    closed spec fn view(&self) -> nat {
        self.num_deaths as nat
    }
}

impl Default for Spike {
    fn default() -> (spike: Spike)
        ensures
            spike@ == 0,
    {
        Spike { num_deaths: 0 }
    }
}

impl Spike {
    /// Builds the state of the hazard in a grid cell. The spike value gives
    /// a spike that has caused no death; every other value is rejected.
    pub fn build_from_grid_value(value: i32) -> (r: Result<Spike, UnsupportedIdentifier>)
        ensures
            r is Ok <==> value == SPIKE_GRID_VALUE,
            r matches Ok(spike) ==> spike@ == 0,
    {
        if value == SPIKE_GRID_VALUE {
            Ok(Spike { num_deaths: 0 })
        } else {
            Err(UnsupportedIdentifier)
        }
    }

    /// Counts one more death.
    pub fn add_death(&mut self)
        requires
            old(self)@ < u64::MAX,
        ensures
            final(self)@ == old(self)@ + 1,
    {
        self.num_deaths += 1;
    }

    /// The number of deaths counted so far.
    pub fn num_deaths(&self) -> (n: u64)
        ensures
            n == self@,
    {
        self.num_deaths
    }

    /// Whether `history` holds the successive states of one spike: the state
    /// it was built in, then the state after each call of `add_death`.
    pub open spec fn is_history(history: Seq<Spike>) -> bool {
        &&& history.len() > 0
        &&& history[0]@ == 0
        &&& forall|i: int|
            1 <= i < history.len() ==> (#[trigger] history[i])@ == history[i - 1]@ + 1
    }

    /// After `calls` calls of `add_death` on a newly built spike, it has
    /// counted `calls` deaths.
    pub proof fn lemma_count_equals_calls(history: Seq<Spike>, calls: int)
        requires
            Self::is_history(history),
            0 <= calls < history.len(),
        ensures
            history[calls]@ == calls,
        decreases calls,
    {
        if calls > 0 {
            Self::lemma_count_equals_calls(history, calls - 1);
        }
    }

    /// The count never decreases: a later state of a spike has counted at
    /// least as many deaths as an earlier one.
    pub proof fn lemma_count_never_decreases(history: Seq<Spike>, earlier: int, later: int)
        requires
            Self::is_history(history),
            0 <= earlier <= later < history.len(),
        ensures
            history[earlier]@ <= history[later]@,
    {
        Self::lemma_count_equals_calls(history, earlier);
        Self::lemma_count_equals_calls(history, later);
    }
}

} // verus!
