//! The single failure of classification.

use vstd::prelude::*;

verus! {

/// A grid value or an entity name outside the supported set reached a
/// classification function.
#[derive(Clone, Copy, Debug, PartialEq, Eq)]
pub struct UnsupportedIdentifier;

} // verus!
