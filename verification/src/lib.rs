//! Classification of level-editor identifiers into physics descriptors and
//! hazard state for a 2D game.
//!
//! Level data names each placed object by the value of its grid cell or by
//! the name of its entity. This crate decides, for each supported
//! identifier, the collision shape, the mobility and the collision groups
//! of the object, and the hazard state that it starts with; every other
//! identifier is rejected.

pub mod assembly;
pub mod error;
pub mod groups;
pub mod hazard;
pub mod identifier;
pub mod physics;
