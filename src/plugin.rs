use vstd::prelude::*;

verus! {

/// Registers meshes as assets.
#[derive(Default)]
pub struct MeshPlugin;

/// The set of systems in which morph weights are inherited.
#[derive(Debug, Hash, PartialEq, Eq, Clone)]
pub struct InheritWeightSystems;

} // verus!
