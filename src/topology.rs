use vstd::prelude::*;
use wgpu_types::PrimitiveTopology;

verus! {

/// Relies on `wgpu_types::PrimitiveTopology` being a public enum of five
/// variants without fields, so that proofs can match on it.
#[verifier::external_type_specification]
pub struct ExPrimitiveTopology(PrimitiveTopology);

/// Relies on the derived `Default` of `wgpu_types::PrimitiveTopology`, whose
/// `#[default]` variant is `TriangleList`.
pub assume_specification[ <PrimitiveTopology as core::default::Default>::default ]() -> (r:
    PrimitiveTopology)
    ensures
        r == PrimitiveTopology::TriangleList,
;

/// The ordinal of a topology: its discriminant in `wgpu_types`.
pub open spec fn ordinal(t: PrimitiveTopology) -> u64 {
    match t {
        PrimitiveTopology::PointList => 0,
        PrimitiveTopology::LineList => 1,
        PrimitiveTopology::LineStrip => 2,
        PrimitiveTopology::TriangleList => 3,
        PrimitiveTopology::TriangleStrip => 4,
    }
}

/// The topology with ordinal `x`, or the triangle-list default when no
/// topology has that ordinal.
pub open spec fn topology_of_ordinal(x: u64) -> PrimitiveTopology {
    if x == 0 {
        PrimitiveTopology::PointList
    } else if x == 1 {
        PrimitiveTopology::LineList
    } else if x == 2 {
        PrimitiveTopology::LineStrip
    } else if x == 3 {
        PrimitiveTopology::TriangleList
    } else if x == 4 {
        PrimitiveTopology::TriangleStrip
    } else {
        PrimitiveTopology::TriangleList
    }
}

/// Returns the ordinal of `t`.
pub(crate) fn topology_ordinal(t: PrimitiveTopology) -> (r: u64)
    ensures
        r == ordinal(t),
        r <= 4,
{
    match t {
        PrimitiveTopology::PointList => 0,
        PrimitiveTopology::LineList => 1,
        PrimitiveTopology::LineStrip => 2,
        PrimitiveTopology::TriangleList => 3,
        PrimitiveTopology::TriangleStrip => 4,
    }
}

} // verus!
