use vstd::prelude::*;

verus! {

/// The pipeline that materials are specialized against.
pub struct MaterialPipeline;

/// The description of a render pipeline that a material specializes.
pub struct RenderPipelineDescriptor;

/// A material pipeline key whose material type has been erased.
pub struct ErasedMaterialPipelineKey;

/// The error of a failed mesh pipeline specialization.
pub struct SpecializedMeshPipelineError;

} // verus!
