//! Mesh pipeline keys and primitive meshing.
//!
//! The pipeline key packs a primitive topology into the high bits of a 64-bit
//! word so that downstream feature bits can grow from the low end without
//! colliding with it. The meshing traits turn primitive shapes into flat
//! index and vertex buffers.

mod material;
mod mesh;
mod pipeline_key;
mod plugin;
mod primitives;
mod topology;

pub use material::{
    ErasedMaterialPipelineKey, MaterialPipeline, RenderPipelineDescriptor,
    SpecializedMeshPipelineError,
};
pub use mesh::{Geometry, Mesh, MeshBuilder, Meshable};
pub use pipeline_key::{
    decode_topology, encode_topology, lemma_feature_bits_keep_topology,
    lemma_topology_reads_only_its_field, lemma_topology_round_trip,
    lemma_unknown_topology_is_triangle_list, topology_field, BaseMeshPipelineKey,
};
pub use plugin::{InheritWeightSystems, MeshPlugin};
pub use primitives::{
    lemma_polyline_mesh, lemma_segment_mesh, lemma_short_polyline_mesh, polyline_geometry,
    polyline_indices, segment_geometry, Polyline3d, Polyline3dMeshBuilder, Segment3d,
    Segment3dMeshBuilder,
};
pub use topology::{ordinal, topology_of_ordinal};
pub use wgpu_types::PrimitiveTopology;
