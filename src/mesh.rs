use vstd::prelude::*;
use wgpu_types::PrimitiveTopology;

verus! {

/// The index and vertex streams that describe a shape, as handed to a
/// [`MeshBuilder`].
pub enum Geometry<P, U> {
    /// Triangles: indices, and (position, normal, uv) for each vertex.
    Triangles { indices: Seq<u32>, vertices: Seq<(P, P, U)> },
    /// Lines: indices, and a position for each vertex.
    Lines { indices: Seq<u32>, positions: Seq<P> },
}

/// Builds a mesh from index and vertex streams.
///
/// Each call replaces what the builder held before: calls do not accumulate.
pub trait MeshBuilder<P: Copy, U: Copy>: Sized {
    /// The builder holds exactly the geometry `g`.
    spec fn holds(&self, g: Geometry<P, U>) -> bool;

    /// Takes `indices` as triangle indices and `vertices` as
    /// (position, normal, uv) triples.
    fn triangles(&mut self, indices: Vec<u32>, vertices: Vec<(P, P, U)>)
        ensures
            final(self).holds(Geometry::Triangles { indices: indices@, vertices: vertices@ }),
    ;

    /// Takes `indices` as line indices and `vertices` as positions.
    fn lines(&mut self, indices: Vec<u32>, vertices: Vec<P>)
        ensures
            final(self).holds(Geometry::Lines { indices: indices@, positions: vertices@ }),
    ;
}

/// A shape that can be turned into a mesh.
pub trait Meshable<P: Copy, U: Copy> {
    /// The shape is small enough for its indices to fit in `u32`.
    spec fn meshable(&self) -> bool;

    /// The geometry of the shape.
    spec fn geometry(&self) -> Geometry<P, U>;

    /// Hands the geometry of the shape to `builder`, in a single call.
    fn mesh<B: MeshBuilder<P, U>>(&self, builder: &mut B)
        requires
            self.meshable(),
        ensures
            final(builder).holds(self.geometry()),
    ;
}

/// A mesh: a primitive topology, vertex attributes and indices.
///
/// `P` is the type of a position or a normal, `U` that of a texture
/// coordinate. An attribute that the mesh does not have is `None`.
#[derive(Debug, PartialEq)]
pub struct Mesh<P, U> {
    pub primitive_topology: PrimitiveTopology,
    pub positions: Option<Vec<P>>,
    pub normals: Option<Vec<P>>,
    pub uvs: Option<Vec<U>>,
    pub indices: Option<Vec<u32>>,
}

impl<P: Copy, U: Copy> Mesh<P, U> {
    /// A mesh of the given topology with no attributes and no indices.
    pub fn new(primitive_topology: PrimitiveTopology) -> (r: Self)
        ensures
            r.primitive_topology == primitive_topology,
            r.positions is None,
            r.normals is None,
            r.uvs is None,
            r.indices is None,
    {
        Mesh { primitive_topology, positions: None, normals: None, uvs: None, indices: None }
    }

    /// The mesh of a shape: a triangle-list mesh that the shape then
    /// replaces with its own geometry.
    pub fn from_meshable<T: Meshable<P, U>>(meshable: &T) -> (r: Self)
        requires
            meshable.meshable(),
        ensures
            r.holds(meshable.geometry()),
    {
        let mut mesh = Mesh::new(PrimitiveTopology::TriangleList);
        meshable.mesh(&mut mesh);
        mesh
    }
}

impl<P: Copy, U: Copy> MeshBuilder<P, U> for Mesh<P, U> {
    open spec fn holds(&self, g: Geometry<P, U>) -> bool {
        match g {
            Geometry::Triangles { indices, vertices } => {
                &&& self.primitive_topology == PrimitiveTopology::TriangleList
                &&& self.positions matches Some(ps) && ps@ == vertices.map_values(
                    |v: (P, P, U)| v.0,
                )
                &&& self.normals matches Some(ns) && ns@ == vertices.map_values(
                    |v: (P, P, U)| v.1,
                )
                &&& self.uvs matches Some(ts) && ts@ == vertices.map_values(|v: (P, P, U)| v.2)
                &&& self.indices matches Some(is) && is@ == indices
            },
            Geometry::Lines { indices, positions } => {
                &&& self.primitive_topology == PrimitiveTopology::LineList
                &&& self.positions matches Some(ps) && ps@ == positions
                &&& self.normals is None
                &&& self.uvs is None
                &&& self.indices matches Some(is) && is@ == indices
            },
        }
    }

    fn triangles(&mut self, indices: Vec<u32>, vertices: Vec<(P, P, U)>) {
        let mut vs: Vec<P> = Vec::new();
        let mut vns: Vec<P> = Vec::new();
        let mut vts: Vec<U> = Vec::new();
        let mut i: usize = 0;
        while i < vertices.len()
            invariant
                i <= vertices@.len(),
                vs@ == vertices@.take(i as int).map_values(|v: (P, P, U)| v.0),
                vns@ == vertices@.take(i as int).map_values(|v: (P, P, U)| v.1),
                vts@ == vertices@.take(i as int).map_values(|v: (P, P, U)| v.2),
            decreases vertices@.len() - i,
        {
            let (v, vn, vt) = vertices[i];
            vs.push(v);
            vns.push(vn);
            vts.push(vt);
            assert(vertices@.take(i + 1) == vertices@.take(i as int).push(vertices@[i as int]));
            i = i + 1;
        }
        assert(vertices@.take(i as int) == vertices@);
        *self = Mesh {
            primitive_topology: PrimitiveTopology::TriangleList,
            positions: Some(vs),
            normals: Some(vns),
            uvs: Some(vts),
            indices: Some(indices),
        };
    }

    fn lines(&mut self, indices: Vec<u32>, vertices: Vec<P>) {
        *self = Mesh {
            primitive_topology: PrimitiveTopology::LineList,
            positions: Some(vertices),
            normals: None,
            uvs: None,
            indices: Some(indices),
        };
    }
}

} // verus!
