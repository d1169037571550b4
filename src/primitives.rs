use crate::mesh::{Geometry, Mesh, MeshBuilder, Meshable};
use vstd::prelude::*;

verus! {

/// A series of connected line segments in 3D space, given by its vertices.
#[derive(Clone, Debug, PartialEq)]
pub struct Polyline3d<P> {
    pub vertices: Vec<P>,
}

/// A line segment in 3D space, given by its two endpoints.
#[derive(Clone, Copy, Debug, PartialEq)]
pub struct Segment3d<P> {
    pub vertices: [P; 2],
}

/// The line indices of a polyline of `n` vertices: `0, 1, 1, 2, ..., n-2, n-1`,
/// one pair for each segment, and none when there are fewer than two vertices.
pub open spec fn polyline_indices(n: nat) -> Seq<u32> {
    if n < 2 {
        Seq::empty()
    } else {
        Seq::new((2 * (n - 1)) as nat, |k: int| (k / 2 + k % 2) as u32)
    }
}

/// The line geometry of a polyline through `vertices`.
pub open spec fn polyline_geometry<P, U>(vertices: Seq<P>) -> Geometry<P, U> {
    Geometry::Lines { indices: polyline_indices(vertices.len()), positions: vertices }
}

/// The line geometry of a segment between `a` and `b`.
pub open spec fn segment_geometry<P, U>(a: P, b: P) -> Geometry<P, U> {
    Geometry::Lines { indices: seq![0u32, 1u32], positions: seq![a, b] }
}

/// Hands the polyline through `vertices` to `builder` as line segments.
fn mesh_polyline<P: Copy, U: Copy, B: MeshBuilder<P, U>>(vertices: &Vec<P>, builder: &mut B)
    requires
        vertices@.len() <= u32::MAX,
    ensures
        final(builder).holds(polyline_geometry(vertices@)),
{
    let n: usize = vertices.len();
    let mut positions: Vec<P> = Vec::new();
    let mut i: usize = 0;
    while i < n
        invariant
            n == vertices@.len(),
            i <= n,
            positions@ == vertices@.take(i as int),
        decreases n - i,
    {
        positions.push(vertices[i]);
        assert(vertices@.take(i + 1) == vertices@.take(i as int).push(vertices@[i as int]));
        i = i + 1;
    }
    assert(vertices@.take(n as int) == vertices@);
    let mut indices: Vec<u32> = Vec::new();
    if n >= 2 {
        let segments = (n - 1) as u32;
        let mut j: u32 = 0;
        while j < segments
            invariant
                segments == n - 1,
                n <= u32::MAX,
                j <= segments,
                indices@.len() == 2 * j,
                forall|k: int| 0 <= k < 2 * j ==> #[trigger] indices@[k] == (k / 2 + k % 2) as u32,
            decreases segments - j,
        {
            indices.push(j);
            indices.push(j + 1);
            j = j + 1;
        }
        assert(indices@ == polyline_indices(n as nat));
    } else {
        assert(indices@ == polyline_indices(n as nat));
    }
    builder.lines(indices, positions);
}

/// A builder of the mesh of a [`Polyline3d`].
#[derive(Clone, Debug)]
pub struct Polyline3dMeshBuilder<P> {
    polyline: Polyline3d<P>,
}

impl<P> Polyline3dMeshBuilder<P> {
    /// A builder for the mesh of `polyline`.
    pub fn new(polyline: Polyline3d<P>) -> (r: Self)
        ensures
            r.polyline() == polyline,
    {
        Polyline3dMeshBuilder { polyline }
    }

    /// The polyline that this builder meshes.
    pub closed spec fn polyline(&self) -> Polyline3d<P> {
        self.polyline
    }
}

impl<P: Copy, U: Copy> Meshable<P, U> for Polyline3dMeshBuilder<P> {
    open spec fn meshable(&self) -> bool {
        self.polyline().vertices@.len() <= u32::MAX
    }

    open spec fn geometry(&self) -> Geometry<P, U> {
        polyline_geometry(self.polyline().vertices@)
    }

    fn mesh<B: MeshBuilder<P, U>>(&self, builder: &mut B) {
        mesh_polyline(&self.polyline.vertices, builder);
    }
}

impl<P: Copy, U: Copy> Meshable<P, U> for Polyline3d<P> {
    open spec fn meshable(&self) -> bool {
        self.vertices@.len() <= u32::MAX
    }

    open spec fn geometry(&self) -> Geometry<P, U> {
        polyline_geometry(self.vertices@)
    }

    fn mesh<B: MeshBuilder<P, U>>(&self, builder: &mut B) {
        mesh_polyline(&self.vertices, builder);
    }
}

/// Hands the segment between `a` and `b` to `builder` as one line.
fn mesh_segment<P: Copy, U: Copy, B: MeshBuilder<P, U>>(a: P, b: P, builder: &mut B)
    ensures
        final(builder).holds(segment_geometry(a, b)),
{
    let positions: Vec<P> = vec![a, b];
    let indices: Vec<u32> = vec![0, 1];
    assert(positions@ == seq![a, b]);
    assert(indices@ == seq![0u32, 1u32]);
    builder.lines(indices, positions);
}

/// A builder of the mesh of a [`Segment3d`].
#[derive(Clone, Copy, Debug)]
pub struct Segment3dMeshBuilder<P> {
    segment: Segment3d<P>,
}

impl<P> Segment3dMeshBuilder<P> {
    /// A builder for the mesh of `segment`.
    pub fn new(segment: Segment3d<P>) -> (r: Self)
        ensures
            r.segment() == segment,
    {
        Segment3dMeshBuilder { segment }
    }

    /// The segment that this builder meshes.
    pub closed spec fn segment(&self) -> Segment3d<P> {
        self.segment
    }
}

impl<P: Copy, U: Copy> Meshable<P, U> for Segment3dMeshBuilder<P> {
    open spec fn meshable(&self) -> bool {
        true
    }

    open spec fn geometry(&self) -> Geometry<P, U> {
        segment_geometry(self.segment().vertices[0], self.segment().vertices[1])
    }

    fn mesh<B: MeshBuilder<P, U>>(&self, builder: &mut B) {
        mesh_segment(self.segment.vertices[0], self.segment.vertices[1], builder);
    }
}

impl<P: Copy, U: Copy> Meshable<P, U> for Segment3d<P> {
    open spec fn meshable(&self) -> bool {
        true
    }

    open spec fn geometry(&self) -> Geometry<P, U> {
        segment_geometry(self.vertices[0], self.vertices[1])
    }

    fn mesh<B: MeshBuilder<P, U>>(&self, builder: &mut B) {
        mesh_segment(self.vertices[0], self.vertices[1], builder);
    }
}

/// A mesh that holds the polyline through `n >= 2` vertices has those `n`
/// positions and `2 * (n - 1)` indices `0, 1, 1, 2, 2, 3, ...`, each of
/// which refers to a position.
pub proof fn lemma_polyline_mesh<P: Copy, U: Copy>(mesh: Mesh<P, U>, vertices: Seq<P>)
    requires
        vertices.len() >= 2,
        mesh.holds(polyline_geometry(vertices)),
    ensures
        mesh.positions matches Some(ps) && ps@ == vertices && ps@.len() == vertices.len(),
        mesh.indices matches Some(is) && is@.len() == 2 * (vertices.len() - 1) && (forall|k: int|
            0 <= k < is@.len() ==> #[trigger] is@[k] == (k / 2 + k % 2) as u32),
        mesh.indices matches Some(is) && (forall|k: int|
            0 <= k < is@.len() ==> (#[trigger] is@[k] as nat) < vertices.len()),
{
    let n = vertices.len();
    let is = mesh.indices->Some_0;
    assert forall|k: int| 0 <= k < is@.len() implies (#[trigger] is@[k] as nat) < n by {
        assert(k / 2 + k % 2 < n) by (nonlinear_arith)
            requires
                0 <= k < 2 * (n - 1),
        ;
    }
}

/// A mesh that holds the polyline through fewer than two vertices has no
/// index at all.
pub proof fn lemma_short_polyline_mesh<P: Copy, U: Copy>(mesh: Mesh<P, U>, vertices: Seq<P>)
    requires
        vertices.len() < 2,
        mesh.holds(polyline_geometry(vertices)),
    ensures
        mesh.indices matches Some(is) && is@.len() == 0,
        mesh.positions matches Some(ps) && ps@ == vertices,
{
}

/// A mesh that holds a segment has exactly its two endpoints as positions
/// and the indices `0, 1`, wherever the endpoints lie.
pub proof fn lemma_segment_mesh<P: Copy, U: Copy>(mesh: Mesh<P, U>, a: P, b: P)
    requires
        mesh.holds(segment_geometry(a, b)),
    ensures
        mesh.positions matches Some(ps) && ps@ == seq![a, b] && ps@.len() == 2,
        mesh.indices matches Some(is) && is@ == seq![0u32, 1u32],
{
}

} // verus!
