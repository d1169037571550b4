use bevy_mesh::{
    Mesh, MeshBuilder, Meshable, Polyline3d, Polyline3dMeshBuilder, PrimitiveTopology, Segment3d,
    Segment3dMeshBuilder,
};

type TestMesh = Mesh<[f32; 3], [f32; 2]>;

fn fresh() -> TestMesh {
    Mesh::new(PrimitiveTopology::TriangleList)
}

#[test]
fn polyline_of_three_points() {
    let points = vec![[0.0, 0.0, 0.0], [1.0, 0.0, 0.0], [1.0, 1.0, 0.0]];
    let polyline = Polyline3d { vertices: points.clone() };
    let mut mesh = fresh();
    polyline.mesh(&mut mesh);
    assert_eq!(mesh.primitive_topology, PrimitiveTopology::LineList);
    assert_eq!(mesh.positions, Some(points));
    assert_eq!(mesh.indices, Some(vec![0, 1, 1, 2]));
    assert!(mesh.normals.is_none());
    assert!(mesh.uvs.is_none());
}

#[test]
fn polyline_of_many_points() {
    let points: Vec<[f32; 3]> = (0..6).map(|i| [i as f32, 2.0 * i as f32, -1.0]).collect();
    let mesh = TestMesh::from_meshable(&Polyline3d { vertices: points.clone() });
    assert_eq!(mesh.positions.as_ref().map(|p| p.len()), Some(6));
    assert_eq!(mesh.positions, Some(points));
    assert_eq!(mesh.indices, Some(vec![0, 1, 1, 2, 2, 3, 3, 4, 4, 5]));
}

#[test]
fn polyline_of_one_point_has_no_segment() {
    let points = vec![[3.0, 4.0, 5.0]];
    let mesh = TestMesh::from_meshable(&Polyline3d { vertices: points.clone() });
    assert_eq!(mesh.primitive_topology, PrimitiveTopology::LineList);
    assert_eq!(mesh.positions, Some(points));
    assert_eq!(mesh.indices, Some(vec![]));
}

#[test]
fn polyline_of_no_point_has_no_segment() {
    let mesh = TestMesh::from_meshable(&Polyline3d { vertices: vec![] });
    assert_eq!(mesh.positions, Some(vec![]));
    assert_eq!(mesh.indices, Some(vec![]));
}

#[test]
fn polyline_builder_matches_polyline() {
    let points = vec![[0.5, 0.0, 0.0], [0.0, 0.5, 0.0]];
    let builder = Polyline3dMeshBuilder::new(Polyline3d { vertices: points.clone() });
    let mesh = TestMesh::from_meshable(&builder);
    assert_eq!(mesh.primitive_topology, PrimitiveTopology::LineList);
    assert_eq!(mesh.positions, Some(points));
    assert_eq!(mesh.indices, Some(vec![0, 1]));
}

#[test]
fn segment_has_two_positions_and_one_line() {
    for (a, b) in [
        ([0.0, 0.0, 0.0], [1.0, 0.0, 0.0]),
        ([-7.5, 2.0, 100.0], [-7.5, 2.0, 100.0]),
    ] {
        let mesh = TestMesh::from_meshable(&Segment3d { vertices: [a, b] });
        assert_eq!(mesh.primitive_topology, PrimitiveTopology::LineList);
        assert_eq!(mesh.positions, Some(vec![a, b]));
        assert_eq!(mesh.indices, Some(vec![0, 1]));
        assert!(mesh.normals.is_none());
    }
}

#[test]
fn segment_builder_matches_segment() {
    let a = [1.0, 2.0, 3.0];
    let b = [4.0, 5.0, 6.0];
    let mut mesh = fresh();
    Segment3dMeshBuilder::new(Segment3d { vertices: [a, b] }).mesh(&mut mesh);
    assert_eq!(mesh.positions, Some(vec![a, b]));
    assert_eq!(mesh.indices, Some(vec![0, 1]));
}

#[test]
fn new_mesh_is_empty() {
    let mesh = fresh();
    assert_eq!(mesh.primitive_topology, PrimitiveTopology::TriangleList);
    assert!(mesh.positions.is_none());
    assert!(mesh.normals.is_none());
    assert!(mesh.uvs.is_none());
    assert!(mesh.indices.is_none());
}

#[test]
fn triangles_split_vertices_into_attributes() {
    let mut mesh = fresh();
    mesh.triangles(
        vec![0, 1, 2],
        vec![
            ([0.0, 0.0, 0.0], [0.0, 0.0, 1.0], [0.0, 0.0]),
            ([1.0, 0.0, 0.0], [0.0, 0.0, 1.0], [1.0, 0.0]),
            ([0.0, 1.0, 0.0], [0.0, 0.0, 1.0], [0.0, 1.0]),
        ],
    );
    assert_eq!(mesh.primitive_topology, PrimitiveTopology::TriangleList);
    assert_eq!(
        mesh.positions,
        Some(vec![[0.0, 0.0, 0.0], [1.0, 0.0, 0.0], [0.0, 1.0, 0.0]])
    );
    assert_eq!(mesh.normals, Some(vec![[0.0, 0.0, 1.0]; 3]));
    assert_eq!(mesh.uvs, Some(vec![[0.0, 0.0], [1.0, 0.0], [0.0, 1.0]]));
    assert_eq!(mesh.indices, Some(vec![0, 1, 2]));
}

#[test]
fn lines_replace_earlier_triangles() {
    let mut mesh = fresh();
    mesh.triangles(vec![0, 0, 0], vec![([9.0; 3], [9.0; 3], [9.0; 2])]);
    mesh.lines(vec![1, 0], vec![[1.0, 1.0, 1.0], [2.0, 2.0, 2.0]]);
    assert_eq!(mesh.primitive_topology, PrimitiveTopology::LineList);
    assert_eq!(mesh.positions, Some(vec![[1.0, 1.0, 1.0], [2.0, 2.0, 2.0]]));
    assert!(mesh.normals.is_none());
    assert!(mesh.uvs.is_none());
    assert_eq!(mesh.indices, Some(vec![1, 0]));
}

#[test]
fn triangles_replace_earlier_lines() {
    let mut mesh = fresh();
    mesh.lines(vec![0, 1], vec![[1.0; 3], [2.0; 3]]);
    mesh.triangles(vec![], vec![]);
    assert_eq!(mesh.primitive_topology, PrimitiveTopology::TriangleList);
    assert_eq!(mesh.positions, Some(vec![]));
    assert_eq!(mesh.normals, Some(vec![]));
    assert_eq!(mesh.uvs, Some(vec![]));
    assert_eq!(mesh.indices, Some(vec![]));
}
