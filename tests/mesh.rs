use viewport::mesh::{create_terrain_clipmesh, generate_quad_mesh, MeshError, Vertex};

fn v(x: u64, y: u64, z: u64) -> Vertex {
    Vertex { x, y, z }
}

#[test]
fn clip_mesh_has_six_vertices_per_cell() {
    for n in 0u32..6 {
        let mesh = create_terrain_clipmesh(n);
        assert_eq!(mesh.len(), 6 * (n as usize) * (n as usize));
    }
    assert_eq!(create_terrain_clipmesh(4).len(), 96);
}

#[test]
fn clip_mesh_of_size_zero_is_empty() {
    assert!(create_terrain_clipmesh(0).is_empty());
}

#[test]
fn clip_mesh_of_size_one_is_the_unit_quad() {
    let mesh = create_terrain_clipmesh(1);
    let expected = vec![
        v(0, 0, 0),
        v(1, 0, 1),
        v(0, 0, 1),
        v(0, 0, 0),
        v(1, 0, 0),
        v(1, 0, 1),
    ];
    assert_eq!(mesh, expected);
    assert_eq!(mesh, generate_quad_mesh(0, 0, 1).unwrap().to_vec());
}

#[test]
fn clip_mesh_rows_run_x_outer_z_inner() {
    let mesh = create_terrain_clipmesh(2);
    assert_eq!(&mesh[0..6], &generate_quad_mesh(0, 0, 1).unwrap()[..]);
    assert_eq!(&mesh[6..12], &generate_quad_mesh(0, 1, 1).unwrap()[..]);
    assert_eq!(&mesh[12..18], &generate_quad_mesh(1, 0, 1).unwrap()[..]);
    assert_eq!(&mesh[18..24], &generate_quad_mesh(1, 1, 1).unwrap()[..]);
    assert!(mesh.iter().all(|p| p.y == 0));
}

#[test]
fn quad_winding_order() {
    let q = generate_quad_mesh(2, 5, 3).unwrap();
    assert_eq!(
        q,
        [v(2, 0, 5), v(5, 0, 8), v(2, 0, 8), v(2, 0, 5), v(5, 0, 5), v(5, 0, 8)]
    );
}

#[test]
fn quad_is_deterministic() {
    assert_eq!(generate_quad_mesh(7, 1, 2), generate_quad_mesh(7, 1, 2));
    assert_eq!(generate_quad_mesh(0, 0, 0), generate_quad_mesh(0, 0, 0));
}

#[test]
fn quad_of_size_zero_is_refused() {
    assert_eq!(generate_quad_mesh(1, 1, 0), Err(MeshError::InvalidArgument));
}

#[test]
fn quad_at_largest_cell() {
    let q = generate_quad_mesh(u32::MAX, u32::MAX, u32::MAX).unwrap();
    let far = 2 * (u32::MAX as u64);
    assert_eq!(q[1], v(far, 0, far));
}
