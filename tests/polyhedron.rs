use geoplegma::icosahedron::{
    create_faces, create_vertices, new, Icosahedron, Polyhedron, PolyhedronConstants,
};
use geoplegma::vector::{Vector3D, ONE};

fn unit_norm(v: &Vector3D) -> f64 {
    let one = ONE as f64;
    (v.dot(v) as f64) / (one * one)
}

#[test]
fn test_icosahedron_creation() {
    let ico = new();
    assert_eq!(ico.num_vertices(), 12);
    assert_eq!(ico.num_faces(), 20);
    assert_eq!(ico.num_edges(), 30);
}

#[test]
fn test_face_centers_on_unit_sphere() {
    let ico = new();

    for i in 0..ico.num_faces() {
        let center = ico.face_center(i);
        let norm = unit_norm(&center);
        assert!((norm - 1.0).abs() < 1e-5, "Face center {} not normalized", i);
    }
}

#[test]
fn test_face_centers_inside_faces() {
    let ico = new();

    for i in 0..ico.num_faces() {
        let center = ico.face_center(i);
        assert!(ico.is_point_in_face(center, i), "Face center not inside face {}", i);
    }
}

#[test]
fn test_face_center() {
    let ico = Icosahedron {};
    let faces = ico.face_vertex_indices();
    println!("{:?}", ico.vertices());
    for (i, face) in faces.iter().enumerate() {
        let v0 = ico.vertices()[face[0]];
        let v1 = ico.vertices()[face[1]];
        let v2 = ico.vertices()[face[2]];
        let center = ico.face_center(i);

        let dot = unit_norm(&center);
        assert!((dot - 1.0).abs() < 1e-5, "Face center {} not normalized: norm = {:?}", i, center);

        assert!(
            ico.is_point_in_face(center, &[v0, v1, v2].to_vec()),
            "Face center not inside triangle face {}",
            i
        );
    }
}

#[test]
fn vertices_have_unit_length() {
    for v in create_vertices() {
        assert!((unit_norm(&v) - 1.0).abs() < 2e-5);
    }
}

#[test]
fn vertex_and_face_counts_match_the_constants() {
    assert_eq!(create_vertices().len(), PolyhedronConstants::ICOSAHEDRON_VERTICES);
    assert_eq!(create_faces().len(), PolyhedronConstants::ICOSAHEDRON_FACES);
    assert_eq!(new().num_edges(), PolyhedronConstants::ICOSAHEDRON_EDGES);
}

#[test]
fn poles_are_the_first_and_last_vertices() {
    let v = create_vertices();
    assert_eq!(v[0], Vector3D::new(0, 0, ONE));
    assert_eq!(v[11], Vector3D::new(0, 0, -ONE));
}

#[test]
fn face_centers_take_exact_fixed_point_values() {
    let ico = new();
    assert_eq!(ico.face_center(0), Vector3D::new(131834953, 95783700, 213313435));
    assert_eq!(ico.face_center(19), Vector3D::new(162956964, 0, -213313435));
}

#[test]
fn five_faces_meet_at_the_north_pole() {
    let faces = create_faces();
    let around: Vec<usize> = (0..faces.len()).filter(|&f| faces[f].contains(&0)).collect();
    assert_eq!(around, vec![0, 2, 4, 6, 8]);
}

#[test]
fn faces_sharing_an_edge_are_adjacent() {
    let ico = new();
    assert!(ico.are_faces_adjacent(0, 1));
    assert!(ico.are_faces_adjacent(0, 2));
    assert!(!ico.are_faces_adjacent(0, 0));
    assert!(!ico.are_faces_adjacent(0, 11));
    let mut count = 0;
    for f in 0..20 {
        for g in 0..20 {
            if ico.are_faces_adjacent(f, g) {
                count += 1;
            }
        }
    }
    assert_eq!(count, 2 * 30);
}

#[test]
fn face_vertices_past_the_last_face_is_none() {
    let ico = new();
    assert!(ico.face_vertices(20).is_none());
    let v = ico.face_vertices(0).unwrap();
    assert_eq!(v, vec![create_vertices()[1], create_vertices()[0], create_vertices()[2]]);
}

#[test]
fn malformed_polyhedra_are_rejected() {
    assert!(new().is_valid());
    let a = Vector3D::new(ONE, 0, 0);
    let b = Vector3D::new(0, ONE, 0);
    let c = Vector3D::new(0, 0, ONE);
    let good = Polyhedron { vertices: vec![a, b, c], faces: vec![[0, 1, 2]], num_edges: 3 };
    assert!(good.is_valid());
    let bad_index = Polyhedron { vertices: vec![a, b, c], faces: vec![[0, 1, 3]], num_edges: 3 };
    assert!(!bad_index.is_valid());
    let long = Vector3D::new(ONE + 1, 0, 0);
    let too_long = Polyhedron { vertices: vec![long, b, c], faces: vec![[0, 1, 2]], num_edges: 3 };
    assert!(!too_long.is_valid());
    let minus_a = Vector3D::new(-ONE, 0, 0);
    let flat = Polyhedron { vertices: vec![a, minus_a, c], faces: vec![[0, 1, 1]], num_edges: 3 };
    assert!(flat.is_valid());
    let zero = Polyhedron { vertices: vec![a, minus_a], faces: vec![[0, 1, 0], [0, 1, 1]], num_edges: 1 };
    assert!(zero.is_valid());
    let cancel = Polyhedron { vertices: vec![a, minus_a, Vector3D::new(0, 0, 0)], faces: vec![[0, 1, 2]], num_edges: 3 };
    assert!(!cancel.is_valid());
}

#[test]
fn face_edges_join_neighbours_of_a_regular_icosahedron() {
    let ico = new();
    let v = create_vertices();
    let one = ONE as f64;
    let to_f = |p: &Vector3D| [p.x as f64 / one, p.y as f64 / one, p.z as f64 / one];
    for face in create_faces() {
        for k in 0..3 {
            let (a, b) = (to_f(&v[face[k]]), to_f(&v[face[(k + 1) % 3]]));
            let d = a[0] * b[0] + a[1] * b[1] + a[2] * b[2];
            assert!((d.acos() - 2.0f64.atan()).abs() < 1e-6);
        }
    }
    // the rings stand at heights of plus or minus 1 / sqrt(5)
    assert!((v[1].z as f64 / one - 1.0 / 5.0f64.sqrt()).abs() < 1e-8);
    assert!((v[6].z as f64 / one + 1.0 / 5.0f64.sqrt()).abs() < 1e-8);
    assert_eq!(ico.num_vertices(), 12);
}
