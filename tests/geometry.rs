use geoplegma::icosahedron::new;
use geoplegma::is_point_in_face;
use geoplegma::shape::{triangle, Triangle};
use geoplegma::vector::{Vector3D, ONE};
use geoplegma::vgc::Vgc;

fn unit_vector(lon_deg: f64, lat_deg: f64) -> Vector3D {
    let (lon, lat) = (lon_deg.to_radians(), lat_deg.to_radians());
    let one = ONE as f64;
    let c = |v: f64| ((v * one).round() as i64).clamp(-ONE, ONE);
    Vector3D::new(c(lat.cos() * lon.cos()), c(lat.cos() * lon.sin()), c(lat.sin()))
}

#[test]
fn normalize_scales_to_one_unit() {
    let v = Vector3D::new(3, 0, 4);
    assert_eq!(v.length(), 5);
    assert_eq!(v.normalize(), Some(Vector3D::new(161061273, 0, 214748364)));
    assert_eq!(Vector3D::new(0, -7, 0).normalize(), Some(Vector3D::new(0, -ONE, 0)));
}

#[test]
fn normalize_rejects_the_zero_vector() {
    assert_eq!(Vector3D::new(0, 0, 0).normalize(), None);
    let a = Vector3D::new(ONE, 0, 0);
    let b = Vector3D::new(-ONE, 0, 0);
    assert_eq!(Vector3D::mid(&a, &b), None);
}

#[test]
fn midpoint_of_two_axes() {
    let a = Vector3D::new(ONE, 0, 0);
    let b = Vector3D::new(0, ONE, 0);
    let m = Vector3D::mid(&a, &b).unwrap();
    assert_eq!(m, Vector3D::new(189812531, 189812531, 0));
}

#[test]
fn vector_arithmetic() {
    let a = Vector3D::new(1, 2, 3);
    let b = Vector3D::new(4, 5, 6);
    assert_eq!(a.add(&b), Vector3D::new(5, 7, 9));
    assert_eq!(a.subtract(&b), Vector3D::new(-3, -3, -3));
    assert_eq!(a.dot(&b), 32);
}

#[test]
fn containment_needs_three_vertices() {
    let p = Vector3D::new(0, 0, ONE);
    let tri = [Vector3D::new(0, 0, ONE), Vector3D::new(ONE, 0, 0)];
    assert!(!is_point_in_face(p, &tri));
}

#[test]
fn containment_rejects_a_degenerate_triangle() {
    let a = Vector3D::new(ONE, 0, 0);
    let p = Vector3D::new(ONE, 0, 0);
    assert!(!is_point_in_face(p, &[a, a, a]));
}

#[test]
fn containment_of_corners_and_outside_points() {
    let a = Vector3D::new(ONE, 0, 0);
    let b = Vector3D::new(0, ONE, 0);
    let c = Vector3D::new(0, 0, ONE);
    assert!(is_point_in_face(a, &[a, b, c]));
    assert!(is_point_in_face(Vector3D::new(ONE / 3, ONE / 3, ONE / 3), &[a, b, c]));
    assert!(!is_point_in_face(Vector3D::new(-ONE, 0, 0), &[a, b, c]));
}

#[test]
fn find_face_returns_the_first_containing_face() {
    let ico = new();
    for f in 0..20 {
        let center = ico.face_center(f);
        let g = ico.find_face(center).unwrap();
        assert!(g <= f);
        assert!(ico.is_point_in_face(center, g));
        assert!((0..g).all(|h| !ico.is_point_in_face(center, h)));
    }
    // faces overlap along their edges: face 10's center also lies in face 7
    assert_eq!(ico.find_face(ico.face_center(10)), Some(7));
}

#[test]
fn known_points_resolve_to_their_faces() {
    let ico = new();
    assert_eq!(ico.find_face(unit_vector(-9.222154, 38.695125)), Some(8));
    assert_eq!(ico.find_face(unit_vector(-138.97503, 47.7022)), Some(6));
    assert_eq!(ico.find_face(unit_vector(99.72721, 25.82577)), Some(3));
}

#[test]
fn equator_points_span_five_faces() {
    let ico = new();
    let mut faces: Vec<usize> = (0..10)
        .map(|i| ico.find_face(unit_vector(i as f64 * 36.0, 0.0)).unwrap())
        .collect();
    faces.sort();
    faces.dedup();
    assert!(faces.len() >= 5, "Should span multiple faces");
}

#[test]
fn near_pole_points_land_only_on_pole_faces() {
    let ico = new();
    // at 89 degrees the points lie in the gap the planar test leaves around
    // the pole vertex, and the lookup says so instead of guessing a face
    for lon in [0.0, 72.0, 144.0, 216.0, 288.0] {
        assert_eq!(ico.find_face(unit_vector(lon, 89.0)), None);
    }
    // further from the vertex, over the face middles, they fall on the
    // five faces around the pole
    for (i, lon) in [36.0, 108.0, 180.0, 252.0, 324.0].into_iter().enumerate() {
        for lat in [60.0, 75.0] {
            let face = ico.find_face(unit_vector(lon, lat)).unwrap();
            assert!(matches!(face, 0 | 2 | 4 | 6 | 8), "Its not on the north pole");
            assert_eq!(face, 2 * i);
        }
    }
}

#[test]
fn lisbon_and_porto_share_or_neighbour_a_face() {
    let ico = new();
    let lisbon = ico.find_face(unit_vector(-9.49420, 38.68499)).unwrap();
    let porto = ico.find_face(unit_vector(-8.61099, 41.14961)).unwrap();
    assert!(lisbon == porto || ico.are_faces_adjacent(lisbon, porto));
}

#[test]
fn face_lookup_is_repeatable() {
    let ico = new();
    let p = unit_vector(12.5, -33.25);
    assert_eq!(ico.find_face(p), ico.find_face(p));
    assert_eq!(triangle(&ico, p, 3), triangle(&ico, p, 3));
}

#[test]
fn resolver_splits_a_face_into_six_sub_triangles() {
    let ico = new();
    let v = ico.face_vertices(0).unwrap();
    let c = ico.face_center(0);
    let mut ids = vec![];
    for corner in 0..3 {
        // a point between the center and a corner falls next to that corner
        let p = Vector3D::mid(&c, &v[corner]).unwrap();
        let near = Vector3D::mid(&p, &v[corner]).unwrap();
        let (tri, id) = triangle(&ico, near, 0).unwrap();
        assert_eq!(tri[1], v[id as usize]);
        assert_eq!(tri[2], c);
        ids.push(id);
    }
    ids.sort();
    assert_eq!(ids, vec![0, 1, 2]);
}

#[test]
fn resolver_returns_ids_in_range_for_every_face() {
    let ico = new();
    for f in 0..20 {
        for (lon, lat) in [(0.0, 0.0), (45.0, 45.0), (-120.0, -60.0), (170.0, 10.0)] {
            let (tri, id) = triangle(&ico, unit_vector(lon, lat), f).unwrap();
            assert!(id <= 5);
            assert_eq!(tri[2], ico.face_center(f));
        }
    }
    assert_eq!(triangle(&ico, unit_vector(0.0, 0.0), 20), None);
}

#[test]
fn spherical_barycenter_normalizes_the_sum() {
    let t = Triangle::new(Vector3D::new(ONE, 0, 0), Vector3D::new(0, ONE, 0), Vector3D::new(0, 0, ONE));
    assert_eq!(t.spherical_barycenter(), Some(Vector3D::new(154981282, 154981282, 154981282)));
    let z = Triangle::new(Vector3D::new(ONE, 0, 0), Vector3D::new(-ONE, 0, 0), Vector3D::new(0, 0, 0));
    assert_eq!(z.spherical_barycenter(), None);
}

#[test]
fn locate_all_keeps_order_and_length() {
    let ico = new();
    let pts = vec![
        unit_vector(-9.222154, 38.695125),
        unit_vector(0.0, 89.0),
        unit_vector(99.72721, 25.82577),
    ];
    let out = Vgc.locate_all(&ico, &pts);
    assert_eq!(out.len(), 3);
    assert_eq!(out[0].unwrap().face, 8);
    assert!(out[1].is_none());
    assert_eq!(out[2].unwrap().face, 3);
    assert_eq!(out[0].unwrap().sub_triangle_id, Vgc.locate(&ico, pts[0]).unwrap().sub_triangle_id);
}

#[test]
fn points_near_vertices_and_edges_fall_between_faces() {
    // the planar barycentric test leaves gaps along edges and around vertices
    let ico = new();
    assert_eq!(ico.find_face(unit_vector(0.0, 89.0)), None);
    let v = ico.face_vertices(0).unwrap();
    let edge_mid = Vector3D::mid(&v[0], &v[1]).unwrap();
    assert!(!ico.is_point_in_face(edge_mid, 0));
    assert!(!ico.is_point_in_face(edge_mid, 8));
    // the test projects along the face normal without regard to the side of
    // the sphere, so the point is taken by the face opposite face 0
    assert_eq!(ico.find_face(edge_mid), Some(13));
    // the resolver still answers for such points once a face is chosen
    assert!(triangle(&ico, edge_mid, 0).is_some());
}

#[test]
fn cross_product_is_exact() {
    let a = Vector3D::new(ONE, 0, 0);
    let b = Vector3D::new(0, ONE, 0);
    let one = ONE as i128;
    assert_eq!(a.cross(&b), (0, 0, one * one));
    assert_eq!(b.cross(&a), (0, 0, -one * one));
    assert_eq!(Vector3D::new(1, 2, 3).cross(&Vector3D::new(4, 5, 6)), (-3, 6, -3));
}
