use geoplegma::bary::{Aperture, BaryI, BaryIHex, Canvas, Cell, CellKind};
use geoplegma::cell_id::{CellId, ElevationId, UnitPolyhedron, VolumeId};
use geoplegma::layout::IcosahedronNet;
use geoplegma::zone_id::{
    default_config, extract_res_from_cellid, extract_res_from_z3, extract_res_from_z7, is_zone_hex_id,
};

#[test]
fn aperture_bases_and_denominators() {
    assert_eq!(Aperture::A3.base(), 3);
    assert_eq!(Aperture::A4.base(), 4);
    assert_eq!(Aperture::A7.base(), 7);
    assert_eq!(Aperture::A3.denom_for_level(2), 9);
    assert_eq!(Aperture::A4.denom_for_level(3), 64);
    assert_eq!(Aperture::A7.denom_for_level(0), 1);
}

#[test]
fn bary_scale_multiplies_every_weight() {
    let b = BaryI::new(1, 1, 1, 3).scale(2);
    assert_eq!(b, BaryI::new(2, 2, 2, 6));
}

#[test]
fn inscribed_hex_is_every_permutation_of_two_one_zero() {
    let h = BaryIHex::inscribed_hex();
    assert_eq!(h.0[0], BaryI::new(2, 1, 0, 3));
    assert_eq!(h.0[5], BaryI::new(2, 0, 1, 3));
    assert_eq!(BaryIHex::at_denom(3), h);
}

#[test]
fn hex_from_center_steps_around_the_center() {
    let h = BaryIHex::hex_from_center(BaryI::new(3, 3, 3, 9), 1);
    assert_eq!(
        h.0,
        [
            BaryI::new(4, 3, 2, 9),
            BaryI::new(3, 4, 2, 9),
            BaryI::new(2, 4, 3, 9),
            BaryI::new(2, 3, 4, 9),
            BaryI::new(3, 2, 4, 9),
            BaryI::new(4, 2, 3, 9),
        ]
    );
}

#[test]
fn hex_at_denominator_nine() {
    let h = BaryIHex::at_denom(9);
    assert_eq!(
        h.0,
        [
            BaryI::new(2, 2, 5, 9),
            BaryI::new(4, 1, 4, 9),
            BaryI::new(5, 2, 2, 9),
            BaryI::new(4, 4, 1, 9),
            BaryI::new(2, 5, 2, 9),
            BaryI::new(1, 4, 4, 9),
        ]
    );
}

#[test]
fn canvas_and_cell_hold_their_values() {
    assert!(Canvas::y_up().y_up);
    let cell = Cell { face: 3, center: BaryI::new(1, 1, 1, 3), level: 1, rot: 0, kind: CellKind::Pentagon };
    assert_eq!(cell.kind, CellKind::Pentagon);
    assert_eq!(cell.center.denom, 3);
}

#[test]
fn cell_id_packs_the_fields() {
    let id = CellId::new(3, UnitPolyhedron::Icosahedron, 5, &[1, 2]);
    assert_eq!(id, CellId::U32(150056));
    assert_eq!(id.bits(), 150056);
    assert_eq!(id.bit_length(), 32);
    let id7 = CellId::new(7, UnitPolyhedron::Tetrahedron, 3, &[6, 5]);
    assert_eq!(id7.bits(), 755233);
}

#[test]
fn cell_id_picks_the_smallest_storage() {
    let id = CellId::new(4, UnitPolyhedron::Cube, 0, &[3; 20]);
    assert_eq!(id.bit_length(), 64);
    let id = CellId::new(3, UnitPolyhedron::Cube, 0, &[2; 57]);
    assert_eq!(id.bit_length(), 128);
}

#[test]
fn volume_id_wraps_an_elevation() {
    let v = VolumeId::new(CellId::U32(7), 42);
    assert_eq!(v.cell, CellId::U32(7));
    assert_eq!(v.elevation, ElevationId::U128(42));
    assert_eq!(ElevationId::new(9), ElevationId::U128(9));
}

#[test]
fn net_triangles_and_centers() {
    let net = IcosahedronNet {};
    let t = net.vertices();
    assert_eq!(t.len(), 20);
    assert_eq!(net.face_center(t[0]), (0, 0));
    assert_eq!(net.face_center(t[14]), (4, 5));
}

#[test]
fn hex_zone_ids() {
    assert!(is_zone_hex_id("0123456789abcdef"));
    assert!(!is_zone_hex_id("0123456789ABCDEF"));
    // six bytes with capitals and dashes: not a sixteen-digit hex id
    assert!(!is_zone_hex_id("B4-8-B"));
    assert!(!is_zone_hex_id("0123456789abcde"));
}

#[test]
fn resolution_from_aperture_three_ids() {
    assert_eq!(extract_res_from_z3("05123"), Ok(5));
    assert_eq!(extract_res_from_z3("12"), Ok(12));
    assert_eq!(extract_res_from_z3("+7abc"), Ok(7));
    assert_eq!(extract_res_from_z3("1"), Err("ZoneID too short to extract resolution".to_string()));
    assert_eq!(extract_res_from_z3("a1"), Err("Invalid resolution prefix in ZoneID".to_string()));
    assert_eq!(extract_res_from_z3("-1"), Err("Invalid resolution prefix in ZoneID".to_string()));
}

#[test]
fn resolution_from_aperture_seven_ids() {
    assert_eq!(extract_res_from_z7("a"), Ok(0));
    assert_eq!(extract_res_from_z7("ab"), Ok(1));
    assert_eq!(extract_res_from_z7("0800000000000000"), Ok(2));
    assert_eq!(extract_res_from_z7("0080000000000000"), Ok(6));
    assert_eq!(extract_res_from_z7("+FF"), Ok(54));
    assert_eq!(extract_res_from_z7("xyz"), Err("Invalid hex ZoneID".to_string()));
    assert_eq!(extract_res_from_z7("10000000000000000"), Err("Invalid hex ZoneID".to_string()));
    assert_eq!(extract_res_from_z7(""), Err("Invalid hex ZoneID".to_string()));
    assert_eq!(
        extract_res_from_z7("000"),
        Err("Invalid IGEO7 ZoneID: No resolution mask found".to_string())
    );
}

#[test]
fn resolution_by_grid_type() {
    assert_eq!(extract_res_from_cellid("07xyz", "ISEA3H"), Ok(7));
    assert_eq!(extract_res_from_cellid("07xyz", "IGEO7"), Ok(7));
    assert_eq!(extract_res_from_cellid("07xyz", "H3"), Err("Unsupported DGGS type: H3".to_string()));
}

#[test]
fn default_config_switches_everything_on() {
    let c = default_config();
    assert!(c.region && c.center && c.vertex_count && c.children && c.neighbors && c.area_sqm && c.densify);
}

#[test]
fn config_default_matches_default_config() {
    let c: geoplegma::zone_id::Config = Default::default();
    assert_eq!(c, default_config());
}

#[test]
fn hex_from_center_with_a_large_denominator() {
    let t = 1u32 << 30;
    let h = BaryIHex::hex_from_center(BaryI::new(t, t, t, 3 * t), 1);
    assert_eq!(h.0[0], BaryI::new(t + 1, t, t - 1, 3 * t));
    assert_eq!(h.0[5], BaryI::new(t + 1, t - 1, t, 3 * t));
}

#[test]
fn hex_at_the_largest_denominators() {
    let d = u32::MAX;
    let t = d / 3;
    let h = BaryIHex::at_denom(d);
    assert_eq!(h.0[0], BaryI::new(t - 1, t - 1, t + 2, d));
    assert_eq!(h.0[5], BaryI::new(t - 2, t + 1, t + 1, d));
    assert_eq!(BaryIHex::at_denom(d - 3).0[2].denom, d - 3);
}

#[test]
fn unsupported_grid_type_ignores_the_id() {
    assert_eq!(
        extract_res_from_cellid("a\u{20ac}", "H3"),
        Err("Unsupported DGGS type: H3".to_string())
    );
}
