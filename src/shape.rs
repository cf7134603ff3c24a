use crate::icosahedron::{
    icosahedron_faces, icosahedron_vertices, lemma_icosahedron_centers, sum3, Polyhedron,
};
use crate::spherical::{is_strictly_nearer, point_in_triangle, point_in_triangle_exec};
use crate::vector::{
    dot_spec, lemma_norm_sq_nonzero, lemma_normalize_keeps_signs, mid_spec, normalize_spec, sum_spec,
    Vector3D, ONE,
};
use vstd::prelude::*;

verus! {

/// A spherical triangle given by its three corners.
#[derive(Clone, Copy, Debug)]
pub struct Triangle {
    pub a: Vector3D,
    pub b: Vector3D,
    pub c: Vector3D,
}

impl Triangle {
    pub fn new(a: Vector3D, b: Vector3D, c: Vector3D) -> (r: Self)
        ensures
            r.a == a,
            r.b == b,
            r.c == c,
    {
        Self { a, b, c }
    }

    /// The normalized sum of the three corners; none where they cancel out.
    pub fn spherical_barycenter(&self) -> (r: Option<Vector3D>)
        requires
            self.a.is_unit_bounded(),
            self.b.is_unit_bounded(),
            self.c.is_unit_bounded(),
        ensures
            r == normalize_spec(sum3(self.a, self.b, self.c)),
            r matches Some(u) ==> u.is_unit_bounded(),
    {
        let sum = self.a.add(&self.b).add(&self.c);
        sum.normalize()
    }
}

/// The index after `i` around a triangle.
pub open spec fn next(i: int) -> int {
    if i == 2 {
        0
    } else {
        i + 1
    }
}

/// `p` lies in the macro triangle `(c, v[i], v[i + 1])`.
pub open spec fn in_macro(p: Vector3D, c: Vector3D, v: Seq<Vector3D>, i: int) -> bool {
    point_in_triangle(p, c, v[i], v[next(i)])
}

/// The first macro triangle that contains `p`.
pub open spec fn first_macro(p: Vector3D, c: Vector3D, v: Seq<Vector3D>) -> Option<int> {
    if in_macro(p, c, v, 0) {
        Some(0)
    } else if in_macro(p, c, v, 1) {
        Some(1)
    } else if in_macro(p, c, v, 2) {
        Some(2)
    } else {
        None
    }
}

/// The midpoint of edge `i`.
pub open spec fn edge_mid(v: Seq<Vector3D>, i: int) -> Option<Vector3D> {
    mid_spec(v[i], v[next(i)])
}

/// The macro triangle whose edge midpoint is nearest to `p` by angle, the
/// first one on a tie; none where an edge has no midpoint.
pub open spec fn nearest_macro(p: Vector3D, v: Seq<Vector3D>) -> Option<int> {
    match (edge_mid(v, 0), edge_mid(v, 1), edge_mid(v, 2)) {
        (Some(m0), Some(m1), Some(m2)) => {
            let best01 = if dot_spec(p, m1) > dot_spec(p, m0) {
                1int
            } else {
                0int
            };
            let best_mid = if best01 == 1 {
                m1
            } else {
                m0
            };
            if dot_spec(p, m2) > dot_spec(p, best_mid) {
                Some(2)
            } else {
                Some(best01)
            }
        },
        _ => None,
    }
}

/// The macro triangle chosen for `p`: the first that contains it, else the
/// nearest.
pub open spec fn chosen_macro(p: Vector3D, c: Vector3D, v: Seq<Vector3D>) -> Option<int> {
    match first_macro(p, c, v) {
        Some(i) => Some(i),
        None => nearest_macro(p, v),
    }
}

/// The sub-triangle of a face with corners `v` and center `c` that holds
/// `p`, as its corners (midpoint, face corner, center) and its id.
///
/// The chosen macro triangle `(c, v0, v1)` is split at the midpoint `m` of
/// `c` and `v0`. The left half `(c, m, v0)` is tried first and carries the
/// index of `v0`; the right half `(c, v1, m)` carries the index of `v1`.
/// Where neither holds `p`, the half whose barycenter is nearer by angle
/// wins, the right one on a tie.
pub open spec fn resolve_in_face(p: Vector3D, c: Vector3D, v: Seq<Vector3D>) -> Option<
    (Seq<Vector3D>, u8),
> {
    match chosen_macro(p, c, v) {
        None => None,
        Some(i0) => {
            let i1 = next(i0);
            let v0 = v[i0];
            let v1 = v[i1];
            match mid_spec(c, v0) {
                None => None,
                Some(m) => {
                    let left = (seq![m, v0, c], i0 as u8);
                    let right = (seq![m, v1, c], i1 as u8);
                    if point_in_triangle(p, c, m, v0) {
                        Some(left)
                    } else if point_in_triangle(p, c, v1, m) {
                        Some(right)
                    } else {
                        match (normalize_spec(sum3(c, v0, m)), normalize_spec(sum3(c, v1, m))) {
                            (Some(bl), Some(br)) => if dot_spec(p, bl) > dot_spec(p, br) {
                                Some(left)
                            } else {
                                Some(right)
                            },
                            _ => None,
                        }
                    }
                },
            }
        },
    }
}

/// Every point that the resolver needs for a face exists: the edge
/// midpoints, the midpoints of the center with each corner, and the
/// barycenters of the halves.
pub open spec fn resolvable(c: Vector3D, v: Seq<Vector3D>) -> bool {
    forall|i: int|
        0 <= i < 3 ==> {
            &&& #[trigger] edge_mid(v, i) is Some
            &&& mid_spec(c, v[i]) matches Some(m) && normalize_spec(sum3(c, v[i], m)) is Some
                && normalize_spec(sum3(c, v[next(i)], m)) is Some
        }
}

fn first_macro_exec(p: &Vector3D, c: &Vector3D, v: &[Vector3D; 3]) -> (r: Option<usize>)
    requires
        p.within(2 * ONE),
        c.is_unit_bounded(),
        forall|i: int| 0 <= i < 3 ==> #[trigger] v@[i].is_unit_bounded(),
    ensures
        r matches Some(i) ==> first_macro(*p, *c, v@) == Some(i as int),
        r is None ==> first_macro(*p, *c, v@) is None,
{
    proof {
        assert(v@[0].is_unit_bounded() && v@[1].is_unit_bounded() && v@[2].is_unit_bounded());
    }
    if point_in_triangle_exec(p, c, &v[0], &v[1]) {
        Some(0)
    } else if point_in_triangle_exec(p, c, &v[1], &v[2]) {
        Some(1)
    } else if point_in_triangle_exec(p, c, &v[2], &v[0]) {
        Some(2)
    } else {
        None
    }
}

fn nearest_macro_exec(p: &Vector3D, v: &[Vector3D; 3]) -> (r: Option<usize>)
    requires
        p.within(2 * ONE),
        forall|i: int| 0 <= i < 3 ==> #[trigger] v@[i].is_unit_bounded(),
    ensures
        r matches Some(i) ==> nearest_macro(*p, v@) == Some(i as int),
        r is None ==> nearest_macro(*p, v@) is None,
{
    proof {
        assert(v@[0].is_unit_bounded() && v@[1].is_unit_bounded() && v@[2].is_unit_bounded());
    }
    let m0 = match Vector3D::mid(&v[0], &v[1]) {
        Some(m) => m,
        None => return None,
    };
    let m1 = match Vector3D::mid(&v[1], &v[2]) {
        Some(m) => m,
        None => return None,
    };
    let m2 = match Vector3D::mid(&v[2], &v[0]) {
        Some(m) => m,
        None => return None,
    };
    let mut best: usize = 0;
    let mut best_mid = m0;
    if is_strictly_nearer(p, &m1, &best_mid) {
        best = 1;
        best_mid = m1;
    }
    if is_strictly_nearer(p, &m2, &best_mid) {
        best = 2;
    }
    Some(best)
}

/// Finds the sub-triangle of face `face_id` that holds `point_p`.
///
/// Returns the sub-triangle as (midpoint, face corner, face center) with
/// its id; none for an index past the last face.
pub fn triangle(polyhedron: &Polyhedron, point_p: Vector3D, face_id: usize) -> (r: Option<
    ([Vector3D; 3], u8),
>)
    requires
        polyhedron.wf(),
        point_p.within(2 * ONE),
    ensures
        face_id >= polyhedron.faces@.len() ==> r is None,
        face_id < polyhedron.faces@.len() ==> {
            let spec_r = resolve_in_face(
                point_p,
                polyhedron.center_spec(face_id as int),
                polyhedron.corners(face_id as int),
            );
            &&& r is Some <==> spec_r is Some
            &&& r matches Some((t, id)) ==> t@ == spec_r->Some_0.0 && id == spec_r->Some_0.1
        },
        r matches Some((_, id)) ==> id <= 5,
{
    if face_id >= polyhedron.faces.len() {
        return None;
    }
    let face = polyhedron.faces[face_id];
    let v: [Vector3D; 3] = [
        polyhedron.vertices[face[0]],
        polyhedron.vertices[face[1]],
        polyhedron.vertices[face[2]],
    ];
    proof {
        polyhedron.lemma_corner_bounded(face_id as int, 0);
        polyhedron.lemma_corner_bounded(face_id as int, 1);
        polyhedron.lemma_corner_bounded(face_id as int, 2);
        assert(v@ =~= polyhedron.corners(face_id as int));
    }
    let center = polyhedron.face_center(face_id);
    resolve(&point_p, &center, &v)
}

/// The resolver on a face given by its corners and center.
fn resolve(p: &Vector3D, c: &Vector3D, v: &[Vector3D; 3]) -> (r: Option<([Vector3D; 3], u8)>)
    requires
        p.within(2 * ONE),
        c.is_unit_bounded(),
        forall|i: int| 0 <= i < 3 ==> #[trigger] v@[i].is_unit_bounded(),
    ensures
        ({
            let spec_r = resolve_in_face(*p, *c, v@);
            &&& r is Some <==> spec_r is Some
            &&& r matches Some((t, id)) ==> t@ == spec_r->Some_0.0 && id == spec_r->Some_0.1
        }),
        r matches Some((_, id)) ==> id <= 2,
{
    proof {
        assert(v@[0].is_unit_bounded() && v@[1].is_unit_bounded() && v@[2].is_unit_bounded());
    }
    let i0 = match first_macro_exec(p, c, v) {
        Some(i) => i,
        None => match nearest_macro_exec(p, v) {
            Some(i) => i,
            None => return None,
        },
    };
    let i1: usize = if i0 == 2 {
        0
    } else {
        i0 + 1
    };
    let v0 = v[i0];
    let v1 = v[i1];
    let m = match Vector3D::mid(c, &v0) {
        Some(m) => m,
        None => return None,
    };
    assert(v0 == v@[i0 as int] && v1 == v@[next(i0 as int)]);
    if point_in_triangle_exec(p, c, &m, &v0) {
        let t = [m, v0, *c];
        assert(t@ =~= seq![m, v0, *c]);
        return Some((t, i0 as u8));
    }
    if point_in_triangle_exec(p, c, &v1, &m) {
        let t = [m, v1, *c];
        assert(t@ =~= seq![m, v1, *c]);
        return Some((t, i1 as u8));
    }
    let left = Triangle::new(*c, v0, m);
    let right = Triangle::new(*c, v1, m);
    let bl = match left.spherical_barycenter() {
        Some(b) => b,
        None => return None,
    };
    let br = match right.spherical_barycenter() {
        Some(b) => b,
        None => return None,
    };
    if is_strictly_nearer(p, &bl, &br) {
        let t = [m, v0, *c];
        assert(t@ =~= seq![m, v0, *c]);
        Some((t, i0 as u8))
    } else {
        let t = [m, v1, *c];
        assert(t@ =~= seq![m, v1, *c]);
        Some((t, i1 as u8))
    }
}

} // verus!

verus! {

/// Where every auxiliary point of a face exists, the resolver finds a
/// sub-triangle for any point, with an id in `[0, 5]`.
pub proof fn lemma_resolvable_resolves(p: Vector3D, c: Vector3D, v: Seq<Vector3D>)
    requires
        resolvable(c, v),
    ensures
        resolve_in_face(p, c, v) matches Some((_, id)) && id <= 5,
{
    assert(edge_mid(v, 0) is Some);
    assert(edge_mid(v, 1) is Some);
    assert(edge_mid(v, 2) is Some);
    let i0 = chosen_macro(p, c, v)->Some_0;
    assert(0 <= i0 < 3);
    assert(edge_mid(v, i0) is Some);
}

/// The auxiliary points of the macro triangle `(c, a, b)` exist when `a + b`
/// and `c + a` are non-zero and `c + a` and `c + b` share the sign of some
/// coordinate.
pub proof fn lemma_macro_resolvable(c: Vector3D, a: Vector3D, b: Vector3D)
    requires
        macro_conditions(c, a, b),
    ensures
        mid_spec(a, b) is Some,
        mid_spec(c, a) matches Some(m) && normalize_spec(sum3(c, a, m)) is Some && normalize_spec(
            sum3(c, b, m),
        ) is Some,
{
    lemma_norm_sq_nonzero(sum_spec(a, b));
    let ca = sum_spec(c, a);
    lemma_norm_sq_nonzero(ca);
    lemma_normalize_keeps_signs(ca);
    let m = normalize_spec(ca)->Some_0;
    let l = sum3(c, a, m);
    let r = sum3(c, b, m);
    assert(ONE == 268435456);
    lemma_norm_sq_nonzero(l);
    lemma_norm_sq_nonzero(r);
}

} // verus!

verus! {

/// The conditions of `lemma_macro_resolvable` on the macro triangle
/// `(c, a, b)`.
pub open spec fn macro_conditions(c: Vector3D, a: Vector3D, b: Vector3D) -> bool {
    &&& c.is_unit_bounded() && a.is_unit_bounded() && b.is_unit_bounded()
    &&& a.x + b.x != 0 || a.y + b.y != 0 || a.z + b.z != 0
    &&& c.x + a.x != 0 || c.y + a.y != 0 || c.z + a.z != 0
    &&& (c.x + a.x > 0 && c.x + b.x > 0) || (c.x + a.x < 0 && c.x + b.x < 0) || (c.y + a.y > 0
        && c.y + b.y > 0) || (c.y + a.y < 0 && c.y + b.y < 0) || (c.z + a.z > 0 && c.z + b.z
        > 0) || (c.z + a.z < 0 && c.z + b.z < 0)
}

/// A face whose three macro triangles meet the conditions has all the
/// auxiliary points the resolver needs.
proof fn lemma_face_resolvable(c: Vector3D, v0: Vector3D, v1: Vector3D, v2: Vector3D)
    requires
        macro_conditions(c, v0, v1),
        macro_conditions(c, v1, v2),
        macro_conditions(c, v2, v0),
    ensures
        resolvable(c, seq![v0, v1, v2]),
{
    let v = seq![v0, v1, v2];
    lemma_macro_resolvable(c, v0, v1);
    lemma_macro_resolvable(c, v1, v2);
    lemma_macro_resolvable(c, v2, v0);
    assert forall|i: int| 0 <= i < 3 implies #[trigger] edge_mid(v, i) is Some && (mid_spec(
        c,
        v[i],
    ) matches Some(m) && normalize_spec(sum3(c, v[i], m)) is Some && normalize_spec(
        sum3(c, v[next(i)], m),
    ) is Some) by {
        assert(i == 0 || i == 1 || i == 2);
    }
}

/// Every icosahedron face has all the auxiliary points the resolver needs.
#[verifier::rlimit(60)]
pub proof fn lemma_icosahedron_resolvable(poly: Polyhedron)
    requires
        poly.vertices@ == icosahedron_vertices(),
        poly.faces@ == icosahedron_faces(),
    ensures
        forall|f: int|
            0 <= f < 20 ==> #[trigger] resolvable(poly.center_spec(f), poly.corners(f)),
{
    lemma_icosahedron_centers(poly);
    assert(resolvable(poly.center_spec(0), poly.corners(0))) by {
        let c = poly.center_spec(0);
        let v = poly.corners(0);
        assert(c == (Vector3D { x: 131834953i64, y: 95783700i64, z: 213313435i64 }));
        assert(v[0] == (Vector3D { x: 240095971i64, y: 0i64, z: 120047985i64 }));
        assert(v[1] == (Vector3D { x: 0i64, y: 0i64, z: 268435456i64 }));
        assert(v[2] == (Vector3D { x: 74193735i64, y: 228344838i64, z: 120047985i64 }));
        lemma_face_resolvable(c, v[0], v[1], v[2]);
        assert(v =~= seq![v[0], v[1], v[2]]);
    }
    assert(resolvable(poly.center_spec(1), poly.corners(1))) by {
        let c = poly.center_spec(1);
        let v = poly.corners(1);
        assert(c == (Vector3D { x: 213313435i64, y: 154981282i64, z: 50356471i64 }));
        assert(v[0] == (Vector3D { x: 240095971i64, y: 0i64, z: 120047985i64 }));
        assert(v[1] == (Vector3D { x: 194241721i64, y: 141124871i64, z: -120047985i64 }));
        assert(v[2] == (Vector3D { x: 74193735i64, y: 228344838i64, z: 120047985i64 }));
        lemma_face_resolvable(c, v[0], v[1], v[2]);
        assert(v =~= seq![v[0], v[1], v[2]]);
    }
    assert(resolvable(poly.center_spec(2), poly.corners(2))) by {
        let c = poly.center_spec(2);
        let v = poly.corners(2);
        assert(c == (Vector3D { x: -50356471i64, y: 154981283i64, z: 213313435i64 }));
        assert(v[0] == (Vector3D { x: 74193735i64, y: 228344838i64, z: 120047985i64 }));
        assert(v[1] == (Vector3D { x: 0i64, y: 0i64, z: 268435456i64 }));
        assert(v[2] == (Vector3D { x: -194241721i64, y: 141124871i64, z: 120047985i64 }));
        lemma_face_resolvable(c, v[0], v[1], v[2]);
        assert(v =~= seq![v[0], v[1], v[2]]);
    }
    assert(resolvable(poly.center_spec(3), poly.corners(3))) by {
        let c = poly.center_spec(3);
        let v = poly.corners(3);
        assert(c == (Vector3D { x: -81478482i64, y: 250764983i64, z: 50356471i64 }));
        assert(v[0] == (Vector3D { x: 74193735i64, y: 228344838i64, z: 120047985i64 }));
        assert(v[1] == (Vector3D { x: -74193735i64, y: 228344838i64, z: -120047985i64 }));
        assert(v[2] == (Vector3D { x: -194241721i64, y: 141124871i64, z: 120047985i64 }));
        lemma_face_resolvable(c, v[0], v[1], v[2]);
        assert(v =~= seq![v[0], v[1], v[2]]);
    }
    assert(resolvable(poly.center_spec(4), poly.corners(4))) by {
        let c = poly.center_spec(4);
        let v = poly.corners(4);
        assert(c == (Vector3D { x: -162956964i64, y: 0i64, z: 213313435i64 }));
        assert(v[0] == (Vector3D { x: -194241721i64, y: 141124871i64, z: 120047985i64 }));
        assert(v[1] == (Vector3D { x: 0i64, y: 0i64, z: 268435456i64 }));
        assert(v[2] == (Vector3D { x: -194241721i64, y: -141124871i64, z: 120047985i64 }));
        lemma_face_resolvable(c, v[0], v[1], v[2]);
        assert(v =~= seq![v[0], v[1], v[2]]);
    }
    assert(resolvable(poly.center_spec(5), poly.corners(5))) by {
        let c = poly.center_spec(5);
        let v = poly.corners(5);
        assert(c == (Vector3D { x: -263669907i64, y: 0i64, z: 50356471i64 }));
        assert(v[0] == (Vector3D { x: -194241721i64, y: 141124871i64, z: 120047985i64 }));
        assert(v[1] == (Vector3D { x: -240095971i64, y: 0i64, z: -120047985i64 }));
        assert(v[2] == (Vector3D { x: -194241721i64, y: -141124871i64, z: 120047985i64 }));
        lemma_face_resolvable(c, v[0], v[1], v[2]);
        assert(v =~= seq![v[0], v[1], v[2]]);
    }
    assert(resolvable(poly.center_spec(6), poly.corners(6))) by {
        let c = poly.center_spec(6);
        let v = poly.corners(6);
        assert(c == (Vector3D { x: -50356471i64, y: -154981283i64, z: 213313435i64 }));
        assert(v[0] == (Vector3D { x: -194241721i64, y: -141124871i64, z: 120047985i64 }));
        assert(v[1] == (Vector3D { x: 0i64, y: 0i64, z: 268435456i64 }));
        assert(v[2] == (Vector3D { x: 74193735i64, y: -228344838i64, z: 120047985i64 }));
        lemma_face_resolvable(c, v[0], v[1], v[2]);
        assert(v =~= seq![v[0], v[1], v[2]]);
    }
    assert(resolvable(poly.center_spec(7), poly.corners(7))) by {
        let c = poly.center_spec(7);
        let v = poly.corners(7);
        assert(c == (Vector3D { x: -81478482i64, y: -250764983i64, z: 50356471i64 }));
        assert(v[0] == (Vector3D { x: -194241721i64, y: -141124871i64, z: 120047985i64 }));
        assert(v[1] == (Vector3D { x: -74193735i64, y: -228344838i64, z: -120047985i64 }));
        assert(v[2] == (Vector3D { x: 74193735i64, y: -228344838i64, z: 120047985i64 }));
        lemma_face_resolvable(c, v[0], v[1], v[2]);
        assert(v =~= seq![v[0], v[1], v[2]]);
    }
    assert(resolvable(poly.center_spec(8), poly.corners(8))) by {
        let c = poly.center_spec(8);
        let v = poly.corners(8);
        assert(c == (Vector3D { x: 131834953i64, y: -95783700i64, z: 213313435i64 }));
        assert(v[0] == (Vector3D { x: 74193735i64, y: -228344838i64, z: 120047985i64 }));
        assert(v[1] == (Vector3D { x: 0i64, y: 0i64, z: 268435456i64 }));
        assert(v[2] == (Vector3D { x: 240095971i64, y: 0i64, z: 120047985i64 }));
        lemma_face_resolvable(c, v[0], v[1], v[2]);
        assert(v =~= seq![v[0], v[1], v[2]]);
    }
    assert(resolvable(poly.center_spec(9), poly.corners(9))) by {
        let c = poly.center_spec(9);
        let v = poly.corners(9);
        assert(c == (Vector3D { x: 213313435i64, y: -154981282i64, z: 50356471i64 }));
        assert(v[0] == (Vector3D { x: 74193735i64, y: -228344838i64, z: 120047985i64 }));
        assert(v[1] == (Vector3D { x: 194241721i64, y: -141124871i64, z: -120047985i64 }));
        assert(v[2] == (Vector3D { x: 240095971i64, y: 0i64, z: 120047985i64 }));
        lemma_face_resolvable(c, v[0], v[1], v[2]);
        assert(v =~= seq![v[0], v[1], v[2]]);
    }
    assert(resolvable(poly.center_spec(10), poly.corners(10))) by {
        let c = poly.center_spec(10);
        let v = poly.corners(10);
        assert(c == (Vector3D { x: 81478482i64, y: 250764983i64, z: -50356471i64 }));
        assert(v[0] == (Vector3D { x: 194241721i64, y: 141124871i64, z: -120047985i64 }));
        assert(v[1] == (Vector3D { x: 74193735i64, y: 228344838i64, z: 120047985i64 }));
        assert(v[2] == (Vector3D { x: -74193735i64, y: 228344838i64, z: -120047985i64 }));
        lemma_face_resolvable(c, v[0], v[1], v[2]);
        assert(v =~= seq![v[0], v[1], v[2]]);
    }
    assert(resolvable(poly.center_spec(11), poly.corners(11))) by {
        let c = poly.center_spec(11);
        let v = poly.corners(11);
        assert(c == (Vector3D { x: 50356471i64, y: 154981283i64, z: -213313435i64 }));
        assert(v[0] == (Vector3D { x: 194241721i64, y: 141124871i64, z: -120047985i64 }));
        assert(v[1] == (Vector3D { x: 0i64, y: 0i64, z: -268435456i64 }));
        assert(v[2] == (Vector3D { x: -74193735i64, y: 228344838i64, z: -120047985i64 }));
        lemma_face_resolvable(c, v[0], v[1], v[2]);
        assert(v =~= seq![v[0], v[1], v[2]]);
    }
    assert(resolvable(poly.center_spec(12), poly.corners(12))) by {
        let c = poly.center_spec(12);
        let v = poly.corners(12);
        assert(c == (Vector3D { x: -213313435i64, y: 154981282i64, z: -50356471i64 }));
        assert(v[0] == (Vector3D { x: -74193735i64, y: 228344838i64, z: -120047985i64 }));
        assert(v[1] == (Vector3D { x: -194241721i64, y: 141124871i64, z: 120047985i64 }));
        assert(v[2] == (Vector3D { x: -240095971i64, y: 0i64, z: -120047985i64 }));
        lemma_face_resolvable(c, v[0], v[1], v[2]);
        assert(v =~= seq![v[0], v[1], v[2]]);
    }
    assert(resolvable(poly.center_spec(13), poly.corners(13))) by {
        let c = poly.center_spec(13);
        let v = poly.corners(13);
        assert(c == (Vector3D { x: -131834953i64, y: 95783700i64, z: -213313435i64 }));
        assert(v[0] == (Vector3D { x: -74193735i64, y: 228344838i64, z: -120047985i64 }));
        assert(v[1] == (Vector3D { x: 0i64, y: 0i64, z: -268435456i64 }));
        assert(v[2] == (Vector3D { x: -240095971i64, y: 0i64, z: -120047985i64 }));
        lemma_face_resolvable(c, v[0], v[1], v[2]);
        assert(v =~= seq![v[0], v[1], v[2]]);
    }
    assert(resolvable(poly.center_spec(14), poly.corners(14))) by {
        let c = poly.center_spec(14);
        let v = poly.corners(14);
        assert(c == (Vector3D { x: -213313435i64, y: -154981282i64, z: -50356471i64 }));
        assert(v[0] == (Vector3D { x: -240095971i64, y: 0i64, z: -120047985i64 }));
        assert(v[1] == (Vector3D { x: -194241721i64, y: -141124871i64, z: 120047985i64 }));
        assert(v[2] == (Vector3D { x: -74193735i64, y: -228344838i64, z: -120047985i64 }));
        lemma_face_resolvable(c, v[0], v[1], v[2]);
        assert(v =~= seq![v[0], v[1], v[2]]);
    }
    assert(resolvable(poly.center_spec(15), poly.corners(15))) by {
        let c = poly.center_spec(15);
        let v = poly.corners(15);
        assert(c == (Vector3D { x: -131834953i64, y: -95783700i64, z: -213313435i64 }));
        assert(v[0] == (Vector3D { x: -240095971i64, y: 0i64, z: -120047985i64 }));
        assert(v[1] == (Vector3D { x: 0i64, y: 0i64, z: -268435456i64 }));
        assert(v[2] == (Vector3D { x: -74193735i64, y: -228344838i64, z: -120047985i64 }));
        lemma_face_resolvable(c, v[0], v[1], v[2]);
        assert(v =~= seq![v[0], v[1], v[2]]);
    }
    assert(resolvable(poly.center_spec(16), poly.corners(16))) by {
        let c = poly.center_spec(16);
        let v = poly.corners(16);
        assert(c == (Vector3D { x: 81478482i64, y: -250764983i64, z: -50356471i64 }));
        assert(v[0] == (Vector3D { x: -74193735i64, y: -228344838i64, z: -120047985i64 }));
        assert(v[1] == (Vector3D { x: 74193735i64, y: -228344838i64, z: 120047985i64 }));
        assert(v[2] == (Vector3D { x: 194241721i64, y: -141124871i64, z: -120047985i64 }));
        lemma_face_resolvable(c, v[0], v[1], v[2]);
        assert(v =~= seq![v[0], v[1], v[2]]);
    }
    assert(resolvable(poly.center_spec(17), poly.corners(17))) by {
        let c = poly.center_spec(17);
        let v = poly.corners(17);
        assert(c == (Vector3D { x: 50356471i64, y: -154981283i64, z: -213313435i64 }));
        assert(v[0] == (Vector3D { x: -74193735i64, y: -228344838i64, z: -120047985i64 }));
        assert(v[1] == (Vector3D { x: 0i64, y: 0i64, z: -268435456i64 }));
        assert(v[2] == (Vector3D { x: 194241721i64, y: -141124871i64, z: -120047985i64 }));
        lemma_face_resolvable(c, v[0], v[1], v[2]);
        assert(v =~= seq![v[0], v[1], v[2]]);
    }
    assert(resolvable(poly.center_spec(18), poly.corners(18))) by {
        let c = poly.center_spec(18);
        let v = poly.corners(18);
        assert(c == (Vector3D { x: 263669907i64, y: 0i64, z: -50356471i64 }));
        assert(v[0] == (Vector3D { x: 194241721i64, y: -141124871i64, z: -120047985i64 }));
        assert(v[1] == (Vector3D { x: 240095971i64, y: 0i64, z: 120047985i64 }));
        assert(v[2] == (Vector3D { x: 194241721i64, y: 141124871i64, z: -120047985i64 }));
        lemma_face_resolvable(c, v[0], v[1], v[2]);
        assert(v =~= seq![v[0], v[1], v[2]]);
    }
    assert(resolvable(poly.center_spec(19), poly.corners(19))) by {
        let c = poly.center_spec(19);
        let v = poly.corners(19);
        assert(c == (Vector3D { x: 162956964i64, y: 0i64, z: -213313435i64 }));
        assert(v[0] == (Vector3D { x: 194241721i64, y: -141124871i64, z: -120047985i64 }));
        assert(v[1] == (Vector3D { x: 0i64, y: 0i64, z: -268435456i64 }));
        assert(v[2] == (Vector3D { x: 194241721i64, y: 141124871i64, z: -120047985i64 }));
        lemma_face_resolvable(c, v[0], v[1], v[2]);
        assert(v =~= seq![v[0], v[1], v[2]]);
    }
    assert forall|f: int| 0 <= f < 20 implies #[trigger] resolvable(poly.center_spec(f), poly.corners(f)) by {
        assert(f == 0 || f == 1 || f == 2 || f == 3 || f == 4 || f == 5 || f == 6 || f == 7 || f == 8 || f == 9 || f == 10 || f == 11 || f == 12 || f == 13 || f == 14 || f == 15 || f == 16 || f == 17 || f == 18 || f == 19);
    }
}

/// For every icosahedron face and every point, the resolver returns a
/// sub-triangle whose id lies in `[0, 5]`.
pub proof fn lemma_sub_triangle_coverage(poly: Polyhedron, f: int, p: Vector3D)
    requires
        poly.vertices@ == icosahedron_vertices(),
        poly.faces@ == icosahedron_faces(),
        0 <= f < 20,
    ensures
        resolve_in_face(p, poly.center_spec(f), poly.corners(f)) matches Some((_, id)) && id <= 5,
{
    lemma_icosahedron_resolvable(poly);
    lemma_resolvable_resolves(p, poly.center_spec(f), poly.corners(f));
}

} // verus!
