use crate::vector::{abs, dot_spec, lemma_mul_bound, Vector3D, ONE};
use vstd::prelude::*;

verus! {

/// Below this Gram determinant (1e-10 in units of `ONE` to the fourth) a
/// triangle counts as degenerate.
pub const DEGENERATE_LIMIT: i128 = 519229685853482762853049;

/// Barycentric weights may fall short of their bounds by one part in this
/// ratio (a tolerance of 1e-10).
pub const TOLERANCE_RATIO: i128 = 10000000000;

/// `(a - o) . (b - o)`.
pub open spec fn edge_dot(o: Vector3D, a: Vector3D, b: Vector3D) -> int {
    (a.x - o.x) * (b.x - o.x) + (a.y - o.y) * (b.y - o.y) + (a.z - o.z) * (b.z - o.z)
}

/// The barycentric weights of `p` against the triangle `(v0, v1, v2)`, as the
/// numerators `(u, v)` over the common denominator `d`: `p` projected on the
/// triangle's plane is `v0 + (u / d) (v2 - v0) + (v / d) (v1 - v0)`.
pub open spec fn barycentric(p: Vector3D, v0: Vector3D, v1: Vector3D, v2: Vector3D) -> (
    int,
    int,
    int,
) {
    let d00 = edge_dot(v0, v2, v2);
    let d01 = edge_dot(v0, v2, v1);
    let d02 = edge_dot(v0, v2, p);
    let d11 = edge_dot(v0, v1, v1);
    let d12 = edge_dot(v0, v1, p);
    (d11 * d02 - d01 * d12, d00 * d12 - d01 * d02, d00 * d11 - d01 * d01)
}

/// `p` lies in the triangle `(v0, v1, v2)`: the triangle is not degenerate,
/// both weights are non-negative and their sum is at most one, each within
/// the tolerance.
pub open spec fn point_in_triangle(p: Vector3D, v0: Vector3D, v1: Vector3D, v2: Vector3D) -> bool {
    let (u, v, d) = barycentric(p, v0, v1, v2);
    let slack = d / (TOLERANCE_RATIO as int);
    d >= DEGENERATE_LIMIT && u >= -slack && v >= -slack && u + v <= d + slack
}

/// `p` lies in the triangle given as a sequence of exactly three vertices.
pub open spec fn point_in_face_spec(p: Vector3D, triangle: Seq<Vector3D>) -> bool {
    triangle.len() == 3 && point_in_triangle(p, triangle[0], triangle[1], triangle[2])
}

/// Of two unit vectors `a` and `b`, `a` is strictly nearer to `p` by angle:
/// the angle between unit vectors shrinks as their dot product grows.
pub open spec fn strictly_nearer(p: Vector3D, a: Vector3D, b: Vector3D) -> bool {
    dot_spec(p, a) > dot_spec(p, b)
}

pub open spec fn all_within(s: Seq<Vector3D>, bound: int) -> bool {
    forall|i: int| 0 <= i < s.len() ==> #[trigger] s[i].within(bound)
}

proof fn lemma_dot_bound(a: Vector3D, b: Vector3D, m: int)
    requires
        a.within(m),
        b.within(m),
    ensures
        abs(dot_spec(a, b)) <= 3 * (m * m),
{
    lemma_mul_bound(a.x as int, b.x as int, m);
    lemma_mul_bound(a.y as int, b.y as int, m);
    lemma_mul_bound(a.z as int, b.z as int, m);
}

/// `(a - o) . (b - o)` for vectors within two units of zero.
fn edge_dot_exec(o: &Vector3D, a: &Vector3D, b: &Vector3D) -> (r: i128)
    requires
        o.within(2 * ONE),
        a.within(2 * ONE),
        b.within(2 * ONE),
    ensures
        r == edge_dot(*o, *a, *b),
        abs(r as int) <= 3458764513820540928,
{
    let ea = a.subtract(o);
    let eb = b.subtract(o);
    proof {
        lemma_dot_bound(ea, eb, 4 * ONE);
        assert(3 * ((4 * ONE) * (4 * ONE)) == 3458764513820540928);
    }
    ea.dot(&eb)
}

/// The triangle test of `point_in_triangle`, for vectors within two units
/// of zero.
pub fn point_in_triangle_exec(p: &Vector3D, v0: &Vector3D, v1: &Vector3D, v2: &Vector3D) -> (r:
    bool)
    requires
        p.within(2 * ONE),
        v0.within(2 * ONE),
        v1.within(2 * ONE),
        v2.within(2 * ONE),
    ensures
        r == point_in_triangle(*p, *v0, *v1, *v2),
{
    let d00 = edge_dot_exec(v0, v2, v2);
    let d01 = edge_dot_exec(v0, v2, v1);
    let d02 = edge_dot_exec(v0, v2, p);
    let d11 = edge_dot_exec(v0, v1, v1);
    let d12 = edge_dot_exec(v0, v1, p);
    let ghost m: int = 3458764513820540928;
    proof {
        assert(m * m < 21267647932558653966460912964485513216);
        lemma_mul_bound(d11 as int, d02 as int, m);
        lemma_mul_bound(d01 as int, d12 as int, m);
        lemma_mul_bound(d00 as int, d12 as int, m);
        lemma_mul_bound(d01 as int, d02 as int, m);
        lemma_mul_bound(d00 as int, d11 as int, m);
        lemma_mul_bound(d01 as int, d01 as int, m);
    }
    let u = d11 * d02 - d01 * d12;
    let v = d00 * d12 - d01 * d02;
    let d = d00 * d11 - d01 * d01;
    if d < DEGENERATE_LIMIT {
        return false;
    }
    let slack = d / TOLERANCE_RATIO;
    u >= -slack && v >= -slack && u + v <= d + slack
}

/// Tests whether `point` lies in the triangle whose three vertices are
/// given; any other number of vertices gives false.
pub fn is_point_in_face(point: Vector3D, triangle: &[Vector3D]) -> (r: bool)
    requires
        point.within(2 * ONE),
        all_within(triangle@, 2 * ONE),
    ensures
        r == point_in_face_spec(point, triangle@),
{
    if triangle.len() != 3 {
        return false;
    }
    point_in_triangle_exec(&point, &triangle[0], &triangle[1], &triangle[2])
}

/// Whether `a` is strictly nearer than `b` to `p` by angle, for unit vectors.
pub fn is_strictly_nearer(p: &Vector3D, a: &Vector3D, b: &Vector3D) -> (r: bool)
    requires
        p.within(2 * ONE),
        a.within(2 * ONE),
        b.within(2 * ONE),
    ensures
        r == strictly_nearer(*p, *a, *b),
{
    p.dot(a) > p.dot(b)
}

} // verus!
