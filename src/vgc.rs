use crate::icosahedron::{first_face, Polyhedron};
use crate::shape::{resolve_in_face, triangle};
use crate::vector::{Vector3D, ONE};
use vstd::prelude::*;

verus! {

/// Where a point falls on a polyhedron: its face, the sub-triangle of that
/// face (midpoint, face corner, face center) and the sub-triangle's id.
#[derive(Clone, Copy, Debug)]
pub struct Location {
    pub face: usize,
    pub sub_triangle: [Vector3D; 3],
    pub sub_triangle_id: u8,
}

/// Where `p` falls on `poly`: the first face that contains it, resolved to
/// its sub-triangle; none where no face contains it or the face cannot be
/// resolved.
pub open spec fn locate_spec(poly: Polyhedron, p: Vector3D) -> Option<(int, Seq<Vector3D>, u8)> {
    match first_face(poly, p) {
        None => None,
        Some(f) => match resolve_in_face(p, poly.center_spec(f), poly.corners(f)) {
            None => None,
            Some((t, id)) => Some((f, t, id)),
        },
    }
}

pub open spec fn location_matches(r: Option<Location>, s: Option<(int, Seq<Vector3D>, u8)>) -> bool {
    match (r, s) {
        (None, None) => true,
        (Some(l), Some((f, t, id))) => l.face == f && l.sub_triangle@ == t && l.sub_triangle_id
            == id,
        _ => false,
    }
}

/// The vertex great circle projection (slice and dice on an icosahedron).
pub struct Vgc;

impl Vgc {
    /// Locates a point (a fixed-point unit vector) on the polyhedron: the
    /// first face in face order that contains it, then its sub-triangle.
    pub fn locate(&self, polyhedron: &Polyhedron, point: Vector3D) -> (r: Option<Location>)
        requires
            polyhedron.wf(),
            point.within(2 * ONE),
        ensures
            location_matches(r, locate_spec(*polyhedron, point)),
    {
        let face = match polyhedron.find_face(point) {
            Some(f) => f,
            None => return None,
        };
        match triangle(polyhedron, point, face) {
            Some((t, id)) => Some(Location { face, sub_triangle: t, sub_triangle_id: id }),
            None => None,
        }
    }

    /// Locates every point, one result per point and in the same order; a
    /// point that no face holds gives none at its own index.
    pub fn locate_all(&self, polyhedron: &Polyhedron, points: &Vec<Vector3D>) -> (r: Vec<
        Option<Location>,
    >)
        requires
            polyhedron.wf(),
            forall|i: int| 0 <= i < points@.len() ==> #[trigger] points@[i].within(2 * ONE),
        ensures
            r@.len() == points@.len(),
            forall|i: int|
                0 <= i < points@.len() ==> location_matches(
                    #[trigger] r@[i],
                    locate_spec(*polyhedron, points@[i]),
                ),
    {
        let mut out: Vec<Option<Location>> = Vec::new();
        let mut i: usize = 0;
        while i < points.len()
            invariant
                polyhedron.wf(),
                forall|k: int| 0 <= k < points@.len() ==> #[trigger] points@[k].within(2 * ONE),
                i <= points@.len(),
                out@.len() == i,
                forall|k: int|
                    0 <= k < i ==> location_matches(
                        #[trigger] out@[k],
                        locate_spec(*polyhedron, points@[k]),
                    ),
            decreases points@.len() - i,
        {
            let loc = self.locate(polyhedron, points[i]);
            out.push(loc);
            i += 1;
        }
        out
    }
}

} // verus!

verus! {

proof fn lemma_least_face(poly: Polyhedron, p: Vector3D, f: int)
    requires
        0 <= f < poly.faces@.len(),
        poly.in_face(p, f),
    ensures
        exists|g: int|
            0 <= g < poly.faces@.len() && poly.in_face(p, g) && forall|h: int|
                0 <= h < g ==> !#[trigger] poly.in_face(p, h),
    decreases f,
{
    if exists|h: int| 0 <= h < f && poly.in_face(p, h) {
        let h = choose|h: int| 0 <= h < f && poly.in_face(p, h);
        lemma_least_face(poly, p, h);
    } else {
        assert(forall|h: int| 0 <= h < f ==> !#[trigger] poly.in_face(p, h));
    }
}

/// Face lookup is total on the points that lie in some face: it returns the
/// first face, in face order, that contains the point.
pub proof fn lemma_find_face_total(poly: Polyhedron, p: Vector3D)
    requires
        exists|f: int| 0 <= f < poly.faces@.len() && poly.in_face(p, f),
    ensures
        first_face(poly, p) matches Some(f) && 0 <= f < poly.faces@.len() && poly.in_face(p, f)
            && forall|g: int| 0 <= g < f ==> !#[trigger] poly.in_face(p, g),
{
    let f = choose|f: int| 0 <= f < poly.faces@.len() && poly.in_face(p, f);
    lemma_least_face(poly, p, f);
}

/// Locating the same point twice gives the same face, sub-triangle and id.
pub proof fn lemma_locate_deterministic(
    poly: Polyhedron,
    p: Vector3D,
    r1: Option<Location>,
    r2: Option<Location>,
)
    requires
        location_matches(r1, locate_spec(poly, p)),
        location_matches(r2, locate_spec(poly, p)),
    ensures
        r1 is Some <==> r2 is Some,
        r1 matches Some(l1) ==> (r2 matches Some(l2) && l1.face == l2.face && l1.sub_triangle@
            == l2.sub_triangle@ && l1.sub_triangle_id == l2.sub_triangle_id),
{
}

} // verus!
