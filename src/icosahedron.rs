use crate::spherical::{
    all_within, is_point_in_face as triangle_contains, point_in_face_spec, point_in_triangle,
    point_in_triangle_exec,
};
use crate::vector::{
    abs, dot_spec, is_isqrt, isqrt, lemma_isqrt_is, lemma_norm_sq_nonzero, norm_sq, normalize_spec, sum_spec,
    Vector3D, ONE,
};
use vstd::prelude::*;

verus! {

/// Fixed constants of the polyhedron model.
pub struct PolyhedronConstants;

impl PolyhedronConstants {
    /// Vertices of a regular icosahedron.
    pub const ICOSAHEDRON_VERTICES: usize = 12;

    /// Faces of a regular icosahedron.
    pub const ICOSAHEDRON_FACES: usize = 20;

    /// Edges of a regular icosahedron.
    pub const ICOSAHEDRON_EDGES: usize = 30;
}

/// The face lists of a polyhedron, by the arity of its faces.
pub enum VertexIndices {
    Triangles(Vec<[usize; 3]>),
    Cubes(Vec<[usize; 4]>),
    Pentagons(Vec<[usize; 5]>),
}

/// The twelve icosahedron vertices, in fixed point: the north pole (0), an
/// upper ring at longitudes 0, 72, .., 288 degrees (1 to 5), a lower ring
/// at longitudes 36, 108, .., 324 degrees (6 to 10) and the south pole (11):
/// a regular icosahedron. The rings stand at heights `z = +-1 / sqrt(5)` with
/// radius `2 / sqrt(5)`; each coordinate is rounded to the nearest
/// fixed-point step.
pub open spec fn icosahedron_vertices() -> Seq<Vector3D> {
    seq![
        Vector3D { x: 0i64, y: 0i64, z: 268435456i64 },
        Vector3D { x: 240095971i64, y: 0i64, z: 120047985i64 },
        Vector3D { x: 74193735i64, y: 228344838i64, z: 120047985i64 },
        Vector3D { x: -194241721i64, y: 141124871i64, z: 120047985i64 },
        Vector3D { x: -194241721i64, y: -141124871i64, z: 120047985i64 },
        Vector3D { x: 74193735i64, y: -228344838i64, z: 120047985i64 },
        Vector3D { x: 194241721i64, y: 141124871i64, z: -120047985i64 },
        Vector3D { x: -74193735i64, y: 228344838i64, z: -120047985i64 },
        Vector3D { x: -240095971i64, y: 0i64, z: -120047985i64 },
        Vector3D { x: -74193735i64, y: -228344838i64, z: -120047985i64 },
        Vector3D { x: 194241721i64, y: -141124871i64, z: -120047985i64 },
        Vector3D { x: 0i64, y: 0i64, z: -268435456i64 }
    ]
}

/// The twenty faces as triplets of vertex indices.
pub open spec fn icosahedron_faces() -> Seq<[usize; 3]> {
    seq![
        [1, 0, 2],
        [1, 6, 2],
        [2, 0, 3],
        [2, 7, 3],
        [3, 0, 4],
        [3, 8, 4],
        [4, 0, 5],
        [4, 9, 5],
        [5, 0, 1],
        [5, 10, 1],
        [6, 2, 7],
        [6, 11, 7],
        [7, 3, 8],
        [7, 11, 8],
        [8, 4, 9],
        [8, 11, 9],
        [9, 5, 10],
        [9, 11, 10],
        [10, 1, 6],
        [10, 11, 6]
    ]
}

/// The sum of three vectors.
pub open spec fn sum3(a: Vector3D, b: Vector3D, c: Vector3D) -> Vector3D {
    sum_spec(sum_spec(a, b), c)
}

/// The squared length lies within 1/50000 of one unit: the length lies
/// within 1e-5 of one unit.
pub open spec fn is_normalized(v: Vector3D) -> bool {
    abs(norm_sq(v) - ONE * ONE) <= (ONE * ONE) / 50000
}

/// The `k`-th corner of icosahedron face `f`.
pub open spec fn icosahedron_corner(f: int, k: int) -> Vector3D {
    icosahedron_vertices()[icosahedron_faces()[f][k] as int]
}

/// `p` lies in icosahedron face `f`.
pub open spec fn icosahedron_in_face(p: Vector3D, f: int) -> bool {
    point_in_triangle(p, icosahedron_corner(f, 0), icosahedron_corner(f, 1), icosahedron_corner(f, 2))
}

/// The first face of `poly`, in face order, that contains `p`.
pub open spec fn first_face(poly: Polyhedron, p: Vector3D) -> Option<int> {
    if exists|f: int| 0 <= f < poly.faces@.len() && poly.in_face(p, f) {
        Some(
            choose|f: int|
                0 <= f < poly.faces@.len() && poly.in_face(p, f) && forall|g: int|
                    0 <= g < f ==> !#[trigger] poly.in_face(p, g),
        )
    } else {
        None
    }
}

/// A polyhedron: unit vertices and faces given as vertex index triplets.
pub struct Polyhedron {
    pub vertices: Vec<Vector3D>,
    pub faces: Vec<[usize; 3]>,
    pub num_edges: usize,
}

impl Polyhedron {
    /// The `k`-th corner of face `f`.
    pub open spec fn corner(&self, f: int, k: int) -> Vector3D {
        self.vertices@[self.faces@[f][k] as int]
    }

    /// The three corners of face `f`, in order.
    pub open spec fn corners(&self, f: int) -> Seq<Vector3D> {
        seq![self.corner(f, 0), self.corner(f, 1), self.corner(f, 2)]
    }

    /// The normalized sum of the three corners of face `f`.
    pub open spec fn center_spec(&self, f: int) -> Vector3D {
        normalize_spec(sum3(self.corner(f, 0), self.corner(f, 1), self.corner(f, 2)))->Some_0
    }

    /// `p` lies in face `f`.
    pub open spec fn in_face(&self, p: Vector3D, f: int) -> bool {
        point_in_triangle(p, self.corner(f, 0), self.corner(f, 1), self.corner(f, 2))
    }

    /// Vertices are unit vectors in fixed point, face indices point at
    /// vertices, and no face has corners that sum to zero.
    pub open spec fn wf(&self) -> bool {
        &&& forall|i: int|
            0 <= i < self.vertices@.len() ==> #[trigger] self.vertices@[i].is_unit_bounded()
        &&& forall|f: int, k: int|
            0 <= f < self.faces@.len() && 0 <= k < 3 ==> (#[trigger] self.faces@[f][k] as int)
                < self.vertices@.len()
        &&& forall|f: int|
            0 <= f < self.faces@.len() ==> norm_sq(
                #[trigger] sum3(self.corner(f, 0), self.corner(f, 1), self.corner(f, 2)),
            ) != 0
    }

    pub proof fn lemma_corner_bounded(&self, f: int, k: int)
        requires
            self.wf(),
            0 <= f < self.faces@.len(),
            0 <= k < 3,
        ensures
            self.corner(f, k).is_unit_bounded(),
    {
        assert((self.faces@[f][k] as int) < self.vertices@.len());
    }

    /// Faces `f` and `g` are two different faces that share an edge: two of
    /// their vertex indices.
    pub open spec fn adjacent(&self, f: int, g: int) -> bool {
        f != g && shared_count(self.faces@[f], self.faces@[g]) >= 2
    }

    /// Whether the polyhedron is well formed: unit vertices, face indices
    /// that point at vertices, and faces whose corners do not sum to zero.
    pub fn is_valid(&self) -> (r: bool)
        ensures
            r == self.wf(),
    {
        let nv = self.vertices.len();
        let mut i: usize = 0;
        while i < nv
            invariant
                nv == self.vertices@.len(),
                i <= nv,
                forall|k: int| 0 <= k < i ==> #[trigger] self.vertices@[k].is_unit_bounded(),
            decreases nv - i,
        {
            let v = self.vertices[i];
            if v.x < -ONE || v.x > ONE || v.y < -ONE || v.y > ONE || v.z < -ONE || v.z > ONE {
                assert(!self.vertices@[i as int].is_unit_bounded());
                return false;
            }
            i += 1;
        }
        let nf = self.faces.len();
        let mut f: usize = 0;
        while f < nf
            invariant
                nv == self.vertices@.len(),
                nf == self.faces@.len(),
                f <= nf,
                forall|k: int| 0 <= k < nv ==> #[trigger] self.vertices@[k].is_unit_bounded(),
                forall|g: int, k: int|
                    0 <= g < f && 0 <= k < 3 ==> (#[trigger] self.faces@[g][k] as int) < nv,
                forall|g: int|
                    0 <= g < f ==> norm_sq(
                        #[trigger] sum3(self.corner(g, 0), self.corner(g, 1), self.corner(g, 2)),
                    ) != 0,
            decreases nf - f,
        {
            let face = self.faces[f];
            if face[0] >= nv || face[1] >= nv || face[2] >= nv {
                proof {
                    let g = f as int;
                    if face[0] >= nv {
                        assert(!((self.faces@[g][0] as int) < nv));
                    } else if face[1] >= nv {
                        assert(!((self.faces@[g][1] as int) < nv));
                    } else {
                        assert(!((self.faces@[g][2] as int) < nv));
                    }
                }
                return false;
            }
            proof {
                assert forall|k: int| 0 <= k < 3 implies (#[trigger] self.faces@[f as int][k] as int)
                    < nv by {
                    assert(k == 0 || k == 1 || k == 2);
                }
            }
            let a = self.vertices[face[0]];
            let b = self.vertices[face[1]];
            let c = self.vertices[face[2]];
            assert(a.is_unit_bounded() && b.is_unit_bounded() && c.is_unit_bounded()) by {
                assert(self.vertices@[face[0] as int].is_unit_bounded());
                assert(self.vertices@[face[1] as int].is_unit_bounded());
                assert(self.vertices@[face[2] as int].is_unit_bounded());
            }
            let sum = a.add(&b).add(&c);
            assert(sum3(self.corner(f as int, 0), self.corner(f as int, 1), self.corner(f as int, 2))
                == sum);
            if sum.x == 0 && sum.y == 0 && sum.z == 0 {
                assert(norm_sq(sum) == 0);
                return false;
            }
            proof {
                lemma_norm_sq_nonzero(sum);
            }
            f += 1;
        }
        true
    }

    pub fn num_vertices(&self) -> (r: usize)
        ensures
            r == self.vertices@.len(),
    {
        self.vertices.len()
    }

    pub fn num_faces(&self) -> (r: usize)
        ensures
            r == self.faces@.len(),
    {
        self.faces.len()
    }

    pub fn num_edges(&self) -> (r: usize)
        ensures
            r == self.num_edges,
    {
        self.num_edges
    }

    /// The three corners of a face; none for an index past the last face.
    pub fn face_vertices(&self, face_id: usize) -> (r: Option<Vec<Vector3D>>)
        requires
            self.wf(),
        ensures
            r is Some <==> face_id < self.faces@.len(),
            r matches Some(v) ==> v@ == self.corners(face_id as int),
    {
        if face_id >= self.faces.len() {
            return None;
        }
        let face = self.faces[face_id];
        let mut v: Vec<Vector3D> = Vec::new();
        v.push(self.vertices[face[0]]);
        v.push(self.vertices[face[1]]);
        v.push(self.vertices[face[2]]);
        Some(v)
    }

    /// The spherical centroid of a face: the normalized sum of its corners.
    pub fn face_center(&self, face_id: usize) -> (r: Vector3D)
        requires
            self.wf(),
            face_id < self.faces@.len(),
        ensures
            r == self.center_spec(face_id as int),
            r.is_unit_bounded(),
    {
        let face = self.faces[face_id];
        let a = self.vertices[face[0]];
        let b = self.vertices[face[1]];
        let c = self.vertices[face[2]];
        proof {
            self.lemma_corner_bounded(face_id as int, 0);
            self.lemma_corner_bounded(face_id as int, 1);
            self.lemma_corner_bounded(face_id as int, 2);
        }
        let sum = a.add(&b).add(&c);
        assert(norm_sq(sum3(self.corner(face_id as int, 0), self.corner(face_id as int, 1), self.corner(face_id as int, 2))) != 0);
        sum.normalize().unwrap()
    }

    /// Whether `point` lies in face `face_id`.
    pub fn is_point_in_face(&self, point: Vector3D, face_id: usize) -> (r: bool)
        requires
            self.wf(),
            face_id < self.faces@.len(),
            point.within(2 * ONE),
        ensures
            r == self.in_face(point, face_id as int),
    {
        let face = self.faces[face_id];
        proof {
            self.lemma_corner_bounded(face_id as int, 0);
            self.lemma_corner_bounded(face_id as int, 1);
            self.lemma_corner_bounded(face_id as int, 2);
        }
        point_in_triangle_exec(
            &point,
            &self.vertices[face[0]],
            &self.vertices[face[1]],
            &self.vertices[face[2]],
        )
    }

    /// The first face, in face order, that contains `point`; none where no
    /// face does.
    pub fn find_face(&self, point: Vector3D) -> (r: Option<usize>)
        requires
            self.wf(),
            point.within(2 * ONE),
        ensures
            match r {
                Some(f) => f < self.faces@.len() && self.in_face(point, f as int) && forall|g: int|
                    0 <= g < f ==> !#[trigger] self.in_face(point, g),
                None => forall|g: int|
                    0 <= g < self.faces@.len() ==> !#[trigger] self.in_face(point, g),
            },
            r matches Some(f) ==> first_face(*self, point) == Some(f as int),
            r is None ==> first_face(*self, point) is None,
    {
        let n = self.faces.len();
        let mut i: usize = 0;
        while i < n
            invariant
                self.wf(),
                point.within(2 * ONE),
                n == self.faces@.len(),
                i <= n,
                forall|g: int| 0 <= g < i ==> !#[trigger] self.in_face(point, g),
            decreases n - i,
        {
            if self.is_point_in_face(point, i) {
                proof {
                    let f = i as int;
                    assert(0 <= f < self.faces@.len() && self.in_face(point, f) && forall|g: int|
                        0 <= g < f ==> !#[trigger] self.in_face(point, g));
                    let c = choose|f: int|
                        0 <= f < self.faces@.len() && self.in_face(point, f) && forall|g: int|
                            0 <= g < f ==> !#[trigger] self.in_face(point, g);
                    if c < f {
                    } else if c > f {
                        assert(!self.in_face(point, f));
                    }
                }
                return Some(i);
            }
            i += 1;
        }
        None
    }

    /// Whether two faces share an edge.
    pub fn are_faces_adjacent(&self, f: usize, g: usize) -> (r: bool)
        requires
            f < self.faces@.len(),
            g < self.faces@.len(),
        ensures
            r == self.adjacent(f as int, g as int),
    {
        if f == g {
            return false;
        }
        let a = self.faces[f];
        let b = self.faces[g];
        let mut count: usize = 0;
        if contains_index(&b, a[0]) {
            count += 1;
        }
        if contains_index(&b, a[1]) {
            count += 1;
        }
        if contains_index(&b, a[2]) {
            count += 1;
        }
        count >= 2
    }
}

/// `i` is one of the three indices of `face`.
pub open spec fn has_index(face: [usize; 3], i: usize) -> bool {
    face[0] == i || face[1] == i || face[2] == i
}

/// How many indices of `a` also stand in `b`.
pub open spec fn shared_count(a: [usize; 3], b: [usize; 3]) -> int {
    (if has_index(b, a[0]) { 1int } else { 0int }) + (if has_index(b, a[1]) { 1int } else { 0int })
        + (if has_index(b, a[2]) { 1int } else { 0int })
}

fn contains_index(face: &[usize; 3], i: usize) -> (r: bool)
    ensures
        r == has_index(*face, i),
{
    face[0] == i || face[1] == i || face[2] == i
}

/// The twelve icosahedron vertices, in fixed point.
pub fn create_vertices() -> (r: Vec<Vector3D>)
    ensures
        r@ == icosahedron_vertices(),
{
    let mut v: Vec<Vector3D> = Vec::new();
    v.push(Vector3D { x: 0, y: 0, z: 268435456 });
    v.push(Vector3D { x: 240095971, y: 0, z: 120047985 });
    v.push(Vector3D { x: 74193735, y: 228344838, z: 120047985 });
    v.push(Vector3D { x: -194241721, y: 141124871, z: 120047985 });
    v.push(Vector3D { x: -194241721, y: -141124871, z: 120047985 });
    v.push(Vector3D { x: 74193735, y: -228344838, z: 120047985 });
    v.push(Vector3D { x: 194241721, y: 141124871, z: -120047985 });
    v.push(Vector3D { x: -74193735, y: 228344838, z: -120047985 });
    v.push(Vector3D { x: -240095971, y: 0, z: -120047985 });
    v.push(Vector3D { x: -74193735, y: -228344838, z: -120047985 });
    v.push(Vector3D { x: 194241721, y: -141124871, z: -120047985 });
    v.push(Vector3D { x: 0, y: 0, z: -268435456 });
    assert(v@ =~= icosahedron_vertices());
    v
}

/// The twenty icosahedron faces as vertex index triplets.
pub fn create_faces() -> (r: Vec<[usize; 3]>)
    ensures
        r@ == icosahedron_faces(),
{
    let mut f: Vec<[usize; 3]> = Vec::new();
    f.push([1, 0, 2]);
    f.push([1, 6, 2]);
    f.push([2, 0, 3]);
    f.push([2, 7, 3]);
    f.push([3, 0, 4]);
    f.push([3, 8, 4]);
    f.push([4, 0, 5]);
    f.push([4, 9, 5]);
    f.push([5, 0, 1]);
    f.push([5, 10, 1]);
    f.push([6, 2, 7]);
    f.push([6, 11, 7]);
    f.push([7, 3, 8]);
    f.push([7, 11, 8]);
    f.push([8, 4, 9]);
    f.push([8, 11, 9]);
    f.push([9, 5, 10]);
    f.push([9, 11, 10]);
    f.push([10, 1, 6]);
    f.push([10, 11, 6]);
    assert(f@ =~= icosahedron_faces());
    f
}

/// Builds the icosahedron: pole-aligned vertices, twenty faces, thirty edges.
pub fn new() -> (r: Polyhedron)
    ensures
        r.wf(),
        r.vertices@ == icosahedron_vertices(),
        r.faces@ == icosahedron_faces(),
        r.num_edges == 30,
{
    let vertices = create_vertices();
    let faces = create_faces();
    let r = Polyhedron { vertices, faces, num_edges: PolyhedronConstants::ICOSAHEDRON_EDGES };
    proof {
        lemma_icosahedron_wf(r);
    }
    r
}

/// The regular icosahedron in its pole-aligned orientation.
pub struct Icosahedron {}

impl Icosahedron {
    /// The twelve vertices, in a fixed order.
    pub fn vertices(&self) -> (r: Vec<Vector3D>)
        ensures
            r@ == icosahedron_vertices(),
    {
        create_vertices()
    }

    /// The twenty faces as vertex index triplets, in a fixed order.
    pub fn face_vertex_indices(&self) -> (r: Vec<[usize; 3]>)
        ensures
            r@ == icosahedron_faces(),
    {
        create_faces()
    }

    /// The normalized sum of the three corners of a face.
    pub fn face_center(&self, face_id: usize) -> (r: Vector3D)
        requires
            face_id < 20,
        ensures
            r == normalize_spec(
                sum3(
                    icosahedron_corner(face_id as int, 0),
                    icosahedron_corner(face_id as int, 1),
                    icosahedron_corner(face_id as int, 2),
                ),
            )->Some_0,
    {
        new().face_center(face_id)
    }

    /// The first face, in face order, that contains `point`.
    pub fn find_face(&self, point: Vector3D) -> (r: Option<usize>)
        requires
            point.within(2 * ONE),
        ensures
            match r {
                Some(f) => f < 20 && icosahedron_in_face(point, f as int) && forall|g: int|
                    0 <= g < f ==> !#[trigger] icosahedron_in_face(point, g),
                None => forall|g: int| 0 <= g < 20 ==> !#[trigger] icosahedron_in_face(point, g),
            },
    {
        let p = new();
        let r = p.find_face(point);
        assert forall|g: int| 0 <= g < 20 implies #[trigger] icosahedron_in_face(point, g) == p.in_face(point, g) by {}
        r
    }

    /// Whether `point` lies in the triangle given by three vertices.
    pub fn is_point_in_face(&self, point: Vector3D, triangle: &[Vector3D]) -> (r: bool)
        requires
            point.within(2 * ONE),
            all_within(triangle@, 2 * ONE),
        ensures
            r == point_in_face_spec(point, triangle@),
    {
        triangle_contains(point, triangle)
    }
}

proof fn lemma_icosahedron_wf(p: Polyhedron)
    requires
        p.vertices@ == icosahedron_vertices(),
        p.faces@ == icosahedron_faces(),
    ensures
        p.wf(),
{
    let vs = icosahedron_vertices();
    let fs = icosahedron_faces();
    assert forall|i: int| 0 <= i < p.vertices@.len() implies #[trigger] p.vertices@[i].is_unit_bounded() by {
        assert(0 <= i < 12);
    }
    assert forall|f: int, k: int| 0 <= f < p.faces@.len() && 0 <= k < 3 implies (#[trigger] p.faces@[f][k] as int) < p.vertices@.len() by {
        assert(0 <= f < 20);
    }
    assert forall|f: int| 0 <= f < p.faces@.len() implies norm_sq(#[trigger] sum3(p.corner(f, 0), p.corner(f, 1), p.corner(f, 2))) != 0 by {
        assert(f == 0 || f == 1 || f == 2 || f == 3 || f == 4 || f == 5 || f == 6 || f == 7 || f == 8 || f == 9 || f == 10 || f == 11 || f == 12 || f == 13 || f == 14 || f == 15 || f == 16 || f == 17 || f == 18 || f == 19);
        lemma_norm_sq_nonzero(sum3(p.corner(f, 0), p.corner(f, 1), p.corner(f, 2)));
    }
}

} // verus!

verus! {

/// The icosahedron face centers, as `Polyhedron::face_center` computes them.
pub open spec fn icosahedron_centers() -> Seq<Vector3D> {
    seq![
        Vector3D { x: 131834953i64, y: 95783700i64, z: 213313435i64 },
        Vector3D { x: 213313435i64, y: 154981282i64, z: 50356471i64 },
        Vector3D { x: -50356471i64, y: 154981283i64, z: 213313435i64 },
        Vector3D { x: -81478482i64, y: 250764983i64, z: 50356471i64 },
        Vector3D { x: -162956964i64, y: 0i64, z: 213313435i64 },
        Vector3D { x: -263669907i64, y: 0i64, z: 50356471i64 },
        Vector3D { x: -50356471i64, y: -154981283i64, z: 213313435i64 },
        Vector3D { x: -81478482i64, y: -250764983i64, z: 50356471i64 },
        Vector3D { x: 131834953i64, y: -95783700i64, z: 213313435i64 },
        Vector3D { x: 213313435i64, y: -154981282i64, z: 50356471i64 },
        Vector3D { x: 81478482i64, y: 250764983i64, z: -50356471i64 },
        Vector3D { x: 50356471i64, y: 154981283i64, z: -213313435i64 },
        Vector3D { x: -213313435i64, y: 154981282i64, z: -50356471i64 },
        Vector3D { x: -131834953i64, y: 95783700i64, z: -213313435i64 },
        Vector3D { x: -213313435i64, y: -154981282i64, z: -50356471i64 },
        Vector3D { x: -131834953i64, y: -95783700i64, z: -213313435i64 },
        Vector3D { x: 81478482i64, y: -250764983i64, z: -50356471i64 },
        Vector3D { x: 50356471i64, y: -154981283i64, z: -213313435i64 },
        Vector3D { x: 263669907i64, y: 0i64, z: -50356471i64 },
        Vector3D { x: 162956964i64, y: 0i64, z: -213313435i64 }
    ]
}

/// The center of face `f` is normalized and lies in face `f`.
pub open spec fn face_center_valid(p: Polyhedron, f: int) -> bool {
    is_normalized(p.center_spec(f)) && p.in_face(p.center_spec(f), f)
}

/// Every icosahedron vertex has unit length within 1e-5.
pub proof fn lemma_vertices_normalized()
    ensures
        forall|i: int| 0 <= i < 12 ==> is_normalized(#[trigger] icosahedron_vertices()[i]),
{
    assert(is_normalized(icosahedron_vertices()[0])) by {
        let v = icosahedron_vertices()[0];
        assert(v == (Vector3D { x: 0i64, y: 0i64, z: 268435456i64 }));
        assert(is_normalized(v)) by (nonlinear_arith)
            requires
                v == (Vector3D { x: 0i64, y: 0i64, z: 268435456i64 }),
        ;
    }
    assert(is_normalized(icosahedron_vertices()[1])) by {
        let v = icosahedron_vertices()[1];
        assert(v == (Vector3D { x: 240095971i64, y: 0i64, z: 120047985i64 }));
        assert(is_normalized(v)) by (nonlinear_arith)
            requires
                v == (Vector3D { x: 240095971i64, y: 0i64, z: 120047985i64 }),
        ;
    }
    assert(is_normalized(icosahedron_vertices()[2])) by {
        let v = icosahedron_vertices()[2];
        assert(v == (Vector3D { x: 74193735i64, y: 228344838i64, z: 120047985i64 }));
        assert(is_normalized(v)) by (nonlinear_arith)
            requires
                v == (Vector3D { x: 74193735i64, y: 228344838i64, z: 120047985i64 }),
        ;
    }
    assert(is_normalized(icosahedron_vertices()[3])) by {
        let v = icosahedron_vertices()[3];
        assert(v == (Vector3D { x: -194241721i64, y: 141124871i64, z: 120047985i64 }));
        assert(is_normalized(v)) by (nonlinear_arith)
            requires
                v == (Vector3D { x: -194241721i64, y: 141124871i64, z: 120047985i64 }),
        ;
    }
    assert(is_normalized(icosahedron_vertices()[4])) by {
        let v = icosahedron_vertices()[4];
        assert(v == (Vector3D { x: -194241721i64, y: -141124871i64, z: 120047985i64 }));
        assert(is_normalized(v)) by (nonlinear_arith)
            requires
                v == (Vector3D { x: -194241721i64, y: -141124871i64, z: 120047985i64 }),
        ;
    }
    assert(is_normalized(icosahedron_vertices()[5])) by {
        let v = icosahedron_vertices()[5];
        assert(v == (Vector3D { x: 74193735i64, y: -228344838i64, z: 120047985i64 }));
        assert(is_normalized(v)) by (nonlinear_arith)
            requires
                v == (Vector3D { x: 74193735i64, y: -228344838i64, z: 120047985i64 }),
        ;
    }
    assert(is_normalized(icosahedron_vertices()[6])) by {
        let v = icosahedron_vertices()[6];
        assert(v == (Vector3D { x: 194241721i64, y: 141124871i64, z: -120047985i64 }));
        assert(is_normalized(v)) by (nonlinear_arith)
            requires
                v == (Vector3D { x: 194241721i64, y: 141124871i64, z: -120047985i64 }),
        ;
    }
    assert(is_normalized(icosahedron_vertices()[7])) by {
        let v = icosahedron_vertices()[7];
        assert(v == (Vector3D { x: -74193735i64, y: 228344838i64, z: -120047985i64 }));
        assert(is_normalized(v)) by (nonlinear_arith)
            requires
                v == (Vector3D { x: -74193735i64, y: 228344838i64, z: -120047985i64 }),
        ;
    }
    assert(is_normalized(icosahedron_vertices()[8])) by {
        let v = icosahedron_vertices()[8];
        assert(v == (Vector3D { x: -240095971i64, y: 0i64, z: -120047985i64 }));
        assert(is_normalized(v)) by (nonlinear_arith)
            requires
                v == (Vector3D { x: -240095971i64, y: 0i64, z: -120047985i64 }),
        ;
    }
    assert(is_normalized(icosahedron_vertices()[9])) by {
        let v = icosahedron_vertices()[9];
        assert(v == (Vector3D { x: -74193735i64, y: -228344838i64, z: -120047985i64 }));
        assert(is_normalized(v)) by (nonlinear_arith)
            requires
                v == (Vector3D { x: -74193735i64, y: -228344838i64, z: -120047985i64 }),
        ;
    }
    assert(is_normalized(icosahedron_vertices()[10])) by {
        let v = icosahedron_vertices()[10];
        assert(v == (Vector3D { x: 194241721i64, y: -141124871i64, z: -120047985i64 }));
        assert(is_normalized(v)) by (nonlinear_arith)
            requires
                v == (Vector3D { x: 194241721i64, y: -141124871i64, z: -120047985i64 }),
        ;
    }
    assert(is_normalized(icosahedron_vertices()[11])) by {
        let v = icosahedron_vertices()[11];
        assert(v == (Vector3D { x: 0i64, y: 0i64, z: -268435456i64 }));
        assert(is_normalized(v)) by (nonlinear_arith)
            requires
                v == (Vector3D { x: 0i64, y: 0i64, z: -268435456i64 }),
        ;
    }
    assert forall|i: int| 0 <= i < 12 implies is_normalized(#[trigger] icosahedron_vertices()[i]) by {
        assert(i == 0 || i == 1 || i == 2 || i == 3 || i == 4 || i == 5 || i == 6 || i == 7 || i == 8 || i == 9 || i == 10 || i == 11);
    }
}

/// The icosahedron face centers take the values of the table.
pub proof fn lemma_icosahedron_centers(p: Polyhedron)
    requires
        p.vertices@ == icosahedron_vertices(),
        p.faces@ == icosahedron_faces(),
    ensures
        forall|f: int| 0 <= f < 20 ==> #[trigger] p.center_spec(f) == icosahedron_centers()[f],
{
    assert(p.center_spec(0) == icosahedron_centers()[0]) by {
        let s = sum3(p.corner(0, 0), p.corner(0, 1), p.corner(0, 2));
        let c = p.center_spec(0);
        assert(s == (Vector3D { x: 314289706i64, y: 228344838i64, z: 508531426i64 }));
        assert(norm_sq(s) == 409523595568406156) by (nonlinear_arith)
            requires
                s == (Vector3D { x: 314289706i64, y: 228344838i64, z: 508531426i64 }),
        ;
        assert(is_isqrt(409523595568406156, 639940306)) by (nonlinear_arith);
        lemma_isqrt_is(409523595568406156, 639940306);
        assert(c == (Vector3D { x: 131834953i64, y: 95783700i64, z: 213313435i64 })) by (nonlinear_arith)
            requires
                s == (Vector3D { x: 314289706i64, y: 228344838i64, z: 508531426i64 }),
                c == normalize_spec(s)->Some_0,
                norm_sq(s) == 409523595568406156,
                isqrt(409523595568406156) == 639940306,
        ;
    }
    assert(p.center_spec(1) == icosahedron_centers()[1]) by {
        let s = sum3(p.corner(1, 0), p.corner(1, 1), p.corner(1, 2));
        let c = p.center_spec(1);
        assert(s == (Vector3D { x: 508531427i64, y: 369469709i64, z: 120047985i64 }));
        assert(norm_sq(s) == 409523596817761235) by (nonlinear_arith)
            requires
                s == (Vector3D { x: 508531427i64, y: 369469709i64, z: 120047985i64 }),
        ;
        assert(is_isqrt(409523596817761235, 639940307)) by (nonlinear_arith);
        lemma_isqrt_is(409523596817761235, 639940307);
        assert(c == (Vector3D { x: 213313435i64, y: 154981282i64, z: 50356471i64 })) by (nonlinear_arith)
            requires
                s == (Vector3D { x: 508531427i64, y: 369469709i64, z: 120047985i64 }),
                c == normalize_spec(s)->Some_0,
                norm_sq(s) == 409523596817761235,
                isqrt(409523596817761235) == 639940307,
        ;
    }
    assert(p.center_spec(2) == icosahedron_centers()[2]) by {
        let s = sum3(p.corner(2, 0), p.corner(2, 1), p.corner(2, 2));
        let c = p.center_spec(2);
        assert(s == (Vector3D { x: -120047986i64, y: 369469709i64, z: 508531426i64 }));
        assert(norm_sq(s) == 409523596040794353) by (nonlinear_arith)
            requires
                s == (Vector3D { x: -120047986i64, y: 369469709i64, z: 508531426i64 }),
        ;
        assert(is_isqrt(409523596040794353, 639940306)) by (nonlinear_arith);
        lemma_isqrt_is(409523596040794353, 639940306);
        assert(c == (Vector3D { x: -50356471i64, y: 154981283i64, z: 213313435i64 })) by (nonlinear_arith)
            requires
                s == (Vector3D { x: -120047986i64, y: 369469709i64, z: 508531426i64 }),
                c == normalize_spec(s)->Some_0,
                norm_sq(s) == 409523596040794353,
                isqrt(409523596040794353) == 639940306,
        ;
    }
    assert(p.center_spec(3) == icosahedron_centers()[3]) by {
        let s = sum3(p.corner(3, 0), p.corner(3, 1), p.corner(3, 2));
        let c = p.center_spec(3);
        assert(s == (Vector3D { x: -194241721i64, y: 597814547i64, z: 120047985i64 }));
        assert(norm_sq(s) == 409523597484417275) by (nonlinear_arith)
            requires
                s == (Vector3D { x: -194241721i64, y: 597814547i64, z: 120047985i64 }),
        ;
        assert(is_isqrt(409523597484417275, 639940307)) by (nonlinear_arith);
        lemma_isqrt_is(409523597484417275, 639940307);
        assert(c == (Vector3D { x: -81478482i64, y: 250764983i64, z: 50356471i64 })) by (nonlinear_arith)
            requires
                s == (Vector3D { x: -194241721i64, y: 597814547i64, z: 120047985i64 }),
                c == normalize_spec(s)->Some_0,
                norm_sq(s) == 409523597484417275,
                isqrt(409523597484417275) == 639940307,
        ;
    }
    assert(p.center_spec(4) == icosahedron_centers()[4]) by {
        let s = sum3(p.corner(4, 0), p.corner(4, 1), p.corner(4, 2));
        let c = p.center_spec(4);
        assert(s == (Vector3D { x: -388483442i64, y: 0i64, z: 508531426i64 }));
        assert(norm_sq(s) == 409523595937760840) by (nonlinear_arith)
            requires
                s == (Vector3D { x: -388483442i64, y: 0i64, z: 508531426i64 }),
        ;
        assert(is_isqrt(409523595937760840, 639940306)) by (nonlinear_arith);
        lemma_isqrt_is(409523595937760840, 639940306);
        assert(c == (Vector3D { x: -162956964i64, y: 0i64, z: 213313435i64 })) by (nonlinear_arith)
            requires
                s == (Vector3D { x: -388483442i64, y: 0i64, z: 508531426i64 }),
                c == normalize_spec(s)->Some_0,
                norm_sq(s) == 409523595937760840,
                isqrt(409523595937760840) == 639940306,
        ;
    }
    assert(p.center_spec(5) == icosahedron_centers()[5]) by {
        let s = sum3(p.corner(5, 0), p.corner(5, 1), p.corner(5, 2));
        let c = p.center_spec(5);
        assert(s == (Vector3D { x: -628579413i64, y: 0i64, z: 120047985i64 }));
        assert(norm_sq(s) == 409523597149984794) by (nonlinear_arith)
            requires
                s == (Vector3D { x: -628579413i64, y: 0i64, z: 120047985i64 }),
        ;
        assert(is_isqrt(409523597149984794, 639940307)) by (nonlinear_arith);
        lemma_isqrt_is(409523597149984794, 639940307);
        assert(c == (Vector3D { x: -263669907i64, y: 0i64, z: 50356471i64 })) by (nonlinear_arith)
            requires
                s == (Vector3D { x: -628579413i64, y: 0i64, z: 120047985i64 }),
                c == normalize_spec(s)->Some_0,
                norm_sq(s) == 409523597149984794,
                isqrt(409523597149984794) == 639940307,
        ;
    }
    assert(p.center_spec(6) == icosahedron_centers()[6]) by {
        let s = sum3(p.corner(6, 0), p.corner(6, 1), p.corner(6, 2));
        let c = p.center_spec(6);
        assert(s == (Vector3D { x: -120047986i64, y: -369469709i64, z: 508531426i64 }));
        assert(norm_sq(s) == 409523596040794353) by (nonlinear_arith)
            requires
                s == (Vector3D { x: -120047986i64, y: -369469709i64, z: 508531426i64 }),
        ;
        assert(is_isqrt(409523596040794353, 639940306)) by (nonlinear_arith);
        lemma_isqrt_is(409523596040794353, 639940306);
        assert(c == (Vector3D { x: -50356471i64, y: -154981283i64, z: 213313435i64 })) by (nonlinear_arith)
            requires
                s == (Vector3D { x: -120047986i64, y: -369469709i64, z: 508531426i64 }),
                c == normalize_spec(s)->Some_0,
                norm_sq(s) == 409523596040794353,
                isqrt(409523596040794353) == 639940306,
        ;
    }
    assert(p.center_spec(7) == icosahedron_centers()[7]) by {
        let s = sum3(p.corner(7, 0), p.corner(7, 1), p.corner(7, 2));
        let c = p.center_spec(7);
        assert(s == (Vector3D { x: -194241721i64, y: -597814547i64, z: 120047985i64 }));
        assert(norm_sq(s) == 409523597484417275) by (nonlinear_arith)
            requires
                s == (Vector3D { x: -194241721i64, y: -597814547i64, z: 120047985i64 }),
        ;
        assert(is_isqrt(409523597484417275, 639940307)) by (nonlinear_arith);
        lemma_isqrt_is(409523597484417275, 639940307);
        assert(c == (Vector3D { x: -81478482i64, y: -250764983i64, z: 50356471i64 })) by (nonlinear_arith)
            requires
                s == (Vector3D { x: -194241721i64, y: -597814547i64, z: 120047985i64 }),
                c == normalize_spec(s)->Some_0,
                norm_sq(s) == 409523597484417275,
                isqrt(409523597484417275) == 639940307,
        ;
    }
    assert(p.center_spec(8) == icosahedron_centers()[8]) by {
        let s = sum3(p.corner(8, 0), p.corner(8, 1), p.corner(8, 2));
        let c = p.center_spec(8);
        assert(s == (Vector3D { x: 314289706i64, y: -228344838i64, z: 508531426i64 }));
        assert(norm_sq(s) == 409523595568406156) by (nonlinear_arith)
            requires
                s == (Vector3D { x: 314289706i64, y: -228344838i64, z: 508531426i64 }),
        ;
        assert(is_isqrt(409523595568406156, 639940306)) by (nonlinear_arith);
        lemma_isqrt_is(409523595568406156, 639940306);
        assert(c == (Vector3D { x: 131834953i64, y: -95783700i64, z: 213313435i64 })) by (nonlinear_arith)
            requires
                s == (Vector3D { x: 314289706i64, y: -228344838i64, z: 508531426i64 }),
                c == normalize_spec(s)->Some_0,
                norm_sq(s) == 409523595568406156,
                isqrt(409523595568406156) == 639940306,
        ;
    }
    assert(p.center_spec(9) == icosahedron_centers()[9]) by {
        let s = sum3(p.corner(9, 0), p.corner(9, 1), p.corner(9, 2));
        let c = p.center_spec(9);
        assert(s == (Vector3D { x: 508531427i64, y: -369469709i64, z: 120047985i64 }));
        assert(norm_sq(s) == 409523596817761235) by (nonlinear_arith)
            requires
                s == (Vector3D { x: 508531427i64, y: -369469709i64, z: 120047985i64 }),
        ;
        assert(is_isqrt(409523596817761235, 639940307)) by (nonlinear_arith);
        lemma_isqrt_is(409523596817761235, 639940307);
        assert(c == (Vector3D { x: 213313435i64, y: -154981282i64, z: 50356471i64 })) by (nonlinear_arith)
            requires
                s == (Vector3D { x: 508531427i64, y: -369469709i64, z: 120047985i64 }),
                c == normalize_spec(s)->Some_0,
                norm_sq(s) == 409523596817761235,
                isqrt(409523596817761235) == 639940307,
        ;
    }
    assert(p.center_spec(10) == icosahedron_centers()[10]) by {
        let s = sum3(p.corner(10, 0), p.corner(10, 1), p.corner(10, 2));
        let c = p.center_spec(10);
        assert(s == (Vector3D { x: 194241721i64, y: 597814547i64, z: -120047985i64 }));
        assert(norm_sq(s) == 409523597484417275) by (nonlinear_arith)
            requires
                s == (Vector3D { x: 194241721i64, y: 597814547i64, z: -120047985i64 }),
        ;
        assert(is_isqrt(409523597484417275, 639940307)) by (nonlinear_arith);
        lemma_isqrt_is(409523597484417275, 639940307);
        assert(c == (Vector3D { x: 81478482i64, y: 250764983i64, z: -50356471i64 })) by (nonlinear_arith)
            requires
                s == (Vector3D { x: 194241721i64, y: 597814547i64, z: -120047985i64 }),
                c == normalize_spec(s)->Some_0,
                norm_sq(s) == 409523597484417275,
                isqrt(409523597484417275) == 639940307,
        ;
    }
    assert(p.center_spec(11) == icosahedron_centers()[11]) by {
        let s = sum3(p.corner(11, 0), p.corner(11, 1), p.corner(11, 2));
        let c = p.center_spec(11);
        assert(s == (Vector3D { x: 120047986i64, y: 369469709i64, z: -508531426i64 }));
        assert(norm_sq(s) == 409523596040794353) by (nonlinear_arith)
            requires
                s == (Vector3D { x: 120047986i64, y: 369469709i64, z: -508531426i64 }),
        ;
        assert(is_isqrt(409523596040794353, 639940306)) by (nonlinear_arith);
        lemma_isqrt_is(409523596040794353, 639940306);
        assert(c == (Vector3D { x: 50356471i64, y: 154981283i64, z: -213313435i64 })) by (nonlinear_arith)
            requires
                s == (Vector3D { x: 120047986i64, y: 369469709i64, z: -508531426i64 }),
                c == normalize_spec(s)->Some_0,
                norm_sq(s) == 409523596040794353,
                isqrt(409523596040794353) == 639940306,
        ;
    }
    assert(p.center_spec(12) == icosahedron_centers()[12]) by {
        let s = sum3(p.corner(12, 0), p.corner(12, 1), p.corner(12, 2));
        let c = p.center_spec(12);
        assert(s == (Vector3D { x: -508531427i64, y: 369469709i64, z: -120047985i64 }));
        assert(norm_sq(s) == 409523596817761235) by (nonlinear_arith)
            requires
                s == (Vector3D { x: -508531427i64, y: 369469709i64, z: -120047985i64 }),
        ;
        assert(is_isqrt(409523596817761235, 639940307)) by (nonlinear_arith);
        lemma_isqrt_is(409523596817761235, 639940307);
        assert(c == (Vector3D { x: -213313435i64, y: 154981282i64, z: -50356471i64 })) by (nonlinear_arith)
            requires
                s == (Vector3D { x: -508531427i64, y: 369469709i64, z: -120047985i64 }),
                c == normalize_spec(s)->Some_0,
                norm_sq(s) == 409523596817761235,
                isqrt(409523596817761235) == 639940307,
        ;
    }
    assert(p.center_spec(13) == icosahedron_centers()[13]) by {
        let s = sum3(p.corner(13, 0), p.corner(13, 1), p.corner(13, 2));
        let c = p.center_spec(13);
        assert(s == (Vector3D { x: -314289706i64, y: 228344838i64, z: -508531426i64 }));
        assert(norm_sq(s) == 409523595568406156) by (nonlinear_arith)
            requires
                s == (Vector3D { x: -314289706i64, y: 228344838i64, z: -508531426i64 }),
        ;
        assert(is_isqrt(409523595568406156, 639940306)) by (nonlinear_arith);
        lemma_isqrt_is(409523595568406156, 639940306);
        assert(c == (Vector3D { x: -131834953i64, y: 95783700i64, z: -213313435i64 })) by (nonlinear_arith)
            requires
                s == (Vector3D { x: -314289706i64, y: 228344838i64, z: -508531426i64 }),
                c == normalize_spec(s)->Some_0,
                norm_sq(s) == 409523595568406156,
                isqrt(409523595568406156) == 639940306,
        ;
    }
    assert(p.center_spec(14) == icosahedron_centers()[14]) by {
        let s = sum3(p.corner(14, 0), p.corner(14, 1), p.corner(14, 2));
        let c = p.center_spec(14);
        assert(s == (Vector3D { x: -508531427i64, y: -369469709i64, z: -120047985i64 }));
        assert(norm_sq(s) == 409523596817761235) by (nonlinear_arith)
            requires
                s == (Vector3D { x: -508531427i64, y: -369469709i64, z: -120047985i64 }),
        ;
        assert(is_isqrt(409523596817761235, 639940307)) by (nonlinear_arith);
        lemma_isqrt_is(409523596817761235, 639940307);
        assert(c == (Vector3D { x: -213313435i64, y: -154981282i64, z: -50356471i64 })) by (nonlinear_arith)
            requires
                s == (Vector3D { x: -508531427i64, y: -369469709i64, z: -120047985i64 }),
                c == normalize_spec(s)->Some_0,
                norm_sq(s) == 409523596817761235,
                isqrt(409523596817761235) == 639940307,
        ;
    }
    assert(p.center_spec(15) == icosahedron_centers()[15]) by {
        let s = sum3(p.corner(15, 0), p.corner(15, 1), p.corner(15, 2));
        let c = p.center_spec(15);
        assert(s == (Vector3D { x: -314289706i64, y: -228344838i64, z: -508531426i64 }));
        assert(norm_sq(s) == 409523595568406156) by (nonlinear_arith)
            requires
                s == (Vector3D { x: -314289706i64, y: -228344838i64, z: -508531426i64 }),
        ;
        assert(is_isqrt(409523595568406156, 639940306)) by (nonlinear_arith);
        lemma_isqrt_is(409523595568406156, 639940306);
        assert(c == (Vector3D { x: -131834953i64, y: -95783700i64, z: -213313435i64 })) by (nonlinear_arith)
            requires
                s == (Vector3D { x: -314289706i64, y: -228344838i64, z: -508531426i64 }),
                c == normalize_spec(s)->Some_0,
                norm_sq(s) == 409523595568406156,
                isqrt(409523595568406156) == 639940306,
        ;
    }
    assert(p.center_spec(16) == icosahedron_centers()[16]) by {
        let s = sum3(p.corner(16, 0), p.corner(16, 1), p.corner(16, 2));
        let c = p.center_spec(16);
        assert(s == (Vector3D { x: 194241721i64, y: -597814547i64, z: -120047985i64 }));
        assert(norm_sq(s) == 409523597484417275) by (nonlinear_arith)
            requires
                s == (Vector3D { x: 194241721i64, y: -597814547i64, z: -120047985i64 }),
        ;
        assert(is_isqrt(409523597484417275, 639940307)) by (nonlinear_arith);
        lemma_isqrt_is(409523597484417275, 639940307);
        assert(c == (Vector3D { x: 81478482i64, y: -250764983i64, z: -50356471i64 })) by (nonlinear_arith)
            requires
                s == (Vector3D { x: 194241721i64, y: -597814547i64, z: -120047985i64 }),
                c == normalize_spec(s)->Some_0,
                norm_sq(s) == 409523597484417275,
                isqrt(409523597484417275) == 639940307,
        ;
    }
    assert(p.center_spec(17) == icosahedron_centers()[17]) by {
        let s = sum3(p.corner(17, 0), p.corner(17, 1), p.corner(17, 2));
        let c = p.center_spec(17);
        assert(s == (Vector3D { x: 120047986i64, y: -369469709i64, z: -508531426i64 }));
        assert(norm_sq(s) == 409523596040794353) by (nonlinear_arith)
            requires
                s == (Vector3D { x: 120047986i64, y: -369469709i64, z: -508531426i64 }),
        ;
        assert(is_isqrt(409523596040794353, 639940306)) by (nonlinear_arith);
        lemma_isqrt_is(409523596040794353, 639940306);
        assert(c == (Vector3D { x: 50356471i64, y: -154981283i64, z: -213313435i64 })) by (nonlinear_arith)
            requires
                s == (Vector3D { x: 120047986i64, y: -369469709i64, z: -508531426i64 }),
                c == normalize_spec(s)->Some_0,
                norm_sq(s) == 409523596040794353,
                isqrt(409523596040794353) == 639940306,
        ;
    }
    assert(p.center_spec(18) == icosahedron_centers()[18]) by {
        let s = sum3(p.corner(18, 0), p.corner(18, 1), p.corner(18, 2));
        let c = p.center_spec(18);
        assert(s == (Vector3D { x: 628579413i64, y: 0i64, z: -120047985i64 }));
        assert(norm_sq(s) == 409523597149984794) by (nonlinear_arith)
            requires
                s == (Vector3D { x: 628579413i64, y: 0i64, z: -120047985i64 }),
        ;
        assert(is_isqrt(409523597149984794, 639940307)) by (nonlinear_arith);
        lemma_isqrt_is(409523597149984794, 639940307);
        assert(c == (Vector3D { x: 263669907i64, y: 0i64, z: -50356471i64 })) by (nonlinear_arith)
            requires
                s == (Vector3D { x: 628579413i64, y: 0i64, z: -120047985i64 }),
                c == normalize_spec(s)->Some_0,
                norm_sq(s) == 409523597149984794,
                isqrt(409523597149984794) == 639940307,
        ;
    }
    assert(p.center_spec(19) == icosahedron_centers()[19]) by {
        let s = sum3(p.corner(19, 0), p.corner(19, 1), p.corner(19, 2));
        let c = p.center_spec(19);
        assert(s == (Vector3D { x: 388483442i64, y: 0i64, z: -508531426i64 }));
        assert(norm_sq(s) == 409523595937760840) by (nonlinear_arith)
            requires
                s == (Vector3D { x: 388483442i64, y: 0i64, z: -508531426i64 }),
        ;
        assert(is_isqrt(409523595937760840, 639940306)) by (nonlinear_arith);
        lemma_isqrt_is(409523595937760840, 639940306);
        assert(c == (Vector3D { x: 162956964i64, y: 0i64, z: -213313435i64 })) by (nonlinear_arith)
            requires
                s == (Vector3D { x: 388483442i64, y: 0i64, z: -508531426i64 }),
                c == normalize_spec(s)->Some_0,
                norm_sq(s) == 409523595937760840,
                isqrt(409523595937760840) == 639940306,
        ;
    }
    assert forall|f: int| 0 <= f < 20 implies #[trigger] p.center_spec(f) == icosahedron_centers()[f] by {
        assert(f == 0 || f == 1 || f == 2 || f == 3 || f == 4 || f == 5 || f == 6 || f == 7 || f == 8 || f == 9 || f == 10 || f == 11 || f == 12 || f == 13 || f == 14 || f == 15 || f == 16 || f == 17 || f == 18 || f == 19);
    }
}

/// Every face center of the icosahedron is normalized (within 1e-5) and lies
/// in its own face.
pub proof fn lemma_face_centers_valid(p: Polyhedron)
    requires
        p.vertices@ == icosahedron_vertices(),
        p.faces@ == icosahedron_faces(),
    ensures
        forall|f: int| 0 <= f < 20 ==> #[trigger] face_center_valid(p, f),
{
    lemma_icosahedron_centers(p);
    assert(face_center_valid(p, 0)) by {
        let a = p.corner(0, 0);
        let b = p.corner(0, 1);
        let e = p.corner(0, 2);
        let c = p.center_spec(0);
        assert(a == (Vector3D { x: 240095971i64, y: 0i64, z: 120047985i64 }) && b == (Vector3D { x: 0i64, y: 0i64, z: 268435456i64 }) && e == (Vector3D { x: 74193735i64, y: 228344838i64, z: 120047985i64 }));
        assert(c == (Vector3D { x: 131834953i64, y: 95783700i64, z: 213313435i64 }));
        assert(is_normalized(c)) by (nonlinear_arith)
            requires
                c == (Vector3D { x: 131834953i64, y: 95783700i64, z: 213313435i64 }),
        ;
        assert(point_in_triangle(c, a, b, e)) by (nonlinear_arith)
            requires
                c == (Vector3D { x: 131834953i64, y: 95783700i64, z: 213313435i64 }),
                a == (Vector3D { x: 240095971i64, y: 0i64, z: 120047985i64 }),
                b == (Vector3D { x: 0i64, y: 0i64, z: 268435456i64 }),
                e == (Vector3D { x: 74193735i64, y: 228344838i64, z: 120047985i64 }),
        ;
    }
    assert(face_center_valid(p, 1)) by {
        let a = p.corner(1, 0);
        let b = p.corner(1, 1);
        let e = p.corner(1, 2);
        let c = p.center_spec(1);
        assert(a == (Vector3D { x: 240095971i64, y: 0i64, z: 120047985i64 }) && b == (Vector3D { x: 194241721i64, y: 141124871i64, z: -120047985i64 }) && e == (Vector3D { x: 74193735i64, y: 228344838i64, z: 120047985i64 }));
        assert(c == (Vector3D { x: 213313435i64, y: 154981282i64, z: 50356471i64 }));
        assert(is_normalized(c)) by (nonlinear_arith)
            requires
                c == (Vector3D { x: 213313435i64, y: 154981282i64, z: 50356471i64 }),
        ;
        assert(point_in_triangle(c, a, b, e)) by (nonlinear_arith)
            requires
                c == (Vector3D { x: 213313435i64, y: 154981282i64, z: 50356471i64 }),
                a == (Vector3D { x: 240095971i64, y: 0i64, z: 120047985i64 }),
                b == (Vector3D { x: 194241721i64, y: 141124871i64, z: -120047985i64 }),
                e == (Vector3D { x: 74193735i64, y: 228344838i64, z: 120047985i64 }),
        ;
    }
    assert(face_center_valid(p, 2)) by {
        let a = p.corner(2, 0);
        let b = p.corner(2, 1);
        let e = p.corner(2, 2);
        let c = p.center_spec(2);
        assert(a == (Vector3D { x: 74193735i64, y: 228344838i64, z: 120047985i64 }) && b == (Vector3D { x: 0i64, y: 0i64, z: 268435456i64 }) && e == (Vector3D { x: -194241721i64, y: 141124871i64, z: 120047985i64 }));
        assert(c == (Vector3D { x: -50356471i64, y: 154981283i64, z: 213313435i64 }));
        assert(is_normalized(c)) by (nonlinear_arith)
            requires
                c == (Vector3D { x: -50356471i64, y: 154981283i64, z: 213313435i64 }),
        ;
        assert(point_in_triangle(c, a, b, e)) by (nonlinear_arith)
            requires
                c == (Vector3D { x: -50356471i64, y: 154981283i64, z: 213313435i64 }),
                a == (Vector3D { x: 74193735i64, y: 228344838i64, z: 120047985i64 }),
                b == (Vector3D { x: 0i64, y: 0i64, z: 268435456i64 }),
                e == (Vector3D { x: -194241721i64, y: 141124871i64, z: 120047985i64 }),
        ;
    }
    assert(face_center_valid(p, 3)) by {
        let a = p.corner(3, 0);
        let b = p.corner(3, 1);
        let e = p.corner(3, 2);
        let c = p.center_spec(3);
        assert(a == (Vector3D { x: 74193735i64, y: 228344838i64, z: 120047985i64 }) && b == (Vector3D { x: -74193735i64, y: 228344838i64, z: -120047985i64 }) && e == (Vector3D { x: -194241721i64, y: 141124871i64, z: 120047985i64 }));
        assert(c == (Vector3D { x: -81478482i64, y: 250764983i64, z: 50356471i64 }));
        assert(is_normalized(c)) by (nonlinear_arith)
            requires
                c == (Vector3D { x: -81478482i64, y: 250764983i64, z: 50356471i64 }),
        ;
        assert(point_in_triangle(c, a, b, e)) by (nonlinear_arith)
            requires
                c == (Vector3D { x: -81478482i64, y: 250764983i64, z: 50356471i64 }),
                a == (Vector3D { x: 74193735i64, y: 228344838i64, z: 120047985i64 }),
                b == (Vector3D { x: -74193735i64, y: 228344838i64, z: -120047985i64 }),
                e == (Vector3D { x: -194241721i64, y: 141124871i64, z: 120047985i64 }),
        ;
    }
    assert(face_center_valid(p, 4)) by {
        let a = p.corner(4, 0);
        let b = p.corner(4, 1);
        let e = p.corner(4, 2);
        let c = p.center_spec(4);
        assert(a == (Vector3D { x: -194241721i64, y: 141124871i64, z: 120047985i64 }) && b == (Vector3D { x: 0i64, y: 0i64, z: 268435456i64 }) && e == (Vector3D { x: -194241721i64, y: -141124871i64, z: 120047985i64 }));
        assert(c == (Vector3D { x: -162956964i64, y: 0i64, z: 213313435i64 }));
        assert(is_normalized(c)) by (nonlinear_arith)
            requires
                c == (Vector3D { x: -162956964i64, y: 0i64, z: 213313435i64 }),
        ;
        assert(point_in_triangle(c, a, b, e)) by (nonlinear_arith)
            requires
                c == (Vector3D { x: -162956964i64, y: 0i64, z: 213313435i64 }),
                a == (Vector3D { x: -194241721i64, y: 141124871i64, z: 120047985i64 }),
                b == (Vector3D { x: 0i64, y: 0i64, z: 268435456i64 }),
                e == (Vector3D { x: -194241721i64, y: -141124871i64, z: 120047985i64 }),
        ;
    }
    assert(face_center_valid(p, 5)) by {
        let a = p.corner(5, 0);
        let b = p.corner(5, 1);
        let e = p.corner(5, 2);
        let c = p.center_spec(5);
        assert(a == (Vector3D { x: -194241721i64, y: 141124871i64, z: 120047985i64 }) && b == (Vector3D { x: -240095971i64, y: 0i64, z: -120047985i64 }) && e == (Vector3D { x: -194241721i64, y: -141124871i64, z: 120047985i64 }));
        assert(c == (Vector3D { x: -263669907i64, y: 0i64, z: 50356471i64 }));
        assert(is_normalized(c)) by (nonlinear_arith)
            requires
                c == (Vector3D { x: -263669907i64, y: 0i64, z: 50356471i64 }),
        ;
        assert(point_in_triangle(c, a, b, e)) by (nonlinear_arith)
            requires
                c == (Vector3D { x: -263669907i64, y: 0i64, z: 50356471i64 }),
                a == (Vector3D { x: -194241721i64, y: 141124871i64, z: 120047985i64 }),
                b == (Vector3D { x: -240095971i64, y: 0i64, z: -120047985i64 }),
                e == (Vector3D { x: -194241721i64, y: -141124871i64, z: 120047985i64 }),
        ;
    }
    assert(face_center_valid(p, 6)) by {
        let a = p.corner(6, 0);
        let b = p.corner(6, 1);
        let e = p.corner(6, 2);
        let c = p.center_spec(6);
        assert(a == (Vector3D { x: -194241721i64, y: -141124871i64, z: 120047985i64 }) && b == (Vector3D { x: 0i64, y: 0i64, z: 268435456i64 }) && e == (Vector3D { x: 74193735i64, y: -228344838i64, z: 120047985i64 }));
        assert(c == (Vector3D { x: -50356471i64, y: -154981283i64, z: 213313435i64 }));
        assert(is_normalized(c)) by (nonlinear_arith)
            requires
                c == (Vector3D { x: -50356471i64, y: -154981283i64, z: 213313435i64 }),
        ;
        assert(point_in_triangle(c, a, b, e)) by (nonlinear_arith)
            requires
                c == (Vector3D { x: -50356471i64, y: -154981283i64, z: 213313435i64 }),
                a == (Vector3D { x: -194241721i64, y: -141124871i64, z: 120047985i64 }),
                b == (Vector3D { x: 0i64, y: 0i64, z: 268435456i64 }),
                e == (Vector3D { x: 74193735i64, y: -228344838i64, z: 120047985i64 }),
        ;
    }
    assert(face_center_valid(p, 7)) by {
        let a = p.corner(7, 0);
        let b = p.corner(7, 1);
        let e = p.corner(7, 2);
        let c = p.center_spec(7);
        assert(a == (Vector3D { x: -194241721i64, y: -141124871i64, z: 120047985i64 }) && b == (Vector3D { x: -74193735i64, y: -228344838i64, z: -120047985i64 }) && e == (Vector3D { x: 74193735i64, y: -228344838i64, z: 120047985i64 }));
        assert(c == (Vector3D { x: -81478482i64, y: -250764983i64, z: 50356471i64 }));
        assert(is_normalized(c)) by (nonlinear_arith)
            requires
                c == (Vector3D { x: -81478482i64, y: -250764983i64, z: 50356471i64 }),
        ;
        assert(point_in_triangle(c, a, b, e)) by (nonlinear_arith)
            requires
                c == (Vector3D { x: -81478482i64, y: -250764983i64, z: 50356471i64 }),
                a == (Vector3D { x: -194241721i64, y: -141124871i64, z: 120047985i64 }),
                b == (Vector3D { x: -74193735i64, y: -228344838i64, z: -120047985i64 }),
                e == (Vector3D { x: 74193735i64, y: -228344838i64, z: 120047985i64 }),
        ;
    }
    assert(face_center_valid(p, 8)) by {
        let a = p.corner(8, 0);
        let b = p.corner(8, 1);
        let e = p.corner(8, 2);
        let c = p.center_spec(8);
        assert(a == (Vector3D { x: 74193735i64, y: -228344838i64, z: 120047985i64 }) && b == (Vector3D { x: 0i64, y: 0i64, z: 268435456i64 }) && e == (Vector3D { x: 240095971i64, y: 0i64, z: 120047985i64 }));
        assert(c == (Vector3D { x: 131834953i64, y: -95783700i64, z: 213313435i64 }));
        assert(is_normalized(c)) by (nonlinear_arith)
            requires
                c == (Vector3D { x: 131834953i64, y: -95783700i64, z: 213313435i64 }),
        ;
        assert(point_in_triangle(c, a, b, e)) by (nonlinear_arith)
            requires
                c == (Vector3D { x: 131834953i64, y: -95783700i64, z: 213313435i64 }),
                a == (Vector3D { x: 74193735i64, y: -228344838i64, z: 120047985i64 }),
                b == (Vector3D { x: 0i64, y: 0i64, z: 268435456i64 }),
                e == (Vector3D { x: 240095971i64, y: 0i64, z: 120047985i64 }),
        ;
    }
    assert(face_center_valid(p, 9)) by {
        let a = p.corner(9, 0);
        let b = p.corner(9, 1);
        let e = p.corner(9, 2);
        let c = p.center_spec(9);
        assert(a == (Vector3D { x: 74193735i64, y: -228344838i64, z: 120047985i64 }) && b == (Vector3D { x: 194241721i64, y: -141124871i64, z: -120047985i64 }) && e == (Vector3D { x: 240095971i64, y: 0i64, z: 120047985i64 }));
        assert(c == (Vector3D { x: 213313435i64, y: -154981282i64, z: 50356471i64 }));
        assert(is_normalized(c)) by (nonlinear_arith)
            requires
                c == (Vector3D { x: 213313435i64, y: -154981282i64, z: 50356471i64 }),
        ;
        assert(point_in_triangle(c, a, b, e)) by (nonlinear_arith)
            requires
                c == (Vector3D { x: 213313435i64, y: -154981282i64, z: 50356471i64 }),
                a == (Vector3D { x: 74193735i64, y: -228344838i64, z: 120047985i64 }),
                b == (Vector3D { x: 194241721i64, y: -141124871i64, z: -120047985i64 }),
                e == (Vector3D { x: 240095971i64, y: 0i64, z: 120047985i64 }),
        ;
    }
    assert(face_center_valid(p, 10)) by {
        let a = p.corner(10, 0);
        let b = p.corner(10, 1);
        let e = p.corner(10, 2);
        let c = p.center_spec(10);
        assert(a == (Vector3D { x: 194241721i64, y: 141124871i64, z: -120047985i64 }) && b == (Vector3D { x: 74193735i64, y: 228344838i64, z: 120047985i64 }) && e == (Vector3D { x: -74193735i64, y: 228344838i64, z: -120047985i64 }));
        assert(c == (Vector3D { x: 81478482i64, y: 250764983i64, z: -50356471i64 }));
        assert(is_normalized(c)) by (nonlinear_arith)
            requires
                c == (Vector3D { x: 81478482i64, y: 250764983i64, z: -50356471i64 }),
        ;
        assert(point_in_triangle(c, a, b, e)) by (nonlinear_arith)
            requires
                c == (Vector3D { x: 81478482i64, y: 250764983i64, z: -50356471i64 }),
                a == (Vector3D { x: 194241721i64, y: 141124871i64, z: -120047985i64 }),
                b == (Vector3D { x: 74193735i64, y: 228344838i64, z: 120047985i64 }),
                e == (Vector3D { x: -74193735i64, y: 228344838i64, z: -120047985i64 }),
        ;
    }
    assert(face_center_valid(p, 11)) by {
        let a = p.corner(11, 0);
        let b = p.corner(11, 1);
        let e = p.corner(11, 2);
        let c = p.center_spec(11);
        assert(a == (Vector3D { x: 194241721i64, y: 141124871i64, z: -120047985i64 }) && b == (Vector3D { x: 0i64, y: 0i64, z: -268435456i64 }) && e == (Vector3D { x: -74193735i64, y: 228344838i64, z: -120047985i64 }));
        assert(c == (Vector3D { x: 50356471i64, y: 154981283i64, z: -213313435i64 }));
        assert(is_normalized(c)) by (nonlinear_arith)
            requires
                c == (Vector3D { x: 50356471i64, y: 154981283i64, z: -213313435i64 }),
        ;
        assert(point_in_triangle(c, a, b, e)) by (nonlinear_arith)
            requires
                c == (Vector3D { x: 50356471i64, y: 154981283i64, z: -213313435i64 }),
                a == (Vector3D { x: 194241721i64, y: 141124871i64, z: -120047985i64 }),
                b == (Vector3D { x: 0i64, y: 0i64, z: -268435456i64 }),
                e == (Vector3D { x: -74193735i64, y: 228344838i64, z: -120047985i64 }),
        ;
    }
    assert(face_center_valid(p, 12)) by {
        let a = p.corner(12, 0);
        let b = p.corner(12, 1);
        let e = p.corner(12, 2);
        let c = p.center_spec(12);
        assert(a == (Vector3D { x: -74193735i64, y: 228344838i64, z: -120047985i64 }) && b == (Vector3D { x: -194241721i64, y: 141124871i64, z: 120047985i64 }) && e == (Vector3D { x: -240095971i64, y: 0i64, z: -120047985i64 }));
        assert(c == (Vector3D { x: -213313435i64, y: 154981282i64, z: -50356471i64 }));
        assert(is_normalized(c)) by (nonlinear_arith)
            requires
                c == (Vector3D { x: -213313435i64, y: 154981282i64, z: -50356471i64 }),
        ;
        assert(point_in_triangle(c, a, b, e)) by (nonlinear_arith)
            requires
                c == (Vector3D { x: -213313435i64, y: 154981282i64, z: -50356471i64 }),
                a == (Vector3D { x: -74193735i64, y: 228344838i64, z: -120047985i64 }),
                b == (Vector3D { x: -194241721i64, y: 141124871i64, z: 120047985i64 }),
                e == (Vector3D { x: -240095971i64, y: 0i64, z: -120047985i64 }),
        ;
    }
    assert(face_center_valid(p, 13)) by {
        let a = p.corner(13, 0);
        let b = p.corner(13, 1);
        let e = p.corner(13, 2);
        let c = p.center_spec(13);
        assert(a == (Vector3D { x: -74193735i64, y: 228344838i64, z: -120047985i64 }) && b == (Vector3D { x: 0i64, y: 0i64, z: -268435456i64 }) && e == (Vector3D { x: -240095971i64, y: 0i64, z: -120047985i64 }));
        assert(c == (Vector3D { x: -131834953i64, y: 95783700i64, z: -213313435i64 }));
        assert(is_normalized(c)) by (nonlinear_arith)
            requires
                c == (Vector3D { x: -131834953i64, y: 95783700i64, z: -213313435i64 }),
        ;
        assert(point_in_triangle(c, a, b, e)) by (nonlinear_arith)
            requires
                c == (Vector3D { x: -131834953i64, y: 95783700i64, z: -213313435i64 }),
                a == (Vector3D { x: -74193735i64, y: 228344838i64, z: -120047985i64 }),
                b == (Vector3D { x: 0i64, y: 0i64, z: -268435456i64 }),
                e == (Vector3D { x: -240095971i64, y: 0i64, z: -120047985i64 }),
        ;
    }
    assert(face_center_valid(p, 14)) by {
        let a = p.corner(14, 0);
        let b = p.corner(14, 1);
        let e = p.corner(14, 2);
        let c = p.center_spec(14);
        assert(a == (Vector3D { x: -240095971i64, y: 0i64, z: -120047985i64 }) && b == (Vector3D { x: -194241721i64, y: -141124871i64, z: 120047985i64 }) && e == (Vector3D { x: -74193735i64, y: -228344838i64, z: -120047985i64 }));
        assert(c == (Vector3D { x: -213313435i64, y: -154981282i64, z: -50356471i64 }));
        assert(is_normalized(c)) by (nonlinear_arith)
            requires
                c == (Vector3D { x: -213313435i64, y: -154981282i64, z: -50356471i64 }),
        ;
        assert(point_in_triangle(c, a, b, e)) by (nonlinear_arith)
            requires
                c == (Vector3D { x: -213313435i64, y: -154981282i64, z: -50356471i64 }),
                a == (Vector3D { x: -240095971i64, y: 0i64, z: -120047985i64 }),
                b == (Vector3D { x: -194241721i64, y: -141124871i64, z: 120047985i64 }),
                e == (Vector3D { x: -74193735i64, y: -228344838i64, z: -120047985i64 }),
        ;
    }
    assert(face_center_valid(p, 15)) by {
        let a = p.corner(15, 0);
        let b = p.corner(15, 1);
        let e = p.corner(15, 2);
        let c = p.center_spec(15);
        assert(a == (Vector3D { x: -240095971i64, y: 0i64, z: -120047985i64 }) && b == (Vector3D { x: 0i64, y: 0i64, z: -268435456i64 }) && e == (Vector3D { x: -74193735i64, y: -228344838i64, z: -120047985i64 }));
        assert(c == (Vector3D { x: -131834953i64, y: -95783700i64, z: -213313435i64 }));
        assert(is_normalized(c)) by (nonlinear_arith)
            requires
                c == (Vector3D { x: -131834953i64, y: -95783700i64, z: -213313435i64 }),
        ;
        assert(point_in_triangle(c, a, b, e)) by (nonlinear_arith)
            requires
                c == (Vector3D { x: -131834953i64, y: -95783700i64, z: -213313435i64 }),
                a == (Vector3D { x: -240095971i64, y: 0i64, z: -120047985i64 }),
                b == (Vector3D { x: 0i64, y: 0i64, z: -268435456i64 }),
                e == (Vector3D { x: -74193735i64, y: -228344838i64, z: -120047985i64 }),
        ;
    }
    assert(face_center_valid(p, 16)) by {
        let a = p.corner(16, 0);
        let b = p.corner(16, 1);
        let e = p.corner(16, 2);
        let c = p.center_spec(16);
        assert(a == (Vector3D { x: -74193735i64, y: -228344838i64, z: -120047985i64 }) && b == (Vector3D { x: 74193735i64, y: -228344838i64, z: 120047985i64 }) && e == (Vector3D { x: 194241721i64, y: -141124871i64, z: -120047985i64 }));
        assert(c == (Vector3D { x: 81478482i64, y: -250764983i64, z: -50356471i64 }));
        assert(is_normalized(c)) by (nonlinear_arith)
            requires
                c == (Vector3D { x: 81478482i64, y: -250764983i64, z: -50356471i64 }),
        ;
        assert(point_in_triangle(c, a, b, e)) by (nonlinear_arith)
            requires
                c == (Vector3D { x: 81478482i64, y: -250764983i64, z: -50356471i64 }),
                a == (Vector3D { x: -74193735i64, y: -228344838i64, z: -120047985i64 }),
                b == (Vector3D { x: 74193735i64, y: -228344838i64, z: 120047985i64 }),
                e == (Vector3D { x: 194241721i64, y: -141124871i64, z: -120047985i64 }),
        ;
    }
    assert(face_center_valid(p, 17)) by {
        let a = p.corner(17, 0);
        let b = p.corner(17, 1);
        let e = p.corner(17, 2);
        let c = p.center_spec(17);
        assert(a == (Vector3D { x: -74193735i64, y: -228344838i64, z: -120047985i64 }) && b == (Vector3D { x: 0i64, y: 0i64, z: -268435456i64 }) && e == (Vector3D { x: 194241721i64, y: -141124871i64, z: -120047985i64 }));
        assert(c == (Vector3D { x: 50356471i64, y: -154981283i64, z: -213313435i64 }));
        assert(is_normalized(c)) by (nonlinear_arith)
            requires
                c == (Vector3D { x: 50356471i64, y: -154981283i64, z: -213313435i64 }),
        ;
        assert(point_in_triangle(c, a, b, e)) by (nonlinear_arith)
            requires
                c == (Vector3D { x: 50356471i64, y: -154981283i64, z: -213313435i64 }),
                a == (Vector3D { x: -74193735i64, y: -228344838i64, z: -120047985i64 }),
                b == (Vector3D { x: 0i64, y: 0i64, z: -268435456i64 }),
                e == (Vector3D { x: 194241721i64, y: -141124871i64, z: -120047985i64 }),
        ;
    }
    assert(face_center_valid(p, 18)) by {
        let a = p.corner(18, 0);
        let b = p.corner(18, 1);
        let e = p.corner(18, 2);
        let c = p.center_spec(18);
        assert(a == (Vector3D { x: 194241721i64, y: -141124871i64, z: -120047985i64 }) && b == (Vector3D { x: 240095971i64, y: 0i64, z: 120047985i64 }) && e == (Vector3D { x: 194241721i64, y: 141124871i64, z: -120047985i64 }));
        assert(c == (Vector3D { x: 263669907i64, y: 0i64, z: -50356471i64 }));
        assert(is_normalized(c)) by (nonlinear_arith)
            requires
                c == (Vector3D { x: 263669907i64, y: 0i64, z: -50356471i64 }),
        ;
        assert(point_in_triangle(c, a, b, e)) by (nonlinear_arith)
            requires
                c == (Vector3D { x: 263669907i64, y: 0i64, z: -50356471i64 }),
                a == (Vector3D { x: 194241721i64, y: -141124871i64, z: -120047985i64 }),
                b == (Vector3D { x: 240095971i64, y: 0i64, z: 120047985i64 }),
                e == (Vector3D { x: 194241721i64, y: 141124871i64, z: -120047985i64 }),
        ;
    }
    assert(face_center_valid(p, 19)) by {
        let a = p.corner(19, 0);
        let b = p.corner(19, 1);
        let e = p.corner(19, 2);
        let c = p.center_spec(19);
        assert(a == (Vector3D { x: 194241721i64, y: -141124871i64, z: -120047985i64 }) && b == (Vector3D { x: 0i64, y: 0i64, z: -268435456i64 }) && e == (Vector3D { x: 194241721i64, y: 141124871i64, z: -120047985i64 }));
        assert(c == (Vector3D { x: 162956964i64, y: 0i64, z: -213313435i64 }));
        assert(is_normalized(c)) by (nonlinear_arith)
            requires
                c == (Vector3D { x: 162956964i64, y: 0i64, z: -213313435i64 }),
        ;
        assert(point_in_triangle(c, a, b, e)) by (nonlinear_arith)
            requires
                c == (Vector3D { x: 162956964i64, y: 0i64, z: -213313435i64 }),
                a == (Vector3D { x: 194241721i64, y: -141124871i64, z: -120047985i64 }),
                b == (Vector3D { x: 0i64, y: 0i64, z: -268435456i64 }),
                e == (Vector3D { x: 194241721i64, y: 141124871i64, z: -120047985i64 }),
        ;
    }
    assert forall|f: int| 0 <= f < 20 implies #[trigger] face_center_valid(p, f) by {
        assert(f == 0 || f == 1 || f == 2 || f == 3 || f == 4 || f == 5 || f == 6 || f == 7 || f == 8 || f == 9 || f == 10 || f == 11 || f == 12 || f == 13 || f == 14 || f == 15 || f == 16 || f == 17 || f == 18 || f == 19);
    }
}

} // verus!

verus! {

/// `ONE * ONE / sqrt(5)`, rounded: the dot product of two neighbouring
/// vertices of a regular icosahedron of unit radius (the cosine of
/// `atan(2)`), in fixed point.
pub const EDGE_DOT: i64 = 32225135712778084;

/// The two ends of edge `k` of face `f` are neighbours of a regular
/// icosahedron: their dot product lies within `ONE * ONE / 100000` of
/// `ONE * ONE / sqrt(5)`.
pub open spec fn is_regular_edge(f: int, k: int) -> bool {
    let a = icosahedron_corner(f, k);
    let b = icosahedron_corner(f, if k == 2 { 0 } else { k + 1 });
    abs(dot_spec(a, b) - EDGE_DOT) <= (ONE * ONE) / 100000
}

/// Every edge of every face joins two vertices at the angle `atan(2)` of a
/// regular icosahedron, within tolerance.
pub proof fn lemma_icosahedron_regular()
    ensures
        forall|f: int, k: int| 0 <= f < 20 && 0 <= k < 3 ==> #[trigger] is_regular_edge(f, k),
{
    assert(is_regular_edge(0, 0)) by {
        let a = icosahedron_corner(0, 0);
        let b = icosahedron_corner(0, 1);
        assert(a == (Vector3D { x: 240095971i64, y: 0i64, z: 120047985i64 }) && b == (Vector3D { x: 0i64, y: 0i64, z: 268435456i64 }));
        assert(abs(dot_spec(a, b) - EDGE_DOT) <= (ONE * ONE) / 100000) by (nonlinear_arith)
            requires
                a == (Vector3D { x: 240095971i64, y: 0i64, z: 120047985i64 }),
                b == (Vector3D { x: 0i64, y: 0i64, z: 268435456i64 }),
        ;
    }
    assert(is_regular_edge(0, 1)) by {
        let a = icosahedron_corner(0, 1);
        let b = icosahedron_corner(0, 2);
        assert(a == (Vector3D { x: 0i64, y: 0i64, z: 268435456i64 }) && b == (Vector3D { x: 74193735i64, y: 228344838i64, z: 120047985i64 }));
        assert(abs(dot_spec(a, b) - EDGE_DOT) <= (ONE * ONE) / 100000) by (nonlinear_arith)
            requires
                a == (Vector3D { x: 0i64, y: 0i64, z: 268435456i64 }),
                b == (Vector3D { x: 74193735i64, y: 228344838i64, z: 120047985i64 }),
        ;
    }
    assert(is_regular_edge(0, 2)) by {
        let a = icosahedron_corner(0, 2);
        let b = icosahedron_corner(0, 0);
        assert(a == (Vector3D { x: 74193735i64, y: 228344838i64, z: 120047985i64 }) && b == (Vector3D { x: 240095971i64, y: 0i64, z: 120047985i64 }));
        assert(abs(dot_spec(a, b) - EDGE_DOT) <= (ONE * ONE) / 100000) by (nonlinear_arith)
            requires
                a == (Vector3D { x: 74193735i64, y: 228344838i64, z: 120047985i64 }),
                b == (Vector3D { x: 240095971i64, y: 0i64, z: 120047985i64 }),
        ;
    }
    assert(is_regular_edge(1, 0)) by {
        let a = icosahedron_corner(1, 0);
        let b = icosahedron_corner(1, 1);
        assert(a == (Vector3D { x: 240095971i64, y: 0i64, z: 120047985i64 }) && b == (Vector3D { x: 194241721i64, y: 141124871i64, z: -120047985i64 }));
        assert(abs(dot_spec(a, b) - EDGE_DOT) <= (ONE * ONE) / 100000) by (nonlinear_arith)
            requires
                a == (Vector3D { x: 240095971i64, y: 0i64, z: 120047985i64 }),
                b == (Vector3D { x: 194241721i64, y: 141124871i64, z: -120047985i64 }),
        ;
    }
    assert(is_regular_edge(1, 1)) by {
        let a = icosahedron_corner(1, 1);
        let b = icosahedron_corner(1, 2);
        assert(a == (Vector3D { x: 194241721i64, y: 141124871i64, z: -120047985i64 }) && b == (Vector3D { x: 74193735i64, y: 228344838i64, z: 120047985i64 }));
        assert(abs(dot_spec(a, b) - EDGE_DOT) <= (ONE * ONE) / 100000) by (nonlinear_arith)
            requires
                a == (Vector3D { x: 194241721i64, y: 141124871i64, z: -120047985i64 }),
                b == (Vector3D { x: 74193735i64, y: 228344838i64, z: 120047985i64 }),
        ;
    }
    assert(is_regular_edge(1, 2)) by {
        let a = icosahedron_corner(1, 2);
        let b = icosahedron_corner(1, 0);
        assert(a == (Vector3D { x: 74193735i64, y: 228344838i64, z: 120047985i64 }) && b == (Vector3D { x: 240095971i64, y: 0i64, z: 120047985i64 }));
        assert(abs(dot_spec(a, b) - EDGE_DOT) <= (ONE * ONE) / 100000) by (nonlinear_arith)
            requires
                a == (Vector3D { x: 74193735i64, y: 228344838i64, z: 120047985i64 }),
                b == (Vector3D { x: 240095971i64, y: 0i64, z: 120047985i64 }),
        ;
    }
    assert(is_regular_edge(2, 0)) by {
        let a = icosahedron_corner(2, 0);
        let b = icosahedron_corner(2, 1);
        assert(a == (Vector3D { x: 74193735i64, y: 228344838i64, z: 120047985i64 }) && b == (Vector3D { x: 0i64, y: 0i64, z: 268435456i64 }));
        assert(abs(dot_spec(a, b) - EDGE_DOT) <= (ONE * ONE) / 100000) by (nonlinear_arith)
            requires
                a == (Vector3D { x: 74193735i64, y: 228344838i64, z: 120047985i64 }),
                b == (Vector3D { x: 0i64, y: 0i64, z: 268435456i64 }),
        ;
    }
    assert(is_regular_edge(2, 1)) by {
        let a = icosahedron_corner(2, 1);
        let b = icosahedron_corner(2, 2);
        assert(a == (Vector3D { x: 0i64, y: 0i64, z: 268435456i64 }) && b == (Vector3D { x: -194241721i64, y: 141124871i64, z: 120047985i64 }));
        assert(abs(dot_spec(a, b) - EDGE_DOT) <= (ONE * ONE) / 100000) by (nonlinear_arith)
            requires
                a == (Vector3D { x: 0i64, y: 0i64, z: 268435456i64 }),
                b == (Vector3D { x: -194241721i64, y: 141124871i64, z: 120047985i64 }),
        ;
    }
    assert(is_regular_edge(2, 2)) by {
        let a = icosahedron_corner(2, 2);
        let b = icosahedron_corner(2, 0);
        assert(a == (Vector3D { x: -194241721i64, y: 141124871i64, z: 120047985i64 }) && b == (Vector3D { x: 74193735i64, y: 228344838i64, z: 120047985i64 }));
        assert(abs(dot_spec(a, b) - EDGE_DOT) <= (ONE * ONE) / 100000) by (nonlinear_arith)
            requires
                a == (Vector3D { x: -194241721i64, y: 141124871i64, z: 120047985i64 }),
                b == (Vector3D { x: 74193735i64, y: 228344838i64, z: 120047985i64 }),
        ;
    }
    assert(is_regular_edge(3, 0)) by {
        let a = icosahedron_corner(3, 0);
        let b = icosahedron_corner(3, 1);
        assert(a == (Vector3D { x: 74193735i64, y: 228344838i64, z: 120047985i64 }) && b == (Vector3D { x: -74193735i64, y: 228344838i64, z: -120047985i64 }));
        assert(abs(dot_spec(a, b) - EDGE_DOT) <= (ONE * ONE) / 100000) by (nonlinear_arith)
            requires
                a == (Vector3D { x: 74193735i64, y: 228344838i64, z: 120047985i64 }),
                b == (Vector3D { x: -74193735i64, y: 228344838i64, z: -120047985i64 }),
        ;
    }
    assert(is_regular_edge(3, 1)) by {
        let a = icosahedron_corner(3, 1);
        let b = icosahedron_corner(3, 2);
        assert(a == (Vector3D { x: -74193735i64, y: 228344838i64, z: -120047985i64 }) && b == (Vector3D { x: -194241721i64, y: 141124871i64, z: 120047985i64 }));
        assert(abs(dot_spec(a, b) - EDGE_DOT) <= (ONE * ONE) / 100000) by (nonlinear_arith)
            requires
                a == (Vector3D { x: -74193735i64, y: 228344838i64, z: -120047985i64 }),
                b == (Vector3D { x: -194241721i64, y: 141124871i64, z: 120047985i64 }),
        ;
    }
    assert(is_regular_edge(3, 2)) by {
        let a = icosahedron_corner(3, 2);
        let b = icosahedron_corner(3, 0);
        assert(a == (Vector3D { x: -194241721i64, y: 141124871i64, z: 120047985i64 }) && b == (Vector3D { x: 74193735i64, y: 228344838i64, z: 120047985i64 }));
        assert(abs(dot_spec(a, b) - EDGE_DOT) <= (ONE * ONE) / 100000) by (nonlinear_arith)
            requires
                a == (Vector3D { x: -194241721i64, y: 141124871i64, z: 120047985i64 }),
                b == (Vector3D { x: 74193735i64, y: 228344838i64, z: 120047985i64 }),
        ;
    }
    assert(is_regular_edge(4, 0)) by {
        let a = icosahedron_corner(4, 0);
        let b = icosahedron_corner(4, 1);
        assert(a == (Vector3D { x: -194241721i64, y: 141124871i64, z: 120047985i64 }) && b == (Vector3D { x: 0i64, y: 0i64, z: 268435456i64 }));
        assert(abs(dot_spec(a, b) - EDGE_DOT) <= (ONE * ONE) / 100000) by (nonlinear_arith)
            requires
                a == (Vector3D { x: -194241721i64, y: 141124871i64, z: 120047985i64 }),
                b == (Vector3D { x: 0i64, y: 0i64, z: 268435456i64 }),
        ;
    }
    assert(is_regular_edge(4, 1)) by {
        let a = icosahedron_corner(4, 1);
        let b = icosahedron_corner(4, 2);
        assert(a == (Vector3D { x: 0i64, y: 0i64, z: 268435456i64 }) && b == (Vector3D { x: -194241721i64, y: -141124871i64, z: 120047985i64 }));
        assert(abs(dot_spec(a, b) - EDGE_DOT) <= (ONE * ONE) / 100000) by (nonlinear_arith)
            requires
                a == (Vector3D { x: 0i64, y: 0i64, z: 268435456i64 }),
                b == (Vector3D { x: -194241721i64, y: -141124871i64, z: 120047985i64 }),
        ;
    }
    assert(is_regular_edge(4, 2)) by {
        let a = icosahedron_corner(4, 2);
        let b = icosahedron_corner(4, 0);
        assert(a == (Vector3D { x: -194241721i64, y: -141124871i64, z: 120047985i64 }) && b == (Vector3D { x: -194241721i64, y: 141124871i64, z: 120047985i64 }));
        assert(abs(dot_spec(a, b) - EDGE_DOT) <= (ONE * ONE) / 100000) by (nonlinear_arith)
            requires
                a == (Vector3D { x: -194241721i64, y: -141124871i64, z: 120047985i64 }),
                b == (Vector3D { x: -194241721i64, y: 141124871i64, z: 120047985i64 }),
        ;
    }
    assert(is_regular_edge(5, 0)) by {
        let a = icosahedron_corner(5, 0);
        let b = icosahedron_corner(5, 1);
        assert(a == (Vector3D { x: -194241721i64, y: 141124871i64, z: 120047985i64 }) && b == (Vector3D { x: -240095971i64, y: 0i64, z: -120047985i64 }));
        assert(abs(dot_spec(a, b) - EDGE_DOT) <= (ONE * ONE) / 100000) by (nonlinear_arith)
            requires
                a == (Vector3D { x: -194241721i64, y: 141124871i64, z: 120047985i64 }),
                b == (Vector3D { x: -240095971i64, y: 0i64, z: -120047985i64 }),
        ;
    }
    assert(is_regular_edge(5, 1)) by {
        let a = icosahedron_corner(5, 1);
        let b = icosahedron_corner(5, 2);
        assert(a == (Vector3D { x: -240095971i64, y: 0i64, z: -120047985i64 }) && b == (Vector3D { x: -194241721i64, y: -141124871i64, z: 120047985i64 }));
        assert(abs(dot_spec(a, b) - EDGE_DOT) <= (ONE * ONE) / 100000) by (nonlinear_arith)
            requires
                a == (Vector3D { x: -240095971i64, y: 0i64, z: -120047985i64 }),
                b == (Vector3D { x: -194241721i64, y: -141124871i64, z: 120047985i64 }),
        ;
    }
    assert(is_regular_edge(5, 2)) by {
        let a = icosahedron_corner(5, 2);
        let b = icosahedron_corner(5, 0);
        assert(a == (Vector3D { x: -194241721i64, y: -141124871i64, z: 120047985i64 }) && b == (Vector3D { x: -194241721i64, y: 141124871i64, z: 120047985i64 }));
        assert(abs(dot_spec(a, b) - EDGE_DOT) <= (ONE * ONE) / 100000) by (nonlinear_arith)
            requires
                a == (Vector3D { x: -194241721i64, y: -141124871i64, z: 120047985i64 }),
                b == (Vector3D { x: -194241721i64, y: 141124871i64, z: 120047985i64 }),
        ;
    }
    assert(is_regular_edge(6, 0)) by {
        let a = icosahedron_corner(6, 0);
        let b = icosahedron_corner(6, 1);
        assert(a == (Vector3D { x: -194241721i64, y: -141124871i64, z: 120047985i64 }) && b == (Vector3D { x: 0i64, y: 0i64, z: 268435456i64 }));
        assert(abs(dot_spec(a, b) - EDGE_DOT) <= (ONE * ONE) / 100000) by (nonlinear_arith)
            requires
                a == (Vector3D { x: -194241721i64, y: -141124871i64, z: 120047985i64 }),
                b == (Vector3D { x: 0i64, y: 0i64, z: 268435456i64 }),
        ;
    }
    assert(is_regular_edge(6, 1)) by {
        let a = icosahedron_corner(6, 1);
        let b = icosahedron_corner(6, 2);
        assert(a == (Vector3D { x: 0i64, y: 0i64, z: 268435456i64 }) && b == (Vector3D { x: 74193735i64, y: -228344838i64, z: 120047985i64 }));
        assert(abs(dot_spec(a, b) - EDGE_DOT) <= (ONE * ONE) / 100000) by (nonlinear_arith)
            requires
                a == (Vector3D { x: 0i64, y: 0i64, z: 268435456i64 }),
                b == (Vector3D { x: 74193735i64, y: -228344838i64, z: 120047985i64 }),
        ;
    }
    assert(is_regular_edge(6, 2)) by {
        let a = icosahedron_corner(6, 2);
        let b = icosahedron_corner(6, 0);
        assert(a == (Vector3D { x: 74193735i64, y: -228344838i64, z: 120047985i64 }) && b == (Vector3D { x: -194241721i64, y: -141124871i64, z: 120047985i64 }));
        assert(abs(dot_spec(a, b) - EDGE_DOT) <= (ONE * ONE) / 100000) by (nonlinear_arith)
            requires
                a == (Vector3D { x: 74193735i64, y: -228344838i64, z: 120047985i64 }),
                b == (Vector3D { x: -194241721i64, y: -141124871i64, z: 120047985i64 }),
        ;
    }
    assert(is_regular_edge(7, 0)) by {
        let a = icosahedron_corner(7, 0);
        let b = icosahedron_corner(7, 1);
        assert(a == (Vector3D { x: -194241721i64, y: -141124871i64, z: 120047985i64 }) && b == (Vector3D { x: -74193735i64, y: -228344838i64, z: -120047985i64 }));
        assert(abs(dot_spec(a, b) - EDGE_DOT) <= (ONE * ONE) / 100000) by (nonlinear_arith)
            requires
                a == (Vector3D { x: -194241721i64, y: -141124871i64, z: 120047985i64 }),
                b == (Vector3D { x: -74193735i64, y: -228344838i64, z: -120047985i64 }),
        ;
    }
    assert(is_regular_edge(7, 1)) by {
        let a = icosahedron_corner(7, 1);
        let b = icosahedron_corner(7, 2);
        assert(a == (Vector3D { x: -74193735i64, y: -228344838i64, z: -120047985i64 }) && b == (Vector3D { x: 74193735i64, y: -228344838i64, z: 120047985i64 }));
        assert(abs(dot_spec(a, b) - EDGE_DOT) <= (ONE * ONE) / 100000) by (nonlinear_arith)
            requires
                a == (Vector3D { x: -74193735i64, y: -228344838i64, z: -120047985i64 }),
                b == (Vector3D { x: 74193735i64, y: -228344838i64, z: 120047985i64 }),
        ;
    }
    assert(is_regular_edge(7, 2)) by {
        let a = icosahedron_corner(7, 2);
        let b = icosahedron_corner(7, 0);
        assert(a == (Vector3D { x: 74193735i64, y: -228344838i64, z: 120047985i64 }) && b == (Vector3D { x: -194241721i64, y: -141124871i64, z: 120047985i64 }));
        assert(abs(dot_spec(a, b) - EDGE_DOT) <= (ONE * ONE) / 100000) by (nonlinear_arith)
            requires
                a == (Vector3D { x: 74193735i64, y: -228344838i64, z: 120047985i64 }),
                b == (Vector3D { x: -194241721i64, y: -141124871i64, z: 120047985i64 }),
        ;
    }
    assert(is_regular_edge(8, 0)) by {
        let a = icosahedron_corner(8, 0);
        let b = icosahedron_corner(8, 1);
        assert(a == (Vector3D { x: 74193735i64, y: -228344838i64, z: 120047985i64 }) && b == (Vector3D { x: 0i64, y: 0i64, z: 268435456i64 }));
        assert(abs(dot_spec(a, b) - EDGE_DOT) <= (ONE * ONE) / 100000) by (nonlinear_arith)
            requires
                a == (Vector3D { x: 74193735i64, y: -228344838i64, z: 120047985i64 }),
                b == (Vector3D { x: 0i64, y: 0i64, z: 268435456i64 }),
        ;
    }
    assert(is_regular_edge(8, 1)) by {
        let a = icosahedron_corner(8, 1);
        let b = icosahedron_corner(8, 2);
        assert(a == (Vector3D { x: 0i64, y: 0i64, z: 268435456i64 }) && b == (Vector3D { x: 240095971i64, y: 0i64, z: 120047985i64 }));
        assert(abs(dot_spec(a, b) - EDGE_DOT) <= (ONE * ONE) / 100000) by (nonlinear_arith)
            requires
                a == (Vector3D { x: 0i64, y: 0i64, z: 268435456i64 }),
                b == (Vector3D { x: 240095971i64, y: 0i64, z: 120047985i64 }),
        ;
    }
    assert(is_regular_edge(8, 2)) by {
        let a = icosahedron_corner(8, 2);
        let b = icosahedron_corner(8, 0);
        assert(a == (Vector3D { x: 240095971i64, y: 0i64, z: 120047985i64 }) && b == (Vector3D { x: 74193735i64, y: -228344838i64, z: 120047985i64 }));
        assert(abs(dot_spec(a, b) - EDGE_DOT) <= (ONE * ONE) / 100000) by (nonlinear_arith)
            requires
                a == (Vector3D { x: 240095971i64, y: 0i64, z: 120047985i64 }),
                b == (Vector3D { x: 74193735i64, y: -228344838i64, z: 120047985i64 }),
        ;
    }
    assert(is_regular_edge(9, 0)) by {
        let a = icosahedron_corner(9, 0);
        let b = icosahedron_corner(9, 1);
        assert(a == (Vector3D { x: 74193735i64, y: -228344838i64, z: 120047985i64 }) && b == (Vector3D { x: 194241721i64, y: -141124871i64, z: -120047985i64 }));
        assert(abs(dot_spec(a, b) - EDGE_DOT) <= (ONE * ONE) / 100000) by (nonlinear_arith)
            requires
                a == (Vector3D { x: 74193735i64, y: -228344838i64, z: 120047985i64 }),
                b == (Vector3D { x: 194241721i64, y: -141124871i64, z: -120047985i64 }),
        ;
    }
    assert(is_regular_edge(9, 1)) by {
        let a = icosahedron_corner(9, 1);
        let b = icosahedron_corner(9, 2);
        assert(a == (Vector3D { x: 194241721i64, y: -141124871i64, z: -120047985i64 }) && b == (Vector3D { x: 240095971i64, y: 0i64, z: 120047985i64 }));
        assert(abs(dot_spec(a, b) - EDGE_DOT) <= (ONE * ONE) / 100000) by (nonlinear_arith)
            requires
                a == (Vector3D { x: 194241721i64, y: -141124871i64, z: -120047985i64 }),
                b == (Vector3D { x: 240095971i64, y: 0i64, z: 120047985i64 }),
        ;
    }
    assert(is_regular_edge(9, 2)) by {
        let a = icosahedron_corner(9, 2);
        let b = icosahedron_corner(9, 0);
        assert(a == (Vector3D { x: 240095971i64, y: 0i64, z: 120047985i64 }) && b == (Vector3D { x: 74193735i64, y: -228344838i64, z: 120047985i64 }));
        assert(abs(dot_spec(a, b) - EDGE_DOT) <= (ONE * ONE) / 100000) by (nonlinear_arith)
            requires
                a == (Vector3D { x: 240095971i64, y: 0i64, z: 120047985i64 }),
                b == (Vector3D { x: 74193735i64, y: -228344838i64, z: 120047985i64 }),
        ;
    }
    assert(is_regular_edge(10, 0)) by {
        let a = icosahedron_corner(10, 0);
        let b = icosahedron_corner(10, 1);
        assert(a == (Vector3D { x: 194241721i64, y: 141124871i64, z: -120047985i64 }) && b == (Vector3D { x: 74193735i64, y: 228344838i64, z: 120047985i64 }));
        assert(abs(dot_spec(a, b) - EDGE_DOT) <= (ONE * ONE) / 100000) by (nonlinear_arith)
            requires
                a == (Vector3D { x: 194241721i64, y: 141124871i64, z: -120047985i64 }),
                b == (Vector3D { x: 74193735i64, y: 228344838i64, z: 120047985i64 }),
        ;
    }
    assert(is_regular_edge(10, 1)) by {
        let a = icosahedron_corner(10, 1);
        let b = icosahedron_corner(10, 2);
        assert(a == (Vector3D { x: 74193735i64, y: 228344838i64, z: 120047985i64 }) && b == (Vector3D { x: -74193735i64, y: 228344838i64, z: -120047985i64 }));
        assert(abs(dot_spec(a, b) - EDGE_DOT) <= (ONE * ONE) / 100000) by (nonlinear_arith)
            requires
                a == (Vector3D { x: 74193735i64, y: 228344838i64, z: 120047985i64 }),
                b == (Vector3D { x: -74193735i64, y: 228344838i64, z: -120047985i64 }),
        ;
    }
    assert(is_regular_edge(10, 2)) by {
        let a = icosahedron_corner(10, 2);
        let b = icosahedron_corner(10, 0);
        assert(a == (Vector3D { x: -74193735i64, y: 228344838i64, z: -120047985i64 }) && b == (Vector3D { x: 194241721i64, y: 141124871i64, z: -120047985i64 }));
        assert(abs(dot_spec(a, b) - EDGE_DOT) <= (ONE * ONE) / 100000) by (nonlinear_arith)
            requires
                a == (Vector3D { x: -74193735i64, y: 228344838i64, z: -120047985i64 }),
                b == (Vector3D { x: 194241721i64, y: 141124871i64, z: -120047985i64 }),
        ;
    }
    assert(is_regular_edge(11, 0)) by {
        let a = icosahedron_corner(11, 0);
        let b = icosahedron_corner(11, 1);
        assert(a == (Vector3D { x: 194241721i64, y: 141124871i64, z: -120047985i64 }) && b == (Vector3D { x: 0i64, y: 0i64, z: -268435456i64 }));
        assert(abs(dot_spec(a, b) - EDGE_DOT) <= (ONE * ONE) / 100000) by (nonlinear_arith)
            requires
                a == (Vector3D { x: 194241721i64, y: 141124871i64, z: -120047985i64 }),
                b == (Vector3D { x: 0i64, y: 0i64, z: -268435456i64 }),
        ;
    }
    assert(is_regular_edge(11, 1)) by {
        let a = icosahedron_corner(11, 1);
        let b = icosahedron_corner(11, 2);
        assert(a == (Vector3D { x: 0i64, y: 0i64, z: -268435456i64 }) && b == (Vector3D { x: -74193735i64, y: 228344838i64, z: -120047985i64 }));
        assert(abs(dot_spec(a, b) - EDGE_DOT) <= (ONE * ONE) / 100000) by (nonlinear_arith)
            requires
                a == (Vector3D { x: 0i64, y: 0i64, z: -268435456i64 }),
                b == (Vector3D { x: -74193735i64, y: 228344838i64, z: -120047985i64 }),
        ;
    }
    assert(is_regular_edge(11, 2)) by {
        let a = icosahedron_corner(11, 2);
        let b = icosahedron_corner(11, 0);
        assert(a == (Vector3D { x: -74193735i64, y: 228344838i64, z: -120047985i64 }) && b == (Vector3D { x: 194241721i64, y: 141124871i64, z: -120047985i64 }));
        assert(abs(dot_spec(a, b) - EDGE_DOT) <= (ONE * ONE) / 100000) by (nonlinear_arith)
            requires
                a == (Vector3D { x: -74193735i64, y: 228344838i64, z: -120047985i64 }),
                b == (Vector3D { x: 194241721i64, y: 141124871i64, z: -120047985i64 }),
        ;
    }
    assert(is_regular_edge(12, 0)) by {
        let a = icosahedron_corner(12, 0);
        let b = icosahedron_corner(12, 1);
        assert(a == (Vector3D { x: -74193735i64, y: 228344838i64, z: -120047985i64 }) && b == (Vector3D { x: -194241721i64, y: 141124871i64, z: 120047985i64 }));
        assert(abs(dot_spec(a, b) - EDGE_DOT) <= (ONE * ONE) / 100000) by (nonlinear_arith)
            requires
                a == (Vector3D { x: -74193735i64, y: 228344838i64, z: -120047985i64 }),
                b == (Vector3D { x: -194241721i64, y: 141124871i64, z: 120047985i64 }),
        ;
    }
    assert(is_regular_edge(12, 1)) by {
        let a = icosahedron_corner(12, 1);
        let b = icosahedron_corner(12, 2);
        assert(a == (Vector3D { x: -194241721i64, y: 141124871i64, z: 120047985i64 }) && b == (Vector3D { x: -240095971i64, y: 0i64, z: -120047985i64 }));
        assert(abs(dot_spec(a, b) - EDGE_DOT) <= (ONE * ONE) / 100000) by (nonlinear_arith)
            requires
                a == (Vector3D { x: -194241721i64, y: 141124871i64, z: 120047985i64 }),
                b == (Vector3D { x: -240095971i64, y: 0i64, z: -120047985i64 }),
        ;
    }
    assert(is_regular_edge(12, 2)) by {
        let a = icosahedron_corner(12, 2);
        let b = icosahedron_corner(12, 0);
        assert(a == (Vector3D { x: -240095971i64, y: 0i64, z: -120047985i64 }) && b == (Vector3D { x: -74193735i64, y: 228344838i64, z: -120047985i64 }));
        assert(abs(dot_spec(a, b) - EDGE_DOT) <= (ONE * ONE) / 100000) by (nonlinear_arith)
            requires
                a == (Vector3D { x: -240095971i64, y: 0i64, z: -120047985i64 }),
                b == (Vector3D { x: -74193735i64, y: 228344838i64, z: -120047985i64 }),
        ;
    }
    assert(is_regular_edge(13, 0)) by {
        let a = icosahedron_corner(13, 0);
        let b = icosahedron_corner(13, 1);
        assert(a == (Vector3D { x: -74193735i64, y: 228344838i64, z: -120047985i64 }) && b == (Vector3D { x: 0i64, y: 0i64, z: -268435456i64 }));
        assert(abs(dot_spec(a, b) - EDGE_DOT) <= (ONE * ONE) / 100000) by (nonlinear_arith)
            requires
                a == (Vector3D { x: -74193735i64, y: 228344838i64, z: -120047985i64 }),
                b == (Vector3D { x: 0i64, y: 0i64, z: -268435456i64 }),
        ;
    }
    assert(is_regular_edge(13, 1)) by {
        let a = icosahedron_corner(13, 1);
        let b = icosahedron_corner(13, 2);
        assert(a == (Vector3D { x: 0i64, y: 0i64, z: -268435456i64 }) && b == (Vector3D { x: -240095971i64, y: 0i64, z: -120047985i64 }));
        assert(abs(dot_spec(a, b) - EDGE_DOT) <= (ONE * ONE) / 100000) by (nonlinear_arith)
            requires
                a == (Vector3D { x: 0i64, y: 0i64, z: -268435456i64 }),
                b == (Vector3D { x: -240095971i64, y: 0i64, z: -120047985i64 }),
        ;
    }
    assert(is_regular_edge(13, 2)) by {
        let a = icosahedron_corner(13, 2);
        let b = icosahedron_corner(13, 0);
        assert(a == (Vector3D { x: -240095971i64, y: 0i64, z: -120047985i64 }) && b == (Vector3D { x: -74193735i64, y: 228344838i64, z: -120047985i64 }));
        assert(abs(dot_spec(a, b) - EDGE_DOT) <= (ONE * ONE) / 100000) by (nonlinear_arith)
            requires
                a == (Vector3D { x: -240095971i64, y: 0i64, z: -120047985i64 }),
                b == (Vector3D { x: -74193735i64, y: 228344838i64, z: -120047985i64 }),
        ;
    }
    assert(is_regular_edge(14, 0)) by {
        let a = icosahedron_corner(14, 0);
        let b = icosahedron_corner(14, 1);
        assert(a == (Vector3D { x: -240095971i64, y: 0i64, z: -120047985i64 }) && b == (Vector3D { x: -194241721i64, y: -141124871i64, z: 120047985i64 }));
        assert(abs(dot_spec(a, b) - EDGE_DOT) <= (ONE * ONE) / 100000) by (nonlinear_arith)
            requires
                a == (Vector3D { x: -240095971i64, y: 0i64, z: -120047985i64 }),
                b == (Vector3D { x: -194241721i64, y: -141124871i64, z: 120047985i64 }),
        ;
    }
    assert(is_regular_edge(14, 1)) by {
        let a = icosahedron_corner(14, 1);
        let b = icosahedron_corner(14, 2);
        assert(a == (Vector3D { x: -194241721i64, y: -141124871i64, z: 120047985i64 }) && b == (Vector3D { x: -74193735i64, y: -228344838i64, z: -120047985i64 }));
        assert(abs(dot_spec(a, b) - EDGE_DOT) <= (ONE * ONE) / 100000) by (nonlinear_arith)
            requires
                a == (Vector3D { x: -194241721i64, y: -141124871i64, z: 120047985i64 }),
                b == (Vector3D { x: -74193735i64, y: -228344838i64, z: -120047985i64 }),
        ;
    }
    assert(is_regular_edge(14, 2)) by {
        let a = icosahedron_corner(14, 2);
        let b = icosahedron_corner(14, 0);
        assert(a == (Vector3D { x: -74193735i64, y: -228344838i64, z: -120047985i64 }) && b == (Vector3D { x: -240095971i64, y: 0i64, z: -120047985i64 }));
        assert(abs(dot_spec(a, b) - EDGE_DOT) <= (ONE * ONE) / 100000) by (nonlinear_arith)
            requires
                a == (Vector3D { x: -74193735i64, y: -228344838i64, z: -120047985i64 }),
                b == (Vector3D { x: -240095971i64, y: 0i64, z: -120047985i64 }),
        ;
    }
    assert(is_regular_edge(15, 0)) by {
        let a = icosahedron_corner(15, 0);
        let b = icosahedron_corner(15, 1);
        assert(a == (Vector3D { x: -240095971i64, y: 0i64, z: -120047985i64 }) && b == (Vector3D { x: 0i64, y: 0i64, z: -268435456i64 }));
        assert(abs(dot_spec(a, b) - EDGE_DOT) <= (ONE * ONE) / 100000) by (nonlinear_arith)
            requires
                a == (Vector3D { x: -240095971i64, y: 0i64, z: -120047985i64 }),
                b == (Vector3D { x: 0i64, y: 0i64, z: -268435456i64 }),
        ;
    }
    assert(is_regular_edge(15, 1)) by {
        let a = icosahedron_corner(15, 1);
        let b = icosahedron_corner(15, 2);
        assert(a == (Vector3D { x: 0i64, y: 0i64, z: -268435456i64 }) && b == (Vector3D { x: -74193735i64, y: -228344838i64, z: -120047985i64 }));
        assert(abs(dot_spec(a, b) - EDGE_DOT) <= (ONE * ONE) / 100000) by (nonlinear_arith)
            requires
                a == (Vector3D { x: 0i64, y: 0i64, z: -268435456i64 }),
                b == (Vector3D { x: -74193735i64, y: -228344838i64, z: -120047985i64 }),
        ;
    }
    assert(is_regular_edge(15, 2)) by {
        let a = icosahedron_corner(15, 2);
        let b = icosahedron_corner(15, 0);
        assert(a == (Vector3D { x: -74193735i64, y: -228344838i64, z: -120047985i64 }) && b == (Vector3D { x: -240095971i64, y: 0i64, z: -120047985i64 }));
        assert(abs(dot_spec(a, b) - EDGE_DOT) <= (ONE * ONE) / 100000) by (nonlinear_arith)
            requires
                a == (Vector3D { x: -74193735i64, y: -228344838i64, z: -120047985i64 }),
                b == (Vector3D { x: -240095971i64, y: 0i64, z: -120047985i64 }),
        ;
    }
    assert(is_regular_edge(16, 0)) by {
        let a = icosahedron_corner(16, 0);
        let b = icosahedron_corner(16, 1);
        assert(a == (Vector3D { x: -74193735i64, y: -228344838i64, z: -120047985i64 }) && b == (Vector3D { x: 74193735i64, y: -228344838i64, z: 120047985i64 }));
        assert(abs(dot_spec(a, b) - EDGE_DOT) <= (ONE * ONE) / 100000) by (nonlinear_arith)
            requires
                a == (Vector3D { x: -74193735i64, y: -228344838i64, z: -120047985i64 }),
                b == (Vector3D { x: 74193735i64, y: -228344838i64, z: 120047985i64 }),
        ;
    }
    assert(is_regular_edge(16, 1)) by {
        let a = icosahedron_corner(16, 1);
        let b = icosahedron_corner(16, 2);
        assert(a == (Vector3D { x: 74193735i64, y: -228344838i64, z: 120047985i64 }) && b == (Vector3D { x: 194241721i64, y: -141124871i64, z: -120047985i64 }));
        assert(abs(dot_spec(a, b) - EDGE_DOT) <= (ONE * ONE) / 100000) by (nonlinear_arith)
            requires
                a == (Vector3D { x: 74193735i64, y: -228344838i64, z: 120047985i64 }),
                b == (Vector3D { x: 194241721i64, y: -141124871i64, z: -120047985i64 }),
        ;
    }
    assert(is_regular_edge(16, 2)) by {
        let a = icosahedron_corner(16, 2);
        let b = icosahedron_corner(16, 0);
        assert(a == (Vector3D { x: 194241721i64, y: -141124871i64, z: -120047985i64 }) && b == (Vector3D { x: -74193735i64, y: -228344838i64, z: -120047985i64 }));
        assert(abs(dot_spec(a, b) - EDGE_DOT) <= (ONE * ONE) / 100000) by (nonlinear_arith)
            requires
                a == (Vector3D { x: 194241721i64, y: -141124871i64, z: -120047985i64 }),
                b == (Vector3D { x: -74193735i64, y: -228344838i64, z: -120047985i64 }),
        ;
    }
    assert(is_regular_edge(17, 0)) by {
        let a = icosahedron_corner(17, 0);
        let b = icosahedron_corner(17, 1);
        assert(a == (Vector3D { x: -74193735i64, y: -228344838i64, z: -120047985i64 }) && b == (Vector3D { x: 0i64, y: 0i64, z: -268435456i64 }));
        assert(abs(dot_spec(a, b) - EDGE_DOT) <= (ONE * ONE) / 100000) by (nonlinear_arith)
            requires
                a == (Vector3D { x: -74193735i64, y: -228344838i64, z: -120047985i64 }),
                b == (Vector3D { x: 0i64, y: 0i64, z: -268435456i64 }),
        ;
    }
    assert(is_regular_edge(17, 1)) by {
        let a = icosahedron_corner(17, 1);
        let b = icosahedron_corner(17, 2);
        assert(a == (Vector3D { x: 0i64, y: 0i64, z: -268435456i64 }) && b == (Vector3D { x: 194241721i64, y: -141124871i64, z: -120047985i64 }));
        assert(abs(dot_spec(a, b) - EDGE_DOT) <= (ONE * ONE) / 100000) by (nonlinear_arith)
            requires
                a == (Vector3D { x: 0i64, y: 0i64, z: -268435456i64 }),
                b == (Vector3D { x: 194241721i64, y: -141124871i64, z: -120047985i64 }),
        ;
    }
    assert(is_regular_edge(17, 2)) by {
        let a = icosahedron_corner(17, 2);
        let b = icosahedron_corner(17, 0);
        assert(a == (Vector3D { x: 194241721i64, y: -141124871i64, z: -120047985i64 }) && b == (Vector3D { x: -74193735i64, y: -228344838i64, z: -120047985i64 }));
        assert(abs(dot_spec(a, b) - EDGE_DOT) <= (ONE * ONE) / 100000) by (nonlinear_arith)
            requires
                a == (Vector3D { x: 194241721i64, y: -141124871i64, z: -120047985i64 }),
                b == (Vector3D { x: -74193735i64, y: -228344838i64, z: -120047985i64 }),
        ;
    }
    assert(is_regular_edge(18, 0)) by {
        let a = icosahedron_corner(18, 0);
        let b = icosahedron_corner(18, 1);
        assert(a == (Vector3D { x: 194241721i64, y: -141124871i64, z: -120047985i64 }) && b == (Vector3D { x: 240095971i64, y: 0i64, z: 120047985i64 }));
        assert(abs(dot_spec(a, b) - EDGE_DOT) <= (ONE * ONE) / 100000) by (nonlinear_arith)
            requires
                a == (Vector3D { x: 194241721i64, y: -141124871i64, z: -120047985i64 }),
                b == (Vector3D { x: 240095971i64, y: 0i64, z: 120047985i64 }),
        ;
    }
    assert(is_regular_edge(18, 1)) by {
        let a = icosahedron_corner(18, 1);
        let b = icosahedron_corner(18, 2);
        assert(a == (Vector3D { x: 240095971i64, y: 0i64, z: 120047985i64 }) && b == (Vector3D { x: 194241721i64, y: 141124871i64, z: -120047985i64 }));
        assert(abs(dot_spec(a, b) - EDGE_DOT) <= (ONE * ONE) / 100000) by (nonlinear_arith)
            requires
                a == (Vector3D { x: 240095971i64, y: 0i64, z: 120047985i64 }),
                b == (Vector3D { x: 194241721i64, y: 141124871i64, z: -120047985i64 }),
        ;
    }
    assert(is_regular_edge(18, 2)) by {
        let a = icosahedron_corner(18, 2);
        let b = icosahedron_corner(18, 0);
        assert(a == (Vector3D { x: 194241721i64, y: 141124871i64, z: -120047985i64 }) && b == (Vector3D { x: 194241721i64, y: -141124871i64, z: -120047985i64 }));
        assert(abs(dot_spec(a, b) - EDGE_DOT) <= (ONE * ONE) / 100000) by (nonlinear_arith)
            requires
                a == (Vector3D { x: 194241721i64, y: 141124871i64, z: -120047985i64 }),
                b == (Vector3D { x: 194241721i64, y: -141124871i64, z: -120047985i64 }),
        ;
    }
    assert(is_regular_edge(19, 0)) by {
        let a = icosahedron_corner(19, 0);
        let b = icosahedron_corner(19, 1);
        assert(a == (Vector3D { x: 194241721i64, y: -141124871i64, z: -120047985i64 }) && b == (Vector3D { x: 0i64, y: 0i64, z: -268435456i64 }));
        assert(abs(dot_spec(a, b) - EDGE_DOT) <= (ONE * ONE) / 100000) by (nonlinear_arith)
            requires
                a == (Vector3D { x: 194241721i64, y: -141124871i64, z: -120047985i64 }),
                b == (Vector3D { x: 0i64, y: 0i64, z: -268435456i64 }),
        ;
    }
    assert(is_regular_edge(19, 1)) by {
        let a = icosahedron_corner(19, 1);
        let b = icosahedron_corner(19, 2);
        assert(a == (Vector3D { x: 0i64, y: 0i64, z: -268435456i64 }) && b == (Vector3D { x: 194241721i64, y: 141124871i64, z: -120047985i64 }));
        assert(abs(dot_spec(a, b) - EDGE_DOT) <= (ONE * ONE) / 100000) by (nonlinear_arith)
            requires
                a == (Vector3D { x: 0i64, y: 0i64, z: -268435456i64 }),
                b == (Vector3D { x: 194241721i64, y: 141124871i64, z: -120047985i64 }),
        ;
    }
    assert(is_regular_edge(19, 2)) by {
        let a = icosahedron_corner(19, 2);
        let b = icosahedron_corner(19, 0);
        assert(a == (Vector3D { x: 194241721i64, y: 141124871i64, z: -120047985i64 }) && b == (Vector3D { x: 194241721i64, y: -141124871i64, z: -120047985i64 }));
        assert(abs(dot_spec(a, b) - EDGE_DOT) <= (ONE * ONE) / 100000) by (nonlinear_arith)
            requires
                a == (Vector3D { x: 194241721i64, y: 141124871i64, z: -120047985i64 }),
                b == (Vector3D { x: 194241721i64, y: -141124871i64, z: -120047985i64 }),
        ;
    }
    assert forall|f: int, k: int| 0 <= f < 20 && 0 <= k < 3 implies #[trigger] is_regular_edge(f, k) by {
        assert(f == 0 || f == 1 || f == 2 || f == 3 || f == 4 || f == 5 || f == 6 || f == 7 || f == 8 || f == 9 || f == 10 || f == 11 || f == 12 || f == 13 || f == 14 || f == 15 || f == 16 || f == 17 || f == 18 || f == 19);
        assert(k == 0 || k == 1 || k == 2);
    }
}

} // verus!
