use vstd::prelude::*;

verus! {

/// A face of the unfolded net: three lattice points.
pub type NetTriangle = [(u8, u8); 3];

/// The icosahedron unfolded into a strip of twenty triangles on a lattice:
/// five top triangles, their mirrors, the mirrors of the bottom triangles
/// and the five bottom triangles.
pub open spec fn net_triangles() -> Seq<NetTriangle> {
    seq![
        [(1u8, 0u8), (0u8, 0u8), (1u8, 1u8)],
        [(2u8, 1u8), (1u8, 1u8), (2u8, 2u8)],
        [(3u8, 2u8), (2u8, 2u8), (3u8, 3u8)],
        [(4u8, 3u8), (3u8, 3u8), (4u8, 4u8)],
        [(5u8, 4u8), (4u8, 4u8), (5u8, 5u8)],
        [(0u8, 1u8), (1u8, 1u8), (0u8, 0u8)],
        [(1u8, 2u8), (2u8, 2u8), (1u8, 1u8)],
        [(2u8, 3u8), (3u8, 3u8), (2u8, 2u8)],
        [(3u8, 4u8), (4u8, 4u8), (3u8, 3u8)],
        [(4u8, 5u8), (5u8, 5u8), (4u8, 4u8)],
        [(1u8, 1u8), (0u8, 1u8), (1u8, 2u8)],
        [(2u8, 2u8), (1u8, 2u8), (2u8, 3u8)],
        [(3u8, 3u8), (2u8, 3u8), (3u8, 4u8)],
        [(4u8, 4u8), (3u8, 4u8), (4u8, 5u8)],
        [(5u8, 5u8), (4u8, 5u8), (5u8, 6u8)],
        [(0u8, 2u8), (1u8, 2u8), (0u8, 1u8)],
        [(1u8, 3u8), (2u8, 3u8), (1u8, 2u8)],
        [(2u8, 4u8), (3u8, 4u8), (2u8, 3u8)],
        [(3u8, 5u8), (4u8, 5u8), (3u8, 4u8)],
        [(4u8, 6u8), (5u8, 6u8), (4u8, 5u8)]
    ]
}

/// The unfolded icosahedron net used to lay faces out in the plane.
pub struct IcosahedronNet {}

impl IcosahedronNet {
    /// The lattice center of a net triangle: each coordinate averaged and
    /// rounded down.
    pub fn face_center(&self, p: NetTriangle) -> (r: (u8, u8))
        requires
            p[0].0 + p[1].0 + p[2].0 <= u8::MAX,
            p[0].1 + p[1].1 + p[2].1 <= u8::MAX,
        ensures
            r.0 == (p[0].0 + p[1].0 + p[2].0) / 3,
            r.1 == (p[0].1 + p[1].1 + p[2].1) / 3,
    {
        ((p[0].0 + p[1].0 + p[2].0) / 3, (p[0].1 + p[1].1 + p[2].1) / 3)
    }

    /// The twenty net triangles, in face order.
    pub fn vertices(&self) -> (r: Vec<NetTriangle>)
        ensures
            r@ == net_triangles(),
    {
        let mut v: Vec<NetTriangle> = Vec::new();
        v.push([(1, 0), (0, 0), (1, 1)]);
        v.push([(2, 1), (1, 1), (2, 2)]);
        v.push([(3, 2), (2, 2), (3, 3)]);
        v.push([(4, 3), (3, 3), (4, 4)]);
        v.push([(5, 4), (4, 4), (5, 5)]);
        v.push([(0, 1), (1, 1), (0, 0)]);
        v.push([(1, 2), (2, 2), (1, 1)]);
        v.push([(2, 3), (3, 3), (2, 2)]);
        v.push([(3, 4), (4, 4), (3, 3)]);
        v.push([(4, 5), (5, 5), (4, 4)]);
        v.push([(1, 1), (0, 1), (1, 2)]);
        v.push([(2, 2), (1, 2), (2, 3)]);
        v.push([(3, 3), (2, 3), (3, 4)]);
        v.push([(4, 4), (3, 4), (4, 5)]);
        v.push([(5, 5), (4, 5), (5, 6)]);
        v.push([(0, 2), (1, 2), (0, 1)]);
        v.push([(1, 3), (2, 3), (1, 2)]);
        v.push([(2, 4), (3, 4), (2, 3)]);
        v.push([(3, 5), (4, 5), (3, 4)]);
        v.push([(4, 6), (5, 6), (4, 5)]);
        assert(v@ =~= net_triangles());
        v
    }
}

} // verus!
