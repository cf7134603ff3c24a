use vstd::arithmetic::power::{lemma_pow_increases, pow};
use vstd::prelude::*;

verus! {

/// The refinement ratio of a grid: how many children a cell has.
#[derive(Clone, Copy, Debug, PartialEq, Eq, Structural)]
pub enum Aperture {
    A3,
    A4,
    A7,
}

impl Aperture {
    pub open spec fn base_spec(self) -> u32 {
        match self {
            Aperture::A3 => 3,
            Aperture::A4 => 4,
            Aperture::A7 => 7,
        }
    }

    /// Radix for the denominator growth per level.
    pub fn base(self) -> (r: u32)
        ensures
            r == self.base_spec(),
    {
        match self {
            Aperture::A3 => 3,
            Aperture::A4 => 4,
            Aperture::A7 => 7,
        }
    }

    /// The barycentric denominator at a refinement level: the base raised to
    /// the level.
    pub fn denom_for_level(self, level: u32) -> (r: u32)
        requires
            pow(self.base_spec() as int, level as nat) <= u32::MAX,
        ensures
            r == pow(self.base_spec() as int, level as nat),
    {
        let b = self.base();
        let mut acc: u32 = 1;
        let mut k: u32 = 0;
        proof {
            reveal(pow);
        }
        while k < level
            invariant
                k <= level,
                b == self.base_spec(),
                acc == pow(b as int, k as nat),
                pow(b as int, level as nat) <= u32::MAX,
            decreases level - k,
        {
            proof {
                reveal(pow);
                lemma_pow_increases(b as nat, (k + 1) as nat, level as nat);
                assert(pow(b as int, (k + 1) as nat) == b * pow(b as int, k as nat));
            }
            acc = acc * b;
            k += 1;
        }
        acc
    }
}

/// Integer barycentric coordinates `(i, j, k) / denom` on a triangle.
#[derive(Clone, Copy, Debug, PartialEq, Eq, Structural)]
pub struct BaryI {
    pub i: u32,
    pub j: u32,
    pub k: u32,
    pub denom: u32,
}

pub open spec fn bary(i: int, j: int, k: int, denom: int) -> BaryI {
    BaryI { i: i as u32, j: j as u32, k: k as u32, denom: denom as u32 }
}

impl BaryI {
    /// The three weights add up to the denominator.
    pub open spec fn wf(self) -> bool {
        self.i + self.j + self.k == self.denom
    }

    pub fn new(i: u32, j: u32, k: u32, denom: u32) -> (r: Self)
        requires
            i + j + k == denom,
        ensures
            r == (BaryI { i, j, k, denom }),
            r.wf(),
    {
        Self { i, j, k, denom }
    }

    /// The same point over a denominator `f` times larger.
    pub fn scale(&self, f: u32) -> (r: Self)
        requires
            self.wf(),
            self.denom * f <= u32::MAX,
        ensures
            r == bary(self.i * f, self.j * f, self.k * f, self.denom * f),
            r.wf(),
    {
        proof {
            assert(self.i * f + self.j * f + self.k * f == self.denom * f) by (nonlinear_arith)
                requires
                    self.i + self.j + self.k == self.denom,
            ;
            assert(self.i * f <= self.denom * f && self.j * f <= self.denom * f && self.k * f
                <= self.denom * f) by (nonlinear_arith)
                requires
                    self.i + self.j + self.k == self.denom,
                    f >= 0,
                    self.i >= 0,
                    self.j >= 0,
                    self.k >= 0,
            ;
        }
        BaryI::new(self.i * f, self.j * f, self.k * f, self.denom * f)
    }
}

/// The six corners of a hexagon in integer barycentric coordinates.
#[derive(Clone, Copy, Debug, PartialEq, Eq)]
pub struct BaryIHex(pub [BaryI; 6]);

/// The six corners of the hexagon inscribed in the triangle at
/// denominator 3: every permutation of `(2, 1, 0)`.
pub open spec fn inscribed_hex_spec() -> Seq<BaryI> {
    seq![
        bary(2, 1, 0, 3),
        bary(1, 2, 0, 3),
        bary(0, 2, 1, 3),
        bary(0, 1, 2, 3),
        bary(1, 0, 2, 3),
        bary(2, 0, 1, 3),
    ]
}

impl BaryIHex {
    pub fn inscribed_hex() -> (r: Self)
        ensures
            r.0@ == inscribed_hex_spec(),
    {
        let r = Self(
            [
                BaryI::new(2, 1, 0, 3),
                BaryI::new(1, 2, 0, 3),
                BaryI::new(0, 2, 1, 3),
                BaryI::new(0, 1, 2, 3),
                BaryI::new(1, 0, 2, 3),
                BaryI::new(2, 0, 1, 3),
            ],
        );
        assert(r.0@ =~= inscribed_hex_spec());
        r
    }

    /// The hexagon of radius `h` around `center`, stepping `h` along each of
    /// the six directions that keep the weights' sum.
    pub fn hex_from_center(center: BaryI, h: u32) -> (r: Self)
        requires
            center.wf(),
            h <= center.i,
            h <= center.j,
            h <= center.k,
            center.i + h <= i32::MAX,
            center.j + h <= i32::MAX,
            center.k + h <= i32::MAX,
        ensures
            ({
                let (i, j, k, d) = (
                    center.i as int,
                    center.j as int,
                    center.k as int,
                    center.denom as int,
                );
                let h = h as int;
                r.0@ == seq![
                    bary(i + h, j, k - h, d),
                    bary(i, j + h, k - h, d),
                    bary(i - h, j + h, k, d),
                    bary(i - h, j, k + h, d),
                    bary(i, j - h, k + h, d),
                    bary(i + h, j - h, k, d),
                ]
            }),
    {
        let d = center.denom;
        let (i, j, k) = (center.i as i32, center.j as i32, center.k as i32);
        let h = h as i32;
        let r = Self(
            [
                BaryI::new((i + h) as u32, j as u32, (k - h) as u32, d),
                BaryI::new(i as u32, (j + h) as u32, (k - h) as u32, d),
                BaryI::new((i - h) as u32, (j + h) as u32, k as u32, d),
                BaryI::new((i - h) as u32, j as u32, (k + h) as u32, d),
                BaryI::new(i as u32, (j - h) as u32, (k + h) as u32, d),
                BaryI::new((i + h) as u32, (j - h) as u32, k as u32, d),
            ],
        );
        assert(r.0@ =~= seq![
            bary(i + h, j as int, k - h, d as int),
            bary(i as int, j + h, k - h, d as int),
            bary(i - h, j + h, k as int, d as int),
            bary(i - h, j as int, k + h, d as int),
            bary(i as int, j - h, k + h, d as int),
            bary(i + h, j - h, k as int, d as int),
        ]);
        r
    }

    /// The hexagon at a denominator divisible by three, in drawing order:
    /// the inscribed hexagon at denominator 3, and otherwise, with
    /// `t = denom / 3`, the permutations of `(t + 2, t - 1, t - 1)` and of
    /// `(t + 1, t + 1, t - 2)`, interleaved.
    pub fn at_denom(denom: u32) -> (r: Self)
        requires
            denom % 3 == 0,
            denom == 3 || denom >= 6,
        ensures
            denom == 3 ==> r.0@ == inscribed_hex_spec(),
            denom != 3 ==> ({
                let t = denom / 3;
                let d = denom as int;
                r.0@ == seq![
                    bary(t - 1, t - 1, t + 2, d),
                    bary(t + 1, t - 2, t + 1, d),
                    bary(t + 2, t - 1, t - 1, d),
                    bary(t + 1, t + 1, t - 2, d),
                    bary(t - 1, t + 2, t - 1, d),
                    bary(t - 2, t + 1, t + 1, d),
                ]
            }),
    {
        if denom == 3 {
            return Self::inscribed_hex();
        }
        let t = denom / 3;
        let a = [
            BaryI::new(t + 2, t - 1, t - 1, denom),
            BaryI::new(t - 1, t + 2, t - 1, denom),
            BaryI::new(t - 1, t - 1, t + 2, denom),
        ];
        let b = [
            BaryI::new(t + 1, t + 1, t - 2, denom),
            BaryI::new(t + 1, t - 2, t + 1, denom),
            BaryI::new(t - 2, t + 1, t + 1, denom),
        ];
        let r = Self([a[2], b[1], a[0], b[0], a[1], b[2]]);
        let ghost d = denom as int;
        assert(r.0@ =~= seq![
            bary(t - 1, t - 1, t + 2, d),
            bary(t + 1, t - 2, t + 1, d),
            bary(t + 2, t - 1, t - 1, d),
            bary(t + 1, t + 1, t - 2, d),
            bary(t - 1, t + 2, t - 1, d),
            bary(t - 2, t + 1, t + 1, d),
        ]);
        r
    }
}

/// The kind of a cell: pentagons show up only at the twelve vertices.
#[derive(Clone, Copy, Debug, PartialEq, Eq, Structural)]
pub enum CellKind {
    Hex,
    Pentagon,
}

/// A cell of a hexagonal grid on an icosahedron face.
#[derive(Clone, Copy, Debug)]
pub struct Cell {
    /// The icosahedron face.
    pub face: u8,
    /// The integer barycentric center at this level.
    pub center: BaryI,
    /// The refinement level; the denominator is the base to this power.
    pub level: u8,
    /// A per-level rotation class, 0 to 5.
    pub rot: u8,
    pub kind: CellKind,
}

/// Drawing orientation.
pub struct Canvas {
    pub y_up: bool,
}

impl Canvas {
    /// A canvas whose y axis points up.
    pub fn y_up() -> (r: Self)
        ensures
            r.y_up,
    {
        Self { y_up: true }
    }
}

} // verus!
