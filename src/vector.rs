use vstd::arithmetic::div_mod::{lemma_div_is_ordered, lemma_div_multiples_vanish};
use vstd::prelude::*;

verus! {

/// The fixed-point unit: a coordinate equal to `ONE` stands for 1.0.
pub const ONE: i64 = 268435456;

/// Largest coordinate magnitude accepted by the dot product.
pub const DOT_LIMIT: i64 = 2147483648;

/// Largest coordinate magnitude accepted by `normalize` (four units).
pub const NORMALIZE_LIMIT: i64 = 1073741824;

pub open spec fn abs(a: int) -> int {
    if a < 0 {
        -a
    } else {
        a
    }
}

/// Quotient rounded toward zero, the same on both sides of zero.
pub open spec fn trunc_div(a: int, d: int) -> int {
    if a >= 0 {
        a / d
    } else {
        -((-a) / d)
    }
}

/// `s` is the integer square root of `n`.
pub open spec fn is_isqrt(n: int, s: int) -> bool {
    0 <= s && s * s <= n && n < (s + 1) * (s + 1)
}

/// The integer square root of a non-negative integer.
pub open spec fn isqrt(n: int) -> int {
    choose|s: int| is_isqrt(n, s)
}

pub proof fn lemma_isqrt_unique(n: int, s: int, t: int)
    requires
        is_isqrt(n, s),
        is_isqrt(n, t),
    ensures
        s == t,
{
    if s < t {
        assert((s + 1) * (s + 1) <= t * t) by (nonlinear_arith)
            requires
                0 <= s,
                s + 1 <= t,
        ;
    } else if t < s {
        assert((t + 1) * (t + 1) <= s * s) by (nonlinear_arith)
            requires
                0 <= t,
                t + 1 <= s,
        ;
    }
}

/// Once one integer square root of `n` is known, `isqrt(n)` is that one.
pub proof fn lemma_isqrt_is(n: int, s: int)
    requires
        is_isqrt(n, s),
    ensures
        isqrt(n) == s,
{
    assert(is_isqrt(n, isqrt(n)));
    lemma_isqrt_unique(n, s, isqrt(n));
}

/// A vector of three fixed-point coordinates: a point on, or a direction
/// from, the unit sphere when its length is close to `ONE`.
#[derive(Clone, Copy, Debug, PartialEq, Eq, Structural)]
pub struct Vector3D {
    pub x: i64,
    pub y: i64,
    pub z: i64,
}

pub open spec fn dot_spec(a: Vector3D, b: Vector3D) -> int {
    a.x * b.x + a.y * b.y + a.z * b.z
}

pub open spec fn norm_sq(a: Vector3D) -> int {
    dot_spec(a, a)
}

/// The vector scaled to length `ONE`, each coordinate rounded toward zero;
/// none for the zero vector.
pub open spec fn normalize_spec(a: Vector3D) -> Option<Vector3D> {
    let n = norm_sq(a);
    if n == 0 {
        None
    } else {
        let s = isqrt(n);
        Some(
            Vector3D {
                x: trunc_div(a.x * ONE, s) as i64,
                y: trunc_div(a.y * ONE, s) as i64,
                z: trunc_div(a.z * ONE, s) as i64,
            },
        )
    }
}

pub open spec fn sum_spec(a: Vector3D, b: Vector3D) -> Vector3D {
    Vector3D { x: (a.x + b.x) as i64, y: (a.y + b.y) as i64, z: (a.z + b.z) as i64 }
}

pub open spec fn difference_spec(a: Vector3D, b: Vector3D) -> Vector3D {
    Vector3D { x: (a.x - b.x) as i64, y: (a.y - b.y) as i64, z: (a.z - b.z) as i64 }
}

/// The spherical midpoint of two vectors: their normalized sum.
pub open spec fn mid_spec(a: Vector3D, b: Vector3D) -> Option<Vector3D> {
    normalize_spec(sum_spec(a, b))
}

impl Vector3D {
    /// Every coordinate lies within `bound` of zero.
    pub open spec fn within(self, bound: int) -> bool {
        abs(self.x as int) <= bound && abs(self.y as int) <= bound && abs(self.z as int) <= bound
    }

    /// Every coordinate lies within one unit of zero, as for a unit vector.
    pub open spec fn is_unit_bounded(self) -> bool {
        self.within(ONE as int)
    }

    pub fn new(x: i64, y: i64, z: i64) -> (r: Vector3D)
        ensures
            r == (Vector3D { x, y, z }),
    {
        Vector3D { x, y, z }
    }

    pub fn add(&self, other: &Vector3D) -> (r: Vector3D)
        requires
            self.within(NORMALIZE_LIMIT as int),
            other.within(NORMALIZE_LIMIT as int),
        ensures
            r == sum_spec(*self, *other),
            r.x == self.x + other.x,
            r.y == self.y + other.y,
            r.z == self.z + other.z,
    {
        Vector3D { x: self.x + other.x, y: self.y + other.y, z: self.z + other.z }
    }

    pub fn subtract(&self, other: &Vector3D) -> (r: Vector3D)
        requires
            self.within(NORMALIZE_LIMIT as int),
            other.within(NORMALIZE_LIMIT as int),
        ensures
            r == difference_spec(*self, *other),
            r.x == self.x - other.x,
            r.y == self.y - other.y,
            r.z == self.z - other.z,
    {
        Vector3D { x: self.x - other.x, y: self.y - other.y, z: self.z - other.z }
    }

    pub fn dot(&self, other: &Vector3D) -> (r: i128)
        requires
            self.within(DOT_LIMIT as int),
            other.within(DOT_LIMIT as int),
        ensures
            r == dot_spec(*self, *other),
    {
        proof {
            lemma_mul_bound(self.x as int, other.x as int, DOT_LIMIT as int);
            lemma_mul_bound(self.y as int, other.y as int, DOT_LIMIT as int);
            lemma_mul_bound(self.z as int, other.z as int, DOT_LIMIT as int);
        }
        let px = (self.x as i128) * (other.x as i128);
        let py = (self.y as i128) * (other.y as i128);
        let pz = (self.z as i128) * (other.z as i128);
        px + py + pz
    }

    /// The cross product, exact, in units of `ONE * ONE`.
    pub fn cross(&self, other: &Vector3D) -> (r: (i128, i128, i128))
        requires
            self.within(DOT_LIMIT as int),
            other.within(DOT_LIMIT as int),
        ensures
            r.0 == self.y * other.z - self.z * other.y,
            r.1 == self.z * other.x - self.x * other.z,
            r.2 == self.x * other.y - self.y * other.x,
    {
        proof {
            lemma_mul_bound(self.y as int, other.z as int, DOT_LIMIT as int);
            lemma_mul_bound(self.z as int, other.y as int, DOT_LIMIT as int);
            lemma_mul_bound(self.z as int, other.x as int, DOT_LIMIT as int);
            lemma_mul_bound(self.x as int, other.z as int, DOT_LIMIT as int);
            lemma_mul_bound(self.x as int, other.y as int, DOT_LIMIT as int);
            lemma_mul_bound(self.y as int, other.x as int, DOT_LIMIT as int);
        }
        let (ax, ay, az) = (self.x as i128, self.y as i128, self.z as i128);
        let (bx, by, bz) = (other.x as i128, other.y as i128, other.z as i128);
        (ay * bz - az * by, az * bx - ax * bz, ax * by - ay * bx)
    }

    /// The Euclidean length in fixed-point units, rounded down.
    pub fn length(&self) -> (r: u64)
        requires
            self.within(NORMALIZE_LIMIT as int),
        ensures
            r == isqrt(norm_sq(*self)),
    {
        let n = self.norm_sq_exec();
        let s = isqrt_u64(n);
        proof {
            lemma_isqrt_is(n as int, s as int);
        }
        s
    }

    fn norm_sq_exec(&self) -> (r: u64)
        requires
            self.within(NORMALIZE_LIMIT as int),
        ensures
            r == norm_sq(*self),
            r <= 3 * NORMALIZE_LIMIT * NORMALIZE_LIMIT,
    {
        proof {
            lemma_square_bound(self.x as int, NORMALIZE_LIMIT as int);
            lemma_square_bound(self.y as int, NORMALIZE_LIMIT as int);
            lemma_square_bound(self.z as int, NORMALIZE_LIMIT as int);
        }
        let n = self.dot(self);
        n as u64
    }

    /// Scales the vector to length `ONE`. The zero vector has no direction
    /// and gives none.
    pub fn normalize(&self) -> (r: Option<Vector3D>)
        requires
            self.within(NORMALIZE_LIMIT as int),
        ensures
            r == normalize_spec(*self),
            r is Some <==> norm_sq(*self) != 0,
            r matches Some(u) ==> u.is_unit_bounded(),
    {
        let n = self.norm_sq_exec();
        if n == 0 {
            return None;
        }
        let s = isqrt_u64(n);
        proof {
            lemma_isqrt_is(n as int, s as int);
            assert(s >= 1) by (nonlinear_arith)
                requires
                    n >= 1,
                    n < (s + 1) * (s + 1),
                    s >= 0,
            ;
            lemma_square_le(self.x as int, self.y as int, self.z as int);
            lemma_square_le(self.y as int, self.x as int, self.z as int);
            lemma_square_le(self.z as int, self.x as int, self.y as int);
        }
        let x = scale_to_unit(self.x, s, n);
        let y = scale_to_unit(self.y, s, n);
        let z = scale_to_unit(self.z, s, n);
        Some(Vector3D { x, y, z })
    }

    /// The normalized sum of two vectors (the midpoint of the arc between
    /// two unit vectors); none where the two cancel out.
    pub fn mid(a: &Vector3D, b: &Vector3D) -> (r: Option<Vector3D>)
        requires
            a.within(2 * ONE),
            b.within(2 * ONE),
        ensures
            r == mid_spec(*a, *b),
            r matches Some(u) ==> u.is_unit_bounded(),
    {
        let s = a.add(b);
        s.normalize()
    }
}

/// `c * ONE / s`, rounded toward zero, for a coordinate `c` of a vector whose
/// squared length `n` has integer square root `s`.
fn scale_to_unit(c: i64, s: u64, n: u64) -> (r: i64)
    requires
        abs(c as int) <= NORMALIZE_LIMIT,
        c * c <= n,
        is_isqrt(n as int, s as int),
        s >= 1,
    ensures
        r == trunc_div(c * ONE, s as int),
        abs(r as int) <= ONE,
{
    proof {
        let a = abs(c as int);
        assert(a * a == c * c) by (nonlinear_arith)
            requires
                a == abs(c as int),
        ;
        assert(a <= s) by (nonlinear_arith)
            requires
                a * a <= n,
                n < (s + 1) * (s + 1),
                a >= 0,
                s >= 0,
        ;
        assert(a * ONE <= s * ONE) by (nonlinear_arith)
            requires
                a <= s,
        ;
        lemma_div_is_ordered(a * ONE, s * ONE, s as int);
        lemma_div_multiples_vanish(ONE as int, s as int);
        assert(s * ONE == ONE * s) by (nonlinear_arith);
        assert(a * ONE >= 0) by (nonlinear_arith)
            requires
                a >= 0,
        ;
        assert(abs(c * ONE) == a * ONE) by (nonlinear_arith)
            requires
                a == abs(c as int),
        ;
    }
    let num: i128 = (c as i128) * (ONE as i128);
    let q: i128 = if num >= 0 {
        num / (s as i128)
    } else {
        -((-num) / (s as i128))
    };
    q as i64
}

/// The integer square root, by bisection.
fn isqrt_u64(n: u64) -> (s: u64)
    ensures
        is_isqrt(n as int, s as int),
{
    let mut lo: u64 = 0;
    let mut hi: u64 = 4294967296;
    assert(hi * hi > n) by (nonlinear_arith)
        requires
            hi == 4294967296,
            n < 18446744073709551616,
    ;
    while hi - lo > 1
        invariant
            lo < hi <= 4294967296,
            lo * lo <= n,
            n < hi * hi,
        decreases hi - lo,
    {
        let mid = lo + (hi - lo) / 2;
        assert(mid * mid <= 4294967296 * 4294967296) by (nonlinear_arith)
            requires
                mid <= 4294967296,
        ;
        let sq: u128 = (mid as u128) * (mid as u128);
        if sq <= n as u128 {
            lo = mid;
        } else {
            hi = mid;
        }
    }
    lo
}

pub proof fn lemma_mul_bound(a: int, b: int, m: int)
    requires
        abs(a) <= m,
        abs(b) <= m,
    ensures
        abs(a * b) <= m * m,
{
    assert(abs(a * b) == abs(a) * abs(b)) by (nonlinear_arith);
    assert(abs(a) * abs(b) <= m * m) by (nonlinear_arith)
        requires
            0 <= abs(a) <= m,
            0 <= abs(b) <= m,
    ;
}

proof fn lemma_square_bound(a: int, m: int)
    requires
        abs(a) <= m,
    ensures
        0 <= a * a <= m * m,
{
    lemma_mul_bound(a, a, m);
    assert(a * a >= 0) by (nonlinear_arith);
}

proof fn lemma_square_le(a: int, b: int, c: int)
    ensures
        a * a <= a * a + b * b + c * c,
{
    assert(b * b >= 0 && c * c >= 0) by (nonlinear_arith);
}

} // verus!

verus! {

/// Every non-negative integer has an integer square root.
pub proof fn lemma_isqrt_exists(n: int)
    requires
        n >= 0,
    ensures
        is_isqrt(n, isqrt(n)),
    decreases n,
{
    if n == 0 {
        assert(is_isqrt(0, 0));
    } else {
        lemma_isqrt_exists(n - 1);
        let s = isqrt(n - 1);
        if (s + 1) * (s + 1) <= n {
            assert(n < (s + 2) * (s + 2)) by (nonlinear_arith)
                requires
                    n - 1 < (s + 1) * (s + 1),
                    s >= 0,
            ;
            assert(is_isqrt(n, s + 1));
        } else {
            assert(is_isqrt(n, s));
        }
    }
}

/// A vector with a non-zero coordinate has a non-zero length.
pub proof fn lemma_norm_sq_nonzero(v: Vector3D)
    requires
        v.x != 0 || v.y != 0 || v.z != 0,
    ensures
        norm_sq(v) != 0,
{
    assert(norm_sq(v) > 0) by (nonlinear_arith)
        requires
            v.x != 0 || v.y != 0 || v.z != 0,
            norm_sq(v) == v.x * v.x + v.y * v.y + v.z * v.z,
    ;
}

proof fn lemma_trunc_div_sign(a: int, s: int)
    requires
        s >= 1,
        abs(a) <= 4 * ONE,
    ensures
        a >= 0 ==> 0 <= trunc_div(a * ONE, s) <= a * ONE,
        a < 0 ==> a * ONE <= trunc_div(a * ONE, s) <= 0,
{
    if a >= 0 {
        assert(a * ONE >= 0) by (nonlinear_arith)
            requires
                a >= 0,
        ;
        vstd::arithmetic::div_mod::lemma_div_is_ordered_by_denominator(a * ONE, 1, s);
    } else {
        assert(-a * ONE > 0) by (nonlinear_arith)
            requires
                a < 0,
        ;
        assert((-a) * ONE == -(a * ONE)) by (nonlinear_arith);
        vstd::arithmetic::div_mod::lemma_div_is_ordered_by_denominator(-a * ONE, 1, s);
    }
}

/// Normalizing keeps the sign of every coordinate, and moves none of them
/// further from zero than the coordinate times `ONE`.
pub proof fn lemma_normalize_keeps_signs(v: Vector3D)
    requires
        norm_sq(v) != 0,
        v.within(4 * ONE),
    ensures
        ({
            let u = normalize_spec(v)->Some_0;
            &&& (v.x >= 0 ==> 0 <= u.x <= v.x * ONE) && (v.x < 0 ==> v.x * ONE <= u.x <= 0)
            &&& (v.y >= 0 ==> 0 <= u.y <= v.y * ONE) && (v.y < 0 ==> v.y * ONE <= u.y <= 0)
            &&& (v.z >= 0 ==> 0 <= u.z <= v.z * ONE) && (v.z < 0 ==> v.z * ONE <= u.z <= 0)
        }),
{
    let n = norm_sq(v);
    assert(n >= 0) by (nonlinear_arith)
        requires
            n == v.x * v.x + v.y * v.y + v.z * v.z,
    ;
    lemma_isqrt_exists(n);
    let s = isqrt(n);
    assert(s >= 1) by (nonlinear_arith)
        requires
            n >= 1,
            n < (s + 1) * (s + 1),
            s >= 0,
    ;
    lemma_trunc_div_sign(v.x as int, s);
    lemma_trunc_div_sign(v.y as int, s);
    lemma_trunc_div_sign(v.z as int, s);
    assert(abs(v.x * ONE) <= 4 * ONE * ONE) by (nonlinear_arith)
        requires
            abs(v.x as int) <= 4 * ONE,
    ;
    assert(abs(v.y * ONE) <= 4 * ONE * ONE) by (nonlinear_arith)
        requires
            abs(v.y as int) <= 4 * ONE,
    ;
    assert(abs(v.z * ONE) <= 4 * ONE * ONE) by (nonlinear_arith)
        requires
            abs(v.z as int) <= 4 * ONE,
    ;
}

} // verus!
