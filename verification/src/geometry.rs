//! Points, vectors, and the scalar algebra they compute with.
//!
//! The renderer's coordinates are floating point, which the verified
//! core cannot hold. The component type is therefore a parameter: a
//! `Scalar` carries its own arithmetic as opaque operations, each with
//! a per-type specification mirror, and the vector and point algebra —
//! sums, scaling, dot and cross products, magnitudes, normalization —
//! is verified here once for every scalar. The shell instantiates the
//! algebra at its float type; the crate instantiates it at a bounded
//! integer scalar, so the movement logic can also be run and proved on
//! exact values.

use vstd::prelude::*;

verus! {

/// A scalar the camera and brush can compute with. Each operation has
/// a specification twin that pins the executable one; what the twins
/// mean is the implementing type's affair — the geometry above them is
/// proved for any choice.
pub trait Scalar: Sized + Copy {
    /// Whether this value is at or below zero. For a floating-point
    /// scalar the answer follows its partial order, so a not-a-number
    /// value is neither positive nor nonpositive and answers `false`.
    spec fn spec_nonpositive(self) -> bool;

    fn is_nonpositive(self) -> (answer: bool)
        ensures
            answer == self.spec_nonpositive(),
    ;

    /// The scalar's addition.
    spec fn spec_plus(self, other: Self) -> Self;

    fn plus(self, other: Self) -> (r: Self)
        ensures
            r == self.spec_plus(other),
    ;

    /// The scalar's subtraction.
    spec fn spec_minus(self, other: Self) -> Self;

    fn minus(self, other: Self) -> (r: Self)
        ensures
            r == self.spec_minus(other),
    ;

    /// The scalar's multiplication.
    spec fn spec_times(self, other: Self) -> Self;

    fn times(self, other: Self) -> (r: Self)
        ensures
            r == self.spec_times(other),
    ;

    /// The scalar's division.
    spec fn spec_divided_by(self, other: Self) -> Self;

    fn divided_by(self, other: Self) -> (r: Self)
        ensures
            r == self.spec_divided_by(other),
    ;

    /// The scalar's square root.
    spec fn spec_square_root(self) -> Self;

    fn square_root(self) -> (r: Self)
        ensures
            r == self.spec_square_root(),
    ;
}

/// An integer clamped into `i64`'s range.
pub open spec fn clamp_i64(value: int) -> i64 {
    if value > i64::MAX {
        i64::MAX
    } else if value < i64::MIN {
        i64::MIN
    } else {
        value as i64
    }
}

/// The integer square root: the greatest `r` with `r * r <= n`, and 0
/// for anything at or below 0.
pub open spec fn isqrt(n: int) -> int
    decreases n,
{
    if n <= 0 {
        0
    } else {
        let r = isqrt(n - 1);
        if (r + 1) * (r + 1) <= n {
            r + 1
        } else {
            r
        }
    }
}

/// `isqrt` answers between the two squares around `n`.
pub proof fn lemma_isqrt_bracket(n: int)
    requires
        n >= 0,
    ensures
        isqrt(n) >= 0,
        isqrt(n) * isqrt(n) <= n,
        n < (isqrt(n) + 1) * (isqrt(n) + 1),
    decreases n,
{
    if n > 0 {
        lemma_isqrt_bracket(n - 1);
        let r = isqrt(n - 1);
        if (r + 1) * (r + 1) <= n {
            assert((r + 2) * (r + 2) > (r + 1) * (r + 1)) by (nonlinear_arith)
                requires
                    r >= 0,
            ;
        }
    }
}

/// Any `r` between the two squares around `n` is `isqrt(n)`.
pub proof fn lemma_isqrt_unique(n: int, r: int)
    requires
        n >= 0,
        r >= 0,
        r * r <= n,
        n < (r + 1) * (r + 1),
    ensures
        r == isqrt(n),
{
    lemma_isqrt_bracket(n);
    let s = isqrt(n);
    if r < s {
        assert((r + 1) * (r + 1) <= s * s) by (nonlinear_arith)
            requires
                0 <= r + 1 <= s,
        ;
    } else if s < r {
        assert((s + 1) * (s + 1) <= r * r) by (nonlinear_arith)
            requires
                0 <= s + 1 <= r,
        ;
    }
}

/// `i64` as a scalar: saturating sums, differences and products,
/// truncating division with division by zero answering zero, and the
/// integer square root, zero at and below zero. Exact on small values,
/// it is the scalar the crate's own tests drive the camera and brush
/// with; the renderer's float scalar lives with the shell.
impl Scalar for i64 {
    open spec fn spec_nonpositive(self) -> bool {
        self <= 0
    }

    fn is_nonpositive(self) -> bool {
        self <= 0
    }

    open spec fn spec_plus(self, other: i64) -> i64 {
        clamp_i64(self + other)
    }

    fn plus(self, other: i64) -> i64 {
        let sum: i128 = self as i128 + other as i128;
        if sum > i64::MAX as i128 {
            i64::MAX
        } else if sum < i64::MIN as i128 {
            i64::MIN
        } else {
            sum as i64
        }
    }

    open spec fn spec_minus(self, other: i64) -> i64 {
        clamp_i64(self - other)
    }

    fn minus(self, other: i64) -> i64 {
        let difference: i128 = self as i128 - other as i128;
        if difference > i64::MAX as i128 {
            i64::MAX
        } else if difference < i64::MIN as i128 {
            i64::MIN
        } else {
            difference as i64
        }
    }

    open spec fn spec_times(self, other: i64) -> i64 {
        clamp_i64(self * other)
    }

    fn times(self, other: i64) -> i64 {
        let a: i128 = self as i128;
        let b: i128 = other as i128;
        proof {
            assert(-0x40000000000000000000000000000000 <= a * b
                <= 0x40000000000000000000000000000000) by (nonlinear_arith)
                requires
                    -0x8000000000000000 <= a <= 0x7fffffffffffffff,
                    -0x8000000000000000 <= b <= 0x7fffffffffffffff,
            ;
        }
        let product: i128 = a * b;
        if product > i64::MAX as i128 {
            i64::MAX
        } else if product < i64::MIN as i128 {
            i64::MIN
        } else {
            product as i64
        }
    }

    open spec fn spec_divided_by(self, other: i64) -> i64 {
        if other == 0 {
            0
        } else {
            let quotient = (vstd::math::abs(self as int) / vstd::math::abs(other as int)) as int;
            if (self < 0) == (other < 0) {
                clamp_i64(quotient)
            } else {
                clamp_i64(-quotient)
            }
        }
    }

    fn divided_by(self, other: i64) -> i64 {
        if other == 0 {
            return 0;
        }
        let magnitude_self: u64 = if self < 0 {
            (-(self as i128)) as u64
        } else {
            self as u64
        };
        let magnitude_other: u64 = if other < 0 {
            (-(other as i128)) as u64
        } else {
            other as u64
        };
        let quotient: u64 = magnitude_self / magnitude_other;
        if (self < 0) == (other < 0) {
            if quotient > i64::MAX as u64 {
                i64::MAX
            } else {
                quotient as i64
            }
        } else {
            if quotient > i64::MAX as u64 {
                i64::MIN
            } else {
                -(quotient as i64)
            }
        }
    }

    open spec fn spec_square_root(self) -> i64 {
        if self <= 0 {
            0
        } else {
            isqrt(self as int) as i64
        }
    }

    fn square_root(self) -> i64 {
        if self <= 0 {
            return 0;
        }
        let n: u64 = self as u64;
        let mut root: u64 = 0;
        loop
            invariant_except_break
                0 < n <= 0x7fffffffffffffff,
                root as int * root as int <= n as int,
                root <= 3037000499,
                root <= n,
            ensures
                root as int * root as int <= n as int,
                (n as int) < (root as int + 1) * (root as int + 1),
                root <= 3037000499,
            decreases n - root,
        {
            let next = root + 1;
            proof {
                assert((next as int) * (next as int) <= 3037000500 * 3037000500)
                    by (nonlinear_arith)
                    requires
                        0 <= next as int <= 3037000500,
                ;
            }
            let square = next * next;
            if square <= n {
                root = next;
                proof {
                    assert(root as int <= 3037000499) by (nonlinear_arith)
                        requires
                            root as int * root as int <= 0x7fffffffffffffff,
                            root as int >= 0,
                    ;
                    assert(root as int <= root as int * root as int) by (nonlinear_arith)
                        requires
                            root as int >= 1,
                    ;
                }
            } else {
                break;
            }
        }
        proof {
            lemma_isqrt_unique(n as int, root as int);
        }
        root as i64
    }
}

impl<S: Scalar> Vector3<S> {
    pub open spec fn spec_plus(self, other: Self) -> Self {
        Vector3 {
            x: self.x.spec_plus(other.x),
            y: self.y.spec_plus(other.y),
            z: self.z.spec_plus(other.z),
        }
    }

    /// Component-wise sum.
    pub fn plus(self, other: Self) -> (r: Self)
        ensures
            r == self.spec_plus(other),
    {
        Vector3 { x: self.x.plus(other.x), y: self.y.plus(other.y), z: self.z.plus(other.z) }
    }

    pub open spec fn spec_minus(self, other: Self) -> Self {
        Vector3 {
            x: self.x.spec_minus(other.x),
            y: self.y.spec_minus(other.y),
            z: self.z.spec_minus(other.z),
        }
    }

    /// Component-wise difference.
    pub fn minus(self, other: Self) -> (r: Self)
        ensures
            r == self.spec_minus(other),
    {
        Vector3 { x: self.x.minus(other.x), y: self.y.minus(other.y), z: self.z.minus(other.z) }
    }

    pub open spec fn spec_scaled_by(self, factor: S) -> Self {
        Vector3 {
            x: self.x.spec_times(factor),
            y: self.y.spec_times(factor),
            z: self.z.spec_times(factor),
        }
    }

    /// Each component multiplied by the factor.
    pub fn scaled_by(self, factor: S) -> (r: Self)
        ensures
            r == self.spec_scaled_by(factor),
    {
        Vector3 { x: self.x.times(factor), y: self.y.times(factor), z: self.z.times(factor) }
    }

    pub open spec fn spec_dot(self, other: Self) -> S {
        self.x.spec_times(other.x).spec_plus(self.y.spec_times(other.y)).spec_plus(
            self.z.spec_times(other.z),
        )
    }

    /// The inner product, summed left to right.
    pub fn dot(self, other: Self) -> (r: S)
        ensures
            r == self.spec_dot(other),
    {
        self.x.times(other.x).plus(self.y.times(other.y)).plus(self.z.times(other.z))
    }

    pub open spec fn spec_cross(self, other: Self) -> Self {
        Vector3 {
            x: self.y.spec_times(other.z).spec_minus(self.z.spec_times(other.y)),
            y: self.z.spec_times(other.x).spec_minus(self.x.spec_times(other.z)),
            z: self.x.spec_times(other.y).spec_minus(self.y.spec_times(other.x)),
        }
    }

    /// The cross product, perpendicular to both arguments.
    pub fn cross(self, other: Self) -> (r: Self)
        ensures
            r == self.spec_cross(other),
    {
        Vector3 {
            x: self.y.times(other.z).minus(self.z.times(other.y)),
            y: self.z.times(other.x).minus(self.x.times(other.z)),
            z: self.x.times(other.y).minus(self.y.times(other.x)),
        }
    }

    pub open spec fn spec_magnitude(self) -> S {
        self.spec_dot(self).spec_square_root()
    }

    /// The vector's length: the square root of its dot square.
    pub fn magnitude(self) -> (r: S)
        ensures
            r == self.spec_magnitude(),
    {
        self.dot(self).square_root()
    }

    pub open spec fn spec_normalized(self) -> Self {
        let magnitude = self.spec_magnitude();
        Vector3 {
            x: self.x.spec_divided_by(magnitude),
            y: self.y.spec_divided_by(magnitude),
            z: self.z.spec_divided_by(magnitude),
        }
    }

    /// The vector divided by its own length.
    pub fn normalized(self) -> (r: Self)
        ensures
            r == self.spec_normalized(),
    {
        let magnitude = self.magnitude();
        Vector3 {
            x: self.x.divided_by(magnitude),
            y: self.y.divided_by(magnitude),
            z: self.z.divided_by(magnitude),
        }
    }
}

impl<S: Scalar> Point3<S> {
    pub open spec fn spec_minus_point(self, other: Self) -> Vector3<S> {
        Vector3 {
            x: self.x.spec_minus(other.x),
            y: self.y.spec_minus(other.y),
            z: self.z.spec_minus(other.z),
        }
    }

    /// The vector from `other` to `self`.
    pub fn minus_point(self, other: Self) -> (r: Vector3<S>)
        ensures
            r == self.spec_minus_point(other),
    {
        Vector3 { x: self.x.minus(other.x), y: self.y.minus(other.y), z: self.z.minus(other.z) }
    }

    pub open spec fn spec_plus_vector(self, v: Vector3<S>) -> Self {
        Point3 { x: self.x.spec_plus(v.x), y: self.y.spec_plus(v.y), z: self.z.spec_plus(v.z) }
    }

    /// The point moved along `v`.
    pub fn plus_vector(self, v: Vector3<S>) -> (r: Self)
        ensures
            r == self.spec_plus_vector(v),
    {
        Point3 { x: self.x.plus(v.x), y: self.y.plus(v.y), z: self.z.plus(v.z) }
    }

    pub open spec fn spec_minus_vector(self, v: Vector3<S>) -> Self {
        Point3 { x: self.x.spec_minus(v.x), y: self.y.spec_minus(v.y), z: self.z.spec_minus(v.z) }
    }

    /// The point moved against `v`.
    pub fn minus_vector(self, v: Vector3<S>) -> (r: Self)
        ensures
            r == self.spec_minus_vector(v),
    {
        Point3 { x: self.x.minus(v.x), y: self.y.minus(v.y), z: self.z.minus(v.z) }
    }
}

/// A position in space, one coordinate per axis.
#[derive(Clone, Copy, PartialEq, Debug)]
pub struct Point3<S> {
    pub x: S,
    pub y: S,
    pub z: S,
}

/// A direction in space, one component per axis.
#[derive(Clone, Copy, PartialEq, Debug)]
pub struct Vector3<S> {
    pub x: S,
    pub y: S,
    pub z: S,
}

} // verus!
