use vstd::prelude::*;

verus! {

/// A two-component vector over a single numeric component type.
///
/// A pure value type: every operation returns a new vector and nothing is
/// mutated in place. The orbital model uses it for the eccentricity vector
/// (whose magnitude is the scalar eccentricity and whose direction marks the
/// argument of periapsis) and for screen-space center offsets.
#[derive(Clone, Copy, Debug)]
pub struct Vector2d<T> {
    pub x: T,
    pub y: T,
}

impl<T> Vector2d<T> {
    /// Builds the vector with the given components.
    pub fn new(x: T, y: T) -> (r: Vector2d<T>)
        ensures
            r.x == x,
            r.y == y,
    {
        Vector2d { x, y }
    }
}

impl Vector2d<i64> {
    /// Component-wise sum of two vectors.
    pub fn add(self, rhs: Vector2d<i64>) -> (r: Vector2d<i64>)
        requires
            i64::MIN <= self.x + rhs.x <= i64::MAX,
            i64::MIN <= self.y + rhs.y <= i64::MAX,
        ensures
            r.x == self.x + rhs.x,
            r.y == self.y + rhs.y,
    {
        Vector2d { x: self.x + rhs.x, y: self.y + rhs.y }
    }

    /// Component-wise difference of two vectors.
    pub fn sub(self, rhs: Vector2d<i64>) -> (r: Vector2d<i64>)
        requires
            i64::MIN <= self.x - rhs.x <= i64::MAX,
            i64::MIN <= self.y - rhs.y <= i64::MAX,
        ensures
            r.x == self.x - rhs.x,
            r.y == self.y - rhs.y,
    {
        Vector2d { x: self.x - rhs.x, y: self.y - rhs.y }
    }

    /// Dot product of two vectors: a scalar, not another vector.
    pub fn mul(self, rhs: Vector2d<i64>) -> (r: i64)
        requires
            i64::MIN <= self.x * rhs.x <= i64::MAX,
            i64::MIN <= self.y * rhs.y <= i64::MAX,
            i64::MIN <= self.x * rhs.x + self.y * rhs.y <= i64::MAX,
        ensures
            r == self.x * rhs.x + self.y * rhs.y,
    {
        self.x * rhs.x + self.y * rhs.y
    }

    /// Division of each component by the same scalar, rounding toward zero
    /// as machine-integer division does.
    pub fn div(self, rhs: i64) -> (r: Vector2d<i64>)
        requires
            rhs != 0,
            !(self.x == i64::MIN && rhs == -1),
            !(self.y == i64::MIN && rhs == -1),
        ensures
            r.x == trunc_div(self.x as int, rhs as int),
            r.y == trunc_div(self.y as int, rhs as int),
    {
        proof {
            lemma_trunc_div_in_i64_range(self.x as int, rhs as int);
            lemma_trunc_div_in_i64_range(self.y as int, rhs as int);
        }
        Vector2d { x: self.x / rhs, y: self.y / rhs }
    }
}

/// The quotient of a nonnegative number never exceeds it in magnitude, and
/// its sign follows the divisor's.
proof fn lemma_nonneg_quotient_bounds(n: int, b: int)
    requires
        0 <= n,
        b != 0,
    ensures
        b > 0 ==> 0 <= n / b <= n,
        b < 0 ==> -n <= n / b <= 0,
        b <= -2 && n >= 1 ==> -n < n / b,
{
    assert(b > 0 ==> 0 <= n / b <= n) by (nonlinear_arith)
        requires
            0 <= n,
            b != 0,
    ;
    assert(b < 0 ==> -n <= n / b <= 0) by (nonlinear_arith)
        requires
            0 <= n,
            b != 0,
    ;
    assert(b <= -2 && n >= 1 ==> -n < n / b) by (nonlinear_arith)
        requires
            0 <= n,
            b != 0,
    ;
}

/// A truncating quotient of an `i64` numerator by an `i64` divisor stays in
/// the `i64` range, once the one overflowing pair is excluded.
proof fn lemma_trunc_div_in_i64_range(a: int, b: int)
    requires
        i64::MIN <= a <= i64::MAX,
        b != 0,
        !(a == i64::MIN && b == -1),
    ensures
        i64::MIN <= trunc_div(a, b) <= i64::MAX,
{
    if a >= 0 {
        lemma_nonneg_quotient_bounds(a, b);
    } else {
        lemma_nonneg_quotient_bounds(-a, b);
    }
}

/// Division on the mathematical integers with the quotient rounded toward
/// zero, which is what division on the machine-integer components computes.
/// (`/` on `int` is Euclidean division, which rounds toward negative
/// infinity when exactly one operand is negative.)
pub open spec fn trunc_div(a: int, b: int) -> int {
    if a >= 0 {
        a / b
    } else {
        -((-a) / b)
    }
}

/// The dot product of a vector with itself is never negative.
///
/// This is what makes the scalar eccentricity well defined: the magnitude of
/// the eccentricity vector is the square root of its dot product with itself,
/// and that argument cannot go negative.
pub proof fn lemma_dot_self_nonneg(v: Vector2d<i64>)
    ensures
        v.x * v.x + v.y * v.y >= 0,
{
    assert(v.x * v.x >= 0) by (nonlinear_arith);
    assert(v.y * v.y >= 0) by (nonlinear_arith);
}

} // verus!
