//! Small facts of real arithmetic, each proved on its own so that the proofs
//! of the laws can name the step they take.

use vstd::prelude::*;

verus! {

/// A real number whose square is zero is zero.
pub proof fn lemma_square_zero(x: real)
    requires
        x * x == 0real,
    ensures
        x == 0real,
{
    assert(x == 0real) by (nonlinear_arith)
        requires
            x * x == 0real,
    ;
}

/// Equal factors give equal products.
pub proof fn lemma_mul_eq(d: real, k: real, p: real)
    requires
        d == k,
    ensures
        d * p == k * p,
{
}

/// A square is not negative.
pub proof fn lemma_square_nonneg(x: real)
    ensures
        x * x >= 0real,
{
    assert(x * x >= 0real) by (nonlinear_arith);
}

/// A factor that leaves a number other than zero unchanged is one.
pub proof fn lemma_cancel(x: real, u: real)
    requires
        x * u == u,
        u != 0real,
    ensures
        x == 1real,
{
    assert(x == 1real) by (nonlinear_arith)
        requires
            x * u == u,
            u != 0real,
    ;
}

/// A number whose square is below one lies between minus one and one, and
/// the other way round.
pub proof fn lemma_square_below_one(c: real)
    ensures
        -1real < c < 1real <==> c * c < 1real,
{
    assert(-1real < c < 1real <==> c * c < 1real) by (nonlinear_arith);
}

/// A component of a vector is no longer than the vector.
pub proof fn lemma_component_bound(x: real, rest: real, t: real, e: real)
    requires
        t * t == x * x + rest,
        rest >= 0real,
        0real <= t < e,
    ensures
        -e < x < e,
{
    assert(-t <= x <= t) by (nonlinear_arith)
        requires
            t * t >= x * x,
            0real <= t,
    ;
}

/// A common factor other than zero may be cancelled.
pub proof fn lemma_cancel_factor(x: real, y: real, u: real)
    requires
        x * u == y * u,
        u != 0real,
    ensures
        x == y,
{
    assert(x == y) by (nonlinear_arith)
        requires
            x * u == y * u,
            u != 0real,
    ;
}

/// Two numbers that are not negative and have the same square are equal.
pub proof fn lemma_same_square(x: real, y: real)
    requires
        x >= 0real,
        y >= 0real,
        x * x == y * y,
    ensures
        x == y,
{
    assert(x == y) by (nonlinear_arith)
        requires
            x >= 0real,
            y >= 0real,
            x * x == y * y,
    ;
}

/// Minus one half of a number is the negated half of it.
pub proof fn lemma_minus_half(x: real, e: real)
    requires
        e * 2real == x,
    ensures
        (-(1real / 2real)) * x == -e,
{
    assert((-(1real / 2real)) * x == -e) by (nonlinear_arith)
        requires
            e * 2real == x,
    ;
}

/// A sign moves out of a product.
pub proof fn lemma_neg_mul(x: real, y: real)
    ensures
        (-x) * y == -(x * y),
        x * (-y) == -(x * y),
{
    assert((-x) * y == -(x * y)) by (nonlinear_arith);
    assert(x * (-y) == -(x * y)) by (nonlinear_arith);
}

/// A product with zero is zero.
pub proof fn lemma_mul_zero(x: real)
    ensures
        0real * x == 0real,
        x * 0real == 0real,
{
}

/// A product with one is the other factor.
pub proof fn lemma_mul_one(x: real)
    ensures
        1real * x == x,
        x * 1real == x,
{
}

/// Products commute.
pub proof fn lemma_comm(x: real, y: real)
    ensures
        x * y == y * x,
{
    assert(x * y == y * x) by (nonlinear_arith);
}

/// The inner factors of a product of two products may change places.
pub proof fn lemma_interchange(a: real, b: real, c: real, d: real)
    ensures
        (a * b) * (c * d) == (a * c) * (b * d),
{
    assert((a * b) * (c * d) == (a * c) * (b * d)) by (nonlinear_arith);
}

/// Products associate.
pub proof fn lemma_assoc(x: real, y: real, z: real)
    ensures
        (x * y) * z == x * (y * z),
{
    assert((x * y) * z == x * (y * z)) by (nonlinear_arith);
}

/// A product distributes over a sum of two.
pub proof fn lemma_dist2(x1: real, x2: real, z: real)
    ensures
        (x1 + x2) * z == x1 * z + x2 * z,
{
    assert((x1 + x2) * z == x1 * z + x2 * z) by (nonlinear_arith);
}

/// A product distributes over a sum of three.
pub proof fn lemma_dist3(x1: real, x2: real, x3: real, z: real)
    ensures
        (x1 + x2 + x3) * z == x1 * z + x2 * z + x3 * z,
{
    assert((x1 + x2 + x3) * z == x1 * z + x2 * z + x3 * z) by (nonlinear_arith);
}

/// `((−b)·p)·a = −((a·b)·p)`.
pub proof fn lemma_neg_term(b: real, p: real, a: real)
    ensures
        ((-b) * p) * a == -((a * b) * p),
{
    assert(((-b) * p) * a == -((a * b) * p)) by (nonlinear_arith);
}

/// The square of a sum.
pub proof fn lemma_square_sum(x: real, y: real)
    ensures
        (x + y) * (x + y) == x * x + 2real * (x * y) + y * y,
{
    assert((x + y) * (x + y) == x * x + 2real * (x * y) + y * y) by (nonlinear_arith);
}

/// The square of a difference.
pub proof fn lemma_square_diff(x: real, y: real)
    ensures
        (x - y) * (x - y) == x * x - 2real * (x * y) + y * y,
{
    assert((x - y) * (x - y) == x * x - 2real * (x * y) + y * y) by (nonlinear_arith);
}

/// The square of a product.
pub proof fn lemma_square_prod(x: real, y: real)
    ensures
        (x * y) * (x * y) == (x * x) * (y * y),
{
    assert((x * y) * (x * y) == (x * x) * (y * y)) by (nonlinear_arith);
}

/// A common factor of two products moves to the front as a square.
pub proof fn lemma_common_factor(a: real, x: real, y: real)
    ensures
        (a * x) * (a * y) == (a * a) * (x * y),
{
    assert((a * x) * (a * y) == (a * a) * (x * y)) by (nonlinear_arith);
}

/// The product of a sum and a difference of the same two.
pub proof fn lemma_diff_squares(x: real, y: real)
    ensures
        (x - y) * (x + y) == x * x - y * y,
{
    assert((x - y) * (x + y) == x * x - y * y) by (nonlinear_arith);
}

/// The product of two sums of two.
pub proof fn lemma_prod_sums(x: real, y: real, u: real, w: real)
    ensures
        (x + y) * (u + w) == x * u + x * w + y * u + y * w,
{
    assert((x + y) * (u + w) == x * u + x * w + y * u + y * w) by (nonlinear_arith);
}

/// The product of a sum and a difference.
pub proof fn lemma_prod_sum_diff(x: real, y: real, u: real, w: real)
    ensures
        (x + y) * (u - w) == x * u - x * w + y * u - y * w,
{
    assert((x + y) * (u - w) == x * u - x * w + y * u - y * w) by (nonlinear_arith);
}

/// A product distributes over a difference.
pub proof fn lemma_dist_sub(x: real, m: real, n: real)
    ensures
        x * (m - n) == x * m - x * n,
{
    assert(x * (m - n) == x * m - x * n) by (nonlinear_arith);
}

/// The factors of a product of three may change places.
pub proof fn lemma_rearrange(x: real, y: real, z: real)
    ensures
        x * (y * z) == y * (x * z),
        x * (y * z) == z * (x * y),
{
    assert(x * (y * z) == y * (x * z)) by (nonlinear_arith);
    assert(x * (y * z) == z * (x * y)) by (nonlinear_arith);
}

} // verus!
