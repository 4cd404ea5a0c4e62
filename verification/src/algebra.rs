//! Facts of real and integer arithmetic on which the proofs of the library
//! rest.  Each is stated over plain numbers and proved on its own.

use vstd::prelude::*;

verus! {

/// Dividing by `y` and multiplying by `y` again gives `x` back.
pub proof fn lemma_div_mul_cancel(x: real, y: real)
    requires
        y != 0real,
    ensures
        (x / y) * y == x,
{
    assert((x / y) * y == x) by (nonlinear_arith)
        requires
            y != 0real,
    ;
}

/// The quotient `x / y` is the one number whose product with `y` is `x`.
pub proof fn lemma_div_unique(x: real, y: real, z: real)
    requires
        y != 0real,
        z * y == x,
    ensures
        x / y == z,
{
    assert(x / y == z) by (nonlinear_arith)
        requires
            y != 0real,
            z * y == x,
    ;
}

/// A quotient of two numbers other than zero is not zero.
pub proof fn lemma_div_nonzero(x: real, y: real)
    requires
        x != 0real,
        y != 0real,
    ensures
        x / y != 0real,
{
    lemma_div_mul_cancel(x, y);
    let z = x / y;
    assert(z != 0real) by (nonlinear_arith)
        requires
            z * y == x,
            x != 0real,
    ;
}

/// A product of two numbers other than zero is not zero.
pub proof fn lemma_mul_nonzero(x: real, y: real)
    requires
        x != 0real,
        y != 0real,
    ensures
        x * y != 0real,
{
    assert(x * y != 0real) by (nonlinear_arith)
        requires
            x != 0real,
            y != 0real,
    ;
}

/// A common factor other than zero cancels from a quotient.
pub proof fn lemma_common_factor(c: real, p: real, q: real)
    requires
        c != 0real,
        q != 0real,
    ensures
        c * q != 0real,
        (c * p) / (c * q) == p / q,
{
    let z = p / q;
    lemma_div_mul_cancel(p, q);
    lemma_mul_nonzero(c, q);
    assert(z * (c * q) == c * p) by (nonlinear_arith)
        requires
            z * q == p,
    ;
    lemma_div_unique(c * p, c * q, z);
}

/// A factor of both entries of a row is a factor of the row's product with a
/// vector.
pub proof fn lemma_scaled_row(c: real, m1: real, m2: real, v0: real, v1: real)
    ensures
        (c * m1) * v0 + (c * m2) * v1 == c * (m1 * v0 + m2 * v1),
{
    assert((c * m1) * v0 + (c * m2) * v1 == c * (m1 * v0 + m2 * v1)) by (nonlinear_arith);
}

/// Multiplying a matrix by a factor other than zero changes no ratio of the
/// two components of its product with a vector.
pub proof fn lemma_scaled_ratio(
    c: real,
    m11: real,
    m12: real,
    m21: real,
    m22: real,
    v0: real,
    v1: real,
)
    requires
        c != 0real,
        m21 * v0 + m22 * v1 != 0real,
    ensures
        ((c * m11) * v0 + (c * m12) * v1) / ((c * m21) * v0 + (c * m22) * v1) == (m11 * v0 + m12
            * v1) / (m21 * v0 + m22 * v1),
{
    lemma_scaled_row(c, m11, m12, v0, v1);
    lemma_scaled_row(c, m21, m22, v0, v1);
    lemma_common_factor(c, m11 * v0 + m12 * v1, m21 * v0 + m22 * v1);
}

/// An upper triangular matrix applied to `(p, q)` gives the same ratio as
/// applied to `(p / q, 1)`.
pub proof fn lemma_homogeneous_ratio(a: real, b: real, d: real, p: real, q: real)
    requires
        d != 0real,
        q != 0real,
    ensures
        (a * p + b * q) / (d * q) == (a * (p / q) + b * 1real) / (0real * (p / q) + d * 1real),
{
    let s = p / q;
    let z = (a * s + b * 1real) / (0real * s + d * 1real);
    assert(0real * s + d * 1real == d);
    assert(b * 1real == b);
    lemma_div_mul_cancel(p, q);
    lemma_div_mul_cancel(a * s + b, d);
    lemma_mul_nonzero(d, q);
    assert(z * (d * q) == (z * d) * q) by (nonlinear_arith);
    assert((a * s + b) * q == a * (s * q) + b * q) by (nonlinear_arith);
    assert(z * (d * q) == a * p + b * q);
    lemma_div_unique(a * p + b * q, d * q, z);
}

/// The product of the two rows of the matrix of a parameter `t` and a skew
/// `a` with `(seed, 1)`, as a ratio, in closed form.
pub proof fn lemma_shear_ratio(a: real, t: real, seed: real)
    requires
        t != 0real,
    ensures
        1real / t != 0real,
        (t * seed + (a * (t - 1real / t)) * 1real) / (0real * seed + (1real / t) * 1real) == t * t
            * seed + a * (t * t - 1real),
{
    let u = 1real / t;
    let p = t * seed + (a * (t - u)) * 1real;
    let q = 0real * seed + u * 1real;
    lemma_div_nonzero(1real, t);
    lemma_div_mul_cancel(1real, t);
    assert(q == u);
    let z = t * t * seed + a * (t * t - 1real);
    assert(z * u == p) by (nonlinear_arith)
        requires
            z == t * t * seed + a * (t * t - 1real),
            p == t * seed + (a * (t - u)) * 1real,
            u * t == 1real,
    ;
    lemma_div_unique(p, u, z);
}

/// The closed form of the shear at parameter one is the seed itself.
pub proof fn lemma_shear_at_one(a: real, seed: real)
    ensures
        1real * 1real * seed + a * (1real * 1real - 1real) == seed,
{
    assert(1real * 1real * seed + a * (1real * 1real - 1real) == seed) by (nonlinear_arith);
}

/// At parameter one the entries of the shear are those of the identity.
pub proof fn lemma_unit_entries(a: real)
    ensures
        1real / 1real == 1real,
        a * (1real - 1real / 1real) == 0real,
{
    assert(1real / 1real == 1real) by (nonlinear_arith);
    assert(a * (1real - 1real) == 0real) by (nonlinear_arith);
}

/// Without skew the closed form of the shear is the seed times the square of
/// the parameter.
pub proof fn lemma_shear_without_skew(t: real, seed: real)
    ensures
        0real * (t - 1real / t) == 0real,
        t * t * seed + 0real * (t * t - 1real) == t * t * seed,
{
    let u = 1real / t;
    assert(0real * (t - u) == 0real) by (nonlinear_arith);
    assert(0real * (t * t - 1real) == 0real) by (nonlinear_arith);
}

/// A number and its opposite have the same square.
pub proof fn lemma_square_of_opposite(t: real)
    ensures
        (-t) * (-t) == t * t,
{
    assert((-t) * (-t) == t * t) by (nonlinear_arith);
}

/// Multiplying the entries `t`, `a (t - 1/t)` and `1/t`, where `a` is
/// `an / ad` and `t` is `tn / td`, by `tn td ad` clears their denominators.
pub proof fn lemma_cleared_entries(an: real, ad: real, tn: real, td: real)
    requires
        ad != 0real,
        td != 0real,
        tn != 0real,
    ensures
        tn * td * ad != 0real,
        tn / td != 0real,
        (tn * td * ad) * (tn / td) == tn * tn * ad,
        (tn * td * ad) * ((an / ad) * (tn / td - 1real / (tn / td))) == an * (tn * tn - td * td),
        (tn * td * ad) * 0real == 0real,
        (tn * td * ad) * (1real / (tn / td)) == td * td * ad,
{
    let a = an / ad;
    let t = tn / td;
    let u = 1real / t;
    let c = tn * td * ad;
    let k = c * a;
    lemma_div_mul_cancel(an, ad);
    lemma_div_mul_cancel(tn, td);
    lemma_div_nonzero(tn, td);
    lemma_mul_nonzero(tn, td);
    lemma_mul_nonzero(tn * td, ad);
    lemma_div_mul_cancel(1real, t);
    assert(tn * u == td) by (nonlinear_arith)
        requires
            t * td == tn,
            u * t == 1real,
    ;
    assert(c * t == tn * tn * ad) by (nonlinear_arith)
        requires
            c == tn * td * ad,
            t * td == tn,
    ;
    assert(c * u == td * td * ad) by (nonlinear_arith)
        requires
            c == tn * td * ad,
            tn * u == td,
    ;
    assert(k == tn * td * an) by (nonlinear_arith)
        requires
            k == c * a,
            c == tn * td * ad,
            a * ad == an,
    ;
    assert(k * t == an * (tn * tn)) by (nonlinear_arith)
        requires
            k == tn * td * an,
            t * td == tn,
    ;
    assert(k * u == an * (td * td)) by (nonlinear_arith)
        requires
            k == tn * td * an,
            tn * u == td,
    ;
    assert(c * (a * (t - u)) == k * t - k * u) by (nonlinear_arith)
        requires
            k == c * a,
    ;
    assert(an * (tn * tn - td * td) == an * (tn * tn) - an * (td * td)) by (nonlinear_arith);
}

/// A product of whole numbers is the product of the same numbers as reals.
pub proof fn lemma_cast_mul(x: int, y: int)
    ensures
        (x * y) as real == x as real * y as real,
{
    assert((x * y) as real == x as real * y as real) by (nonlinear_arith);
}

/// A product of two positive numbers is positive.
pub proof fn lemma_positive_product(x: int, y: int)
    requires
        x > 0,
        y > 0,
    ensures
        x * y > 0,
{
    assert(x * y > 0) by (nonlinear_arith)
        requires
            x > 0,
            y > 0,
    ;
}

/// A product of a number of at most 93 bits and one of at most 31 bits has at
/// most 124 bits.
pub proof fn lemma_product_bound(m: int, x: int)
    requires
        -0x2000_0000_0000_0000_0000_0000 <= m <= 0x2000_0000_0000_0000_0000_0000,
        -0x8000_0000 <= x <= 0x8000_0000,
    ensures
        -0x1000_0000_0000_0000_0000_0000_0000_0000 <= m * x
            <= 0x1000_0000_0000_0000_0000_0000_0000_0000,
{
    assert(-0x1000_0000_0000_0000_0000_0000_0000_0000 <= m * x
        <= 0x1000_0000_0000_0000_0000_0000_0000_0000) by (nonlinear_arith)
        requires
            -0x2000_0000_0000_0000_0000_0000 <= m <= 0x2000_0000_0000_0000_0000_0000,
            -0x8000_0000 <= x <= 0x8000_0000,
    ;
}

/// The entries of a matrix cleared of the denominators of 32-bit ratios have
/// at most 93 bits, and the squares on the way to them at most 62.
pub proof fn lemma_entry_bounds(an: int, ad: int, tn: int, td: int)
    requires
        -0x8000_0000 <= an < 0x8000_0000,
        0 < ad < 0x8000_0000,
        -0x8000_0000 <= tn < 0x8000_0000,
        0 < td < 0x8000_0000,
    ensures
        0 <= tn * tn <= 0x4000_0000_0000_0000,
        0 < td * td <= 0x4000_0000_0000_0000,
        0 <= (tn * tn) * ad <= 0x2000_0000_0000_0000_0000_0000,
        -0x2000_0000_0000_0000_0000_0000 <= an * (tn * tn - td * td)
            <= 0x2000_0000_0000_0000_0000_0000,
        0 < (td * td) * ad <= 0x2000_0000_0000_0000_0000_0000,
{
    let n2 = tn * tn;
    let d2 = td * td;
    assert(0 <= n2 <= 0x4000_0000_0000_0000) by (nonlinear_arith)
        requires
            n2 == tn * tn,
            -0x8000_0000 <= tn < 0x8000_0000,
    ;
    assert(0 < d2 <= 0x4000_0000_0000_0000) by (nonlinear_arith)
        requires
            d2 == td * td,
            0 < td < 0x8000_0000,
    ;
    assert(0 <= n2 * ad <= 0x2000_0000_0000_0000_0000_0000) by (nonlinear_arith)
        requires
            0 <= n2 <= 0x4000_0000_0000_0000,
            0 < ad < 0x8000_0000,
    ;
    assert(0 < d2 * ad <= 0x2000_0000_0000_0000_0000_0000) by (nonlinear_arith)
        requires
            0 < d2 <= 0x4000_0000_0000_0000,
            0 < ad < 0x8000_0000,
    ;
    let w = n2 - d2;
    assert(-0x2000_0000_0000_0000_0000_0000 <= an * w <= 0x2000_0000_0000_0000_0000_0000)
        by (nonlinear_arith)
        requires
            -0x4000_0000_0000_0000 <= w <= 0x4000_0000_0000_0000,
            -0x8000_0000 <= an < 0x8000_0000,
    ;
}

/// In a progression of positive step the terms grow: term `i` lies between
/// the first term and term `j` for `i` before `j`, and the next term is one
/// step further.
pub proof fn lemma_progression(first: int, step: int, i: int, j: int)
    requires
        step > 0,
        0 <= i <= j,
    ensures
        first <= first + i * step <= first + j * step,
        i < j ==> first + i * step < first + j * step,
        first + (i + 1) * step == first + i * step + step,
{
    assert(0 <= i * step <= j * step) by (nonlinear_arith)
        requires
            step > 0,
            0 <= i <= j,
    ;
    assert(i < j ==> i * step < j * step) by (nonlinear_arith)
        requires
            step > 0,
            0 <= i <= j,
    ;
    assert((i + 1) * step == i * step + step) by (nonlinear_arith);
}

/// A product of a count of at most 64 bits and a step of at most 31 bits has
/// at most 95 bits.
pub proof fn lemma_span_bound(n: int, step: int)
    requires
        0 <= n <= 0xffff_ffff_ffff_ffff,
        0 < step < 0x8000_0000,
    ensures
        0 <= n * step <= 0x8000_0000_0000_0000_0000_0000,
{
    assert(0 <= n * step <= 0x8000_0000_0000_0000_0000_0000) by (nonlinear_arith)
        requires
            0 <= n <= 0xffff_ffff_ffff_ffff,
            0 < step < 0x8000_0000,
    ;
}

/// A difference of quotients of one denominator is the quotient of the
/// difference.
pub proof fn lemma_quotient_difference(x: real, y: real, d: real)
    requires
        d != 0real,
    ensures
        x / d - y / d == (x - y) / d,
{
    let p = x / d;
    let q = y / d;
    lemma_div_mul_cancel(x, d);
    lemma_div_mul_cancel(y, d);
    assert((p - q) * d == x - y) by (nonlinear_arith)
        requires
            p * d == x,
            q * d == y,
    ;
    lemma_div_unique(x - y, d, p - q);
}

} // verus!
