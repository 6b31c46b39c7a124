//! Small facts of integer arithmetic that the geometry leans on.

use vstd::prelude::*;

verus! {

/// The product of two bounded integers is bounded by the product of the bounds.
pub(crate) proof fn lemma_product_bound(a: int, b: int, ma: int, mb: int)
    by (nonlinear_arith)
    requires
        -ma <= a <= ma,
        -mb <= b <= mb,
    ensures
        -(ma * mb) <= a * b <= ma * mb,
{
}

/// An integer whose square is at most that of a non-negative bound is at most the bound in
/// size.
pub(crate) proof fn lemma_root_bound(x: int, y: int)
    by (nonlinear_arith)
    requires
        0 <= y,
        x * x <= y * y,
    ensures
        -y <= x <= y,
{
}

/// A quotient by a positive divisor lies between two bounds as the dividend lies between their
/// multiples with the divisor.
pub(crate) proof fn lemma_quotient_between(n: int, den: int, lo: int, hi: int)
    by (nonlinear_arith)
    requires
        den > 0,
        lo * den <= n <= hi * den,
    ensures
        lo <= n / den <= hi,
{
}

/// A sum of two integers between two bounds, with the weights 1000 and `f`, lies between the
/// bounds' multiples with the sum of the weights.
pub(crate) proof fn lemma_weighted_sum_between(a: int, b: int, f: int, lo: int, hi: int)
    by (nonlinear_arith)
    requires
        0 <= f,
        lo <= a <= hi,
        lo <= b <= hi,
    ensures
        lo * (1000 + f) <= 1000 * a + f * b <= hi * (1000 + f),
{
}

/// The inner product of two vectors is at most the product of their lengths, in squares.
pub(crate) proof fn lemma_inner_product_bound(a: int, b: int, c: int, d: int)
    ensures
        (a * c + b * d) * (a * c + b * d) <= (a * a + b * b) * (c * c + d * d),
{
    let ac = a * c;
    let bd = b * d;
    let ad = a * d;
    let bc = b * c;
    assert((ac + bd) * (ac + bd) == ac * ac + 2 * (ac * bd) + bd * bd) by (nonlinear_arith);
    assert((ad - bc) * (ad - bc) == ad * ad - 2 * (ad * bc) + bc * bc) by (nonlinear_arith);
    assert((ad - bc) * (ad - bc) >= 0) by (nonlinear_arith);
    assert(ac * bd == ad * bc) by (nonlinear_arith)
        requires
            ac == a * c,
            bd == b * d,
            ad == a * d,
            bc == b * c,
    ;
    assert(ac * ac == (a * a) * (c * c)) by (nonlinear_arith)
        requires
            ac == a * c,
    ;
    assert(bd * bd == (b * b) * (d * d)) by (nonlinear_arith)
        requires
            bd == b * d,
    ;
    assert(ad * ad == (a * a) * (d * d)) by (nonlinear_arith)
        requires
            ad == a * d,
    ;
    assert(bc * bc == (b * b) * (c * c)) by (nonlinear_arith)
        requires
            bc == b * c,
    ;
    let aa = a * a;
    let bb = b * b;
    let cc = c * c;
    let dd = d * d;
    assert((aa + bb) * (cc + dd) == aa * cc + aa * dd + bb * cc + bb * dd) by (nonlinear_arith);
}

} // verus!
