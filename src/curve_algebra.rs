use vstd::prelude::*;
use vstd::arithmetic::div_mod::{lemma_add_mod_noop, lemma_mod_multiples_basic, lemma_mul_mod_noop_general};

verus! {

/// `u` and `v` are congruent modulo `p`.
pub open spec fn cong(u: int, v: int, p: int) -> bool {
    (u - v) % p == 0
}

/// `(x, y)` lies on `y^2 = x^3 + a x + b` over the integers modulo `p`.
pub open spec fn on_curve(x: int, y: int, a: int, b: int, p: int) -> bool {
    cong(y * y, x * x * x + a * x + b, p)
}

proof fn lemma_zero_times(d: int, w: int, p: int)
    requires
        p > 0,
        d % p == 0,
    ensures
        (d * w) % p == 0,
{
    lemma_mul_mod_noop_general(d, w, p);
    assert((0 * w) % p == 0) by (nonlinear_arith)
        requires p > 0;
}

proof fn lemma_zero_sum(d1: int, d2: int, p: int)
    requires
        p > 0,
        d1 % p == 0,
        d2 % p == 0,
    ensures
        (d1 + d2) % p == 0,
        (d1 - d2) % p == 0,
{
    lemma_add_mod_noop(d1, d2, p);
    vstd::arithmetic::div_mod::lemma_small_mod(0, p as nat);
    lemma_zero_times(d2, -1, p);
    lemma_add_mod_noop(d1, d2 * -1, p);
    assert(d1 - d2 == d1 + d2 * -1);
}

proof fn lemma_tangent_identity(x: int, y: int, s: int, a: int, b: int)
    ensures
        (s * (x - (s * s - 2 * x)) - y) * (s * (x - (s * s - 2 * x)) - y) - ((s * s - 2 * x) * (s
            * s - 2 * x) * (s * s - 2 * x) + a * (s * s - 2 * x) + b) == (s * s - 3 * x) * (2 * s
            * y - 3 * (x * x) - a) + (y * y - (x * x * x + a * x + b)),
{
    let u = s * s;
    let xx = u - 2 * x;
    let w = x - xx;
    let yy = s * w - y;
    assert(yy * yy == u * (w * w) - 2 * (s * w * y) + y * y) by (nonlinear_arith)
        requires yy == s * w - y, u == s * s;
    assert(w * w == 9 * (x * x) - 6 * (x * u) + u * u) by (nonlinear_arith)
        requires w == 3 * x - u;
    assert(u * (w * w) == 9 * (u * (x * x)) - 6 * (x * (u * u)) + u * (u * u)) by (nonlinear_arith)
        requires w * w == 9 * (x * x) - 6 * (x * u) + u * u;
    assert(s * w * y == 3 * (s * x * y) - s * u * y) by (nonlinear_arith)
        requires w == 3 * x - u;
    assert(xx * xx * xx == u * (u * u) - 6 * (x * (u * u)) + 12 * (u * (x * x)) - 8 * (x * x * x))
        by (nonlinear_arith)
        requires xx == u - 2 * x;
    assert(a * xx == a * u - 2 * (a * x)) by (nonlinear_arith)
        requires xx == u - 2 * x;
    assert((u - 3 * x) * (2 * s * y - 3 * (x * x) - a) == 2 * (s * u * y) - 3 * (u * (x * x)) - a
        * u - 6 * (s * x * y) + 9 * (x * x * x) + 3 * (a * x)) by (nonlinear_arith);
    assert(s * u * y == u * s * y) by (nonlinear_arith);
}

proof fn lemma_difference_identity(x3: int, xx: int, y3: int, yy: int, a: int, b: int)
    ensures
        (y3 * y3 - (x3 * x3 * x3 + a * x3 + b)) - (yy * yy - (xx * xx * xx + a * xx + b)) == (y3
            - yy) * (y3 + yy) - (x3 - xx) * (x3 * x3 + x3 * xx + xx * xx + a),
{
    assert((y3 - yy) * (y3 + yy) == y3 * y3 - yy * yy) by (nonlinear_arith);
    assert((x3 - xx) * (x3 * x3 + x3 * xx + xx * xx + a) == x3 * x3 * x3 - xx * xx * xx + a * x3
        - a * xx) by (nonlinear_arith);
}

/// An exact identity `lhs == rhs + k * p` is a congruence.
pub proof fn lemma_cong_of_carry(lhs: int, rhs: int, k: int, p: int)
    requires
        p > 0,
        lhs == rhs + k * p,
    ensures
        cong(lhs, rhs, p),
{
    lemma_mod_multiples_basic(k, p);
}

/// An exact identity `rhs == lhs + k * p` is a congruence.
pub proof fn lemma_cong_of_carry_rev(lhs: int, rhs: int, k: int, p: int)
    requires
        p > 0,
        rhs == lhs + k * p,
    ensures
        cong(lhs, rhs, p),
{
    assert(lhs == rhs + (-k) * p) by (nonlinear_arith)
        requires rhs == lhs + k * p;
    lemma_mod_multiples_basic(-k, p);
}

/// Tangent doubling keeps a point on the curve: if `(x, y)` is on the curve and the
/// witnesses meet the doubling chain's congruences, then `(x3, y3)` is on the curve.
pub proof fn lemma_doubling_on_curve(
    x: int,
    y: int,
    a: int,
    b: int,
    p: int,
    px2: int,
    px2_3: int,
    num: int,
    den: int,
    s: int,
    ssq: int,
    pxpx: int,
    x3: int,
    pmx: int,
    stp: int,
    y3: int,
)
    requires
        p > 0,
        on_curve(x, y, a, b, p),
        cong(px2, x * x, p),
        cong(px2_3, px2 * 3, p),
        cong(num, a + px2_3, p),
        cong(den, 2 * y, p),
        cong(s * den, num, p),
        cong(ssq, s * s, p),
        cong(pxpx, x + x, p),
        cong(x3 + pxpx, ssq, p),
        cong(pmx + x3, x, p),
        cong(stp, s * pmx, p),
        cong(y3 + y, stp, p),
    ensures
        on_curve(x3, y3, a, b, p),
{
    let d1 = px2 - x * x;
    let d2 = px2_3 - px2 * 3;
    let d3 = num - (a + px2_3);
    let d4 = den - 2 * y;
    let d5 = s * den - num;
    let d6 = ssq - s * s;
    let d7 = pxpx - (x + x);
    let d8 = x3 + pxpx - ssq;
    let d9 = pmx + x3 - x;
    let d10 = stp - s * pmx;
    let d11 = y3 + y - stp;
    let c = y * y - (x * x * x + a * x + b);
    let xx = s * s - 2 * x;
    let yy = s * (x - xx) - y;
    // x3 is the chord-tangent x.
    let e1 = x3 - xx;
    assert(e1 == d8 - d7 + d6);
    lemma_zero_sum(d8, d7, p);
    lemma_zero_sum(d8 - d7, d6, p);
    // x - x3 is witnessed by pmx.
    let e2 = pmx - (x - xx);
    assert(e2 == d9 - e1);
    lemma_zero_sum(d9, e1, p);
    // y3 is the chord-tangent y.
    let e3 = y3 - yy;
    assert(s * pmx - s * (x - xx) == s * e2) by (nonlinear_arith)
        requires e2 == pmx - (x - xx);
    assert(e3 == d11 + d10 + s * e2) by (nonlinear_arith)
        requires
            e3 == y3 - yy,
            yy == s * (x - xx) - y,
            d11 == y3 + y - stp,
            d10 == stp - s * pmx,
            s * pmx - s * (x - xx) == s * e2,
    ;
    lemma_zero_times(e2, s, p);
    assert(e2 * s == s * e2) by (nonlinear_arith);
    lemma_zero_sum(d11, d10, p);
    lemma_zero_sum(d11 + d10, s * e2, p);
    // The slope meets the tangent condition 2 s y = 3 x^2 + a.
    let t = 2 * s * y - 3 * (x * x) - a;
    assert(t == d5 - s * d4 + d3 + d2 + 3 * d1) by (nonlinear_arith)
        requires
            t == 2 * s * y - 3 * (x * x) - a,
            d1 == px2 - x * x,
            d2 == px2_3 - px2 * 3,
            d3 == num - (a + px2_3),
            d4 == den - 2 * y,
            d5 == s * den - num,
    ;
    lemma_zero_times(d4, s, p);
    assert(d4 * s == s * d4) by (nonlinear_arith);
    lemma_zero_times(d1, 3, p);
    assert(d1 * 3 == 3 * d1);
    lemma_zero_sum(d5, s * d4, p);
    lemma_zero_sum(d5 - s * d4, d3, p);
    lemma_zero_sum(d5 - s * d4 + d3, d2, p);
    lemma_zero_sum(d5 - s * d4 + d3 + d2, 3 * d1, p);
    // On exact values, the doubled point's defect is a combination of the two conditions.
    let f = yy * yy - (xx * xx * xx + a * xx + b);
    lemma_tangent_identity(x, y, s, a, b);
    lemma_zero_times(t, s * s - 3 * x, p);
    assert(t * (s * s - 3 * x) == (s * s - 3 * x) * t) by (nonlinear_arith);
    lemma_zero_sum((s * s - 3 * x) * t, c, p);
    // The witnessed point differs from the exact one by multiples of e1 and e3.
    let g = y3 * y3 - (x3 * x3 * x3 + a * x3 + b);
    let m3 = y3 + yy;
    let m1 = x3 * x3 + x3 * xx + xx * xx + a;
    lemma_difference_identity(x3, xx, y3, yy, a, b);
    lemma_zero_times(e3, m3, p);
    lemma_zero_times(e1, m1, p);
    lemma_zero_sum(f, e3 * m3, p);
    lemma_zero_sum(f + e3 * m3, e1 * m1, p);
}

} // verus!
