//! Integer arithmetic shared by the colour code: rounding division and the
//! bounds that keep products inside machine integers.

use vstd::arithmetic::div_mod::{lemma_fundamental_div_mod, lemma_fundamental_div_mod_converse};
use vstd::arithmetic::mul::{
    lemma_mul_is_associative, lemma_mul_is_commutative, lemma_mul_is_distributive_sub,
    lemma_mul_is_distributive_sub_other_way,
};
use vstd::prelude::*;

verus! {

/// The integer nearest to `n / d`; a value exactly halfway between two
/// integers goes to the larger one. Meaningful for `d > 0`.
pub open spec fn round_div(n: int, d: int) -> int {
    (2 * n + d) / (2 * d)
}

/// Floor division is the unique `q` with `q * d <= x < q * d + d`.
pub proof fn lemma_floor_div_unique(x: int, d: int, q: int)
    requires
        d > 0,
        q * d <= x < q * d + d,
    ensures
        x / d == q,
{
    lemma_fundamental_div_mod_converse(x, d, q, x - q * d);
}

/// The quotient of a floor division brackets the dividend.
pub proof fn lemma_floor_div_bounds(x: int, d: int)
    requires
        d > 0,
    ensures
        (x / d) * d <= x < (x / d) * d + d,
{
    lemma_fundamental_div_mod(x, d);
    assert(d * (x / d) == (x / d) * d) by (nonlinear_arith);
    assert(0 <= x % d < d) by (nonlinear_arith)
        requires
            d > 0,
    ;
}

/// `round_div(n, d)` is within half a unit of the exact quotient:
/// `2 * |q * d - n| <= d`, with the upper end excluded.
pub proof fn lemma_round_div_bounds(n: int, d: int)
    requires
        d > 0,
    ensures
        2 * (round_div(n, d) * d) - d <= 2 * n,
        2 * n < 2 * (round_div(n, d) * d) + d,
{
    let q = round_div(n, d);
    lemma_floor_div_bounds(2 * n + d, 2 * d);
    assert(q * (2 * d) == 2 * (q * d)) by (nonlinear_arith);
}

/// An exact quotient is its own rounding.
pub proof fn lemma_round_div_exact(q: int, d: int)
    requires
        d > 0,
    ensures
        round_div(q * d, d) == q,
{
    assert(q * (2 * d) == 2 * (q * d)) by (nonlinear_arith);
    lemma_floor_div_unique(2 * (q * d) + d, 2 * d, q);
}

/// A dividend of at least `c` times the divisor has a rounded quotient of at
/// least `c`.
pub proof fn lemma_round_div_at_least(n: int, d: int, c: int)
    requires
        d > 0,
        c * d <= n,
    ensures
        c <= round_div(n, d),
{
    let q = round_div(n, d);
    lemma_round_div_bounds(n, d);
    assert(c <= q) by (nonlinear_arith)
        requires
            d > 0,
            2 * n < 2 * (q * d) + d,
            c * d <= n,
    ;
}

/// A product is bounded by the product of the bounds of its factors.
pub proof fn lemma_product_bound(a: int, b: int, m: int, n: int)
    by (nonlinear_arith)
    requires
        -m <= a <= m,
        -n <= b <= n,
    ensures
        -(m * n) <= a * b <= m * n,
{
}

/// `(s * (u - a) - t * (v - b)) * m` multiplied out.
pub proof fn lemma_scaled_offset(s: int, t: int, u: int, v: int, a: int, b: int, m: int)
    ensures
        (s * (u - a) - t * (v - b)) * m == s * (u * m) - s * (a * m) - t * (v * m) + t * (b * m),
{
    lemma_mul_is_distributive_sub_other_way(m, s * (u - a), t * (v - b));
    lemma_mul_is_associative(s, u - a, m);
    lemma_mul_is_associative(t, v - b, m);
    lemma_mul_is_distributive_sub_other_way(m, u, a);
    lemma_mul_is_distributive_sub_other_way(m, v, b);
    lemma_mul_is_distributive_sub(s, u * m, a * m);
    lemma_mul_is_distributive_sub(t, v * m, b * m);
}

/// The square of a product is the product of the squares.
pub proof fn lemma_square_of_product(a: int, b: int)
    ensures
        (a * b) * (a * b) == (a * a) * (b * b),
        (-(a * b)) * (-(a * b)) == (a * a) * (b * b),
{
    lemma_mul_is_associative(a * b, a, b);
    lemma_mul_is_associative(a, b, a);
    lemma_mul_is_commutative(b, a);
    lemma_mul_is_associative(a, a, b);
    lemma_mul_is_associative(a * a, b, b);
    assert((-(a * b)) * (-(a * b)) == (a * b) * (a * b)) by (nonlinear_arith);
}

/// The product of two sums of two squares is a sum of two squares.
pub proof fn lemma_two_squares(a: int, b: int, c: int, d: int)
    ensures
        (a * a + b * b) * (c * c + d * d) == (a * c + b * d) * (a * c + b * d) + (a * d - b * c)
            * (a * d - b * c),
{
    let ac = a * c;
    let bd = b * d;
    let ad = a * d;
    let bc = b * c;
    lemma_square_of_product(a, c);
    lemma_square_of_product(b, d);
    lemma_square_of_product(a, d);
    lemma_square_of_product(b, c);
    assert(ac * bd == ad * bc) by {
        lemma_mul_is_associative(a * c, b, d);
        lemma_mul_is_associative(a, c, b);
        lemma_mul_is_commutative(c, b);
        lemma_mul_is_associative(a, b, c);
        lemma_mul_is_associative(a * b, c, d);
        lemma_mul_is_commutative(c, d);
        lemma_mul_is_associative(a * b, d, c);
        lemma_mul_is_associative(a, b, d);
        lemma_mul_is_commutative(b, d);
        lemma_mul_is_associative(a, d, b);
        lemma_mul_is_associative(a * d, b, c);
    }
    let aa = a * a;
    let bb = b * b;
    let cc = c * c;
    let dd = d * d;
    assert((aa + bb) * (cc + dd) == aa * cc + aa * dd + bb * cc + bb * dd) by (nonlinear_arith);
    assert((ac + bd) * (ac + bd) == ac * ac + 2 * (ac * bd) + bd * bd) by (nonlinear_arith);
    assert((ad - bc) * (ad - bc) == ad * ad - 2 * (ad * bc) + bc * bc) by (nonlinear_arith);
}

/// Scaling a bounded value by a non-negative factor scales the bound.
pub proof fn lemma_scaled_bound(u: int, m: int, t: int)
    by (nonlinear_arith)
    requires
        -m <= u <= m,
        0 <= t,
    ensures
        -(m * t) <= u * t <= m * t,
{
}

/// The product of two numbers is at most the sum of their squares.
pub proof fn lemma_product_le_squares(a: int, b: int)
    by (nonlinear_arith)
    ensures
        -(a * a + b * b) <= a * b <= a * a + b * b,
        0 <= a * a,
        0 <= b * b,
{
    assert(0 <= (a - b) * (a - b));
    assert(0 <= (a + b) * (a + b));
}

/// A dividend within `c` times the divisor has a rounded quotient within `c`.
pub proof fn lemma_round_div_within(n: int, d: int, c: int)
    requires
        d > 0,
        c >= 0,
        -(c * d) <= n <= c * d,
    ensures
        -c <= round_div(n, d) <= c,
{
    let q = round_div(n, d);
    lemma_round_div_bounds(n, d);
    assert(q <= c) by (nonlinear_arith)
        requires
            d > 0,
            2 * (q * d) - d <= 2 * n,
            n <= c * d,
    ;
    assert(-c <= q) by (nonlinear_arith)
        requires
            d > 0,
            2 * n < 2 * (q * d) + d,
            -(c * d) <= n,
    ;
}

/// Computes `round_div(n, d)` for a positive divisor.
pub fn nearest_quotient(n: i128, d: i128) -> (q: i128)
    requires
        0 < d <= 0x2000_0000_0000_0000_0000_0000_0000_0000,
        -0x2000_0000_0000_0000_0000_0000_0000_0000 <= n <= 0x2000_0000_0000_0000_0000_0000_0000_0000,
    ensures
        q == round_div(n as int, d as int),
{
    let a: i128 = 2 * n + d;
    let b: i128 = 2 * d;
    if a >= 0 {
        a / b
    } else {
        let m: i128 = -a;
        let t: i128 = (m + b - 1) / b;
        proof {
            lemma_floor_div_bounds(m + b - 1, b as int);
            assert((-t) * b == -(t * b)) by (nonlinear_arith);
            lemma_floor_div_unique(a as int, b as int, -t);
        }
        -t
    }
}

/// Computes the quotient of `n` by a positive divisor, rounded down.
pub fn floor_quotient(n: i128, d: i128) -> (q: i128)
    requires
        0 < d <= 0x2000_0000_0000_0000_0000_0000_0000_0000,
        -0x2000_0000_0000_0000_0000_0000_0000_0000 <= n <= 0x2000_0000_0000_0000_0000_0000_0000_0000,
    ensures
        q == (n as int) / (d as int),
{
    if n >= 0 {
        n / d
    } else {
        let m: i128 = -n;
        let t: i128 = (m + d - 1) / d;
        proof {
            lemma_floor_div_bounds(m + d - 1, d as int);
            assert((-t) * d == -(t * d)) by (nonlinear_arith);
            lemma_floor_div_unique(n as int, d as int, -t);
        }
        -t
    }
}

/// The square root of `n`, rounded down.
pub fn integer_sqrt(n: u128) -> (r: u64)
    ensures
        r * r <= n < (r + 1) * (r + 1),
{
    let mut lo: u128 = 0;
    let mut hi: u128 = 0x1_0000_0000_0000_0000;
    assert(0x1_0000_0000_0000_0000int * 0x1_0000_0000_0000_0000int
        == 0x1_0000_0000_0000_0000_0000_0000_0000_0000int) by (nonlinear_arith);
    while hi - lo > 1
        invariant
            lo < hi <= 0x1_0000_0000_0000_0000,
            lo * lo <= n < hi * hi,
        decreases hi - lo,
    {
        let mid: u128 = lo + (hi - lo) / 2;
        assert(mid * mid <= 0xffff_ffff_ffff_ffff * 0xffff_ffff_ffff_ffff) by (nonlinear_arith)
            requires
                0 <= mid <= 0xffff_ffff_ffff_ffff,
        ;
        assert(0xffff_ffff_ffff_ffffint * 0xffff_ffff_ffff_ffffint
            == 0xffff_ffff_ffff_fffe_0000_0000_0000_0001int) by (nonlinear_arith);
        if mid * mid <= n {
            lo = mid;
        } else {
            hi = mid;
        }
    }
    lo as u64
}

} // verus!
