//! Small facts of integer division that the engine and its laws lean on.
use vstd::prelude::*;

verus! {

/// A quotient is zero exactly when the dividend is below the divisor.
pub proof fn lemma_quotient_zero(x: int, d: int)
    requires
        0 <= x,
        0 < d,
    ensures
        (x / d == 0) <==> x < d,
        x / d >= 0,
{
    vstd::arithmetic::div_mod::lemma_fundamental_div_mod(x, d);
    vstd::arithmetic::div_mod::lemma_mod_bound(x, d);
    if x < d {
        vstd::arithmetic::div_mod::lemma_basic_div(x, d);
    } else {
        vstd::arithmetic::div_mod::lemma_div_pos_is_pos(x, d);
        if x / d == 0 {
            assert(d * (x / d) == 0);
        }
    }
}

/// The quotient of a number by a positive one lies between 0 and the number.
pub proof fn lemma_quotient_bounds(x: int, d: int)
    requires
        0 <= x,
        0 < d,
    ensures
        0 <= x / d <= x,
{
    vstd::arithmetic::div_mod::lemma_fundamental_div_mod(x, d);
    vstd::arithmetic::div_mod::lemma_mod_bound(x, d);
    let q = x / d;
    let r = x % d;
    assert(0 <= q <= x) by (nonlinear_arith)
        requires
            x == d * q + r,
            0 <= r < d,
            0 <= x,
            0 < d,
    ;
}

/// A quotient is below `g` exactly when the dividend is below `d * g`.
pub proof fn lemma_quotient_below(x: int, d: int, g: int)
    requires
        0 <= x,
        0 < d,
        0 <= g,
    ensures
        x / d < g <==> x < d * g,
{
    vstd::arithmetic::div_mod::lemma_fundamental_div_mod(x, d);
    vstd::arithmetic::div_mod::lemma_mod_bound(x, d);
    let q = x / d;
    let r = x % d;
    if q < g {
        assert(x < d * g) by (nonlinear_arith)
            requires
                x == d * q + r,
                0 <= r < d,
                q + 1 <= g,
                0 < d,
        ;
    } else {
        assert(x >= d * g) by (nonlinear_arith)
            requires
                x == d * q + r,
                0 <= r < d,
                q >= g,
                0 < d,
        ;
    }
}

/// Quotient and remainder of `d * q + r` by `d`, for a remainder in range.
pub proof fn lemma_div_mod_of_parts(d: int, q: int, r: int)
    requires
        0 < d,
        0 <= r < d,
    ensures
        (d * q + r) / d == q,
        (d * q + r) % d == r,
{
    assert(d * q + r == q * d + r) by (nonlinear_arith);
    vstd::arithmetic::div_mod::lemma_fundamental_div_mod_converse(d * q + r, d, q, r);
}

/// Adding `k` moves a number into the residue class of `r` exactly when
/// the number is in the class of `r - k`.
pub proof fn lemma_shifted_remainder(x: int, k: int, m: int, r: int)
    requires
        0 < m,
        0 <= r < m,
    ensures
        (x + k) % m == r <==> x % m == (r - k) % m,
{
    if (x + k) % m == r {
        vstd::arithmetic::div_mod::lemma_add_mod_noop_right(-k, x + k, m);
        assert(-k + (x + k) == x);
    }
    if x % m == (r - k) % m {
        vstd::arithmetic::div_mod::lemma_add_mod_noop_right(k, x, m);
        vstd::arithmetic::div_mod::lemma_add_mod_noop_right(k, r - k, m);
        assert(k + (r - k) == r);
        vstd::arithmetic::div_mod::lemma_small_mod(r as nat, m as nat);
        assert(k + x == x + k);
    }
}

} // verus!
