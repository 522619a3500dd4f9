//! Counting the numbers below a bound that a rule picks.
//!
//! The engine's rules pick validators by the remainder and the size of a
//! rotated id. The lemmas here count such picks: a residue class below a
//! bound, and a pick seen through a rotation of the range.
use vstd::prelude::*;
use vstd::arithmetic::div_mod::{
    lemma_add_mod_noop,
    lemma_fundamental_div_mod,
    lemma_fundamental_div_mod_converse,
    lemma_mod_bound,
    lemma_small_mod,
};
use vstd::set_lib::{lemma_int_range, lemma_len_subset, lemma_map_size, set_int_range};
use vstd::relations::injective_on;

verus! {

/// The numbers from 0 up to `n` that `pred` picks.
pub open spec fn picked(n: int, pred: spec_fn(int) -> bool) -> Set<int> {
    Set::new(|x: int| 0 <= x < n && pred(x))
}

/// The numbers from 0 up to `n` whose place after a rotation by `c` is
/// picked by `pred`.
pub open spec fn picked_after_rotation(n: int, c: int, pred: spec_fn(int) -> bool) -> Set<int> {
    Set::new(|v: int| 0 <= v < n && pred((v + c) % n))
}

/// The numbers from 0 up to `n` that leave the remainder `r` modulo `m`.
pub open spec fn residue_class(n: int, m: int, r: int) -> Set<int> {
    Set::new(|x: int| 0 <= x < n && x % m == r)
}

/// How quotient and remainder move from `k` to `k + 1`.
pub proof fn lemma_div_mod_successor(k: int, m: int)
    requires
        0 <= k,
        0 < m,
    ensures
        k % m == m - 1 ==> (k + 1) / m == k / m + 1 && (k + 1) % m == 0,
        k % m != m - 1 ==> (k + 1) / m == k / m && (k + 1) % m == k % m + 1,
{
    lemma_fundamental_div_mod(k, m);
    lemma_mod_bound(k, m);
    let q = k / m;
    let r = k % m;
    if r == m - 1 {
        assert(k + 1 == (q + 1) * m + 0) by (nonlinear_arith)
            requires
                k == m * q + r,
                r == m - 1,
        ;
        lemma_fundamental_div_mod_converse(k + 1, m, q + 1, 0);
    } else {
        assert(k + 1 == q * m + (r + 1)) by (nonlinear_arith)
            requires
                k == m * q + r,
        ;
        lemma_fundamental_div_mod_converse(k + 1, m, q, r + 1);
    }
}

/// Two numbers less than `m` apart with the same remainder are the same.
pub proof fn lemma_same_remainder_close(a: int, b: int, m: int)
    requires
        0 < m,
        a % m == b % m,
        a - b < m,
        b - a < m,
    ensures
        a == b,
{
    lemma_fundamental_div_mod(a, m);
    lemma_fundamental_div_mod(b, m);
    let qa = a / m;
    let qb = b / m;
    assert(qa == qb) by (nonlinear_arith)
        requires
            0 < m,
            a - b == m * qa - m * qb,
            a - b < m,
            b - a < m,
    ;
}

/// A set of numbers picked below a bound is finite and no larger than the
/// bound.
pub proof fn lemma_picked_finite(n: int, pred: spec_fn(int) -> bool)
    requires
        0 <= n,
    ensures
        picked(n, pred).finite(),
        picked(n, pred).len() <= n,
{
    lemma_int_range(0, n);
    assert(picked(n, pred).subset_of(set_int_range(0, n)));
    lemma_len_subset(picked(n, pred), set_int_range(0, n));
}

/// Below `n`, the residue class of `r` modulo `m` has `n / m` members, and
/// one more where `r` is below the remainder of `n`.
pub proof fn lemma_residue_class_len(n: int, m: int, r: int)
    requires
        0 <= n,
        0 < m,
        0 <= r < m,
    ensures
        residue_class(n, m, r).finite(),
        residue_class(n, m, r).len() == n / m + (if r < n % m {
            1int
        } else {
            0int
        }),
    decreases n,
{
    if n == 0 {
        assert(residue_class(n, m, r) =~= Set::<int>::empty());
        lemma_small_mod(0, m as nat);
        vstd::arithmetic::div_mod::lemma_basic_div(0, m);
    } else {
        let k = n - 1;
        lemma_residue_class_len(k, m, r);
        lemma_div_mod_successor(k, m);
        lemma_mod_bound(k, m);
        if k % m == r {
            assert(residue_class(n, m, r) =~= residue_class(k, m, r).insert(k));
            assert(!residue_class(k, m, r).contains(k));
        } else {
            assert(residue_class(n, m, r) =~= residue_class(k, m, r));
        }
    }
}

/// Rotating the range does not change how many numbers a rule picks.
pub proof fn lemma_rotation_keeps_count(n: int, c: int, pred: spec_fn(int) -> bool)
    requires
        0 < n,
        0 <= c,
    ensures
        picked_after_rotation(n, c, pred).finite(),
        picked(n, pred).finite(),
        picked_after_rotation(n, c, pred).len() == picked(n, pred).len(),
{
    let from = picked_after_rotation(n, c, pred);
    let to = picked(n, pred);
    let turn = |v: int| (v + c) % n;
    lemma_int_range(0, n);
    assert(from.subset_of(set_int_range(0, n)));
    lemma_len_subset(from, set_int_range(0, n));
    lemma_picked_finite(n, pred);
    assert forall|v1: int, v2: int|
        from.contains(v1) && from.contains(v2) && #[trigger] turn(v1) == #[trigger] turn(
            v2,
        ) implies v1 == v2 by {
        lemma_same_remainder_close(v1 + c, v2 + c, n);
    }
    assert(injective_on(turn, from));
    assert forall|x: int| to.contains(x) implies #[trigger] from.map(turn).contains(x) by {
        let v = (x - c) % n;
        lemma_mod_bound(x - c, n);
        lemma_add_mod_noop(x - c, c, n);
        lemma_small_mod(x as nat, n as nat);
        lemma_mod_bound(c, n);
        assert(((x - c) % n + c % n) % n == x);
        lemma_add_mod_noop(v, c, n);
        lemma_small_mod(v as nat, n as nat);
        assert((v + c) % n == x);
        assert(from.contains(v) && turn(v) == x);
    }
    assert forall|x: int| #[trigger] from.map(turn).contains(x) implies to.contains(x) by {
        let v = choose|v: int| from.contains(v) && x == turn(v);
        lemma_mod_bound(v + c, n);
    }
    assert(from.map(turn) =~= to);
    lemma_map_size(from, to, turn);
}

/// The numbers from `lo` up to `hi` that leave the remainder `r` modulo `m`.
pub open spec fn residue_span(lo: int, hi: int, m: int, r: int) -> Set<int> {
    Set::new(|x: int| lo <= x < hi && x % m == r)
}

/// Between two bounds a residue class has as many members as it has below
/// the upper bound, less those below the lower one.
pub proof fn lemma_residue_span_len(lo: int, hi: int, m: int, r: int)
    requires
        0 <= lo <= hi,
        0 < m,
        0 <= r < m,
    ensures
        residue_span(lo, hi, m, r).finite(),
        residue_span(lo, hi, m, r).len() == residue_class(hi, m, r).len() - residue_class(
            lo,
            m,
            r,
        ).len(),
{
    let below = residue_class(lo, m, r);
    let span = residue_span(lo, hi, m, r);
    let all = residue_class(hi, m, r);
    lemma_residue_class_len(lo, m, r);
    lemma_residue_class_len(hi, m, r);
    assert(span.subset_of(all));
    lemma_len_subset(span, all);
    assert(below.disjoint(span));
    assert(below + span =~= all);
    vstd::set_lib::lemma_set_disjoint_lens(below, span);
}

} // verus!
