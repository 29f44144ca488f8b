//! The global laws of round-robin selection: fairness of the draw-to-index
//! assignment and uniqueness of the draw sequence.
use vstd::prelude::*;
use vstd::arithmetic::div_mod::lemma_div_by_multiple;
use vstd::arithmetic::div_mod::lemma_fundamental_div_mod;
use vstd::arithmetic::div_mod::lemma_fundamental_div_mod_converse;
use vstd::arithmetic::div_mod::lemma_mod_bound;
use vstd::arithmetic::div_mod::lemma_mod_multiples_basic;
use crate::selector::spec_rr_index;

verus! {

/// How many of the draws `0, 1, ..., m - 1` are assigned pool index `j`, for
/// a pool of `n` upstreams.
pub open spec fn hits(m: nat, n: nat, j: nat) -> nat
    decreases m,
{
    if m == 0 {
        0
    } else {
        hits((m - 1) as nat, n, j) + if spec_rr_index((m - 1) as nat, n) == j {
            1nat
        } else {
            0nat
        }
    }
}

proof fn lemma_succ_div_mod(a: nat, n: nat)
    requires
        n > 0,
    ensures
        a % n == n - 1 ==> (a + 1) % n == 0 && (a + 1) / n == a / n + 1,
        a % n < n - 1 ==> (a + 1) % n == a % n + 1 && (a + 1) / n == a / n,
{
    let q = a as int / n as int;
    let r = a as int % n as int;
    lemma_fundamental_div_mod(a as int, n as int);
    lemma_mod_bound(a as int, n as int);
    if r == n - 1 {
        assert((q + 1) * n == q * n + n) by (nonlinear_arith);
        lemma_fundamental_div_mod_converse(a as int + 1, n as int, q + 1, 0);
    } else {
        lemma_fundamental_div_mod_converse(a as int + 1, n as int, q, r + 1);
    }
}

proof fn lemma_hits_closed(m: nat, n: nat, j: nat)
    requires
        n > 0,
        j < n,
    ensures
        hits(m, n, j) == m / n + if j < m % n {
            1nat
        } else {
            0nat
        },
    decreases m,
{
    if m == 0 {
        lemma_fundamental_div_mod_converse(0, n as int, 0, 0);
    } else {
        let a = (m - 1) as nat;
        lemma_hits_closed(a, n, j);
        lemma_mod_bound(a as int, n as int);
        lemma_succ_div_mod(a, n);
    }
}

/// Round-robin fairness: across the first `k * n` draws of a pool of `n`
/// upstreams, every pool index `j` is selected exactly `k` times; and the
/// draws visit the indices in cyclic order starting from index 0, the `d`-th
/// draw landing on `d % n`.
pub proof fn lemma_round_robin_fairness(k: nat, n: nat, j: nat)
    requires
        n > 0,
        j < n,
    ensures
        hits(k * n, n, j) == k,
        forall|d: nat| spec_rr_index(d, n) == d % n,
{
    lemma_hits_closed(k * n, n, j);
    lemma_mod_multiples_basic(k as int, n as int);
    lemma_div_by_multiple(k as int, n as int);
}

/// The draw sequence numbers handed out by `k` consecutive advances of a
/// cursor that starts at `c0`: the `i`-th call draws `c0 + i`.
pub open spec fn draws(c0: nat, k: nat) -> Seq<nat> {
    Seq::new(k, |i: int| (c0 + i) as nat)
}

/// Draw uniqueness: `k` advances of the cursor yield `k` pairwise distinct
/// sequence numbers, and they cover the range `[c0, c0 + k)` with no position
/// skipped. Concurrent callers each receive one such draw, so no two calls
/// share a sequence number and none is lost.
pub proof fn lemma_draws_unique(c0: nat, k: nat)
    ensures
        draws(c0, k).len() == k,
        forall|i: int, j: int|
            0 <= i < k && 0 <= j < k && i != j ==> draws(c0, k)[i] != draws(c0, k)[j],
        forall|v: nat| c0 <= v < c0 + k ==> draws(c0, k).contains(v),
{
    assert forall|v: nat| c0 <= v < c0 + k implies draws(c0, k).contains(v) by {
        assert(draws(c0, k)[v - c0] == v);
    }
}

} // verus!
