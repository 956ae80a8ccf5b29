//! Indexing of the pieces of a 3x3x3, used to look up precomputed tables.
//!
//! Every distinct arrangement of a set of pieces gets a distinct index, and the indices of a
//! kind of arrangement are below the number of arrangements of that kind.

use vstd::prelude::*;

use crate::cube3::{corner_ref, edge_ref};
use crate::pieces::corner::Corner;
use crate::pieces::edge::{Edge, EdgePosition};
use crate::space::{Axis, Direction, Vec3};

verus! {

/// Factorial of `n`.
pub open spec fn fact(n: nat) -> nat
    decreases n,
{
    if n == 0 {
        1
    } else {
        n * fact((n - 1) as nat)
    }
}

/// Number of arrangements of `b` items chosen in order out of `a`: `a * (a - 1) * ... * (a - b + 1)`.
pub open spec fn falling(a: nat, b: nat) -> nat
    decreases b,
{
    if b == 0 {
        1
    } else {
        a * falling((a - 1) as nat, (b - 1) as nat)
    }
}

/// `b` to the power of `e`.
pub open spec fn power(b: nat, e: nat) -> nat
    decreases e,
{
    if e == 0 {
        1
    } else {
        b * power(b, (e - 1) as nat)
    }
}

proof fn lemma_fact_monotone(i: nat, j: nat)
    requires
        i <= j,
    ensures
        fact(i) <= fact(j),
    decreases j,
{
    if i < j {
        lemma_fact_monotone(i, (j - 1) as nat);
        let f = fact((j - 1) as nat);
        assert(j * f >= f) by (nonlinear_arith)
            requires
                j >= 1,
        ;
    }
}

/// Const calculation of the factorial of a number.
///
/// If the number is greater than 20, it would overflow so it just returns 0. On targets where
/// `usize` is narrower than 64 bits, the factorials up to 20 that do not fit are not computed.
pub fn factorial(n: usize) -> (r: usize)
    requires
        n <= 20 ==> fact(n as nat) <= usize::MAX,
    ensures
        n <= 20 ==> r == fact(n as nat),
        n > 20 ==> r == 0,
    decreases n,
{
    if n <= 1 {
        proof {
            assert(fact(1) == 1 * fact(0));
        }
        1
    } else if n <= 20 {
        proof {
            lemma_fact_monotone((n - 1) as nat, n as nat);
        }
        let f = factorial(n - 1);
        proof {
            assert(fact(n as nat) == n * fact((n - 1) as nat));
            assert(f * n == n * f) by (nonlinear_arith);
        }
        f * n
    } else {
        0
    }
}

proof fn lemma_falling_shift(a: nat, b: nat, k: nat)
    ensures
        falling(a, b) <= falling(a + k, b + k),
    decreases k,
{
    if k > 0 {
        lemma_falling_shift(a, b, (k - 1) as nat);
        let f = falling((a + k - 1) as nat, (b + k - 1) as nat);
        assert(falling(a + k, b + k) == (a + k) * f);
        assert((a + k) * f >= f) by (nonlinear_arith)
            requires
                k >= 1,
        ;
    }
}

pub(crate) proof fn lemma_falling_positive(a: nat, b: nat)
    requires
        b <= a,
    ensures
        falling(a, b) >= 1,
    decreases b,
{
    if b > 0 {
        lemma_falling_positive((a - 1) as nat, (b - 1) as nat);
        let f = falling((a - 1) as nat, (b - 1) as nat);
        assert(a * f >= 1) by (nonlinear_arith)
            requires
                a >= 1,
                f >= 1,
        ;
    }
}

/// The weight of the `i`-th choice of an arrangement of `n` items out of `s`: the number of
/// arrangements of the items after it.
pub open spec fn multiplier(s: nat, n: nat, i: nat) -> nat {
    falling((s - i - 1) as nat, (n - 1 - i) as nat)
}

/// Returns the multipliers used to calculate the index of a disposition of `N` items out of
/// `T_POSITION_SET_SIZE` positions.
pub fn disposition_multipliers<T, const N: usize, const T_POSITION_SET_SIZE: usize>() -> (r: Vec<
    usize,
>)
    requires
        N <= T_POSITION_SET_SIZE,
        falling(T_POSITION_SET_SIZE as nat, N as nat) <= usize::MAX,
    ensures
        r.len() == N,
        forall|i: int|
            0 <= i < N ==> #[trigger] r@[i] == multiplier(
                T_POSITION_SET_SIZE as nat,
                N as nat,
                i as nat,
            ),
{
    let ghost s = T_POSITION_SET_SIZE as nat;
    let ghost n = N as nat;
    let mut output: Vec<usize> = Vec::new();
    while output.len() < N
        invariant
            output.len() <= N,
        decreases N - output.len(),
    {
        output.push(0);
    }
    let mut iteration_index: usize = T_POSITION_SET_SIZE - N;
    let mut mult: usize = 1;
    let mut done: usize = 0;
    while done < N
        invariant
            N <= T_POSITION_SET_SIZE,
            falling(s, n) <= usize::MAX,
            s == T_POSITION_SET_SIZE,
            n == N,
            done <= N,
            output.len() == N,
            iteration_index == s - n + done,
            mult == falling((s - n + done) as nat, done as nat),
            forall|k: int|
                N - done <= k < N ==> #[trigger] output@[k] == multiplier(s, n, k as nat),
        decreases N - done,
    {
        output.set(N - 1 - done, mult);
        proof {
            lemma_falling_shift(
                (s - n + done + 1) as nat,
                (done + 1) as nat,
                (n - done - 1) as nat,
            );
            let a = (s - n + done) as nat;
            assert(falling(a + 1, (done + 1) as nat) == (a + 1) * falling(a, done as nat));
            assert(mult * (a + 1) == (a + 1) * mult) by (nonlinear_arith);
        }
        iteration_index = iteration_index + 1;
        mult = mult * iteration_index;
        done = done + 1;
    }
    output
}

/// Trait for indexing based on position.
///
/// See also [Indexable].
pub trait PositionIndexable {
    /// The amount of possible positions
    const POSITION_SET_SIZE: usize;

    /// The index of the position.
    spec fn position_idx(&self) -> nat;

    /// Whether the value is one of the arrangements counted in [Self::POSITION_SET_SIZE].
    spec fn position_valid(&self) -> bool;

    /// Returns the index of the position
    fn position_index(&self) -> (r: usize)
        ensures
            r == self.position_idx(),
            self.position_valid() ==> r < Self::POSITION_SET_SIZE,
    ;
}

/// The position indices of a sequence of items.
pub open spec fn positions_of<T: PositionIndexable>(items: Seq<T>) -> Seq<nat> {
    items.map_values(|t: T| t.position_idx())
}

/// Number of `true` values in a sequence of booleans.
pub open spec fn count_true(b: Seq<bool>) -> nat
    decreases b.len(),
{
    if b.len() == 0 {
        0
    } else {
        count_true(b.drop_last()) + if b.last() {
            1nat
        } else {
            0nat
        }
    }
}

/// For each value below `v`, whether it is one of the first `i` values of `p`.
pub open spec fn taken_below(p: Seq<nat>, i: int, v: nat) -> Seq<bool> {
    Seq::new(v, |x: int| p.take(i).contains(x as nat))
}

/// The choice made for the `i`-th item of `p`: the number of values below `p[i]` that none of
/// the items before it took.
pub open spec fn choice(p: Seq<nat>, i: int) -> nat {
    (p[i] - count_true(taken_below(p, i, p[i]))) as nat
}

/// The index of the disposition `p` of items out of `s` positions, counting the choices from
/// the `k`-th on.
pub open spec fn disposition_index_from(p: Seq<nat>, s: nat, k: nat) -> nat
    decreases p.len() - k,
{
    if k >= p.len() {
        0
    } else {
        choice(p, k as int) * multiplier(s, p.len(), k) + disposition_index_from(p, s, k + 1)
    }
}

/// The index of the disposition `p` of items out of `s` positions.
pub open spec fn disposition_index(p: Seq<nat>, s: nat) -> nat {
    disposition_index_from(p, s, 0)
}

pub(crate) proof fn lemma_count_true_le_len(b: Seq<bool>)
    ensures
        count_true(b) <= b.len(),
    decreases b.len(),
{
    if b.len() > 0 {
        lemma_count_true_le_len(b.drop_last());
    }
}

pub(crate) proof fn lemma_count_true_push(b: Seq<bool>, x: bool)
    ensures
        count_true(b.push(x)) == count_true(b) + if x {
            1nat
        } else {
            0nat
        },
{
    assert(b.push(x).drop_last() =~= b);
}

proof fn lemma_choice_le(p: Seq<nat>, i: int)
    requires
        0 <= i < p.len(),
    ensures
        choice(p, i) <= p[i],
        choice(p, i) + count_true(taken_below(p, i, p[i])) == p[i],
{
    lemma_count_true_le_len(taken_below(p, i, p[i]));
}

pub(crate) proof fn lemma_taken_step(p: Seq<nat>, i: int, s: nat)
    requires
        0 <= i < p.len(),
        p[i] < s,
    ensures
        taken_below(p, i + 1, s) == taken_below(p, i, s).update(p[i] as int, true),
{
    let next = taken_below(p, i + 1, s);
    let prev = taken_below(p, i, s).update(p[i] as int, true);
    assert(p.take(i + 1) =~= p.take(i).push(p[i]));
    assert forall|x: int| 0 <= x < s implies #[trigger] next[x] == prev[x] by {
        if x == p[i] {
            assert(p.take(i + 1)[i] == x as nat);
        } else {
            if p.take(i + 1).contains(x as nat) {
                let k = choose|k: int| 0 <= k < i + 1 && #[trigger] p.take(i + 1)[k] == x as nat;
                assert(p.take(i)[k] == x as nat);
            }
            if p.take(i).contains(x as nat) {
                let k = choose|k: int| 0 <= k < i && #[trigger] p.take(i)[k] == x as nat;
                assert(p.take(i + 1)[k] == x as nat);
            }
        }
    }
    assert(next =~= prev);
}

pub(crate) proof fn lemma_count_true_concat(a: Seq<bool>, b: Seq<bool>)
    ensures
        count_true(a + b) == count_true(a) + count_true(b),
    decreases b.len(),
{
    if b.len() > 0 {
        assert((a + b).drop_last() =~= a + b.drop_last());
        lemma_count_true_concat(a, b.drop_last());
    } else {
        assert(a + b =~= a);
    }
}

pub(crate) proof fn lemma_count_true_set(b: Seq<bool>, j: int)
    requires
        0 <= j < b.len(),
        !b[j],
    ensures
        count_true(b.update(j, true)) == count_true(b) + 1,
{
    let u = b.update(j, true);
    assert(b =~= b.take(j) + seq![false] + b.skip(j + 1));
    assert(u =~= b.take(j) + seq![true] + b.skip(j + 1));
    lemma_count_true_concat(b.take(j) + seq![false], b.skip(j + 1));
    lemma_count_true_concat(b.take(j), seq![false]);
    lemma_count_true_concat(b.take(j) + seq![true], b.skip(j + 1));
    lemma_count_true_concat(b.take(j), seq![true]);
    assert(seq![false].drop_last() =~= Seq::<bool>::empty());
    assert(seq![true].drop_last() =~= Seq::<bool>::empty());
}

pub(crate) proof fn lemma_taken_count(p: Seq<nat>, s: nat, k: int)
    requires
        p.no_duplicates(),
        forall|i: int| 0 <= i < p.len() ==> #[trigger] p[i] < s,
        0 <= k <= p.len(),
    ensures
        count_true(taken_below(p, k, s)) == k,
    decreases k,
{
    if k == 0 {
        assert(count_true(taken_below(p, 0, s)) == 0) by {
            lemma_count_true_zero(taken_below(p, 0, s));
        }
    } else {
        lemma_taken_count(p, s, k - 1);
        lemma_taken_step(p, k - 1, s);
        if p.take(k - 1).contains(p[k - 1]) {
            let j = choose|j: int| 0 <= j < k - 1 && #[trigger] p.take(k - 1)[j] == p[k - 1];
            assert(p[j] == p[k - 1]);
        }
        lemma_count_true_set(taken_below(p, k - 1, s), p[k - 1] as int);
    }
}

pub(crate) proof fn lemma_count_true_zero(b: Seq<bool>)
    requires
        forall|i: int| 0 <= i < b.len() ==> !#[trigger] b[i],
    ensures
        count_true(b) == 0,
    decreases b.len(),
{
    if b.len() > 0 {
        lemma_count_true_zero(b.drop_last());
    }
}

proof fn lemma_choice_distinct(p: Seq<nat>, s: nat, k: int)
    requires
        p.no_duplicates(),
        forall|i: int| 0 <= i < p.len() ==> #[trigger] p[i] < s,
        0 <= k < p.len(),
    ensures
        choice(p, k) + k < s,
{
    let u = taken_below(p, k, s);
    let v = p[k] as int;
    lemma_taken_count(p, s, k);
    if p.take(k).contains(p[k]) {
        let j = choose|j: int| 0 <= j < k && #[trigger] p.take(k)[j] == p[k];
        assert(p[j] == p[k]);
    }
    assert(!u[v]);
    let a = u.take(v);
    let b = u.skip(v + 1);
    let x = a + seq![false];
    assert(u =~= x + b);
    assert(a =~= taken_below(p, k, p[k]));
    assert(count_true(Seq::<bool>::empty()) == 0);
    lemma_count_true_push(Seq::<bool>::empty(), false);
    assert(seq![false] =~= Seq::<bool>::empty().push(false));
    lemma_count_true_concat(a, seq![false]);
    lemma_count_true_concat(x, b);
    lemma_count_true_le_len(b);
    lemma_choice_le(p, k);
    assert(count_true(u) == count_true(a) + count_true(b));
    assert(u.skip(v + 1).len() == s - v - 1);
}

proof fn lemma_disposition_index_from_bound(p: Seq<nat>, s: nat, k: nat)
    requires
        p.no_duplicates(),
        forall|i: int| 0 <= i < p.len() ==> #[trigger] p[i] < s,
        p.len() <= s,
        k <= p.len(),
    ensures
        disposition_index_from(p, s, k) < falling((s - k) as nat, (p.len() - k) as nat),
    decreases p.len() - k,
{
    if k < p.len() {
        lemma_disposition_index_from_bound(p, s, k + 1);
        lemma_choice_distinct(p, s, k as int);
        let c = choice(p, k as int);
        let m = multiplier(s, p.len(), k);
        let rest = disposition_index_from(p, s, k + 1);
        assert(falling((s - k) as nat, (p.len() - k) as nat) == (s - k) * m);
        assert(c * m + rest < (s - k) * m) by (nonlinear_arith)
            requires
                c + k < s,
                rest < m,
        ;
    }
}

/// The index of a disposition of distinct positions out of `s` is below the number of such
/// dispositions.
pub proof fn lemma_disposition_index_bound(p: Seq<nat>, s: nat)
    requires
        p.no_duplicates(),
        forall|i: int| 0 <= i < p.len() ==> #[trigger] p[i] < s,
        p.len() <= s,
    ensures
        disposition_index(p, s) < falling(s, p.len()),
{
    lemma_disposition_index_from_bound(p, s, 0);
}

/// A sequence of booleans that are all `true` counts its length.
proof fn lemma_count_true_all(b: Seq<bool>)
    requires
        forall|i: int| 0 <= i < b.len() ==> #[trigger] b[i],
    ensures
        count_true(b) == b.len(),
    decreases b.len(),
{
    if b.len() > 0 {
        let c = b.drop_last();
        assert(forall|i: int| 0 <= i < c.len() ==> #[trigger] c[i] == b[i]);
        lemma_count_true_all(c);
    }
}

/// When the `i`-th item is in position `i` for every item, every choice is the first one left
/// and the index of the choices from the `k`-th on is 0.
proof fn lemma_disposition_index_from_identity(p: Seq<nat>, s: nat, k: nat)
    requires
        forall|i: int| 0 <= i < p.len() ==> #[trigger] p[i] == i,
        k <= p.len(),
    ensures
        disposition_index_from(p, s, k) == 0,
    decreases p.len() - k,
{
    if k < p.len() {
        lemma_disposition_index_from_identity(p, s, k + 1);
        let t = taken_below(p, k as int, p[k as int]);
        assert forall|x: int| 0 <= x < t.len() implies #[trigger] t[x] by {
            assert(p.take(k as int)[x] == x as nat);
        }
        lemma_count_true_all(t);
        assert(choice(p, k as int) == 0);
    }
}

/// The items in positions 0, 1, ..., in order, have disposition index 0.
pub proof fn lemma_disposition_index_identity(p: Seq<nat>, s: nat)
    requires
        forall|i: int| 0 <= i < p.len() ==> #[trigger] p[i] == i,
    ensures
        disposition_index(p, s) == 0,
{
    lemma_disposition_index_from_identity(p, s, 0);
}

/// A multiple of `m` plus a remainder below `m` determines both the multiple and the remainder.
pub proof fn lemma_digit_unique(a: nat, r: nat, b: nat, r2: nat, m: nat)
    requires
        a * m + r == b * m + r2,
        r < m,
        r2 < m,
    ensures
        a == b,
        r == r2,
{
    if a < b {
        assert(b * m >= a * m + m) by (nonlinear_arith)
            requires
                a < b,
        ;
    } else if b < a {
        assert(a * m >= b * m + m) by (nonlinear_arith)
            requires
                b < a,
        ;
    }
}

proof fn lemma_choice_increasing(p: Seq<nat>, q: Seq<nat>, k: int)
    requires
        0 <= k < p.len(),
        k < q.len(),
        p.take(k) == q.take(k),
        !p.take(k).contains(p[k]),
        p[k] < q[k],
    ensures
        choice(p, k) < choice(q, k),
{
    let v = p[k] as int;
    let t = taken_below(q, k, q[k]);
    assert(!t[v]);
    let a = t.take(v);
    let b = t.skip(v + 1);
    let x = a + seq![false];
    assert(t =~= x + b);
    assert(a =~= taken_below(p, k, p[k]));
    assert(count_true(Seq::<bool>::empty()) == 0);
    lemma_count_true_push(Seq::<bool>::empty(), false);
    assert(seq![false] =~= Seq::<bool>::empty().push(false));
    lemma_count_true_concat(a, seq![false]);
    lemma_count_true_concat(x, b);
    lemma_count_true_le_len(b);
    lemma_choice_le(p, k);
    lemma_choice_le(q, k);
}

proof fn lemma_disposition_prefix_equal(p: Seq<nat>, q: Seq<nat>, s: nat, k: nat)
    requires
        p.no_duplicates(),
        q.no_duplicates(),
        forall|i: int| 0 <= i < p.len() ==> #[trigger] p[i] < s,
        forall|i: int| 0 <= i < q.len() ==> #[trigger] q[i] < s,
        p.len() == q.len(),
        p.len() <= s,
        k <= p.len(),
        disposition_index(p, s) == disposition_index(q, s),
    ensures
        p.take(k as int) == q.take(k as int),
        disposition_index_from(p, s, k) == disposition_index_from(q, s, k),
    decreases k,
{
    if k == 0 {
        assert(p.take(0) =~= q.take(0));
    } else {
        let j = (k - 1) as nat;
        lemma_disposition_prefix_equal(p, q, s, j);
        lemma_disposition_index_from_bound(p, s, k);
        lemma_disposition_index_from_bound(q, s, k);
        let m = multiplier(s, p.len(), j);
        assert(falling((s - k) as nat, (p.len() - k) as nat) == m);
        lemma_digit_unique(
            choice(p, j as int),
            disposition_index_from(p, s, k),
            choice(q, j as int),
            disposition_index_from(q, s, k),
            m,
        );
        if p.take(j as int).contains(p[j as int]) {
            let i = choose|i: int| 0 <= i < j && #[trigger] p.take(j as int)[i] == p[j as int];
            assert(p[i] == p[j as int]);
        }
        if q.take(j as int).contains(q[j as int]) {
            let i = choose|i: int| 0 <= i < j && #[trigger] q.take(j as int)[i] == q[j as int];
            assert(q[i] == q[j as int]);
        }
        if p[j as int] < q[j as int] {
            lemma_choice_increasing(p, q, j as int);
        } else if q[j as int] < p[j as int] {
            lemma_choice_increasing(q, p, j as int);
        }
        assert(p.take(k as int) =~= p.take(j as int).push(p[j as int]));
        assert(q.take(k as int) =~= q.take(j as int).push(q[j as int]));
    }
}

/// Distinct dispositions of distinct positions out of `s` have distinct indices.
pub proof fn lemma_disposition_index_injective(p: Seq<nat>, q: Seq<nat>, s: nat)
    requires
        p.no_duplicates(),
        q.no_duplicates(),
        forall|i: int| 0 <= i < p.len() ==> #[trigger] p[i] < s,
        forall|i: int| 0 <= i < q.len() ==> #[trigger] q[i] < s,
        p.len() == q.len(),
        p.len() <= s,
        disposition_index(p, s) == disposition_index(q, s),
    ensures
        p == q,
{
    lemma_disposition_prefix_equal(p, q, s, p.len());
    assert(p.take(p.len() as int) =~= p);
    assert(q.take(q.len() as int) =~= q);
}

proof fn lemma_multiplier_le_first(s: nat, n: nat, i: nat)
    requires
        i < n <= s,
    ensures
        multiplier(s, n, i) <= multiplier(s, n, 0),
{
    lemma_falling_shift((s - i - 1) as nat, (n - 1 - i) as nat, i);
}

proof fn lemma_disposition_index_from_limit(p: Seq<nat>, s: nat, k: nat)
    requires
        forall|i: int| 0 <= i < p.len() ==> #[trigger] p[i] < s,
        p.len() <= s,
        k <= p.len(),
    ensures
        disposition_index_from(p, s, k) <= (p.len() - k) * ((s - 1) * multiplier(s, p.len(), 0)),
    decreases p.len() - k,
{
    if k < p.len() {
        lemma_disposition_index_from_limit(p, s, k + 1);
        lemma_choice_le(p, k as int);
        lemma_multiplier_le_first(s, p.len(), k);
        let c = choice(p, k as int);
        let m = multiplier(s, p.len(), k);
        let m0 = multiplier(s, p.len(), 0);
        let x = (s - 1) * m0;
        let j = (p.len() - k - 1) as int;
        assert(c * m + j * x <= (j + 1) * x) by (nonlinear_arith)
            requires
                c <= s - 1,
                m <= m0,
                x == (s - 1) * m0,
                j >= 0,
        ;
        assert(disposition_index_from(p, s, k) == c * m + disposition_index_from(p, s, k + 1));
        assert(disposition_index_from(p, s, k + 1) <= j * x);
    } else {
        let x = (s - 1) * multiplier(s, p.len(), 0);
        assert((p.len() - k) * x == 0) by (nonlinear_arith)
            requires
                p.len() - k == 0,
        ;
    }
}

/// The index of any disposition (distinct or not) of `n >= 1` positions out of `s` is below
/// `s` times the number of dispositions.
pub proof fn lemma_disposition_index_limit(p: Seq<nat>, s: nat)
    requires
        forall|i: int| 0 <= i < p.len() ==> #[trigger] p[i] < s,
        1 <= p.len() <= s,
    ensures
        disposition_index(p, s) < s * falling(s, p.len()),
{
    let n = p.len();
    let m0 = multiplier(s, n, 0);
    lemma_disposition_index_from_limit(p, s, 0);
    lemma_falling_positive((s - 1) as nat, (n - 1) as nat);
    assert(falling(s, n) == s * m0);
    assert(n * ((s - 1) * m0) < s * (s * m0)) by (nonlinear_arith)
        requires
            1 <= n <= s,
            m0 >= 1,
    ;
}

fn disposition_choices<T: PositionIndexable, const N: usize, const T_POSITION_SET_SIZE: usize>(
    input: &[T; N],
) -> (r: Vec<usize>)
    requires
        forall|i: int| 0 <= i < N ==> #[trigger] input@[i].position_idx() < T_POSITION_SET_SIZE,
    ensures
        r.len() == N,
        forall|i: int| 0 <= i < N ==> #[trigger] r@[i] == choice(positions_of(input@), i),
{
    let ghost p = positions_of(input@);
    let mut used: Vec<bool> = Vec::new();
    while used.len() < T_POSITION_SET_SIZE
        invariant
            used.len() <= T_POSITION_SET_SIZE,
            forall|k: int| 0 <= k < used.len() ==> !#[trigger] used@[k],
        decreases T_POSITION_SET_SIZE - used.len(),
    {
        used.push(false);
    }
    assert(used@ =~= taken_below(p, 0, T_POSITION_SET_SIZE as nat));
    let mut output: Vec<usize> = Vec::new();
    let mut i: usize = 0;
    while i < N
        invariant
            p == positions_of(input@),
            p.len() == N,
            forall|k: int| 0 <= k < N ==> #[trigger] input@[k].position_idx() < T_POSITION_SET_SIZE,
            i <= N,
            used@ == taken_below(p, i as int, T_POSITION_SET_SIZE as nat),
            output.len() == i,
            forall|k: int| 0 <= k < i ==> #[trigger] output@[k] == choice(p, k),
        decreases N - i,
    {
        let elem_index = input[i].position_index();
        assert(elem_index == p[i as int]);
        let mut used_previously: usize = 0;
        let mut j: usize = 0;
        while j < elem_index
            invariant
                j <= elem_index,
                elem_index < T_POSITION_SET_SIZE,
                used.len() == T_POSITION_SET_SIZE,
                used_previously == count_true(used@.take(j as int)),
                used_previously <= j,
            decreases elem_index - j,
        {
            proof {
                assert(used@.take(j + 1) =~= used@.take(j as int).push(used@[j as int]));
                lemma_count_true_push(used@.take(j as int), used@[j as int]);
            }
            if used[j] {
                used_previously = used_previously + 1;
            }
            j = j + 1;
        }
        proof {
            assert(used@.take(elem_index as int) =~= taken_below(p, i as int, elem_index as nat));
        }
        output.push(elem_index - used_previously);
        used.set(elem_index, true);
        proof {
            lemma_taken_step(p, i as int, T_POSITION_SET_SIZE as nat);
        }
        i = i + 1;
    }
    output
}

/// The index counted from the `k`-th choice on is at most the one counted from an earlier
/// choice: every choice adds a nonnegative term.
proof fn lemma_disposition_index_from_le(p: Seq<nat>, s: nat, j: nat, k: nat)
    requires
        j <= k,
    ensures
        disposition_index_from(p, s, k) <= disposition_index_from(p, s, j),
    decreases k - j,
{
    if j < k && j < p.len() {
        lemma_disposition_index_from_le(p, s, j + 1, k);
    }
}

/// Returns the index of the disposition (or permutation) of the elements in the input.
///
/// Disposition is actually a more accurate term than permutation, since you don't have to
/// actually select all the elements in edge "permutations". Distinct dispositions get distinct
/// indices (see [lemma_disposition_index_injective]), below the number of dispositions
/// ([lemma_disposition_index_bound]), so for distinct positions the index fits in a `usize`
/// whenever the number of dispositions does.
pub fn position_disposition_index<
    T: PositionIndexable,
    const N: usize,
    const T_POSITION_SET_SIZE: usize,
>(input: &[T; N]) -> (r: usize)
    requires
        N <= T_POSITION_SET_SIZE,
        forall|i: int| 0 <= i < N ==> #[trigger] input@[i].position_idx() < T_POSITION_SET_SIZE,
        falling(T_POSITION_SET_SIZE as nat, N as nat) <= usize::MAX,
        positions_of(input@).no_duplicates() || disposition_index(
            positions_of(input@),
            T_POSITION_SET_SIZE as nat,
        ) <= usize::MAX,
    ensures
        r == disposition_index(positions_of(input@), T_POSITION_SET_SIZE as nat),
        positions_of(input@).no_duplicates() ==> r < falling(
            T_POSITION_SET_SIZE as nat,
            N as nat,
        ),
{
    let ghost p = positions_of(input@);
    let ghost s = T_POSITION_SET_SIZE as nat;
    let ghost n = N as nat;
    proof {
        if p.no_duplicates() {
            lemma_disposition_index_bound(p, s);
        }
    }
    let multipliers = disposition_multipliers::<T, N, T_POSITION_SET_SIZE>();
    let choices = disposition_choices::<T, N, T_POSITION_SET_SIZE>(input);
    let mut output: usize = 0;
    let mut i: usize = N;
    while i > 0
        invariant
            p == positions_of(input@),
            p.len() == n,
            s == T_POSITION_SET_SIZE,
            n == N,
            disposition_index(p, s) <= usize::MAX,
            multipliers.len() == N,
            forall|k: int| 0 <= k < N ==> #[trigger] multipliers@[k] == multiplier(s, n, k as nat),
            choices.len() == N,
            forall|k: int| 0 <= k < N ==> #[trigger] choices@[k] == choice(p, k),
            i <= N,
            output == disposition_index_from(p, s, i as nat),
        decreases i,
    {
        i = i - 1;
        proof {
            lemma_disposition_index_from_le(p, s, 0, i as nat);
            assert(disposition_index_from(p, s, i as nat) == choice(p, i as int) * multiplier(
                s,
                n,
                i as nat,
            ) + disposition_index_from(p, s, (i + 1) as nat));
        }
        output = output + choices[i] * multipliers[i];
    }
    proof {
        if p.no_duplicates() {
            lemma_disposition_index_bound(p, s);
        }
    }
    output
}

/// Trait for indexing based on orientation.
///
/// See also [Indexable].
pub trait OrientationIndexable {
    /// The amount of possible orientations
    const ORIENTATION_SET_SIZE: usize;

    /// The index of the orientation.
    spec fn orientation_idx(&self) -> nat;

    /// Returns the index of the orientation
    fn orientation_index(&self) -> (r: usize)
        ensures
            r == self.orientation_idx(),
            r < Self::ORIENTATION_SET_SIZE,
    ;
}

/// The orientation indices of a sequence of items.
pub open spec fn orientations_of<T: OrientationIndexable>(items: Seq<T>) -> Seq<nat> {
    items.map_values(|t: T| t.orientation_idx())
}

/// The number whose digits in base `b`, most significant first, are `o`, counting the digits
/// from the `k`-th on.
pub open spec fn digits_value_from(o: Seq<nat>, b: nat, k: nat) -> nat
    decreases o.len() - k,
{
    if k >= o.len() {
        0
    } else {
        o[k as int] * power(b, (o.len() - 1 - k) as nat) + digits_value_from(o, b, k + 1)
    }
}

/// The number whose digits in base `b`, most significant first, are `o`.
pub open spec fn digits_value(o: Seq<nat>, b: nat) -> nat {
    digits_value_from(o, b, 0)
}

proof fn lemma_power_positive(b: nat, e: nat)
    requires
        b >= 1,
    ensures
        power(b, e) >= 1,
    decreases e,
{
    if e > 0 {
        lemma_power_positive(b, (e - 1) as nat);
        let q = power(b, (e - 1) as nat);
        assert(b * q >= 1) by (nonlinear_arith)
            requires
                b >= 1,
                q >= 1,
        ;
    }
}

proof fn lemma_power_monotone(b: nat, e1: nat, e2: nat)
    requires
        b >= 1,
        e1 <= e2,
    ensures
        1 <= power(b, e1) <= power(b, e2),
    decreases e2,
{
    lemma_power_positive(b, e1);
    if e1 < e2 {
        lemma_power_monotone(b, e1, (e2 - 1) as nat);
        let q = power(b, (e2 - 1) as nat);
        assert(b * q >= q) by (nonlinear_arith)
            requires
                b >= 1,
        ;
    }
}

proof fn lemma_digits_value_from_bound(o: Seq<nat>, b: nat, k: nat)
    requires
        forall|i: int| 0 <= i < o.len() ==> #[trigger] o[i] < b,
        k <= o.len(),
    ensures
        digits_value_from(o, b, k) < power(b, (o.len() - k) as nat),
    decreases o.len() - k,
{
    if k < o.len() {
        lemma_digits_value_from_bound(o, b, k + 1);
        let q = power(b, (o.len() - 1 - k) as nat);
        let d = o[k as int];
        let rest = digits_value_from(o, b, k + 1);
        assert(power(b, (o.len() - k) as nat) == b * q);
        assert(d * q + rest < b * q) by (nonlinear_arith)
            requires
                d < b,
                rest < q,
        ;
    }
}

proof fn lemma_digits_prefix_equal(o1: Seq<nat>, o2: Seq<nat>, b: nat, k: nat)
    requires
        forall|i: int| 0 <= i < o1.len() ==> #[trigger] o1[i] < b,
        forall|i: int| 0 <= i < o2.len() ==> #[trigger] o2[i] < b,
        o1.len() == o2.len(),
        k <= o1.len(),
        digits_value(o1, b) == digits_value(o2, b),
    ensures
        o1.take(k as int) == o2.take(k as int),
        digits_value_from(o1, b, k) == digits_value_from(o2, b, k),
    decreases k,
{
    if k == 0 {
        assert(o1.take(0) =~= o2.take(0));
    } else {
        let j = (k - 1) as nat;
        lemma_digits_prefix_equal(o1, o2, b, j);
        lemma_digits_value_from_bound(o1, b, k);
        lemma_digits_value_from_bound(o2, b, k);
        lemma_digit_unique(
            o1[j as int],
            digits_value_from(o1, b, k),
            o2[j as int],
            digits_value_from(o2, b, k),
            power(b, (o1.len() - k) as nat),
        );
        assert(o1.take(k as int) =~= o1.take(j as int).push(o1[j as int]));
        assert(o2.take(k as int) =~= o2.take(j as int).push(o2[j as int]));
    }
}

/// Distinct sequences of digits below `b` of the same length have distinct values in base `b`,
/// and the values are below `b` to the power of the length.
pub proof fn lemma_digits_value_injective(o1: Seq<nat>, o2: Seq<nat>, b: nat)
    requires
        forall|i: int| 0 <= i < o1.len() ==> #[trigger] o1[i] < b,
        forall|i: int| 0 <= i < o2.len() ==> #[trigger] o2[i] < b,
        o1.len() == o2.len(),
    ensures
        digits_value(o1, b) < power(b, o1.len()),
        digits_value(o1, b) == digits_value(o2, b) ==> o1 == o2,
{
    lemma_digits_value_from_bound(o1, b, 0);
    if digits_value(o1, b) == digits_value(o2, b) {
        lemma_digits_prefix_equal(o1, o2, b, o1.len());
        assert(o1.take(o1.len() as int) =~= o1);
        assert(o2.take(o2.len() as int) =~= o2);
    }
}

/// Returns the index of the orientation of the elements in the input: the number whose digits
/// in base [OrientationIndexable::ORIENTATION_SET_SIZE] are their orientations.
///
/// Assumes that all elements can have any orientation. You should be careful if this is not
/// the case, namely with the 3x3 corners. You should only pass `corners[0..7]` in that case.
pub fn orientation_permutation_index<T: OrientationIndexable, const N: usize>(input: &[T; N]) -> (r:
    usize)
    requires
        power(T::ORIENTATION_SET_SIZE as nat, N as nat) <= usize::MAX,
    ensures
        r == digits_value(orientations_of(input@), T::ORIENTATION_SET_SIZE as nat),
        r < power(T::ORIENTATION_SET_SIZE as nat, N as nat),
{
    let ghost o = orientations_of(input@);
    let ghost b = T::ORIENTATION_SET_SIZE as nat;
    let mut output: usize = 0;
    let mut multiplier: usize = 1;
    let mut i: usize = N;
    while i > 0
        invariant
            o == orientations_of(input@),
            o.len() == N,
            b == T::ORIENTATION_SET_SIZE,
            power(b, N as nat) <= usize::MAX,
            i <= N,
            output == digits_value_from(o, b, i as nat),
            multiplier == power(b, (N - i) as nat),
            output < multiplier,
        decreases i,
    {
        i = i - 1;
        let elem_index = input[i].orientation_index();
        proof {
            assert(elem_index == o[i as int]);
            lemma_power_monotone(b, (N - i) as nat, N as nat);
            assert(power(b, (N - i) as nat) == b * multiplier);
            assert(output + elem_index * multiplier < b * multiplier) by (nonlinear_arith)
                requires
                    elem_index < b,
                    output < multiplier,
            ;
        }
        output = output + elem_index * multiplier;
        multiplier = multiplier * T::ORIENTATION_SET_SIZE;
    }
    output
}

/// Trait for indexing. Every unique instance of a type that implements this trait returns a
/// unique index, and all indices are contiguous (starting from 0): every valid instance indexes
/// into an array of size [Indexable::TOTAL_SET_SIZE] with the index returned by
/// [Indexable::index()].
///
/// This type requires and is auto-implemented with [PositionIndexable] and
/// [OrientationIndexable].
pub trait Indexable: PositionIndexable + OrientationIndexable {
    /// The amount of possible instances of this type.
    const TOTAL_SET_SIZE: usize = Self::POSITION_SET_SIZE * Self::ORIENTATION_SET_SIZE;

    /// Returns the index of the instance. See [Indexable] for more info.
    fn index(&self) -> (r: usize)
        requires
            (self.position_idx() + 1) * Self::ORIENTATION_SET_SIZE <= usize::MAX,
        ensures
            r == self.position_idx() * Self::ORIENTATION_SET_SIZE + self.orientation_idx(),
    {
        let p = self.position_index();
        let o = self.orientation_index();
        proof {
            let n = Self::ORIENTATION_SET_SIZE as int;
            assert(p * n + o < (p + 1) * n) by (nonlinear_arith)
                requires
                    o < n,
            ;
        }
        p * Self::ORIENTATION_SET_SIZE + o
    }
}

/// Index of the reference position that an edge at `pos` has.
pub open spec fn edge_position_idx(pos: EdgePosition) -> nat {
    let p = Direction::Positive;
    match pos.0 {
        Axis::X => if pos.1.x == p {
            if pos.1.y == p {
                0
            } else {
                1
            }
        } else {
            if pos.1.y == p {
                7
            } else {
                6
            }
        },
        Axis::Y => if pos.1.x == p {
            if pos.1.y == p {
                2
            } else {
                3
            }
        } else {
            if pos.1.y == p {
                8
            } else {
                9
            }
        },
        Axis::Z => if pos.1.x == p {
            if pos.1.y == p {
                4
            } else {
                10
            }
        } else {
            if pos.1.y == p {
                5
            } else {
                11
            }
        },
    }
}

/// Index of the reference position that a corner at `pos` has.
pub open spec fn corner_position_idx(pos: Vec3) -> nat {
    (if pos.x == Direction::Negative {
        4nat
    } else {
        0nat
    }) + (if pos.y == Direction::Negative {
        2nat
    } else {
        0nat
    }) + (if pos.z == Direction::Negative {
        1nat
    } else {
        0nat
    })
}

/// The index of an edge position is the index of the reference position equal to it.
pub proof fn lemma_edge_position_idx(pos: EdgePosition, i: int)
    ensures
        edge_position_idx(pos) < 12,
        edge_ref(edge_position_idx(pos) as int) == pos,
        0 <= i < 12 ==> edge_position_idx(edge_ref(i)) == i,
{
}

/// The index of a corner position is the index of the reference position equal to it.
pub proof fn lemma_corner_position_idx(pos: Vec3, i: int)
    ensures
        corner_position_idx(pos) < 8,
        corner_ref(corner_position_idx(pos) as int) == pos,
        0 <= i < 8 ==> corner_position_idx(corner_ref(i)) == i,
{
}

impl PositionIndexable for Edge {
    const POSITION_SET_SIZE: usize = 12;

    open spec fn position_idx(&self) -> nat {
        edge_position_idx(self.pos())
    }

    open spec fn position_valid(&self) -> bool {
        true
    }

    fn position_index(&self) -> (r: usize) {
        let v = self.slice_position;
        let px = v.x == Direction::Positive;
        let py = v.y == Direction::Positive;
        match self.normal_axis {
            Axis::X => if px {
                if py {
                    0
                } else {
                    1
                }
            } else {
                if py {
                    7
                } else {
                    6
                }
            },
            Axis::Y => if px {
                if py {
                    2
                } else {
                    3
                }
            } else {
                if py {
                    8
                } else {
                    9
                }
            },
            Axis::Z => if px {
                if py {
                    4
                } else {
                    10
                }
            } else {
                if py {
                    5
                } else {
                    11
                }
            },
        }
    }
}

impl OrientationIndexable for Edge {
    const ORIENTATION_SET_SIZE: usize = 2;

    open spec fn orientation_idx(&self) -> nat {
        if self.oriented {
            0
        } else {
            1
        }
    }

    fn orientation_index(&self) -> (r: usize) {
        if self.oriented {
            0
        } else {
            1
        }
    }
}

impl PositionIndexable for Corner {
    const POSITION_SET_SIZE: usize = 8;

    open spec fn position_idx(&self) -> nat {
        corner_position_idx(self.position)
    }

    open spec fn position_valid(&self) -> bool {
        true
    }

    fn position_index(&self) -> (r: usize) {
        let mut r: usize = 0;
        if self.position.x == Direction::Negative {
            r = r + 4;
        }
        if self.position.y == Direction::Negative {
            r = r + 2;
        }
        if self.position.z == Direction::Negative {
            r = r + 1;
        }
        r
    }
}

impl OrientationIndexable for Corner {
    const ORIENTATION_SET_SIZE: usize = 3;

    open spec fn orientation_idx(&self) -> nat {
        self.orientation() as nat
    }

    fn orientation_index(&self) -> (r: usize) {
        self.orientation_index()
    }
}

impl<T: PositionIndexable + OrientationIndexable> Indexable for T {

}

/// Half of the edges of a 3x3x3.
pub type HalfEdgesMUS = [Edge; 6];

/// The corners of a 3x3x3.
pub type CornersMUS = [Corner; 8];

impl PositionIndexable for HalfEdgesMUS {
    const POSITION_SET_SIZE: usize = 665280;

    open spec fn position_idx(&self) -> nat {
        disposition_index(positions_of(self@), 12)
    }

    open spec fn position_valid(&self) -> bool {
        positions_of(self@).no_duplicates()
    }

    fn position_index(&self) -> (r: usize) {
        proof {
            reveal_with_fuel(falling, 7);
            lemma_disposition_index_limit(positions_of(self@), 12);
        }
        position_disposition_index::<Edge, 6, 12>(self)
    }
}

impl OrientationIndexable for HalfEdgesMUS {
    const ORIENTATION_SET_SIZE: usize = 64;

    open spec fn orientation_idx(&self) -> nat {
        digits_value(orientations_of(self@), 2)
    }

    fn orientation_index(&self) -> (r: usize) {
        proof {
            reveal_with_fuel(power, 7);
        }
        orientation_permutation_index::<Edge, 6>(self)
    }
}

impl PositionIndexable for CornersMUS {
    const POSITION_SET_SIZE: usize = 40320;

    open spec fn position_idx(&self) -> nat {
        disposition_index(positions_of(self@), 8)
    }

    open spec fn position_valid(&self) -> bool {
        positions_of(self@).no_duplicates()
    }

    fn position_index(&self) -> (r: usize) {
        proof {
            reveal_with_fuel(falling, 9);
            lemma_disposition_index_limit(positions_of(self@), 8);
        }
        position_disposition_index::<Corner, 8, 8>(self)
    }
}

impl OrientationIndexable for CornersMUS {
    const ORIENTATION_SET_SIZE: usize = 2187;

    /// The last corner's orientation is determined by the other 7, so only they count.
    open spec fn orientation_idx(&self) -> nat {
        digits_value(orientations_of(self@.take(7)), 3)
    }

    fn orientation_index(&self) -> (r: usize) {
        let useful_corners: [Corner; 7] = [
            self[0],
            self[1],
            self[2],
            self[3],
            self[4],
            self[5],
            self[6],
        ];
        proof {
            reveal_with_fuel(power, 8);
            assert(useful_corners@ =~= self@.take(7));
        }
        orientation_permutation_index::<Corner, 7>(&useful_corners)
    }
}

/// The sizes of the sets of arrangements of half the edges and of the corners.
pub proof fn lemma_set_sizes()
    ensures
        <Edge as PositionIndexable>::POSITION_SET_SIZE == 12,
        <Edge as OrientationIndexable>::ORIENTATION_SET_SIZE == 2,
        <Corner as PositionIndexable>::POSITION_SET_SIZE == 8,
        <Corner as OrientationIndexable>::ORIENTATION_SET_SIZE == 3,
        <HalfEdgesMUS as PositionIndexable>::POSITION_SET_SIZE == 665280,
        <HalfEdgesMUS as OrientationIndexable>::ORIENTATION_SET_SIZE == 64,
        <HalfEdgesMUS as Indexable>::TOTAL_SET_SIZE == 42577920,
        <CornersMUS as PositionIndexable>::POSITION_SET_SIZE == 40320,
        <CornersMUS as OrientationIndexable>::ORIENTATION_SET_SIZE == 2187,
        <CornersMUS as Indexable>::TOTAL_SET_SIZE == 88179840,
        falling(12, 6) == 665280,
        falling(8, 8) == 40320,
        power(2, 6) == 64,
        power(3, 7) == 2187,
{
    reveal_with_fuel(falling, 13);
    reveal_with_fuel(power, 8);
    assert(falling(0, 0) == 1);
    assert(falling(1, 1) == 1);
    assert(falling(2, 2) == 2);
    assert(falling(3, 3) == 6);
    assert(falling(4, 4) == 24);
    assert(falling(5, 5) == 120);
    assert(falling(6, 6) == 720);
    assert(falling(7, 7) == 5040);
}

} // verus!
