//! From an index back to an arrangement of pieces: the inverse of the indexing of
//! [crate::cube3::index], so that every index below the size of a set stands for one
//! arrangement.

use vstd::prelude::*;

use crate::cube3::index::{
    choice, count_true, digits_value, digits_value_from, disposition_index,
    disposition_index_from, disposition_multipliers, falling, lemma_count_true_le_len,
    lemma_count_true_push, lemma_taken_count, lemma_taken_step, multiplier, power,
    taken_below, lemma_edge_position_idx, lemma_corner_position_idx, lemma_set_sizes, orientations_of,
    positions_of, CornersMUS, HalfEdgesMUS, Indexable, OrientationIndexable, PositionIndexable,
};
use crate::cube3::{solved_corner, solved_edge, Cube3};
use crate::pieces::corner::Corner;
use crate::pieces::edge::Edge;

verus! {

/// A sequence of machine integers as natural numbers.
pub open spec fn as_nats(v: Seq<usize>) -> Seq<nat> {
    v.map_values(|x: usize| x as nat)
}

proof fn lemma_power_step(b: nat, e: nat)
    ensures
        power(b, e + 1) == b * power(b, e),
{
}

/// Returns the orientations whose number in base [OrientationIndexable::ORIENTATION_SET_SIZE]
/// is `index`, most significant first: the inverse of
/// [crate::cube3::index::orientation_permutation_index].
pub fn deindex_orientations<T: OrientationIndexable, const N: usize>(index: usize) -> (r: Vec<usize>)
    requires
        index < power(T::ORIENTATION_SET_SIZE as nat, N as nat),
    ensures
        r.len() == N,
        forall|i: int| 0 <= i < N ==> #[trigger] r@[i] < T::ORIENTATION_SET_SIZE,
        digits_value(as_nats(r@), T::ORIENTATION_SET_SIZE as nat) == index,
{
    let ghost b = T::ORIENTATION_SET_SIZE as nat;
    let base = T::ORIENTATION_SET_SIZE;
    let mut output: Vec<usize> = Vec::new();
    while output.len() < N
        invariant
            output.len() <= N,
            forall|k: int| 0 <= k < output.len() ==> #[trigger] output@[k] == 0,
        decreases N - output.len(),
    {
        output.push(0);
    }
    if N == 0 {
        proof {
            assert(as_nats(output@).len() == 0);
        }
        return output;
    }
    proof {
        if b == 0 {
            assert(power(b, N as nat) == 0) by {
                assert(power(b, N as nat) == b * power(b, (N - 1) as nat));
            }
        }
    }
    let mut rest: usize = index;
    let mut i: usize = N;
    while i > 0
        invariant
            b == T::ORIENTATION_SET_SIZE,
            base == b,
            b >= 1,
            output.len() == N,
            i <= N,
            forall|k: int| 0 <= k < N ==> #[trigger] output@[k] < b,
            index == rest * power(b, (N - i) as nat) + digits_value_from(as_nats(output@), b, i as nat),
        decreases i,
    {
        let ghost before = output@;
        let ghost old_rest = rest;
        i = i - 1;
        let digit = rest % base;
        rest = rest / base;
        output.set(i, digit);
        proof {
            let q = power(b, (N - i - 1) as nat);
            lemma_power_step(b, (N - i - 1) as nat);
            assert(as_nats(output@)[i as int] == digit);
            assert forall|k: int| i < k < N implies #[trigger] as_nats(output@)[k] == as_nats(before)[k] by {}
            lemma_digits_from_unchanged(as_nats(before), as_nats(output@), b, (i + 1) as nat);
            assert(old_rest == rest * b + digit) by (nonlinear_arith)
                requires
                    digit == (old_rest as nat) % b,
                    rest == (old_rest as nat) / b,
                    b >= 1,
            ;
            assert(old_rest * q == rest * (b * q) + digit * q) by (nonlinear_arith)
                requires
                    old_rest == rest * b + digit,
            ;
        }
    }
    proof {
        assert(power(b, N as nat) >= 1) by {
            crate::cube3::index::lemma_digits_value_injective(as_nats(output@), as_nats(output@), b);
        }
        assert(rest == 0) by (nonlinear_arith)
            requires
                index == rest * power(b, N as nat) + digits_value_from(as_nats(output@), b, 0),
                index < power(b, N as nat),
        ;
    }
    output
}

proof fn lemma_digits_from_unchanged(o1: Seq<nat>, o2: Seq<nat>, b: nat, k: nat)
    requires
        o1.len() == o2.len(),
        k <= o1.len(),
        forall|j: int| k <= j < o1.len() ==> #[trigger] o1[j] == o2[j],
    ensures
        digits_value_from(o1, b, k) == digits_value_from(o2, b, k),
    decreases o1.len() - k,
{
    if k < o1.len() {
        lemma_digits_from_unchanged(o1, o2, b, k + 1);
    }
}

/// The sum of the choices `cs` weighted by the multipliers of dispositions of `n` out of `s`,
/// over the first `k`.
pub open spec fn chosen_sum(cs: Seq<nat>, s: nat, n: nat, k: nat) -> nat
    decreases k,
{
    if k == 0 {
        0
    } else {
        chosen_sum(cs, s, n, (k - 1) as nat) + cs[k - 1] * multiplier(s, n, (k - 1) as nat)
    }
}

proof fn lemma_index_from_sum(p: Seq<nat>, cs: Seq<nat>, s: nat, k: nat)
    requires
        k <= p.len(),
        cs.len() == p.len(),
        forall|j: int| 0 <= j < p.len() ==> #[trigger] choice(p, j) == cs[j],
    ensures
        disposition_index_from(p, s, k) + chosen_sum(cs, s, p.len(), k) == chosen_sum(
            cs,
            s,
            p.len(),
            p.len(),
        ),
    decreases p.len() - k,
{
    if k < p.len() {
        lemma_index_from_sum(p, cs, s, k + 1);
    }
}

proof fn lemma_choice_after_push(p: Seq<nat>, x: nat, j: int)
    requires
        0 <= j < p.len(),
    ensures
        choice(p.push(x), j) == choice(p, j),
{
    assert(p.push(x).take(j) =~= p.take(j));
    assert(taken_below(p.push(x), j, p[j]) =~= taken_below(p, j, p[j]));
}

/// The first value that is not used and has exactly `c` unused values below it.
fn nth_unused(used: &Vec<bool>, c: usize) -> (v: usize)
    requires
        c + count_true(used@) < used.len(),
    ensures
        v < used.len(),
        !used@[v as int],
        v - count_true(used@.take(v as int)) == c,
{
    let mut v: usize = 0;
    let mut seen: usize = 0;
    while v < used.len()
        invariant
            v <= used.len(),
            seen == v - count_true(used@.take(v as int)),
            seen <= c,
            c + count_true(used@) < used.len(),
        decreases used.len() - v,
    {
        proof {
            assert(used@.take(v + 1) =~= used@.take(v as int).push(used@[v as int]));
            lemma_count_true_push(used@.take(v as int), used@[v as int]);
            lemma_count_true_le_len(used@.take(v as int));
        }
        if !used[v] {
            if seen == c {
                return v;
            }
            seen = seen + 1;
        }
        v = v + 1;
    }
    proof {
        assert(used@.take(used.len() as int) =~= used@);
    }
    0
}

/// Returns the disposition of `N` positions out of `T_POSITION_SET_SIZE` whose index is
/// `index`: the inverse of [crate::cube3::index::position_disposition_index].
pub fn deindex_positions<T: PositionIndexable, const N: usize, const T_POSITION_SET_SIZE: usize>(
    index: usize,
) -> (r: Vec<usize>)
    requires
        N <= T_POSITION_SET_SIZE,
        index < falling(T_POSITION_SET_SIZE as nat, N as nat),
        falling(T_POSITION_SET_SIZE as nat, N as nat) <= usize::MAX,
    ensures
        r.len() == N,
        forall|i: int| 0 <= i < N ==> #[trigger] r@[i] < T_POSITION_SET_SIZE,
        as_nats(r@).no_duplicates(),
        disposition_index(as_nats(r@), T_POSITION_SET_SIZE as nat) == index,
{
    let ghost s = T_POSITION_SET_SIZE as nat;
    let ghost n = N as nat;
    let multipliers = disposition_multipliers::<T, N, T_POSITION_SET_SIZE>();
    let mut used: Vec<bool> = Vec::new();
    while used.len() < T_POSITION_SET_SIZE
        invariant
            used.len() <= T_POSITION_SET_SIZE,
            forall|k: int| 0 <= k < used.len() ==> !#[trigger] used@[k],
        decreases T_POSITION_SET_SIZE - used.len(),
    {
        used.push(false);
    }
    proof {
        assert(used@ =~= taken_below(Seq::<nat>::empty(), 0, s));
    }
    let mut output: Vec<usize> = Vec::new();
    let ghost mut cs: Seq<nat> = Seq::empty();
    let mut rest: usize = index;
    let mut k: usize = 0;
    while k < N
        invariant
            s == T_POSITION_SET_SIZE,
            n == N,
            n <= s,
            multipliers.len() == N,
            forall|j: int| 0 <= j < N ==> #[trigger] multipliers@[j] == multiplier(s, n, j as nat),
            k <= N,
            output.len() == k,
            cs.len() == k,
            forall|j: int| 0 <= j < k ==> #[trigger] output@[j] < s,
            as_nats(output@).no_duplicates(),
            used@ == taken_below(as_nats(output@), k as int, s),
            forall|j: int| 0 <= j < k ==> #[trigger] choice(as_nats(output@), j) == cs[j],
            index == chosen_sum(cs, s, n, k as nat) + rest,
            rest < falling((s - k) as nat, (n - k) as nat),
        decreases N - k,
    {
        let ghost p = as_nats(output@);
        let m = multipliers[k];
        proof {
            assert(falling((s - k) as nat, (n - k) as nat) == (s - k) * m);
            crate::cube3::index::lemma_falling_positive((s - k - 1) as nat, (n - k - 1) as nat);
        }
        let c = rest / m;
        let new_rest = rest % m;
        proof {
            assert(c < s - k && rest == c * m + new_rest) by (nonlinear_arith)
                requires
                    rest < (s - k) * m,
                    m >= 1,
                    c == rest / m,
                    new_rest == rest % m,
            ;
            assert forall|i: int| 0 <= i < p.len() implies #[trigger] p[i] < s by {
                assert(p[i] == output@[i]);
            }
            lemma_taken_count(p, s, k as int);
        }
        let v = nth_unused(&used, c);
        proof {
            assert(used@.take(v as int) =~= taken_below(p, k as int, v as nat));
            assert(!p.contains(v as nat)) by {
                assert(p.take(k as int) =~= p);
                assert(!used@[v as int]);
            }
        }
        output.push(v);
        used.set(v, true);
        proof {
            let q = as_nats(output@);
            assert(q =~= p.push(v as nat));
            assert(q.take(k as int) =~= p);
            assert(p.take(k as int) =~= p);
            assert(taken_below(q, k as int, v as nat) =~= taken_below(p, k as int, v as nat));
            assert(choice(q, k as int) == c);
            assert forall|j: int| 0 <= j < k implies #[trigger] choice(q, j) == cs[j] by {
                lemma_choice_after_push(p, v as nat, j);
            }
            assert(taken_below(q, k as int, s) =~= taken_below(p, k as int, s));
            lemma_taken_step(q, k as int, s);
            assert forall|i: int, j: int|
                0 <= i < q.len() && 0 <= j < q.len() && i != j implies #[trigger] q[i] != #[trigger] q[j] by {
                if i < k && j < k {
                    assert(q[i] == p[i] && q[j] == p[j]);
                } else if i == k {
                    assert(q[j] == p[j]);
                } else {
                    assert(q[i] == p[i]);
                }
            }
            let old_cs = cs;
            cs = cs.push(c as nat);
            assert(cs.drop_last() =~= old_cs);
            lemma_chosen_sum_prefix(cs, old_cs, s, n, k as nat);
            assert(cs[k as int] == c);
            assert(chosen_sum(cs, s, n, (k + 1) as nat) == chosen_sum(cs, s, n, k as nat) + cs[k as int]
                * multiplier(s, n, k as nat));
            assert(chosen_sum(cs, s, n, (k + 1) as nat) == chosen_sum(old_cs, s, n, k as nat) + c * m);
        }
        rest = new_rest;
        k = k + 1;
    }
    proof {
        let p = as_nats(output@);
        lemma_index_from_sum(p, cs, s, 0);
        assert(falling((s - n) as nat, 0) == 1);
    }
    output
}

proof fn lemma_chosen_sum_prefix(a: Seq<nat>, b: Seq<nat>, s: nat, n: nat, k: nat)
    requires
        k <= b.len(),
        b.len() <= a.len(),
        forall|j: int| 0 <= j < b.len() ==> #[trigger] a[j] == b[j],
    ensures
        chosen_sum(a, s, n, k) == chosen_sum(b, s, n, k),
    decreases k,
{
    if k > 0 {
        lemma_chosen_sum_prefix(a, b, s, n, (k - 1) as nat);
    }
}

/// Sets of pieces that can be built back from their index.
pub trait Deindexable: Indexable + Sized {
    /// The arrangement with the given index: its pieces are at distinct positions and its
    /// index is `index`.
    fn from_index(index: usize) -> (r: Self)
        requires
            index < Self::TOTAL_SET_SIZE,
        ensures
            r.position_valid(),
            r.position_idx() * (Self::ORIENTATION_SET_SIZE as nat) + r.orientation_idx() == index,
    ;
}

proof fn lemma_div_mod_bound(index: nat, d: nat, bound: nat)
    requires
        d >= 1,
        index < bound * d,
    ensures
        index / d < bound,
        index % d < d,
        (index / d) * d + index % d == index,
{
    assert(index / d < bound) by (nonlinear_arith)
        requires
            d >= 1,
            index < bound * d,
    ;
    assert((index / d) * d + index % d == index) by (nonlinear_arith)
        requires
            d >= 1,
    ;
}

impl Deindexable for HalfEdgesMUS {
    fn from_index(index: usize) -> (r: HalfEdgesMUS) {
        proof {
            lemma_set_sizes();
            lemma_div_mod_bound(index as nat, 64, 665280);
        }
        let position_index = index / 64;
        let orientation_index = index % 64;
        let positions = deindex_positions::<Edge, 6, 12>(position_index);
        let orientations = deindex_orientations::<Edge, 6>(orientation_index);
        let solved = Cube3::solved().edges;
        let mut edges: [Edge; 6] = [solved[0]; 6];
        let mut i: usize = 0;
        while i < 6
            invariant
                i <= 6,
                positions.len() == 6,
                orientations.len() == 6,
                forall|k: int| 0 <= k < 6 ==> #[trigger] positions@[k] < 12,
                forall|k: int| 0 <= k < 6 ==> #[trigger] orientations@[k] < 2,
                forall|k: int| 0 <= k < 12 ==> #[trigger] solved[k] == solved_edge(k),
                forall|k: int| 0 <= k < i ==> #[trigger] positions_of(edges@)[k] == as_nats(positions@)[k],
                forall|k: int| 0 <= k < i ==> #[trigger] orientations_of(edges@)[k] == as_nats(orientations@)[k],
            decreases 6 - i,
        {
            let mut edge = solved[positions[i]];
            if orientations[i] != 0 {
                edge.flip();
            }
            let ghost old_edges = edges@;
            edges[i] = edge;
            proof {
                lemma_edge_position_idx(edge.pos(), positions@[i as int] as int);
                assert forall|k: int| 0 <= k < i + 1 implies #[trigger] positions_of(edges@)[k] == as_nats(positions@)[k] by {
                    if k < i {
                        assert(edges@[k] == old_edges[k]);
                        assert(positions_of(old_edges)[k] == as_nats(positions@)[k]);
                    }
                }
                assert forall|k: int| 0 <= k < i + 1 implies #[trigger] orientations_of(edges@)[k] == as_nats(orientations@)[k] by {
                    if k < i {
                        assert(edges@[k] == old_edges[k]);
                        assert(orientations_of(old_edges)[k] == as_nats(orientations@)[k]);
                    }
                }
            }
            i = i + 1;
        }
        proof {
            assert(positions_of(edges@) =~= as_nats(positions@));
            assert(orientations_of(edges@) =~= as_nats(orientations@));
        }
        edges
    }
}

/// The sum of the orientations of some corners.
pub open spec fn orientation_sum(cs: Seq<Corner>) -> int
    decreases cs.len(),
{
    if cs.len() == 0 {
        0
    } else {
        orientation_sum(cs.drop_last()) + cs.last().orientation()
    }
}

/// Twists the last corner so that the orientations of all the corners add up to a multiple of
/// 3, as they do on any cube reached by face turns. The other corners and the position of the
/// last one stay.
pub fn fix_corner_multiplicity(corners: &mut [Corner; 8])
    ensures
        final(corners)@.take(7) == old(corners)@.take(7),
        final(corners)[7].position == old(corners)[7].position,
        orientation_sum(final(corners)@) % 3 == 0,
{
    let mut sum: usize = 0;
    let mut i: usize = 0;
    while i < 8
        invariant
            i <= 8,
            sum == orientation_sum(corners@.take(i as int)),
            sum <= 2 * i,
        decreases 8 - i,
    {
        proof {
            assert(corners@.take(i + 1).drop_last() =~= corners@.take(i as int));
        }
        sum = sum + corners[i].orientation_index();
        i = i + 1;
    }
    proof {
        assert(corners@.take(8) =~= corners@);
    }
    let ghost before = corners@;
    let mut last = corners[7];
    let needed = (3 - sum % 3) % 3;
    let ghost o0 = last.orientation();
    proof {
        lemma_orientation_sum_nonnegative(before.take(7));
        assert(before.take(8).drop_last() =~= before.take(7));
        assert(before.take(8) =~= before);
    }
    let mut j: usize = 0;
    while j < needed
        invariant
            j <= needed,
            needed < 3,
            0 <= o0 < 3,
            last.position == before[7].position,
            last.orientation() == (o0 + j) % 3,
        decreases needed - j,
    {
        last.twist();
        j = j + 1;
    }
    corners[7] = last;
    proof {
        assert(corners@.drop_last() =~= before.take(7));
        assert(corners@.take(7) =~= before.take(7));
        assert(sum == orientation_sum(before.take(7)) + o0);
        assert((orientation_sum(before.take(7)) + (o0 + needed) % 3) % 3 == 0) by (nonlinear_arith)
            requires
                sum == orientation_sum(before.take(7)) + o0,
                needed == (3 - sum % 3) % 3,
                orientation_sum(before.take(7)) >= 0,
                0 <= o0 < 3,
        ;
    }
}

impl Deindexable for CornersMUS {
    /// The orientation of the last corner is fixed so that the orientations add up to a
    /// multiple of 3.
    fn from_index(index: usize) -> (r: CornersMUS) {
        proof {
            lemma_set_sizes();
            lemma_div_mod_bound(index as nat, 2187, 40320);
        }
        let position_index = index / 2187;
        let orientation_index = index % 2187;
        let positions = deindex_positions::<Corner, 8, 8>(position_index);
        let orientations = deindex_orientations::<Corner, 7>(orientation_index);
        let solved = Cube3::solved().corners;
        let mut corners: [Corner; 8] = [solved[0]; 8];
        let mut i: usize = 0;
        while i < 8
            invariant
                i <= 8,
                positions.len() == 8,
                orientations.len() == 7,
                forall|k: int| 0 <= k < 8 ==> #[trigger] positions@[k] < 8,
                forall|k: int| 0 <= k < 7 ==> #[trigger] orientations@[k] < 3,
                forall|k: int| 0 <= k < 8 ==> #[trigger] solved[k] == solved_corner(k),
                forall|k: int| 0 <= k < i ==> #[trigger] positions_of(corners@)[k] == as_nats(positions@)[k],
                forall|k: int| 0 <= k < i && k < 7 ==> #[trigger] orientations_of(corners@)[k] == as_nats(orientations@)[k],
            decreases 8 - i,
        {
            let mut corner = solved[positions[i]];
            let ghost start = corner;
            let twists = if i < 7 {
                orientations[i]
            } else {
                0
            };
            let mut j: usize = 0;
            while j < twists
                invariant
                    j <= twists,
                    twists < 3,
                    corner.position == start.position,
                    start.orientation() == 0,
                    corner.orientation() == j,
                decreases twists - j,
            {
                corner.twist();
                j = j + 1;
            }
            let ghost old_corners = corners@;
            corners[i] = corner;
            proof {
                lemma_corner_position_idx(corner.position, positions@[i as int] as int);
                assert forall|k: int| 0 <= k < i + 1 implies #[trigger] positions_of(corners@)[k] == as_nats(positions@)[k] by {
                    if k < i {
                        assert(corners@[k] == old_corners[k]);
                        assert(positions_of(old_corners)[k] == as_nats(positions@)[k]);
                    }
                }
                assert forall|k: int| 0 <= k < i + 1 && k < 7 implies #[trigger] orientations_of(corners@)[k] == as_nats(orientations@)[k] by {
                    if k < i {
                        assert(corners@[k] == old_corners[k]);
                        assert(orientations_of(old_corners)[k] == as_nats(orientations@)[k]);
                    }
                }
            }
            i = i + 1;
        }
        let ghost unfixed = corners@;
        fix_corner_multiplicity(&mut corners);
        proof {
            assert(positions_of(unfixed) =~= as_nats(positions@));
            assert forall|k: int| 0 <= k < 8 implies #[trigger] positions_of(corners@)[k] == positions_of(unfixed)[k] by {
                if k < 7 {
                    assert(corners@[k] == corners@.take(7)[k]);
                    assert(unfixed[k] == unfixed.take(7)[k]);
                }
            }
            assert(positions_of(corners@) =~= as_nats(positions@));
            assert(corners@.take(7) == unfixed.take(7));
            assert forall|k: int| 0 <= k < 7 implies #[trigger] orientations_of(corners@.take(7))[k] == as_nats(orientations@)[k] by {
                assert(corners@.take(7)[k] == unfixed[k]);
                assert(orientations_of(unfixed)[k] == as_nats(orientations@)[k]);
            }
            assert(orientations_of(corners@.take(7)) =~= as_nats(orientations@));
        }
        corners
    }
}

proof fn lemma_orientation_sum_nonnegative(cs: Seq<Corner>)
    ensures
        orientation_sum(cs) >= 0,
    decreases cs.len(),
{
    if cs.len() > 0 {
        lemma_orientation_sum_nonnegative(cs.drop_last());
    }
}

} // verus!
