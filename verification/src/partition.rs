//! Splits a list into consecutive parts of bounded size.

use vstd::prelude::*;

verus! {

/// A half-open range of positions in a list.
#[derive(Debug, Clone, Copy)]
pub struct Span {
    pub start: usize,
    pub end: usize,
}

/// How many parts of at most `k` items cover `n` items: `n / k`, rounded up.
pub open spec fn part_count(n: nat, k: nat) -> nat
    recommends
        k > 0,
{
    if k == 0 {
        0
    } else {
        ((n + k - 1) / (k as int)) as nat
    }
}

/// Where part `i` starts.
pub open spec fn part_start(i: nat, k: nat) -> nat {
    i * k
}

/// Where part `i` ends: `k` items after its start, or at the end of the list
/// if that comes first.
pub open spec fn part_end(i: nat, n: nat, k: nat) -> nat {
    if (i + 1) * k <= n {
        (i + 1) * k
    } else {
        n
    }
}

/// The spans of the parts of a list of `n` items, in order.
pub open spec fn part_spans(n: nat, k: nat) -> Seq<(nat, nat)> {
    Seq::new(part_count(n, k), |i: int| (part_start(i as nat, k), part_end(i as nat, n, k)))
}

/// The parts of a list: part `i` holds the items from `i * k` up to
/// `(i + 1) * k`, the last part those that are left.
pub open spec fn partition<T>(items: Seq<T>, k: nat) -> Seq<Seq<T>> {
    Seq::new(
        part_count(items.len(), k),
        |i: int| items.subrange(part_start(i as nat, k) as int, part_end(i as nat, items.len(), k) as int),
    )
}

/// All the lists of a list of lists, one after the other.
pub open spec fn concat_all<T>(parts: Seq<Seq<T>>) -> Seq<T>
    decreases parts.len(),
{
    if parts.len() == 0 {
        Seq::empty()
    } else {
        concat_all(parts.drop_last()) + parts.last()
    }
}

/// Empty lists add nothing.
pub proof fn lemma_concat_all_empty<T>(parts: Seq<Seq<T>>)
    requires
        forall|i: int| 0 <= i < parts.len() ==> parts[i].len() == 0,
    ensures
        concat_all(parts) == Seq::<T>::empty(),
    decreases parts.len(),
{
    if parts.len() > 0 {
        lemma_concat_all_empty(parts.drop_last());
        assert(concat_all(parts) =~= Seq::<T>::empty());
    }
}

/// Taking one more list appends that list.
pub proof fn lemma_concat_all_step<T>(parts: Seq<Seq<T>>, i: int)
    requires
        0 <= i < parts.len(),
    ensures
        concat_all(parts.take(i + 1)) == concat_all(parts.take(i)) + parts[i],
{
    assert(parts.take(i + 1).drop_last() =~= parts.take(i));
}

/// The number of parts is `n / k` rounded up: the parts before the last are
/// too few to hold `n` items, all of them together are enough.
pub proof fn lemma_part_count(n: nat, k: nat)
    requires
        k > 0,
    ensures
        part_count(n, k) * k >= n,
        n > 0 ==> (part_count(n, k) - 1) * k < n,
        n == 0 ==> part_count(n, k) == 0,
        n > k ==> part_count(n, k) >= 2,
{
    let c = (n + k - 1) / (k as int);
    assert(c * k <= n + k - 1 && c * k > n - 1) by (nonlinear_arith)
        requires
            k > 0,
            c == (n + k - 1) / (k as int),
    ;
    assert((c - 1) * k == c * k - k) by (nonlinear_arith);
    if n == 0 {
        assert(c == 0) by (nonlinear_arith)
            requires
                c * k <= k - 1,
                c * k > -1,
                k > 0,
        ;
    }
    if n > k {
        assert(c >= 2) by (nonlinear_arith)
            requires
                c * k > n - 1,
                n > k,
                k > 0,
        ;
    }
    assert(c >= 0) by (nonlinear_arith)
        requires
            c * k > n - 1,
            n >= 0,
            k > 0,
    ;
}

/// Every part lies inside the list and holds between one and `k` items; all
/// but the last hold exactly `k`, and each starts where the one before ends.
pub proof fn lemma_part_bounds(n: nat, k: nat, i: nat)
    requires
        k > 0,
        i < part_count(n, k),
    ensures
        part_start(i, k) < part_end(i, n, k) <= n,
        part_end(i, n, k) - part_start(i, k) <= k,
        i + 1 < part_count(n, k) ==> part_end(i, n, k) - part_start(i, k) == k,
        i + 1 < part_count(n, k) ==> part_end(i, n, k) == part_start(i + 1, k),
        i + 1 == part_count(n, k) ==> part_end(i, n, k) == n,
{
    lemma_part_count(n, k);
    let c = part_count(n, k);
    assert((i + 1) * k == i * k + k) by (nonlinear_arith);
    assert(i * k <= (c - 1) * k) by (nonlinear_arith)
        requires
            i <= c - 1,
            k > 0,
    ;
    if i + 1 < c {
        assert((i + 1) * k <= (c - 1) * k) by (nonlinear_arith)
            requires
                i + 1 <= c - 1,
                k > 0,
        ;
    } else {
        assert((i + 1) * k == c * k) by (nonlinear_arith)
            requires
                i + 1 == c,
        ;
    }
}

/// A list with one item more than fits into a part has two parts: the first
/// holds `k` items, the second the one that is left.
pub proof fn lemma_one_over_the_limit(k: nat)
    requires
        k > 0,
    ensures
        part_count(k + 1, k) == 2,
        part_start(0, k) == 0 && part_end(0, k + 1, k) == k,
        part_start(1, k) == k && part_end(1, k + 1, k) == k + 1,
{
    lemma_part_count(k + 1, k);
    let c = part_count(k + 1, k);
    assert(c == 2) by (nonlinear_arith)
        requires
            c * k >= k + 1,
            (c - 1) * k < k + 1,
            k > 0,
            c >= 2,
    ;
    assert(0 * k == 0 && 1 * k == k && 2 * k == k + k) by (nonlinear_arith);
}

/// The first `j` parts, one after the other, are the items before the start
/// of part `j`.
proof fn lemma_partition_prefix<T>(items: Seq<T>, k: nat, j: nat)
    requires
        k > 0,
        j <= part_count(items.len(), k),
    ensures
        j < part_count(items.len(), k) ==> concat_all(partition(items, k).take(j as int))
            == items.take(part_start(j, k) as int),
        j == part_count(items.len(), k) ==> concat_all(partition(items, k).take(j as int)) == items,
    decreases j,
{
    let n = items.len();
    let parts = partition(items, k);
    if j == 0 {
        assert(part_start(0, k) == 0) by (nonlinear_arith);
        assert(items.take(0) =~= Seq::<T>::empty());
        assert(concat_all(parts.take(0)) =~= Seq::<T>::empty());
        if part_count(n, k) == 0 {
            lemma_part_count(n, k);
            assert(items =~= Seq::<T>::empty());
        }
    } else {
        let i = (j - 1) as nat;
        lemma_partition_prefix(items, k, i);
        lemma_part_bounds(n, k, i);
        lemma_concat_all_step(parts, i as int);
        let done = items.take(part_start(i, k) as int);
        let part = items.subrange(part_start(i, k) as int, part_end(i, n, k) as int);
        assert(parts[i as int] == part);
        assert(done + part =~= items.take(part_end(i, n, k) as int));
        if j == part_count(n, k) {
            assert(items.take(n as int) =~= items);
        }
    }
}

/// The parts cover the list: put one after the other, in order, they are the
/// list itself, with nothing lost, repeated or moved.
pub proof fn lemma_partition_covers<T>(items: Seq<T>, k: nat)
    requires
        k > 0,
    ensures
        concat_all(partition(items, k)) == items,
        partition(items, k).len() == part_count(items.len(), k),
{
    let parts = partition(items, k);
    lemma_partition_prefix(items, k, part_count(items.len(), k));
    assert(parts.take(parts.len() as int) =~= parts);
}

/// Plans the parts of a list of `n` items, at most `k` items each.
pub fn plan_partitions(n: usize, k: usize) -> (spans: Vec<Span>)
    requires
        k > 0,
    ensures
        spans@.len() == part_count(n as nat, k as nat),
        forall|i: int| 0 <= i < spans@.len() ==> (#[trigger] spans@[i]).start == part_start(i as nat, k as nat)
            && spans@[i].end == part_end(i as nat, n as nat, k as nat),
        forall|i: int| 0 <= i < spans@.len() ==> (#[trigger] spans@[i]).start < spans@[i].end <= n,
{
    let mut spans: Vec<Span> = Vec::new();
    let mut start: usize = 0;
    proof {
        lemma_part_count(n as nat, k as nat);
        assert(part_start(0, k as nat) == 0) by (nonlinear_arith);
    }
    while start < n
        invariant
            k > 0,
            start <= n,
            spans@.len() <= part_count(n as nat, k as nat),
            spans@.len() < part_count(n as nat, k as nat) ==> start == part_start(spans@.len(), k as nat),
            spans@.len() == part_count(n as nat, k as nat) ==> start == n,
            forall|i: int| 0 <= i < spans@.len() ==> (#[trigger] spans@[i]).start == part_start(i as nat, k as nat)
                && spans@[i].end == part_end(i as nat, n as nat, k as nat),
            forall|i: int| 0 <= i < spans@.len() ==> (#[trigger] spans@[i]).start < spans@[i].end <= n,
        decreases n - start,
    {
        let ghost i = spans@.len();
        proof {
            lemma_part_bounds(n as nat, k as nat, i);
            assert((i + 1) * k == i * k + k) by (nonlinear_arith);
        }
        let end: usize = if n - start > k {
            start + k
        } else {
            n
        };
        spans.push(Span { start, end });
        start = end;
    }
    proof {
        let i = spans@.len();
        if i < part_count(n as nat, k as nat) {
            lemma_part_bounds(n as nat, k as nat, i);
        }
    }
    spans
}

} // verus!
