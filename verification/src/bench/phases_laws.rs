//! What the measurements of a take come to, said of the numbers measured.

use vstd::multiset::Multiset;
use vstd::prelude::*;
use vstd::relations::sorted_by;

use crate::bench::phases::{clustered, counter_of, CLUSTER_SIZE};
use crate::chars;
use crate::sort::{self, in_order};

verus! {

proof fn counted_by_multiset(s: Seq<u64>, p: spec_fn(u64) -> bool)
    ensures
        s.filter(p).len() == s.to_multiset().filter(p).len(),
    decreases s.len(),
{
    reveal(Seq::filter);
    s.to_multiset_ensures();
    if s.len() == 0 {
        assert(s.to_multiset().filter(p) =~= Multiset::empty()) by {
            assert(s.to_multiset() =~= Multiset::empty()) by {
                assert forall|x: u64| s.to_multiset().count(x) == 0 by {
                    if s.to_multiset().count(x) > 0 {
                        assert(s.contains(x));
                    }
                }
            }
        }
    } else {
        let init = s.drop_last();
        let x = s.last();
        counted_by_multiset(init, p);
        init.to_multiset_ensures();
        assert(init.push(x) =~= s);
        assert(s.to_multiset() =~= init.to_multiset().insert(x));
        let m = init.to_multiset();
        if p(x) {
            assert(m.insert(x).filter(p) =~= m.filter(p).insert(x));
        } else {
            assert(m.insert(x).filter(p) =~= m.filter(p));
        }
    }
}

proof fn filtered_is_short(s: Seq<u64>, p: spec_fn(u64) -> bool, from: int, to: int)
    requires
        0 <= from <= to <= s.len(),
        forall|i: int| 0 <= i < s.len() && !(from <= i < to) ==> !p(#[trigger] s[i]),
    ensures
        s.filter(p).len() <= to - from,
    decreases s.len(),
{
    reveal(Seq::filter);
    if s.len() > 0 {
        let init = s.drop_last();
        assert forall|i: int| 0 <= i < init.len() && !(from <= i < to) implies !p(
            #[trigger] init[i],
        ) by {
            assert(!p(s[i]));
        }
        if to == s.len() {
            if from == s.len() {
                assert(!p(s[s.len() - 1]));
                filtered_is_short(init, p, from - 1, to - 1);
            } else {
                filtered_is_short(init, p, from, to - 1);
            }
        } else {
            assert(!p(s[s.len() - 1]));
            filtered_is_short(init, p, from, to);
        }
    }
}

/// Numbers in order are the same numbers, each no greater than the next.
pub proof fn numbers_in_order_ascend(values: Seq<u64>, i: int, j: int)
    requires
        0 <= i <= j < values.len(),
    ensures
        in_order::<u64>(values).to_multiset() == values.to_multiset(),
        in_order::<u64>(values).len() == values.len(),
        in_order::<u64>(values)[i] <= in_order::<u64>(values)[j],
{
    sort::order_is_kept::<u64>(values);
    let s = in_order::<u64>(values);
    let leq = sort::order_of::<u64>();
    assert(sorted_by(s, leq));
    if i < j {
        assert(leq(s[i], s[j]));
    }
}

/// The middle one of the numbers in order is one of them; at most half of them are smaller, and
/// fewer than half are greater.
pub proof fn half_lie_on_either_side_of_the_median(values: Seq<u64>)
    requires
        values.len() > 0,
    ensures
        ({
            let middle = in_order::<u64>(values)[values.len() as int / 2];
            &&& values.contains(middle)
            &&& 2 * values.filter(|v: u64| v < middle).len() <= values.len()
            &&& 2 * values.filter(|v: u64| v > middle).len() < values.len()
        }),
{
    sort::order_is_kept::<u64>(values);
    let s = in_order::<u64>(values);
    let n = values.len() as int;
    let h = n / 2;
    let middle = s[h];
    numbers_in_order_ascend(values, h, h);
    assert(s.contains(middle));
    let smaller = |v: u64| v < middle;
    let greater = |v: u64| v > middle;
    assert forall|i: int| 0 <= i < s.len() && !(0 <= i < h) implies !smaller(#[trigger] s[i]) by {
        numbers_in_order_ascend(values, h, i);
    }
    assert forall|i: int| 0 <= i < s.len() && !(h + 1 <= i < n) implies !greater(
        #[trigger] s[i],
    ) by {
        numbers_in_order_ascend(values, i, h);
    }
    filtered_is_short(s, smaller, 0, h);
    filtered_is_short(s, greater, h + 1, n);
    counted_by_multiset(s, smaller);
    counted_by_multiset(values, smaller);
    counted_by_multiset(s, greater);
    counted_by_multiset(values, greater);
}

proof fn clusters_hold_their_rows(starts: Seq<u64>, n: nat, x: u64)
    requires
        n <= starts.len(),
        forall|i: int| 0 <= i < starts.len() ==> #[trigger] starts[i] + CLUSTER_SIZE <= u64::MAX,
    ensures
        clustered(starts, n).len() == n * CLUSTER_SIZE,
        clustered(starts, n).contains(x) <==> exists|i: int|
            0 <= i < n && #[trigger] starts[i] <= x < starts[i] + CLUSTER_SIZE,
    decreases n,
{
    if n > 0 {
        let m = (n - 1) as nat;
        clusters_hold_their_rows(starts, m, x);
        let before = clustered(starts, m);
        let start = starts[n - 1];
        let cluster = Seq::new(CLUSTER_SIZE as nat, |i: int| (start + i) as u64);
        let out = clustered(starts, n);
        assert(out == before + cluster);
        if out.contains(x) {
            let i = choose|i: int| 0 <= i < out.len() && out[i] == x;
            if i < before.len() {
                assert(before[i] == x);
                assert(before.contains(x));
            } else {
                assert(cluster[i - before.len()] == x);
                assert(starts[n - 1] <= x < starts[n - 1] + CLUSTER_SIZE);
            }
        }
        if exists|i: int| 0 <= i < n && #[trigger] starts[i] <= x < starts[i] + CLUSTER_SIZE {
            let i = choose|i: int|
                0 <= i < n && #[trigger] starts[i] <= x < starts[i] + CLUSTER_SIZE;
            if i < m {
                let k = choose|k: int| 0 <= k < before.len() && before[k] == x;
                assert(out[k] == x);
            } else {
                assert(out[before.len() + (x - start)] == x);
            }
        }
    }
}

/// The rows asked for are those of the clusters: from where each starts, as many as a cluster has,
/// in ascending order.
pub proof fn rows_come_in_clusters(starts: Seq<u64>, x: u64, i: int, j: int)
    requires
        forall|k: int| 0 <= k < starts.len() ==> #[trigger] starts[k] + CLUSTER_SIZE <= u64::MAX,
    ensures
        ({
            let rows = in_order::<u64>(clustered(starts, starts.len()));
            &&& rows.len() == starts.len() * CLUSTER_SIZE
            &&& rows.contains(x) <==> exists|k: int|
                0 <= k < starts.len() && #[trigger] starts[k] <= x < starts[k] + CLUSTER_SIZE
            &&& 0 <= i <= j < rows.len() ==> rows[i] <= rows[j]
        }),
{
    let all = clustered(starts, starts.len());
    clusters_hold_their_rows(starts, starts.len(), x);
    sort::order_is_kept::<u64>(all);
    let rows = in_order::<u64>(all);
    all.to_multiset_ensures();
    rows.to_multiset_ensures();
    assert(rows.contains(x) == all.contains(x)) by {
        assert(rows.contains(x) <==> rows.to_multiset().count(x) > 0);
        assert(all.contains(x) <==> all.to_multiset().count(x) > 0);
    }
    if 0 <= i <= j < rows.len() {
        numbers_in_order_ascend(all, i, j);
    }
}

/// A counter is read off the first line that begins with its label: the number that is the rest of
/// the line, but for white space around it. Without such a line, and without a number on it, it is
/// zero.
pub proof fn counters_are_read_off_their_line(lines: Seq<Seq<char>>, label: Seq<char>, i: int)
    requires
        0 <= i <= lines.len(),
        forall|j: int| 0 <= j < i ==> !chars::begins(#[trigger] lines[j], label),
    ensures
        i == lines.len() ==> counter_of(lines, label, 0) == 0,
        i < lines.len() && chars::begins(lines[i], label) ==> match chars::number_of(
            chars::trimmed(lines[i].skip(label.len() as int)),
            u64::MAX as nat,
        ) {
            Some(value) => counter_of(lines, label, 0) == value,
            None => counter_of(lines, label, 0) == 0,
        },
{
    counter_from(lines, label, 0, i as nat);
}

proof fn counter_from(lines: Seq<Seq<char>>, label: Seq<char>, from: nat, i: nat)
    requires
        from <= i <= lines.len(),
        forall|j: int| from <= j < i ==> !chars::begins(#[trigger] lines[j], label),
    ensures
        counter_of(lines, label, from) == counter_of(lines, label, i),
    decreases i - from,
{
    if from < i {
        assert(!chars::begins(lines[from as int], label));
        counter_from(lines, label, from + 1, i);
    }
}

} // verus!
