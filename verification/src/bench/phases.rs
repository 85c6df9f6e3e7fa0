//! Measuring the phases of a take: which rows to ask for, and what to make of the measurements.

use vstd::prelude::*;

use crate::chars::{self, begins_at, chars_of, copy_range, lines, parse_u64, trim};
use crate::sort::{self, Ordered};

verus! {

/// How many clusters of rows are asked for.
pub const NUM_CLUSTERS: usize = 5;

/// How many rows a cluster has.
pub const CLUSTER_SIZE: u64 = 20;

impl Ordered for u64 {
    type M = u64;

    open spec fn held(&self) -> u64 {
        *self
    }

    open spec fn precedes(a: u64, b: u64) -> bool {
        a <= b
    }

    proof fn is_total(a: u64, b: u64) {
    }

    proof fn chains(a: u64, b: u64, c: u64) {
    }

    fn at_most(&self, other: &Self) -> (out: bool) {
        *self <= *other
    }
}

/// Where clusters start below: their rows all lie within `row_count`.
pub fn cluster_limit(row_count: u64) -> (out: u64)
    ensures
        out == (if row_count < CLUSTER_SIZE {
            0
        } else {
            row_count - CLUSTER_SIZE
        }),
{
    if row_count < CLUSTER_SIZE {
        0
    } else {
        row_count - CLUSTER_SIZE
    }
}

/// The rows of the first `n` clusters.
pub open spec fn clustered(starts: Seq<u64>, n: nat) -> Seq<u64>
    decreases n,
{
    if n == 0 {
        Seq::empty()
    } else {
        clustered(starts, (n - 1) as nat) + Seq::new(
            CLUSTER_SIZE as nat,
            |i: int| (starts[n - 1] + i) as u64,
        )
    }
}

/// Rows in clusters, in order, given where the clusters start.
pub fn correlated(starts: &Vec<u64>) -> (out: Vec<u64>)
    requires
        forall|i: int| 0 <= i < starts@.len() ==> #[trigger] starts@[i] + CLUSTER_SIZE <= u64::MAX,
    ensures
        out@ == sort::in_order::<u64>(clustered(starts@, starts@.len())),
{
    let mut rows: Vec<u64> = Vec::new();
    let mut index: usize = 0;
    while index < starts.len()
        invariant
            index <= starts@.len(),
            forall|i: int|
                0 <= i < starts@.len() ==> #[trigger] starts@[i] + CLUSTER_SIZE <= u64::MAX,
            rows@ == clustered(starts@, index as nat),
        decreases starts@.len() - index,
    {
        let start: u64 = starts[index];
        let ghost before = rows@;
        let ghost cluster = Seq::new(CLUSTER_SIZE as nat, |i: int| (start + i) as u64);
        let mut offset: u64 = 0;
        assert(before + cluster.take(0) =~= before);
        while offset < CLUSTER_SIZE
            invariant
                offset <= CLUSTER_SIZE,
                start + CLUSTER_SIZE <= u64::MAX,
                cluster == Seq::new(CLUSTER_SIZE as nat, |i: int| (start + i) as u64),
                rows@ == before + cluster.take(offset as int),
            decreases CLUSTER_SIZE - offset,
        {
            let ghost had = rows@;
            rows.push(start + offset);
            assert(cluster.take(offset + 1) =~= cluster.take(offset as int).push(
                cluster[offset as int],
            ));
            assert(before + cluster.take(offset + 1) =~= had.push((start + offset) as u64));
            offset = offset + 1;
        }
        assert(cluster.take(CLUSTER_SIZE as int) =~= cluster);
        index = index + 1;
    }
    assert(sort::held_by(rows@) =~= rows@);
    let out = sort::sort(rows);
    assert(sort::held_by(out@) =~= out@);
    out
}

/// The median of some measurements: of those in order the middle one, or the later of two.
pub fn median(values: Vec<u64>) -> (out: u64)
    requires
        values@.len() > 0,
    ensures
        out == sort::in_order::<u64>(values@)[values@.len() as int / 2],
{
    assert(sort::held_by(values@) =~= values@);
    let sorted = sort::sort(values);
    assert(sort::held_by(sorted@) =~= sorted@);
    sorted[sorted.len() / 2]
}

/// The number on the first line from the `n`-th on that has the label; zero where there is no such
/// line, or no number on it.
pub open spec fn counter_of(lines: Seq<Seq<char>>, label: Seq<char>, n: nat) -> nat
    decreases lines.len() - n,
{
    if n >= lines.len() {
        0
    } else if chars::begins(lines[n as int], label) {
        match chars::number_of(
            chars::trimmed(lines[n as int].skip(label.len() as int)),
            u64::MAX as nat,
        ) {
            Some(value) => value,
            None => 0,
        }
    } else {
        counter_of(lines, label, n + 1)
    }
}

/// Read a counter of the process.
fn counter(io: &str, label: &str) -> (out: u64)
    ensures
        out == counter_of(chars::lines_of(io@), label@, 0),
{
    let all = lines(&chars_of(io));
    let prefix = chars_of(label);
    let ghost model = chars::lines_of(io@);
    let mut index: usize = 0;
    while index < all.len()
        invariant
            index <= all@.len(),
            model == chars::lines_of(io@),
            model == chars::pieces(all@),
            prefix@ == label@,
            counter_of(model, label@, 0) == counter_of(model, label@, index as nat),
        decreases all@.len() - index,
    {
        let line = &all[index];
        assert(model[index as int] == line@);
        assert(line@.skip(0) =~= line@);
        if begins_at(line, 0, &prefix) {
            let rest = copy_range(line, prefix.len(), line.len());
            assert(rest@ =~= line@.skip(prefix@.len() as int));
            return match parse_u64(&trim(&rest)) {
                Some(value) => value,
                None => 0,
            };
        }
        index = index + 1;
    }
    0
}

/// Read syscalls issued by the process so far, going by `/proc/self/io`.
pub fn syscr(io: &str) -> (out: u64)
    ensures
        out == counter_of(chars::lines_of(io@), "syscr: "@, 0),
{
    counter(io, "syscr: ")
}

/// Bytes the process has pulled through read syscalls so far, going by `/proc/self/io`.
pub fn rchar(io: &str) -> (out: u64)
    ensures
        out == counter_of(chars::lines_of(io@), "rchar: "@, 0),
{
    counter(io, "rchar: ")
}

} // verus!
