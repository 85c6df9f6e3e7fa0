//! Which row groups of a file hold the rows that are asked for, and where in them.

use vstd::prelude::*;

verus! {

/// The rows of the first `n` row groups.
pub open spec fn rows_before(num_rows: Seq<i64>, n: nat) -> int
    decreases n,
{
    if n == 0 {
        0
    } else {
        rows_before(num_rows, (n - 1) as nat) + num_rows[n - 1]
    }
}

/// Row groups have no negative number of rows.
pub open spec fn counts(num_rows: Seq<i64>) -> bool {
    forall|i: int| 0 <= i < num_rows.len() ==> #[trigger] num_rows[i] >= 0
}

/// More row groups hold no fewer rows.
pub proof fn rows_add_up(num_rows: Seq<i64>, m: nat, n: nat)
    requires
        counts(num_rows),
        m <= n <= num_rows.len(),
    ensures
        0 <= rows_before(num_rows, m) <= rows_before(num_rows, n),
    decreases n,
{
    if m < n {
        rows_add_up(num_rows, m, (n - 1) as nat);
        assert(num_rows[n - 1] >= 0);
    } else if m > 0 {
        rows_add_up(num_rows, (m - 1) as nat, (m - 1) as nat);
        assert(num_rows[m - 1] >= 0);
    }
}

/// The place of the last offset that is at most `row`, counted from zero; -1 where there is none.
pub open spec fn group_of(offsets: Seq<i64>, row: int) -> int
    decreases offsets.len(),
{
    if offsets.len() == 0 {
        -1
    } else if offsets.last() <= row {
        offsets.len() - 1
    } else {
        group_of(offsets.drop_last(), row)
    }
}

/// Of offsets in order, those up to a row's group are at most the row, and no others.
pub proof fn group_parts_offsets(offsets: Seq<i64>, row: int)
    requires
        forall|i: int, j: int|
            #![trigger offsets[i], offsets[j]]
            0 <= i <= j < offsets.len() ==> offsets[i] <= offsets[j],
    ensures
        -1 <= group_of(offsets, row) < offsets.len(),
        forall|i: int|
            0 <= i < offsets.len() ==> (#[trigger] offsets[i] <= row <==> i <= group_of(
                offsets,
                row,
            )),
    decreases offsets.len(),
{
    if offsets.len() > 0 && offsets.last() > row {
        let fewer = offsets.drop_last();
        assert forall|i: int, j: int|
            #![trigger fewer[i], fewer[j]]
            0 <= i <= j < fewer.len() implies fewer[i] <= fewer[j] by {
            assert(offsets[i] <= offsets[j]);
        }
        group_parts_offsets(fewer, row);
        assert forall|i: int| 0 <= i < offsets.len() implies (#[trigger] offsets[i] <= row <==> i
            <= group_of(offsets, row)) by {
            if i < fewer.len() {
                assert(fewer[i] == offsets[i]);
            }
        }
    } else if offsets.len() > 0 {
        assert forall|i: int| 0 <= i < offsets.len() implies #[trigger] offsets[i] <= row by {
            assert(offsets[i] <= offsets[offsets.len() - 1]);
        }
    }
}

/// The rows of the first `n` that lie in a group, as offsets from where the group begins, in the
/// order in which they are asked for.
pub open spec fn rows_in(offsets: Seq<i64>, rows: Seq<u64>, group: int, n: nat) -> Seq<int>
    decreases n,
{
    if n == 0 {
        Seq::empty()
    } else {
        let before = rows_in(offsets, rows, group, (n - 1) as nat);
        if group_of(offsets, rows[n - 1] as int) == group {
            before.push(rows[n - 1] - offsets[group])
        } else {
            before
        }
    }
}

/// The rows to take from one row group.
pub struct GroupRows {
    /// The row group.
    pub group: usize,
    /// Rows, counted from where the group begins.
    pub rows: Vec<i64>,
}

impl GroupRows {
    /// The rows, as numbers, counted from the start of the group that stands beside them.
    pub open spec fn model(self) -> Seq<int> {
        Seq::new(self.rows@.len(), |i: int| self.rows@[i] as int)
    }
}

/// `out` takes the first `n` rows group by group: the groups stand in order, each once, and each
/// with those of the rows that lie in it.
pub open spec fn grouped(offsets: Seq<i64>, rows: Seq<u64>, n: nat, out: Seq<GroupRows>) -> bool {
    &&& forall|i: int, j: int|
        #![trigger out[i], out[j]]
        0 <= i < j < out.len() ==> out[i].group < out[j].group
    &&& forall|i: int|
        0 <= i < out.len() ==> {
            &&& (#[trigger] out[i]).model() == rows_in(offsets, rows, out[i].group as int, n)
            &&& out[i].rows@.len() > 0
        }
    &&& forall|k: int|
        0 <= k < n ==> exists|i: int|
            0 <= i < out.len() && (#[trigger] out[i]).group == group_of(
                offsets,
                #[trigger] rows[k] as int,
            )
}

/// Cumulative row offsets of the row groups of a file, one more than there are groups.
pub struct RowGroupOffsets {
    offsets: Vec<i64>,
}

impl View for RowGroupOffsets {
    type V = Seq<i64>;

    closed spec fn view(&self) -> Seq<i64> {
        self.offsets@
    }
}

impl RowGroupOffsets {
    #[verifier::type_invariant]
    spec fn valid(self) -> bool {
        &&& self.offsets@.len() > 0
        &&& self.offsets@[0] == 0
        &&& forall|i: int, j: int|
            #![trigger self.offsets@[i], self.offsets@[j]]
            0 <= i <= j < self.offsets@.len() ==> self.offsets@[i] <= self.offsets@[j]
    }

    /// The offsets of row groups that hold `num_rows` rows.
    pub fn new(num_rows: &Vec<i64>) -> (out: RowGroupOffsets)
        requires
            counts(num_rows@),
            rows_before(num_rows@, num_rows@.len()) <= i64::MAX,
            num_rows@.len() < usize::MAX,
        ensures
            out@.len() == num_rows@.len() + 1,
            forall|i: int|
                0 <= i <= num_rows@.len() ==> #[trigger] out@[i] == rows_before(
                    num_rows@,
                    i as nat,
                ),
    {
        let mut offsets: Vec<i64> = Vec::new();
        offsets.push(0);
        let mut sum: i64 = 0;
        let mut index: usize = 0;
        while index < num_rows.len()
            invariant
                index <= num_rows@.len(),
                counts(num_rows@),
                rows_before(num_rows@, num_rows@.len()) <= i64::MAX,
                sum == rows_before(num_rows@, index as nat),
                offsets@.len() == index + 1,
                forall|i: int|
                    0 <= i <= index ==> #[trigger] offsets@[i] == rows_before(num_rows@, i as nat),
            decreases num_rows@.len() - index,
        {
            proof {
                rows_add_up(num_rows@, (index + 1) as nat, num_rows@.len());
                rows_add_up(num_rows@, index as nat, (index + 1) as nat);
            }
            sum = sum + num_rows[index];
            offsets.push(sum);
            index = index + 1;
        }
        proof {
            assert forall|i: int, j: int|
                #![trigger offsets@[i], offsets@[j]]
                0 <= i <= j < offsets@.len() implies offsets@[i] <= offsets@[j] by {
                rows_add_up(num_rows@, i as nat, j as nat);
            }
        }
        RowGroupOffsets { offsets }
    }

    /// The row group that holds a row.
    fn locate(&self, row: i64) -> (out: usize)
        requires
            row >= 0,
        ensures
            out == group_of(self@, row as int),
            out < self@.len(),
            0 <= self@[out as int] <= row,
    {
        proof {
            use_type_invariant(self);
            group_parts_offsets(self@, row as int);
            assert(self@[0] <= row);
        }
        let ghost group = group_of(self@, row as int);
        let mut low: usize = 0;
        let mut high: usize = self.offsets.len();
        while high - low > 1
            invariant
                low < high <= self@.len(),
                self@ == self.offsets@,
                low <= group < high,
                forall|i: int|
                    0 <= i < self@.len() ==> (#[trigger] self@[i] <= row <==> i <= group),
            decreases high - low,
        {
            let middle: usize = low + (high - low) / 2;
            if self.offsets[middle] <= row {
                low = middle;
            } else {
                high = middle;
            }
        }
        assert(self@[0] <= self@[low as int]);
        low
    }

    /// Map rows to row groups.
    pub fn group_rows(&self, rows: &Vec<u64>) -> (out: Vec<GroupRows>)
        requires
            forall|k: int| 0 <= k < rows@.len() ==> #[trigger] rows@[k] <= i64::MAX,
        ensures
            grouped(self@, rows@, rows@.len(), out@),
    {
        let mut out: Vec<GroupRows> = Vec::new();
        let mut index: usize = 0;
        while index < rows.len()
            invariant
                index <= rows@.len(),
                forall|k: int| 0 <= k < rows@.len() ==> #[trigger] rows@[k] <= i64::MAX,
                grouped(self@, rows@, index as nat, out@),
            decreases rows@.len() - index,
        {
            let row: i64 = rows[index] as i64;
            let group: usize = self.locate(row);
            let within: i64 = row - self.offsets[group];
            self.place(rows, index, &mut out, group, within);
            index = index + 1;
        }
        out
    }

    /// Add one row to the groups.
    fn place(&self, rows: &Vec<u64>, index: usize, out: &mut Vec<GroupRows>, group: usize, within: i64)
        requires
            index < rows@.len(),
            grouped(self@, rows@, index as nat, old(out)@),
            group == group_of(self@, rows@[index as int] as int),
            within == rows@[index as int] - self@[group as int],
        ensures
            grouped(self@, rows@, index as nat + 1, final(out)@),
    {
        let ghost before = out@;
        let ghost n = index as nat;
        let mut place: usize = out.len();
        while place > 0 && out[place - 1].group > group
            invariant
                place <= out@.len(),
                out@ == before,
                forall|i: int| place <= i < before.len() ==> (#[trigger] before[i]).group > group,
            decreases place,
        {
            place = place - 1;
        }
        if place > 0 && out[place - 1].group == group {
            let at: usize = place - 1;
            let mut entry = out.remove(at);
            let ghost had = entry;
            entry.rows.push(within);
            out.insert(at, entry);
            proof {
                let after = out@;
                assert(after.len() == before.len());
                assert forall|i: int| 0 <= i < before.len() && i != at implies after[i]
                    == before[i] by {}
                assert(after[at as int] == entry);
                assert(entry.group == group);
                assert(entry.model() =~= had.model().push(within as int));
                assert forall|i: int| 0 <= i < after.len() implies {
                    &&& (#[trigger] after[i]).model() == rows_in(
                        self@,
                        rows@,
                        after[i].group as int,
                        n + 1,
                    )
                    &&& after[i].rows@.len() > 0
                } by {
                    assert(before[i].group == after[i].group);
                    if i != at {
                        assert(before[i].group != before[at as int].group);
                    }
                }
                assert forall|k: int| 0 <= k < n + 1 implies exists|i: int|
                    0 <= i < after.len() && (#[trigger] after[i]).group == group_of(
                        self@,
                        #[trigger] rows@[k] as int,
                    ) by {
                    if k < n {
                        let i = choose|i: int|
                            0 <= i < before.len() && (#[trigger] before[i]).group == group_of(
                                self@,
                                rows@[k] as int,
                            );
                        assert(after[i].group == before[i].group);
                    } else {
                        assert(after[at as int].group == group);
                    }
                }
                assert forall|i: int, j: int|
                    #![trigger after[i], after[j]]
                    0 <= i < j < after.len() implies after[i].group < after[j].group by {
                    assert(before[i].group < before[j].group);
                }
            }
        } else {
            let mut fresh: Vec<i64> = Vec::new();
            fresh.push(within);
            let entry = GroupRows { group, rows: fresh };
            out.insert(place, entry);
            proof {
                let after = out@;
                assert(after == before.insert(place as int, entry));
                assert forall|i: int| 0 <= i < before.len() implies (#[trigger] before[i]).group
                    != group by {
                    if place > 0 && i < place {
                        assert(before[i].group <= before[place - 1].group);
                    }
                }
                self.nothing_in(rows@, before, group as int, n);
                assert(entry.model() =~= rows_in(self@, rows@, group as int, n + 1));
                assert forall|i: int| 0 <= i < after.len() implies {
                    &&& (#[trigger] after[i]).model() == rows_in(
                        self@,
                        rows@,
                        after[i].group as int,
                        n + 1,
                    )
                    &&& after[i].rows@.len() > 0
                } by {
                    if i < place {
                        assert(after[i] == before[i]);
                    } else if i > place {
                        assert(after[i] == before[i - 1]);
                    }
                }
                assert forall|k: int| 0 <= k < n + 1 implies exists|i: int|
                    0 <= i < after.len() && (#[trigger] after[i]).group == group_of(
                        self@,
                        #[trigger] rows@[k] as int,
                    ) by {
                    if k < n {
                        let i = choose|i: int|
                            0 <= i < before.len() && (#[trigger] before[i]).group == group_of(
                                self@,
                                rows@[k] as int,
                            );
                        if i < place {
                            assert(after[i].group == before[i].group);
                        } else {
                            assert(after[i + 1].group == before[i].group);
                        }
                    } else {
                        assert(after[place as int].group == group);
                    }
                }
                assert forall|i: int, j: int|
                    #![trigger after[i], after[j]]
                    0 <= i < j < after.len() implies after[i].group < after[j].group by {
                    let a = if i < place {
                        i
                    } else {
                        i - 1
                    };
                    let b = if j < place {
                        j
                    } else {
                        j - 1
                    };
                    if i != place && j != place {
                        assert(before[a].group < before[b].group);
                    } else if j == place {
                        assert(before[a].group <= before[place - 1].group);
                        assert(before[place - 1].group != group);
                    } else {
                        assert(before[b].group > group);
                    }
                }
            }
        }
    }

    /// A group that is not among those of the first `n` rows has none of them.
    proof fn nothing_in(&self, rows: Seq<u64>, out: Seq<GroupRows>, group: int, n: nat)
        requires
            n <= rows.len(),
            forall|i: int| 0 <= i < out.len() ==> (#[trigger] out[i]).group != group,
            forall|k: int|
                0 <= k < n ==> exists|i: int|
                    0 <= i < out.len() && (#[trigger] out[i]).group == group_of(
                        self@,
                        #[trigger] rows[k] as int,
                    ),
        ensures
            rows_in(self@, rows, group, n) == Seq::<int>::empty(),
        decreases n,
    {
        if n > 0 {
            let i = choose|i: int|
                0 <= i < out.len() && (#[trigger] out[i]).group == group_of(
                    self@,
                    rows[n - 1] as int,
                );
            assert(out[i].group != group);
            self.nothing_in(rows, out, group, (n - 1) as nat);
        }
    }
}

/// The rows that the first `m` groups take, counted from the start of the file.
pub open spec fn taken(offsets: Seq<i64>, out: Seq<GroupRows>, m: nat) -> Seq<int>
    decreases m,
{
    if m == 0 {
        Seq::empty()
    } else {
        let last = out[m - 1];
        taken(offsets, out, (m - 1) as nat) + Seq::new(
            last.rows@.len(),
            |i: int| last.rows@[i] + offsets[last.group as int],
        )
    }
}

/// Rows that are asked for in order are taken in that order: the groups' rows, one group after
/// the other, are the rows asked for.
pub proof fn rows_in_order_come_back(offsets: Seq<i64>, rows: Seq<u64>, out: Seq<GroupRows>)
    requires
        offsets.len() > 0,
        offsets[0] == 0,
        forall|i: int, j: int|
            #![trigger offsets[i], offsets[j]]
            0 <= i <= j < offsets.len() ==> offsets[i] <= offsets[j],
        forall|i: int, j: int|
            #![trigger rows[i], rows[j]]
            0 <= i <= j < rows.len() ==> rows[i] <= rows[j],
        grouped(offsets, rows, rows.len(), out),
    ensures
        taken(offsets, out, out.len()) == Seq::new(rows.len(), |k: int| rows[k] as int),
{
    let model = Seq::new(rows.len(), |k: int| rows[k] as int);
    groups_rise(offsets, rows);
    let split = first_of(offsets, rows, rows.len(), out, out.len());
    assert(split == rows.len()) by {
        first_is_all(offsets, rows, out);
    }
    groups_take_runs(offsets, rows, out, out.len());
    assert(model.take(rows.len() as int) =~= model);
}

/// The groups of rows in order stand in order.
proof fn groups_rise(offsets: Seq<i64>, rows: Seq<u64>)
    requires
        forall|i: int, j: int|
            #![trigger offsets[i], offsets[j]]
            0 <= i <= j < offsets.len() ==> offsets[i] <= offsets[j],
        forall|i: int, j: int|
            #![trigger rows[i], rows[j]]
            0 <= i <= j < rows.len() ==> rows[i] <= rows[j],
    ensures
        forall|i: int, j: int|
            #![trigger rows[i], rows[j]]
            0 <= i <= j < rows.len() ==> group_of(offsets, rows[i] as int) <= group_of(
                offsets,
                rows[j] as int,
            ),
{
    assert forall|i: int, j: int|
        #![trigger rows[i], rows[j]]
        0 <= i <= j < rows.len() implies group_of(offsets, rows[i] as int) <= group_of(
        offsets,
        rows[j] as int,
    ) by {
        group_parts_offsets(offsets, rows[i] as int);
        group_parts_offsets(offsets, rows[j] as int);
        let g = group_of(offsets, rows[i] as int);
        if g >= 0 {
            assert(offsets[g] <= rows[i]);
            assert(offsets[g] <= rows[j]);
        }
    }
}

/// How many of the first `n` rows lie in the first `m` groups.
spec fn first_of(offsets: Seq<i64>, rows: Seq<u64>, n: nat, out: Seq<GroupRows>, m: nat) -> nat
    decreases n,
{
    if n == 0 || m == 0 {
        0
    } else if group_of(offsets, rows[n - 1] as int) <= out[m - 1].group {
        n
    } else {
        first_of(offsets, rows, (n - 1) as nat, out, m)
    }
}

/// Every row lies in a group.
proof fn first_is_all(offsets: Seq<i64>, rows: Seq<u64>, out: Seq<GroupRows>)
    requires
        grouped(offsets, rows, rows.len(), out),
    ensures
        first_of(offsets, rows, rows.len(), out, out.len()) == rows.len(),
{
    if rows.len() > 0 {
        let k = rows.len() - 1;
        let i = choose|i: int|
            0 <= i < out.len() && (#[trigger] out[i]).group == group_of(
                offsets,
                rows[k] as int,
            );
        if i < out.len() - 1 {
            assert(out[i].group < out[out.len() - 1].group);
        }
    }
}

/// What `first_of` counts: a prefix of the rows.
proof fn first_is_prefix(offsets: Seq<i64>, rows: Seq<u64>, n: nat, out: Seq<GroupRows>, m: nat)
    requires
        n <= rows.len(),
        forall|i: int, j: int|
            #![trigger rows[i], rows[j]]
            0 <= i <= j < rows.len() ==> group_of(offsets, rows[i] as int) <= group_of(
                offsets,
                rows[j] as int,
            ),
        0 < m <= out.len(),
    ensures
        first_of(offsets, rows, n, out, m) <= n,
        forall|k: int|
            0 <= k < n ==> (k < first_of(offsets, rows, n, out, m) <==> group_of(
                offsets,
                #[trigger] rows[k] as int,
            ) <= out[m - 1].group),
    decreases n,
{
    if n > 0 {
        if group_of(offsets, rows[n - 1] as int) <= out[m - 1].group {
            assert forall|k: int| 0 <= k < n implies group_of(offsets, #[trigger] rows[k] as int)
                <= out[m - 1].group by {
                assert(group_of(offsets, rows[k] as int) <= group_of(
                    offsets,
                    rows[n - 1] as int,
                ));
            }
        } else {
            first_is_prefix(offsets, rows, (n - 1) as nat, out, m);
        }
    }
}

/// The first `m` groups take the rows that lie in them.
proof fn groups_take_runs(offsets: Seq<i64>, rows: Seq<u64>, out: Seq<GroupRows>, m: nat)
    requires
        forall|i: int, j: int|
            #![trigger rows[i], rows[j]]
            0 <= i <= j < rows.len() ==> group_of(offsets, rows[i] as int) <= group_of(
                offsets,
                rows[j] as int,
            ),
        grouped(offsets, rows, rows.len(), out),
        m <= out.len(),
    ensures
        taken(offsets, out, m) == Seq::new(rows.len(), |k: int| rows[k] as int).take(
            first_of(offsets, rows, rows.len(), out, m) as int,
        ),
    decreases m,
{
    let model = Seq::new(rows.len(), |k: int| rows[k] as int);
    if m == 0 {
        assert(model.take(0) =~= Seq::empty());
    } else {
        groups_take_runs(offsets, rows, out, (m - 1) as nat);
        let low = first_of(offsets, rows, rows.len(), out, (m - 1) as nat);
        let high = first_of(offsets, rows, rows.len(), out, m);
        let last = out[m - 1];
        first_is_prefix(offsets, rows, rows.len(), out, m);
        if m > 1 {
            first_is_prefix(offsets, rows, rows.len(), out, (m - 1) as nat);
            assert(out[m - 2].group < out[m - 1].group);
        }
        assert forall|k: int| 0 <= k < rows.len() implies (low <= k < high <==> group_of(
            offsets,
            #[trigger] rows[k] as int,
        ) == last.group) by {
            let i = choose|i: int|
                0 <= i < out.len() && (#[trigger] out[i]).group == group_of(
                    offsets,
                    rows[k] as int,
                );
            if m > 1 && i < m - 1 {
                assert(out[i].group <= out[m - 2].group);
            }
            if i > m - 1 {
                assert(out[m - 1].group < out[i].group);
            }
        }
        if low > high {
            let k = high as int;
            assert(k < low);
            assert(group_of(offsets, rows[k] as int) <= out[m - 2].group);
            assert(false);
        }
        run_is_taken(offsets, rows, last.group as int, low, high, rows.len());
        let run = Seq::new(last.rows@.len(), |i: int| last.rows@[i] + offsets[last.group as int]);
        let group = last.group as int;
        let wanted = Seq::new((high - low) as nat, |i: int| rows[low + i] - offsets[group]);
        assert(last.model() == wanted);
        assert(run =~= model.subrange(low as int, high as int)) by {
            assert forall|i: int| 0 <= i < run.len() implies run[i] == model[low + i] by {
                assert(last.model()[i] == wanted[i]);
                assert(wanted[i] == rows[low + i] - offsets[group]);
            }
        }
        assert(model.take(low as int) + model.subrange(low as int, high as int) =~= model.take(
            high as int,
        ));
    }
}

/// Where the rows of a group are those from `low` up to `high`, they are taken in that order.
proof fn run_is_taken(offsets: Seq<i64>, rows: Seq<u64>, group: int, low: nat, high: nat, n: nat)
    requires
        low <= high <= rows.len(),
        n <= rows.len(),
        forall|k: int|
            0 <= k < rows.len() ==> (low <= k < high <==> group_of(
                offsets,
                #[trigger] rows[k] as int,
            ) == group),
    ensures
        ({
            let end = if n < high {
                n as int
            } else {
                high as int
            };
            let length = if end < low {
                0
            } else {
                (end - low) as nat
            };
            rows_in(offsets, rows, group, n) == Seq::new(
                length,
                |i: int| rows[low + i] - offsets[group],
            )
        }),
    decreases n,
{
    if n > 0 {
        run_is_taken(offsets, rows, group, low, high, (n - 1) as nat);
        assert(low <= n - 1 < high <==> group_of(offsets, rows[n - 1] as int) == group);
        let end = if n < high {
            n as int
        } else {
            high as int
        };
        let length = if end < low {
            0
        } else {
            (end - low) as nat
        };
        assert(rows_in(offsets, rows, group, n) =~= Seq::new(
            length,
            |i: int| rows[low + i] - offsets[group],
        ));
    } else {
        assert(rows_in(offsets, rows, group, n) =~= Seq::new(
            0,
            |i: int| rows[low + i] - offsets[group],
        ));
    }
}

/// Row groups lie one after the other: the first begins at the file's first row, and each next one
/// where the one before it ends.
pub proof fn row_groups_follow_each_other(num_rows: Seq<i64>, i: int)
    requires
        0 <= i < num_rows.len(),
    ensures
        rows_before(num_rows, 0) == 0,
        rows_before(num_rows, (i + 1) as nat) == rows_before(num_rows, i as nat) + num_rows[i],
{
}

} // verus!
