//! Row masks and column validity.

use vstd::prelude::*;

verus! {

/// A choice of rows.
#[derive(Debug)]
pub struct Mask {
    pub bits: Vec<bool>,
}

/// The number of chosen rows.
pub open spec fn true_count(bits: Seq<bool>) -> nat
    decreases bits.len(),
{
    if bits.len() == 0 {
        0
    } else {
        true_count(bits.drop_last()) + if bits.last() {
            1nat
        } else {
            0nat
        }
    }
}

/// The number of chosen rows before row `i`.
pub open spec fn rank(bits: Seq<bool>, i: int) -> nat {
    true_count(bits.take(i))
}

/// Every row is chosen.
pub open spec fn all_true(bits: Seq<bool>) -> bool {
    forall|i: int| 0 <= i < bits.len() ==> #[trigger] bits[i]
}

/// No row is chosen.
pub open spec fn all_false(bits: Seq<bool>) -> bool {
    forall|i: int| 0 <= i < bits.len() ==> !#[trigger] bits[i]
}

/// The items of the chosen rows, in order.
pub open spec fn select<A>(items: Seq<A>, bits: Seq<bool>) -> Seq<A>
    decreases bits.len(),
{
    if bits.len() == 0 {
        Seq::empty()
    } else {
        let rest = select(items, bits.drop_last());
        if bits.last() {
            rest.push(items[bits.len() - 1])
        } else {
            rest
        }
    }
}

/// The row-wise conjunction of two choices.
pub open spec fn conjunction(a: Seq<bool>, b: Seq<bool>) -> Seq<bool> {
    Seq::new(a.len(), |i: int| a[i] && b[i])
}

/// One more row adds one to the rank exactly if the row is chosen.
pub proof fn rank_step(bits: Seq<bool>, i: int)
    requires
        0 <= i < bits.len(),
    ensures
        rank(bits, i + 1) == rank(bits, i) + (if bits[i] {
            1nat
        } else {
            0nat
        }),
        rank(bits, 0) == 0,
        rank(bits, bits.len() as int) == true_count(bits),
{
    assert(bits.take(i + 1).drop_last() =~= bits.take(i));
    assert(bits.take(0) =~= Seq::empty());
    assert(bits.take(bits.len() as int) =~= bits);
}

/// Ranks grow with the row.
pub proof fn rank_monotone(bits: Seq<bool>, i: int, j: int)
    requires
        0 <= i <= j <= bits.len(),
    ensures
        rank(bits, i) <= rank(bits, j) <= true_count(bits),
    decreases bits.len() - i,
{
    assert(bits.take(bits.len() as int) =~= bits);
    if i < j {
        rank_step(bits, i);
        rank_monotone(bits, i + 1, j);
    } else if i < bits.len() {
        rank_step(bits, i);
        rank_monotone(bits, i + 1, bits.len() as int);
    }
}

/// There are as many chosen items as chosen rows, and the item of a chosen row stands at the
/// row's rank.
pub proof fn select_at_rank<A>(items: Seq<A>, bits: Seq<bool>)
    requires
        bits.len() <= items.len(),
    ensures
        select(items, bits).len() == true_count(bits),
        forall|i: int|
            #![trigger bits[i]]
            0 <= i < bits.len() && bits[i] ==> rank(bits, i) < true_count(bits) && select(
                items,
                bits,
            )[rank(bits, i) as int] == items[i],
    decreases bits.len(),
{
    if bits.len() > 0 {
        let init = bits.drop_last();
        select_at_rank(items, init);
        assert forall|i: int|
            #![trigger bits[i]]
            0 <= i < bits.len() && bits[i] implies rank(bits, i) < true_count(bits) && select(
            items,
            bits,
        )[rank(bits, i) as int] == items[i] by {
            assert(bits.take(i) =~= init.take(i));
            if i < init.len() {
                assert(init[i]);
                assert(select(items, init)[rank(init, i) as int] == items[i]);
            } else {
                assert(init.take(i) =~= init);
            }
        }
    }
}

/// Every rank below the count is that of a chosen row.
pub proof fn chosen_at(bits: Seq<bool>, k: int) -> (i: int)
    requires
        0 <= k < true_count(bits),
    ensures
        0 <= i < bits.len(),
        bits[i],
        rank(bits, i) == k,
    decreases bits.len(),
{
    let init = bits.drop_last();
    if k < true_count(init) {
        let i = chosen_at(init, k);
        assert(bits.take(i) =~= init.take(i));
        i
    } else {
        assert(bits.take(bits.len() - 1) =~= init);
        bits.len() - 1
    }
}

/// A count that reaches the length means that every row is chosen; a count of zero, that none is.
pub proof fn true_count_bounds(bits: Seq<bool>)
    ensures
        true_count(bits) <= bits.len(),
        true_count(bits) == bits.len() <==> all_true(bits),
        true_count(bits) == 0 <==> all_false(bits),
    decreases bits.len(),
{
    if bits.len() > 0 {
        let init = bits.drop_last();
        true_count_bounds(init);
        if all_true(bits) {
            assert(bits[bits.len() - 1]);
            assert forall|i: int| 0 <= i < init.len() implies #[trigger] init[i] by {
                assert(bits[i]);
            }
        }
        if all_false(bits) {
            assert(!bits[bits.len() - 1]);
            assert forall|i: int| 0 <= i < init.len() implies !#[trigger] init[i] by {
                assert(!bits[i]);
            }
        }
        if true_count(bits) == bits.len() {
            assert forall|i: int| 0 <= i < bits.len() implies #[trigger] bits[i] by {
                if i < init.len() {
                    assert(init[i]);
                }
            }
        }
        if true_count(bits) == 0 {
            assert forall|i: int| 0 <= i < bits.len() implies !#[trigger] bits[i] by {
                if i < init.len() {
                    assert(!init[i]);
                }
            }
        }
    }
}

impl View for Mask {
    type V = Seq<bool>;

    open spec fn view(&self) -> Seq<bool> {
        self.bits@
    }
}

impl Mask {
    pub fn new(bits: Vec<bool>) -> (out: Self)
        ensures
            out@ == bits@,
    {
        Mask { bits }
    }

    pub fn len(&self) -> (out: usize)
        ensures
            out == self@.len(),
    {
        self.bits.len()
    }

    /// Whether row `i` is chosen.
    pub fn value(&self, i: usize) -> (out: bool)
        requires
            i < self@.len(),
        ensures
            out == self@[i as int],
    {
        self.bits[i]
    }

    /// The number of chosen rows.
    pub fn true_count(&self) -> (out: usize)
        ensures
            out == true_count(self@),
            out <= self@.len(),
    {
        let mut count: usize = 0;
        let mut index: usize = 0;
        assert(self@.take(0) =~= Seq::empty());
        while index < self.bits.len()
            invariant
                index <= self@.len(),
                count <= index,
                count == rank(self@, index as int),
            decreases self@.len() - index,
        {
            proof {
                rank_step(self@, index as int);
            }
            if self.bits[index] {
                count = count + 1;
            }
            index = index + 1;
        }
        assert(self@.take(self@.len() as int) =~= self@);
        count
    }

    /// Whether every row is chosen, which holds of no rows.
    pub fn all_true(&self) -> (out: bool)
        ensures
            out == all_true(self@),
    {
        let count: usize = self.true_count();
        proof {
            true_count_bounds(self@);
        }
        count == self.bits.len()
    }

    /// Whether no row is chosen, which holds of no rows.
    pub fn all_false(&self) -> (out: bool)
        ensures
            out == all_false(self@),
    {
        let count: usize = self.true_count();
        proof {
            true_count_bounds(self@);
        }
        count == 0
    }
}

/// Which rows of a column are valid.
#[derive(Debug)]
pub enum Validity {
    NonNullable,
    AllValid,
    AllInvalid,
    Array(Vec<bool>),
}

/// The meaning of a [`Validity`].
pub enum ValidityV {
    NonNullable,
    AllValid,
    AllInvalid,
    Array(Seq<bool>),
}

impl ValidityV {
    /// A row is valid in the conjunction if it is valid in both.
    pub open spec fn and(self, other: ValidityV) -> ValidityV {
        match (self, other) {
            (ValidityV::NonNullable, ValidityV::NonNullable) => ValidityV::NonNullable,
            (ValidityV::AllInvalid, _) => ValidityV::AllInvalid,
            (_, ValidityV::AllInvalid) => ValidityV::AllInvalid,
            (ValidityV::Array(a), ValidityV::Array(b)) => ValidityV::Array(conjunction(a, b)),
            (ValidityV::Array(a), _) => ValidityV::Array(a),
            (_, ValidityV::Array(b)) => ValidityV::Array(b),
            _ => ValidityV::AllValid,
        }
    }

    /// One bit per row.
    pub open spec fn bits(self, rows: nat) -> Seq<bool> {
        match self {
            ValidityV::NonNullable => Seq::new(rows, |i: int| true),
            ValidityV::AllValid => Seq::new(rows, |i: int| true),
            ValidityV::AllInvalid => Seq::new(rows, |i: int| false),
            ValidityV::Array(bits) => bits,
        }
    }

    /// The bits, where they are kept, are one per row.
    pub open spec fn fits(self, rows: nat) -> bool {
        self matches ValidityV::Array(bits) ==> bits.len() == rows
    }
}

impl View for Validity {
    type V = ValidityV;

    open spec fn view(&self) -> ValidityV {
        match self {
            Validity::NonNullable => ValidityV::NonNullable,
            Validity::AllValid => ValidityV::AllValid,
            Validity::AllInvalid => ValidityV::AllInvalid,
            Validity::Array(bits) => ValidityV::Array(bits@),
        }
    }
}

/// `rows` copies of one bit.
pub fn repeat_bit(value: bool, rows: usize) -> (out: Vec<bool>)
    ensures
        out@ == Seq::new(rows as nat, |i: int| value),
{
    let mut out: Vec<bool> = Vec::new();
    let mut index: usize = 0;
    while index < rows
        invariant
            index <= rows,
            out@ == Seq::new(index as nat, |i: int| value),
        decreases rows - index,
    {
        out.push(value);
        index = index + 1;
        assert(out@ =~= Seq::new(index as nat, |i: int| value));
    }
    out
}

impl Validity {
    /// The row-wise conjunction.
    pub fn and(self, other: Validity) -> (out: Validity)
        requires
            forall|a: Seq<bool>, b: Seq<bool>|
                self@ == ValidityV::Array(a) && other@ == ValidityV::Array(b) ==> a.len()
                    == b.len(),
        ensures
            out@ == self@.and(other@),
    {
        match (self, other) {
            (Validity::NonNullable, Validity::NonNullable) => Validity::NonNullable,
            (Validity::AllInvalid, _) => Validity::AllInvalid,
            (_, Validity::AllInvalid) => Validity::AllInvalid,
            (Validity::Array(a), Validity::Array(b)) => {
                let mut bits: Vec<bool> = Vec::new();
                let mut index: usize = 0;
                while index < a.len()
                    invariant
                        index <= a@.len() == b@.len(),
                        bits@ == conjunction(a@, b@).take(index as int),
                    decreases a@.len() - index,
                {
                    bits.push(a[index] && b[index]);
                    index = index + 1;
                    assert(bits@ =~= conjunction(a@, b@).take(index as int));
                }
                assert(bits@ =~= conjunction(a@, b@));
                Validity::Array(bits)
            },
            (Validity::Array(a), _) => Validity::Array(a),
            (_, Validity::Array(b)) => Validity::Array(b),
            _ => Validity::AllValid,
        }
    }

    /// One bit per row.
    pub fn execute_mask(self, rows: usize) -> (out: Mask)
        ensures
            out@ == self@.bits(rows as nat),
    {
        match self {
            Validity::NonNullable => Mask { bits: repeat_bit(true, rows) },
            Validity::AllValid => Mask { bits: repeat_bit(true, rows) },
            Validity::AllInvalid => Mask { bits: repeat_bit(false, rows) },
            Validity::Array(bits) => Mask { bits },
        }
    }
}

} // verus!
