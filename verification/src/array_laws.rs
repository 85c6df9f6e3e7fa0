//! What operations on columns do, said of their rows.

use vstd::prelude::*;

use crate::array::{self, ArrayV};
use crate::dtype::DTypeV;
use crate::mask::{self, ValidityV};
use crate::value::CellV;

verus! {

/// Masking makes the rows outside the mask null, keeps what the others show, and keeps the number
/// of rows. The type becomes nullable and stays the same otherwise.
pub proof fn masking_nulls_rows(a: ArrayV, bits: Seq<bool>, i: int)
    requires
        bits.len() == a.len(),
        0 <= i < a.len(),
    ensures
        a.mask(bits).len() == a.len(),
        a.mask(bits).row(i) == if bits[i] {
            a.row(i)
        } else {
            None
        },
        a.mask(bits).dtype.nullable(),
        a.mask(bits).dtype.eq_ignore_nullability(a.dtype),
{
    crate::dtype::eq_ignore_nullability_is_an_equivalence(
        a.dtype,
        a.dtype,
        a.dtype,
        crate::dtype::Nullability::Nullable,
    );
    crate::dtype::eq_ignore_nullability_is_an_equivalence(
        a.dtype,
        a.mask(bits).dtype,
        a.dtype,
        crate::dtype::Nullability::Nullable,
    );
    crate::dtype::with_nullability_sets_nullability(
        a.dtype,
        crate::dtype::Nullability::Nullable,
    );
}

/// Taking rows gives those rows, in the order in which they are asked for.
pub proof fn taking_gives_the_rows(a: ArrayV, indices: Seq<u64>, i: int)
    requires
        0 <= i < indices.len(),
        indices[i] < a.len(),
    ensures
        a.take(indices).len() == indices.len(),
        a.take(indices).row(i) == a.row(indices[i] as int),
        a.take(indices).dtype == a.dtype,
{
}

proof fn counted(bits: Seq<bool>)
    ensures
        mask::true_count(bits) == bits.filter(|b: bool| b).len(),
        bits.filter(|b: bool| b).len() + bits.filter(|b: bool| !b).len() == bits.len(),
    decreases bits.len(),
{
    reveal(Seq::filter);
    if bits.len() > 0 {
        counted(bits.drop_last());
    }
}

/// Filtering keeps the chosen rows: as many as are chosen, and two of them in their order.
pub proof fn filtering_keeps_the_chosen_rows(a: ArrayV, bits: Seq<bool>, i: int, j: int)
    requires
        bits.len() == a.len(),
        0 <= i < j < a.len(),
        bits[i],
        bits[j],
    ensures
        a.filter(bits).len() == bits.filter(|b: bool| b).len(),
        exists|p: int, q: int|
            0 <= p < q < a.filter(bits).len() && #[trigger] a.filter(bits).cells[p] == a.cells[i]
                && #[trigger] a.filter(bits).cells[q] == a.cells[j],
        a.filter(bits).dtype == a.dtype,
{
    counted(bits);
    mask::select_at_rank(a.cells, bits);
    mask::rank_step(bits, i);
    mask::rank_monotone(bits, i + 1, j);
    let p = mask::rank(bits, i) as int;
    let q = mask::rank(bits, j) as int;
    assert(a.filter(bits).cells[p] == a.cells[i]);
    assert(a.filter(bits).cells[q] == a.cells[j]);
}

/// A column's validity tells of each row whether it is valid. It says that no row can be null, or
/// that none is, where every row is valid, by whether the type admits nulls, and that all are where
/// no row is valid.
pub proof fn validity_tells_of_each_row(a: ArrayV, i: int)
    requires
        0 <= i < a.len(),
    ensures
        a.validity().bits(a.len()).len() == a.len(),
        a.validity().bits(a.len())[i] == a.cells[i].valid,
        a.validity() is NonNullable <==> !a.dtype.nullable() && forall|r: int|
            0 <= r < a.len() ==> (#[trigger] a.cells[r]).valid,
        a.validity() is AllValid <==> a.dtype.nullable() && forall|r: int|
            0 <= r < a.len() ==> (#[trigger] a.cells[r]).valid,
        a.validity() is AllInvalid <==> forall|r: int|
            0 <= r < a.len() ==> !(#[trigger] a.cells[r]).valid,
{
    assert(a.valid_bits()[i] == a.cells[i].valid);
    if mask::all_true(a.valid_bits()) {
        assert forall|r: int| 0 <= r < a.len() implies (#[trigger] a.cells[r]).valid by {
            assert(a.valid_bits()[r]);
        }
    }
    if mask::all_false(a.valid_bits()) {
        assert forall|r: int| 0 <= r < a.len() implies !(#[trigger] a.cells[r]).valid by {
            assert(!a.valid_bits()[r]);
        }
    }
}

/// A row is valid in the conjunction of two validities exactly where it is valid in both.
pub proof fn conjunctions_are_valid_where_both_are(a: ValidityV, b: ValidityV, rows: nat, i: int)
    requires
        a.fits(rows),
        b.fits(rows),
        0 <= i < rows,
    ensures
        a.and(b).fits(rows),
        a.and(b).bits(rows).len() == rows,
        a.and(b).bits(rows)[i] == (a.bits(rows)[i] && b.bits(rows)[i]),
{
}

/// A column can be had under a type exactly where that admits nulls or no row is null, and then
/// shows the same rows.
pub proof fn casting_keeps_the_rows(a: ArrayV, dtype: DTypeV, i: int)
    ensures
        a.cast(dtype) is Ok <==> dtype.nullable() || forall|r: int|
            0 <= r < a.len() ==> (#[trigger] a.cells[r]).valid,
        a.cast(dtype) matches Ok(out) ==> out.dtype == dtype && out.len() == a.len() && (0 <= i
            < a.len() ==> out.row(i) == a.row(i)),
{
    if mask::all_true(a.valid_bits()) {
        assert forall|r: int| 0 <= r < a.len() implies (#[trigger] a.cells[r]).valid by {
            assert(a.valid_bits()[r]);
        }
    }
}

/// Computing in place is preferred exactly where filtering saves nothing, or at most one row in four
/// is left out.
pub proof fn in_place_is_preferred_up_to_a_quarter(shrinks: bool, valid: Seq<bool>)
    ensures
        crate::scalar_fn::strict::branch_preferred(shrinks, valid) <==> !shrinks || 4
            * valid.filter(|b: bool| !b).len() <= valid.len(),
{
    counted(valid);
}

/// Skipping is preferred exactly where filtering saves no decode, or saves one and at most half of
/// the rows are left out, or saves more and at most fifteen rows in a hundred are.
pub proof fn skipping_is_preferred_up_to_a_share(cost: nat, valid: Seq<bool>)
    ensures
        crate::scalar_fn::row::policy::skipping_preferred(cost, valid) <==> {
            ||| cost == 0
            ||| cost == 1 && 2 * valid.filter(|b: bool| !b).len() <= valid.len()
            ||| cost > 1 && 100 * valid.filter(|b: bool| !b).len() <= 15 * valid.len()
        },
{
    counted(valid);
}

/// A lifted function has the type of its values, which can be null exactly where they can or an
/// argument can.
pub proof fn lifted_types_are_nullable_where_an_argument_is(element: DTypeV, dtypes: Seq<DTypeV>)
    ensures
        crate::scalar_fn::strict::lifted_dtype(Ok(element), dtypes) matches Ok(dtype)
            && dtype.eq_ignore_nullability(element) && (dtype.nullable() <==> element.nullable() || (
        exists|i: int| 0 <= i < dtypes.len() && (#[trigger] dtypes[i]).nullable())),
{
    let any = crate::scalar_fn::strict::any_nullable(dtypes);
    let n = element.nullability().union(crate::dtype::Nullability::of(any));
    crate::dtype::eq_ignore_nullability_is_an_equivalence(
        element,
        element.with_nullability(n),
        element,
        n,
    );
    crate::dtype::with_nullability_sets_nullability(element, n);
    if !element.nullable() {
        crate::dtype::non_nullable_types_admit_both(element, n);
    }
}

/// The first row of a column is a column of that row alone. A constant holds its cell in each of its
/// rows, and a column of nulls shows nothing in any.
pub proof fn columns_hold_their_rows(a: ArrayV, cell: CellV, rows: nat, i: int)
    requires
        0 <= i < rows,
        rows <= a.len(),
    ensures
        a.first().len() == 1,
        a.first().row(0) == a.row(0),
        a.first().dtype == a.dtype,
        array::constant(a.dtype, cell, rows).len() == rows,
        array::constant(a.dtype, cell, rows).cells[i] == cell,
        array::all_null(a.dtype, rows).len() == rows,
        array::all_null(a.dtype, rows).row(i) is None,
        array::column(a.dtype, a.cells).row(i) == a.row(i),
{
}

} // verus!
