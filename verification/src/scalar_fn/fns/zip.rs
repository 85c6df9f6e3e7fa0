//! Columns computed row by row from two columns, null wherever either is null.

use vstd::prelude::*;

use crate::array::{self, Array, ArrayV};
use crate::dtype::{DType, DTypeV, Nullability};
use crate::mask;
use crate::scalar_fn::strict;
use crate::scalar_fn::vtable;
use crate::value::{Cell, CellV, Value, ValueV};

verus! {

/// Row `r` is valid on both sides.
pub open spec fn both_valid(lhs: ArrayV, rhs: ArrayV, r: int) -> bool {
    lhs.cells[r].valid && rhs.cells[r].valid
}

/// Every row is valid on both sides.
pub open spec fn all_both_valid(lhs: ArrayV, rhs: ArrayV) -> bool {
    forall|r: int| 0 <= r < lhs.len() ==> #[trigger] both_valid(lhs, rhs, r)
}

/// No row is valid on both sides.
pub open spec fn none_both_valid(lhs: ArrayV, rhs: ArrayV) -> bool {
    forall|r: int| 0 <= r < lhs.len() ==> !#[trigger] both_valid(lhs, rhs, r)
}

/// Either side is a null constant.
pub open spec fn null_side(lhs: ArrayV, rhs: ArrayV) -> bool {
    ||| lhs.constant matches Some(cell) && !cell.valid
    ||| rhs.constant matches Some(cell) && !cell.valid
}

/// The column of `values` in every row that is valid on both sides, and nulls elsewhere. Two
/// constants give a constant, and a column without valid rows is a null constant.
pub open spec fn zipped(
    declared: DTypeV,
    lhs: ArrayV,
    rhs: ArrayV,
    values: Seq<ValueV>,
) -> ArrayV {
    let rows = lhs.len();
    if null_side(lhs, rhs) {
        array::all_null(declared, rows)
    } else if rows > 0 && lhs.constant is Some && rhs.constant is Some {
        array::constant(declared, CellV { valid: true, value: values[0] }, rows)
    } else if all_both_valid(lhs, rhs) {
        array::column(declared, Seq::new(rows, |r: int| CellV { valid: true, value: values[r] }))
    } else if none_both_valid(lhs, rhs) {
        array::all_null(declared, rows)
    } else {
        array::column(
            declared.with_nullability(Nullability::Nullable),
            Seq::new(
                rows,
                |r: int| CellV { valid: both_valid(lhs, rhs, r), value: values[r] },
            ),
        )
    }
}

/// The payloads that values stand for.
pub open spec fn values_model(values: Seq<Value>) -> Seq<ValueV> {
    Seq::new(values.len(), |r: int| values[r]@)
}

/// The payloads of a row that is valid on both sides.
pub open spec fn operands_at(lhs: ArrayV, rhs: ArrayV, r: int) -> Option<(ValueV, ValueV)> {
    if both_valid(lhs, rhs, r) {
        Some((lhs.cells[r].value, rhs.cells[r].value))
    } else {
        None
    }
}

/// The payloads that a pair of values stands for.
pub open spec fn pair_model(pair: Option<(Value, Value)>) -> Option<(ValueV, ValueV)> {
    match pair {
        Some((a, b)) => Some((a@, b@)),
        None => None,
    }
}

/// The operands of each row, where it is valid on both sides.
pub fn operand_pairs(lhs: &Array, rhs: &Array) -> (out: Vec<Option<(Value, Value)>>)
    requires
        lhs@.len() == rhs@.len(),
    ensures
        out@.len() == lhs@.len(),
        forall|r: int|
            0 <= r < out@.len() ==> pair_model(#[trigger] out@[r]) == operands_at(lhs@, rhs@, r),
{
    let rows: usize = lhs.len();
    let mut out: Vec<Option<(Value, Value)>> = Vec::new();
    let mut index: usize = 0;
    while index < rows
        invariant
            index <= rows == lhs@.len() == rhs@.len(),
            out@.len() == index,
            forall|r: int|
                0 <= r < index ==> pair_model(#[trigger] out@[r]) == operands_at(lhs@, rhs@, r),
        decreases rows - index,
    {
        let a = lhs.cell(index);
        let b = rhs.cell(index);
        if a.valid && b.valid {
            out.push(Some((a.value, b.value)));
        } else {
            out.push(None);
        }
        index = index + 1;
    }
    out
}

/// Build the column of one value for each row.
pub fn zip_values(declared: DType, lhs: &Array, rhs: &Array, values: Vec<Value>) -> (out: Array)
    requires
        lhs@.len() == rhs@.len() == values@.len(),
    ensures
        out@ == zipped(declared@, lhs@, rhs@, values_model(values@)),
{
    let rows: usize = lhs.len();
    let lhs_constant = lhs.as_constant();
    let rhs_constant = rhs.as_constant();
    if let Some(cell) = lhs_constant {
        if !cell.valid {
            return Array::all_null(declared, rows);
        }
    }
    if let Some(cell) = rhs_constant {
        if !cell.valid {
            return Array::all_null(declared, rows);
        }
    }
    if rows > 0 && lhs_constant.is_some() && rhs_constant.is_some() {
        return Array::constant(declared, Cell { valid: true, value: values[0].clone() }, rows);
    }
    let ghost payloads = values_model(values@);
    let ghost expected = Seq::new(
        rows as nat,
        |r: int| CellV { valid: both_valid(lhs@, rhs@, r), value: payloads[r] },
    );
    let mut cells: Vec<Cell> = Vec::new();
    let mut all = true;
    let mut none = true;
    let mut index: usize = 0;
    while index < rows
        invariant
            index <= rows == lhs@.len() == rhs@.len() == values@.len(),
            payloads == values_model(values@),
            expected == Seq::new(
                rows as nat,
                |r: int| CellV { valid: both_valid(lhs@, rhs@, r), value: payloads[r] },
            ),
            array::cells_model(cells@) == expected.take(index as int),
            all == (forall|r: int| 0 <= r < index ==> #[trigger] both_valid(lhs@, rhs@, r)),
            none == (forall|r: int| 0 <= r < index ==> !#[trigger] both_valid(lhs@, rhs@, r)),
        decreases rows - index,
    {
        let ghost before = cells@;
        let valid = lhs.cell(index).valid && rhs.cell(index).valid;
        assert(valid == both_valid(lhs@, rhs@, index as int));
        if valid {
            none = false;
        } else {
            all = false;
        }
        let cell = Cell { valid, value: values[index].clone() };
        let ghost shown = cell@;
        cells.push(cell);
        proof {
            assert(array::cells_model(cells@) =~= array::cells_model(before).push(shown));
            assert(expected.take(index + 1) =~= expected.take(index as int).push(
                expected[index as int],
            ));
        }
        index = index + 1;
    }
    assert(expected.take(rows as int) =~= expected);
    if all {
        assert(expected =~= Seq::new(
            rows as nat,
            |r: int| CellV { valid: true, value: payloads[r] },
        ));
        Array::column(declared, cells)
    } else if none {
        Array::all_null(declared, rows)
    } else {
        Array::column(declared.as_nullable(), cells)
    }
}

/// What a reader sees of a zipped column: the value where both sides are valid, and null elsewhere.
pub proof fn zipped_rows(declared: DTypeV, lhs: ArrayV, rhs: ArrayV, values: Seq<ValueV>, r: int)
    requires
        lhs.len() == rhs.len(),
        lhs.uniform(),
        rhs.uniform(),
        0 <= r < lhs.len(),
        lhs.constant is Some && rhs.constant is Some ==> values[r] == values[0],
    ensures
        zipped(declared, lhs, rhs, values).len() == lhs.len(),
        zipped(declared, lhs, rhs, values).row(r) == (if both_valid(lhs, rhs, r) {
            Some(values[r])
        } else {
            None
        }),
{
    assert(lhs.constant matches Some(cell) ==> lhs.cells[r] == cell);
    assert(rhs.constant matches Some(cell) ==> rhs.cells[r] == cell);
    assert(all_both_valid(lhs, rhs) ==> both_valid(lhs, rhs, r));
    assert(none_both_valid(lhs, rhs) ==> !both_valid(lhs, rhs, r));
}

/// What the strict machinery says of two columns, said of the pair.
pub proof fn pair_facts(lhs: ArrayV, rhs: ArrayV)
    requires
        lhs.len() == rhs.len(),
        lhs.uniform(),
        rhs.uniform(),
    ensures
        ({
            let args = seq![lhs, rhs];
            let rows = lhs.len();
            let valid = strict::conjoined(args).bits(rows);
            &&& strict::has_null_constant(args) == null_side(lhs, rhs)
            &&& strict::all_constant(args) == (lhs.constant is Some && rhs.constant is Some)
            &&& strict::any_nullable(vtable::dtypes_of(args)) == (lhs.dtype.nullable()
                || rhs.dtype.nullable())
            &&& valid.len() == rows
            &&& mask::all_true(valid) == all_both_valid(lhs, rhs)
            &&& mask::all_false(valid) == none_both_valid(lhs, rhs)
            &&& forall|r: int|
                #![trigger valid[r]]
                #![trigger both_valid(lhs, rhs, r)]
                0 <= r < rows ==> valid[r] == both_valid(lhs, rhs, r)
        }),
{
    let args = seq![lhs, rhs];
    let rows = lhs.len();
    assert(vtable::aligned(args, rows));
    strict::conjoined_rows(args, rows);
    let valid = strict::conjoined(args).bits(rows);
    assert(args[0] == lhs && args[1] == rhs);
    assert(strict::has_null_constant(args) == null_side(lhs, rhs)) by {
        if strict::has_null_constant(args) {
            let i = choose|i: int|
                0 <= i < args.len() && ((#[trigger] args[i]).constant matches Some(cell)
                    && !cell.valid);
            assert(i == 0 || i == 1);
        }
    }
    let dtypes = vtable::dtypes_of(args);
    assert(dtypes =~= seq![lhs.dtype, rhs.dtype]);
    assert(dtypes[0] == lhs.dtype && dtypes[1] == rhs.dtype);
    assert forall|r: int|
        #![trigger valid[r]]
        #![trigger both_valid(lhs, rhs, r)]
        0 <= r < rows implies valid[r] == both_valid(lhs, rhs, r) by {
        assert(vtable::valid_at(args, r) == valid[r]);
        if valid[r] {
            assert(args[0].cells[r].valid);
            assert(args[1].cells[r].valid);
        } else {
            let i = choose|i: int| 0 <= i < args.len() && !(#[trigger] args[i]).cells[r].valid;
            assert(i == 0 || i == 1);
        }
    }
    assert(mask::all_true(valid) == all_both_valid(lhs, rhs)) by {
        if mask::all_true(valid) {
            assert forall|r: int| 0 <= r < lhs.len() implies #[trigger] both_valid(lhs, rhs, r) by {
                assert(valid[r]);
            }
        }
        if all_both_valid(lhs, rhs) {
            assert forall|r: int| 0 <= r < valid.len() implies #[trigger] valid[r] by {
                assert(both_valid(lhs, rhs, r));
            }
        }
    }
    assert(mask::all_false(valid) == none_both_valid(lhs, rhs)) by {
        if mask::all_false(valid) {
            assert forall|r: int| 0 <= r < lhs.len() implies !#[trigger] both_valid(
                lhs,
                rhs,
                r,
            ) by {
                assert(!valid[r]);
            }
        }
        if none_both_valid(lhs, rhs) {
            assert forall|r: int| 0 <= r < valid.len() implies !#[trigger] valid[r] by {
                assert(!both_valid(lhs, rhs, r));
            }
        }
    }
}

} // verus!
