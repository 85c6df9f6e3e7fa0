//! Evaluating expressions.

use std::sync::Arc;

use vstd::prelude::*;

use crate::array::{self, Array, ArrayV};
use crate::dtype::{DType, DTypeV, Nullability};
use crate::error::VortexResult;
use crate::expr::tree::{self, find_field, list_element, with_element, ExprV, Expression};
use crate::order;
use crate::scalar_fn::fns::binary::{self, Binary};
use crate::scalar_fn::fns::byte_length::{self, ByteLength};
use crate::scalar_fn::fns::list_min_max::{self, execute_list_extreme};
use crate::scalar_fn::fns::list_transform::ListTransformOptions;
use crate::scalar_fn::fns::not::{self, Not};
use crate::scalar_fn::fns::simd::CpuFeatures;
use crate::scalar_fn::options::EmptyOptions;
use crate::scalar_fn::vtable::{self, ExecutionArgs, ScalarFnVTable};
use crate::value::{self, Cell, CellV, Value, ValueV};

verus! {

/// The field `index` of a struct row, null where the struct is.
pub open spec fn field_cell(cell: CellV, index: int) -> CellV {
    match cell.value {
        ValueV::Struct(items) => if 0 <= index < items.len() {
            items[index].masked(cell.valid)
        } else {
            value::null_cell()
        },
        _ => value::null_cell(),
    }
}

/// A field of every row of a struct column. A constant gives a constant.
pub open spec fn field_result(name: Seq<char>, input: ArrayV) -> Result<ArrayV, Seq<char>> {
    match tree::field_of(input.dtype, name) {
        Err(error) => Err(error),
        Ok((index, dtype)) => match input.constant {
            Some(cell) => Ok(array::constant(dtype, field_cell(cell, index), input.len())),
            None => Ok(
                array::column(
                    dtype,
                    Seq::new(input.len(), |r: int| field_cell(input.cells[r], index)),
                ),
            ),
        },
    }
}

/// Whether every row is valid.
pub open spec fn validity_result(input: ArrayV) -> ArrayV {
    array::column(
        DTypeV::Bool(Nullability::NonNullable),
        Seq::new(
            input.len(),
            |r: int| CellV { valid: true, value: ValueV::Bool(input.cells[r].valid) },
        ),
    )
}

/// The elements of a list row, also behind a null.
pub open spec fn items_of(cell: CellV) -> Seq<CellV> {
    match cell.value {
        ValueV::List(items) => items,
        _ => Seq::empty(),
    }
}

/// The elements of the first `n` rows, one list after the other.
pub open spec fn flattened(cells: Seq<CellV>, n: nat) -> Seq<CellV>
    decreases n,
{
    if n == 0 {
        Seq::empty()
    } else {
        flattened(cells, (n - 1) as nat) + items_of(cells[n - 1])
    }
}

/// Row `r` with its elements taken from `elements`, which holds those of every row in turn.
pub open spec fn regrouped(cells: Seq<CellV>, elements: Seq<CellV>, r: int) -> CellV {
    CellV {
        valid: cells[r].valid,
        value: match cells[r].value {
            ValueV::List(_) => ValueV::List(
                elements.subrange(
                    flattened(cells, r as nat).len() as int,
                    flattened(cells, (r + 1) as nat).len() as int,
                ),
            ),
            other => other,
        },
    }
}

/// The lists of a column with their elements replaced by the transformed ones.
pub open spec fn regrouped_column(input: ArrayV, elements: ArrayV) -> Result<ArrayV, Seq<char>> {
    match tree::transformed_dtype(input.dtype, Ok(elements.dtype)) {
        Err(error) => Err(error),
        Ok(dtype) => Ok(
            array::column(
                dtype,
                Seq::new(input.len(), |r: int| regrouped(input.cells, elements.cells, r)),
            ),
        ),
    }
}

/// The column of every element of every list.
pub open spec fn elements_of(input: ArrayV, element: DTypeV) -> ArrayV {
    array::column(element, flattened(input.cells, input.len()))
}

/// One row as a column.
pub open spec fn one_row(dtype: DTypeV, cell: CellV) -> ArrayV {
    array::column(dtype, seq![cell])
}

/// The element type of a list type.
pub open spec fn element_of(dtype: DTypeV) -> Option<DTypeV> {
    match dtype {
        DTypeV::List(element, _) => Some(*element),
        DTypeV::FixedSizeList(element, _, _) => Some(*element),
        _ => None,
    }
}

impl ExprV {
    /// The column that the expression gives over a scope, or why there is none.
    pub open spec fn evaluated(self, scope: ArrayV) -> Result<ArrayV, Seq<char>>
        decreases self,
    {
        match self {
            ExprV::Root => Ok(scope),
            ExprV::Literal(dtype, cell) => Ok(array::constant(dtype, cell, scope.len())),
            ExprV::GetItem(name, child) => match child.evaluated(scope) {
                Err(error) => Err(error),
                Ok(input) => field_result(name, input),
            },
            ExprV::Binary(op, lhs, rhs) => match lhs.evaluated(scope) {
                Err(error) => Err(error),
                Ok(a) => match rhs.evaluated(scope) {
                    Err(error) => Err(error),
                    Ok(b) => binary::binary_result(op, a, b),
                },
            },
            ExprV::Not(child) => match child.evaluated(scope) {
                Err(error) => Err(error),
                Ok(input) => not::not_result(input),
            },
            ExprV::ByteLength(child) => match child.evaluated(scope) {
                Err(error) => Err(error),
                Ok(input) => byte_length::byte_length_result(input),
            },
            ExprV::ListExtreme(greatest, options, child) => match child.evaluated(scope) {
                Err(error) => Err(error),
                Ok(input) => list_min_max::extreme_result(greatest, options.skip_nans, input),
            },
            ExprV::ListTransform(body, child) => match child.evaluated(scope) {
                Err(error) => Err(error),
                Ok(input) => match element_of(input.dtype) {
                    None => Err(tree::transform_requires_lists(input.dtype)),
                    Some(element) => match input.constant {
                        None => match body.evaluated(elements_of(input, element)) {
                            Err(error) => Err(error),
                            Ok(elements) => regrouped_column(input, elements),
                        },
                        Some(cell) => if !cell.valid {
                            match tree::transformed_dtype(input.dtype, body.dtype(element)) {
                                Err(error) => Err(error),
                                Ok(dtype) => Ok(array::all_null(dtype, input.len())),
                            }
                        } else {
                            let one = one_row(input.dtype, cell);
                            match body.evaluated(elements_of(one, element)) {
                                Err(error) => Err(error),
                                Ok(elements) => match regrouped_column(one, elements) {
                                    Err(error) => Err(error),
                                    Ok(out) => Ok(
                                        array::constant(out.dtype, out.cells[0], input.len()),
                                    ),
                                },
                            }
                        },
                    },
                },
            },
            ExprV::IsNotNull(child) => match child.evaluated(scope) {
                Err(error) => Err(error),
                Ok(input) => Ok(validity_result(input)),
            },
        }
    }
}

/// An expression gives one row for every row of its scope.
pub proof fn evaluation_keeps_rows(expr: ExprV, scope: ArrayV)
    requires
        scope.uniform(),
    ensures
        expr.evaluated(scope) matches Ok(out) ==> out.len() == scope.len() && out.uniform(),
    decreases expr,
{
    match expr {
        ExprV::GetItem(name, child) => {
            evaluation_keeps_rows(*child, scope);
        },
        ExprV::Binary(op, lhs, rhs) => {
            evaluation_keeps_rows(*lhs, scope);
            evaluation_keeps_rows(*rhs, scope);
            if let (Ok(a), Ok(b)) = (lhs.evaluated(scope), rhs.evaluated(scope)) {
                binary::binary_keeps_rows(op, a, b);
            }
        },
        ExprV::Not(child) => {
            evaluation_keeps_rows(*child, scope);
            if let Ok(input) = child.evaluated(scope) {
                not::not_keeps_rows(input);
            }
        },
        ExprV::ByteLength(child) => {
            evaluation_keeps_rows(*child, scope);
            if let Ok(input) = child.evaluated(scope) {
                byte_length::byte_length_keeps_rows(input);
            }
        },
        ExprV::ListExtreme(_, _, child) => {
            evaluation_keeps_rows(*child, scope);
        },
        ExprV::ListTransform(_, child) => {
            evaluation_keeps_rows(*child, scope);
        },
        ExprV::IsNotNull(child) => {
            evaluation_keeps_rows(*child, scope);
        },
        _ => {},
    }
}

/// The field `index` of a struct row.
fn field_of_cell(cell: &Cell, index: usize) -> (out: Cell)
    ensures
        out@ == field_cell(cell@, index as int),
{
    match &cell.value {
        Value::Struct(items) => if index < items.len() {
            let item = &items[index];
            assert(cell@.value->Struct_0[index as int] == item@);
            Cell { valid: item.valid && cell.valid, value: item.value.clone() }
        } else {
            Cell::null()
        },
        _ => Cell::null(),
    }
}

/// A field of every row of a struct column.
pub fn execute_get_item(name: &str, input: &Array) -> (out: VortexResult<Array>)
    ensures
        vtable::outcome(out) == field_result(name@, input@),
{
    let (field, dtype) = match find_field(input.dtype(), name) {
        Ok(found) => found,
        Err(error) => return Err(error),
    };
    let rows: usize = input.len();
    if let Some(cell) = input.as_constant() {
        return Ok(Array::constant(dtype, field_of_cell(cell, field), rows));
    }
    let ghost expected = Seq::new(
        rows as nat,
        |r: int| field_cell(input@.cells[r], field as int),
    );
    let mut cells: Vec<Cell> = Vec::new();
    let mut index: usize = 0;
    while index < rows
        invariant
            index <= rows == input@.len(),
            expected == Seq::new(
                rows as nat,
                |r: int| field_cell(input@.cells[r], field as int),
            ),
            array::cells_model(cells@) == expected.take(index as int),
        decreases rows - index,
    {
        let ghost before = cells@;
        let cell = field_of_cell(&input.cell(index), field);
        let ghost shown = cell@;
        cells.push(cell);
        proof {
            assert(array::cells_model(cells@) =~= array::cells_model(before).push(shown));
            assert(expected.take(index + 1) =~= expected.take(index as int).push(
                expected[index as int],
            ));
        }
        index = index + 1;
    }
    assert(expected.take(rows as int) =~= expected);
    Ok(Array::column(dtype, cells))
}

/// Whether every row is valid.
pub fn execute_is_not_null(input: &Array) -> (out: Array)
    ensures
        out@ == validity_result(input@),
{
    let rows: usize = input.len();
    let ghost expected = validity_result(input@).cells;
    let mut cells: Vec<Cell> = Vec::new();
    let mut index: usize = 0;
    while index < rows
        invariant
            index <= rows == input@.len(),
            expected == validity_result(input@).cells,
            array::cells_model(cells@) == expected.take(index as int),
        decreases rows - index,
    {
        let ghost before = cells@;
        let cell = Cell::valid(Value::Bool(input.is_valid(index)));
        let ghost shown = cell@;
        cells.push(cell);
        proof {
            assert(array::cells_model(cells@) =~= array::cells_model(before).push(shown));
            assert(expected.take(index + 1) =~= expected.take(index as int).push(
                expected[index as int],
            ));
        }
        index = index + 1;
    }
    assert(expected.take(rows as int) =~= expected);
    Array::column(DType::Bool(Nullability::NonNullable), cells)
}

/// Every element of every list.
fn flatten(input: &Array, element: &DType) -> (out: Array)
    ensures
        out@ == elements_of(input@, element@),
{
    let rows: usize = input.len();
    let mut cells: Vec<Cell> = Vec::new();
    let mut index: usize = 0;
    assert(array::cells_model(cells@) =~= flattened(input@.cells, 0));
    while index < rows
        invariant
            index <= rows == input@.len(),
            array::cells_model(cells@) == flattened(input@.cells, index as nat),
        decreases rows - index,
    {
        let row = input.cell(index);
        let ghost start = array::cells_model(cells@);
        let ghost items = items_of(row@);
        if let Value::List(list) = &row.value {
            let mut item: usize = 0;
            assert(start + items.take(0) =~= start);
            while item < list.len()
                invariant
                    item <= list@.len() == items.len(),
                    forall|i: int| 0 <= i < items.len() ==> #[trigger] items[i] == list@[i]@,
                    array::cells_model(cells@) == start + items.take(item as int),
                decreases list@.len() - item,
            {
                let ghost before = cells@;
                let cell = list[item].clone();
                let ghost shown = cell@;
                cells.push(cell);
                proof {
                    assert(items[item as int] == shown);
                    assert(array::cells_model(cells@) =~= array::cells_model(before).push(shown));
                    assert(start + items.take(item + 1) =~= (start + items.take(
                        item as int,
                    )).push(shown));
                }
                item = item + 1;
            }
            assert(items.take(items.len() as int) =~= items);
        } else {
            assert(start + items =~= start);
        }
        index = index + 1;
    }
    Array::column(element.clone(), cells)
}

/// The elements of the first rows are a prefix of those of all.
proof fn flattened_grows(cells: Seq<CellV>, m: nat, n: nat)
    requires
        m <= n,
    ensures
        flattened(cells, m).len() <= flattened(cells, n).len(),
    decreases n - m,
{
    if m < n {
        flattened_grows(cells, m, (n - 1) as nat);
    }
}

/// Put transformed elements back into the lists that they came from.
fn regroup(input: &Array, elements: &Array) -> (out: VortexResult<Array>)
    requires
        element_of(input@.dtype) is Some,
        elements@.len() == flattened(input@.cells, input@.len()).len(),
    ensures
        vtable::outcome(out) == regrouped_column(input@, elements@),
{
    let dtype = with_element(input.dtype(), elements.dtype().clone());
    let rows: usize = input.len();
    let total: usize = elements.len();
    let ghost expected = Seq::new(
        rows as nat,
        |r: int| regrouped(input@.cells, elements@.cells, r),
    );
    let mut cells: Vec<Cell> = Vec::new();
    let mut offset: usize = 0;
    let mut index: usize = 0;
    while index < rows
        invariant
            index <= rows == input@.len(),
            total == elements@.len() == flattened(input@.cells, input@.len()).len(),
            offset == flattened(input@.cells, index as nat).len(),
            expected == Seq::new(
                rows as nat,
                |r: int| regrouped(input@.cells, elements@.cells, r),
            ),
            array::cells_model(cells@) == expected.take(index as int),
        decreases rows - index,
    {
        let ghost before = cells@;
        let row = input.cell(index);
        proof {
            flattened_grows(input@.cells, (index + 1) as nat, rows as nat);
        }
        let cell = match &row.value {
            Value::List(list) => {
                let count: usize = list.len();
                let ghost slice = elements@.cells.subrange(offset as int, offset + count);
                let mut items: Vec<Cell> = Vec::new();
                let mut item: usize = 0;
                while item < count
                    invariant
                        item <= count,
                        offset + count <= total == elements@.len(),
                        slice == elements@.cells.subrange(offset as int, offset + count),
                        order::cells_of(items@) == slice.take(item as int),
                    decreases count - item,
                {
                    let ghost had = items@;
                    let element = elements.cell(offset + item);
                    let ghost shown = element@;
                    items.push(element);
                    proof {
                        assert(order::cells_of(items@) =~= order::cells_of(had).push(shown));
                        assert(slice.take(item + 1) =~= slice.take(item as int).push(
                            slice[item as int],
                        ));
                    }
                    item = item + 1;
                }
                assert(slice.take(count as int) =~= slice);
                offset = offset + count;
                let list = Value::List(Arc::new(items));
                assert(list@->List_0 =~= order::cells_of(items@));
                Cell { valid: row.valid, value: list }
            },
            _ => row.clone(),
        };
        let ghost shown = cell@;
        assert(shown == regrouped(input@.cells, elements@.cells, index as int));
        cells.push(cell);
        proof {
            assert(array::cells_model(cells@) =~= array::cells_model(before).push(shown));
            assert(expected.take(index + 1) =~= expected.take(index as int).push(
                expected[index as int],
            ));
        }
        index = index + 1;
    }
    assert(expected.take(rows as int) =~= expected);
    Ok(Array::column(dtype, cells))
}

/// Transform the elements of a column of lists, keeping the lists.
///
/// The body is evaluated over every element, including those that lie behind null lists. A constant
/// list is transformed once, and a null constant stays null without being evaluated.
pub fn transform_list(options: &ListTransformOptions, input: &Array, features: CpuFeatures) -> (out:
    VortexResult<Array>)
    ensures
        vtable::outcome(out) == (ExprV::ListTransform(
            Box::new(options.body@),
            Box::new(ExprV::Root),
        )).evaluated(input@),
    decreases options, 1nat,
{
    let element = match list_element(input.dtype()) {
        Ok(element) => element,
        Err(error) => return Err(error),
    };
    assert(ExprV::Root.evaluated(input@) == Ok::<ArrayV, Seq<char>>(input@));
    if let Some(cell) = input.as_constant() {
        if !cell.valid {
            return match options.body.return_dtype(element) {
                Err(error) => Err(error),
                Ok(transformed) => Ok(
                    Array::all_null(with_element(input.dtype(), transformed), input.len()),
                ),
            };
        }
        let mut rows: Vec<Cell> = Vec::new();
        rows.push(cell.clone());
        let one = Array::column(input.dtype().clone(), rows);
        assert(one@ == one_row(input@.dtype, cell@)) by {
            assert(array::cells_model(rows@) =~= seq![cell@]);
        }
        let elements = flatten(&one, element);
        return match options.body.apply(&elements, features) {
            Err(error) => Err(error),
            Ok(transformed) => {
                proof {
                    array::array_is_uniform(&elements);
                    evaluation_keeps_rows(options.body@, elements@);
                }
                match regroup(&one, &transformed) {
                    Err(error) => Err(error),
                    Ok(lists) => Ok(
                        Array::constant(lists.dtype().clone(), lists.cell(0), input.len()),
                    ),
                }
            },
        };
    }
    let elements = flatten(input, element);
    match options.body.apply(&elements, features) {
        Err(error) => Err(error),
        Ok(transformed) => {
            proof {
                array::array_is_uniform(&elements);
                evaluation_keeps_rows(options.body@, elements@);
            }
            regroup(input, &transformed)
        },
    }
}

impl Expression {
    /// The column that the expression gives over a scope.
    pub fn apply(&self, scope: &Array, features: CpuFeatures) -> (out: VortexResult<Array>)
        ensures
            vtable::outcome(out) == self@.evaluated(scope@),
        decreases self, 0nat,
    {
        match self {
            Expression::Root => Ok(scope.clone()),
            Expression::Literal(dtype, cell) => Ok(
                Array::constant(dtype.clone(), cell.clone(), scope.len()),
            ),
            Expression::GetItem(name, child) => match child.apply(scope, features) {
                Err(error) => Err(error),
                Ok(input) => execute_get_item(name.as_str(), &input),
            },
            Expression::Binary(op, lhs, rhs) => match lhs.apply(scope, features) {
                Err(error) => Err(error),
                Ok(a) => match rhs.apply(scope, features) {
                    Err(error) => Err(error),
                    Ok(b) => {
                        proof {
                            array::array_is_uniform(scope);
                            evaluation_keeps_rows(lhs@, scope@);
                            evaluation_keeps_rows(rhs@, scope@);
                        }
                        (Binary { features }).execute_pair(*op, &a, &b)
                    },
                },
            },
            Expression::Not(child) => match child.apply(scope, features) {
                Err(error) => Err(error),
                Ok(input) => {
                    let rows: usize = input.len();
                    let ghost model = input@;
                    proof {
                        array::array_is_uniform(&input);
                    }
                    let args = ExecutionArgs::new(vec![input], rows);
                    assert(args@ =~= seq![model]);
                    ScalarFnVTable::execute(&Not, &EmptyOptions, &args)
                },
            },
            Expression::ByteLength(child) => match child.apply(scope, features) {
                Err(error) => Err(error),
                Ok(input) => {
                    let rows: usize = input.len();
                    let ghost model = input@;
                    proof {
                        array::array_is_uniform(&input);
                    }
                    let args = ExecutionArgs::new(vec![input], rows);
                    assert(args@ =~= seq![model]);
                    ScalarFnVTable::execute(&ByteLength, &EmptyOptions, &args)
                },
            },
            Expression::ListExtreme(greatest, options, child) => match child.apply(
                scope,
                features,
            ) {
                Err(error) => Err(error),
                Ok(input) => execute_list_extreme(*greatest, *options, &input),
            },
            Expression::ListTransform(options, child) => match child.apply(scope, features) {
                Err(error) => Err(error),
                Ok(input) => {
                    assert(ExprV::Root.evaluated(input@) == Ok::<ArrayV, Seq<char>>(input@));
                    transform_list(options, &input, features)
                },
            },
            Expression::IsNotNull(child) => match child.apply(scope, features) {
                Err(error) => Err(error),
                Ok(input) => Ok(execute_is_not_null(&input)),
            },
        }
    }
}

} // verus!
