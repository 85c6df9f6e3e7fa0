//! The least and greatest element of each list.

use vstd::prelude::*;

use crate::array::{self, Array, ArrayV};
use crate::dtype::{DType, DTypeV};
use crate::error::{VortexError, VortexResult};
use crate::expr::tree::{ExprV, Expression};
use crate::order::{self, compare_values, is_nan};
use crate::scalar_fn::vtable::{self, Arity, ExecutionArgs, ReduceNode, ReduceNodeV, ScalarFnVTable};
use crate::text::join3;
use crate::value::{self, Cell, CellV, Value, ValueV};

verus! {

/// How floats that are not numbers take part in an aggregate.
#[derive(Clone, Copy, PartialEq, Eq, Structural, Debug, Hash)]
pub struct NumericalAggregateOpts {
    /// Ignore them. Otherwise one of them makes the result not a number.
    pub skip_nans: bool,
}

impl NumericalAggregateOpts {
    /// Ignore floats that are not numbers.
    pub fn skipping_nans() -> (out: Self)
        ensures
            out.skip_nans,
    {
        NumericalAggregateOpts { skip_nans: true }
    }

    /// Let floats that are not numbers poison the result.
    pub fn include_nans() -> (out: Self)
        ensures
            !out.skip_nans,
    {
        NumericalAggregateOpts { skip_nans: false }
    }

    /// How the options are written; nothing if they are the usual ones.
    pub open spec fn text(self) -> Seq<char> {
        if self.skip_nans {
            ""@
        } else {
            "skip_nans=false"@
        }
    }
}

impl Default for NumericalAggregateOpts {
    fn default() -> (out: Self)
        ensures
            out.skip_nans,
    {
        NumericalAggregateOpts::skipping_nans()
    }
}

/// The element takes part.
pub open spec fn participates(cell: CellV, skip_nans: bool) -> bool {
    cell.valid && !(skip_nans && order::not_a_number(cell.value))
}

/// `a` replaces `b` as the extreme: it is strictly less, or strictly greater for a maximum, and
/// what is not a number replaces any number and is never replaced.
pub open spec fn replaces(greatest: bool, a: ValueV, b: ValueV) -> bool {
    !order::not_a_number(b) && (order::not_a_number(a) || (if greatest {
        order::order(a, b) > 0
    } else {
        order::order(a, b) < 0
    }))
}

/// The extreme of the first `n` elements; `None` if no element takes part. Of equal elements the
/// first counts.
pub open spec fn extreme(cells: Seq<CellV>, greatest: bool, skip_nans: bool, n: nat) -> Option<
    ValueV,
>
    decreases n,
{
    if n == 0 {
        None
    } else {
        let best = extreme(cells, greatest, skip_nans, (n - 1) as nat);
        let cell = cells[n - 1];
        if !participates(cell, skip_nans) {
            best
        } else {
            match best {
                None => Some(cell.value),
                Some(value) => if replaces(greatest, cell.value, value) {
                    Some(cell.value)
                } else {
                    Some(value)
                },
            }
        }
    }
}

/// The extreme of a list, null for a null list and for one without a participating element.
pub open spec fn extreme_cell(cell: CellV, greatest: bool, skip_nans: bool) -> CellV {
    match cell.value {
        ValueV::List(items) => if cell.valid {
            match extreme(items, greatest, skip_nans, items.len()) {
                Some(value) => CellV { valid: true, value },
                None => value::null_cell(),
            }
        } else {
            value::null_cell()
        },
        _ => value::null_cell(),
    }
}

/// The name of a function.
pub open spec fn function_name(greatest: bool) -> Seq<char> {
    if greatest {
        "list_max"@
    } else {
        "list_min"@
    }
}

/// What is said of a column that does not hold lists.
pub open spec fn requires_lists(function: Seq<char>, dtype: DTypeV) -> Seq<char> {
    function + "() requires List or FixedSizeList, got "@ + dtype.text()
}

/// What is said of elements without an order.
pub open spec fn cannot_compare(function: Seq<char>, element: DTypeV) -> Seq<char> {
    function + "() cannot compare elements of type "@ + element.text()
}

/// Elements of this type have an extreme. Nested and extension values have none.
pub open spec fn has_extremes(element: DTypeV) -> bool {
    element is Bool || element is Primitive || element is Decimal || element is Utf8
        || element is Binary
}

/// The type of a column's elements, which must have an extreme.
pub open spec fn element_dtype(greatest: bool, dtype: DTypeV) -> Result<DTypeV, Seq<char>> {
    let function = function_name(greatest);
    match dtype {
        DTypeV::List(element, _) => if has_extremes(*element) {
            Ok(*element)
        } else {
            Err(cannot_compare(function, *element))
        },
        DTypeV::FixedSizeList(element, _, _) => if has_extremes(*element) {
            Ok(*element)
        } else {
            Err(cannot_compare(function, *element))
        },
        _ => Err(requires_lists(function, dtype)),
    }
}

/// The type of the extremes: that of the elements, nullable since an empty list has none.
pub open spec fn extreme_dtype(greatest: bool, dtype: DTypeV) -> Result<DTypeV, Seq<char>> {
    match element_dtype(greatest, dtype) {
        Ok(element) => Ok(element.with_nullability(crate::dtype::Nullability::Nullable)),
        Err(text) => Err(text),
    }
}

/// The extremes of a column of lists. A constant gives a constant.
pub open spec fn extreme_result(greatest: bool, skip_nans: bool, input: ArrayV) -> Result<
    ArrayV,
    Seq<char>,
> {
    match extreme_dtype(greatest, input.dtype) {
        Err(text) => Err(text),
        Ok(dtype) => match input.constant {
            Some(cell) => Ok(
                array::constant(dtype, extreme_cell(cell, greatest, skip_nans), input.len()),
            ),
            None => Ok(
                array::column(
                    dtype,
                    Seq::new(
                        input.len(),
                        |r: int| extreme_cell(input.cells[r], greatest, skip_nans),
                    ),
                ),
            ),
        },
    }
}

/// The comparable element type of a column of lists.
fn list_element_dtype(greatest: bool, dtype: &DType) -> (out: VortexResult<DType>)
    ensures
        vtable::dtype_outcome(out) == element_dtype(greatest, dtype@),
{
    let function = if greatest {
        "list_max"
    } else {
        "list_min"
    };
    let element: &DType = match dtype {
        DType::List(element, _) => element,
        DType::FixedSizeList(element, _, _) => element,
        _ => return Err(
            VortexError::new(
                join3(
                    function,
                    "() requires List or FixedSizeList, got ",
                    dtype.to_text().as_str(),
                ),
            ),
        ),
    };
    let comparable = match element {
        DType::Bool(_) => true,
        DType::Primitive(_, _) => true,
        DType::Decimal(_, _) => true,
        DType::Utf8(_) => true,
        DType::Binary(_) => true,
        _ => false,
    };
    if !comparable {
        return Err(
            VortexError::new(
                join3(
                    function,
                    "() cannot compare elements of type ",
                    element.to_text().as_str(),
                ),
            ),
        );
    }
    Ok(element.clone())
}

/// The type of the extremes of a column of lists.
pub fn list_extreme_return_dtype(greatest: bool, dtype: &DType) -> (out: VortexResult<DType>)
    ensures
        vtable::dtype_outcome(out) == extreme_dtype(greatest, dtype@),
{
    match list_element_dtype(greatest, dtype) {
        Ok(element) => Ok(element.as_nullable()),
        Err(error) => Err(error),
    }
}

fn list_extreme(cell: &Cell, greatest: bool, skip_nans: bool) -> (out: Cell)
    ensures
        out@ == extreme_cell(cell@, greatest, skip_nans),
{
    if !cell.valid {
        return Cell::null();
    }
    let items = match &cell.value {
        Value::List(items) => items,
        _ => return Cell::null(),
    };
    let ghost cells = cell@.value->List_0;
    let mut best: Option<Value> = None;
    let mut index: usize = 0;
    while index < items.len()
        invariant
            index <= items@.len() == cells.len(),
            forall|i: int| 0 <= i < cells.len() ==> #[trigger] cells[i] == items@[i]@,
            match best {
                Some(value) => extreme(cells, greatest, skip_nans, index as nat) == Some(value@),
                None => extreme(cells, greatest, skip_nans, index as nat) is None,
            },
        decreases items@.len() - index,
    {
        let item = &items[index];
        assert(cells[index as int] == item@);
        let nan = is_nan(&item.value);
        if item.valid && !(skip_nans && nan) {
            let replace = match &best {
                None => true,
                Some(value) => {
                    let place: i8 = compare_values(&item.value, value);
                    let beats = if greatest {
                        place > 0
                    } else {
                        place < 0
                    };
                    !is_nan(value) && (nan || beats)
                },
            };
            if replace {
                best = Some(item.value.clone());
            }
        }
        index = index + 1;
    }
    match best {
        Some(value) => Cell::valid(value),
        None => Cell::null(),
    }
}

/// The extremes of a column of lists. A constant list is reduced once and its extreme repeated.
pub fn execute_list_extreme(greatest: bool, options: NumericalAggregateOpts, input: &Array) -> (out:
    VortexResult<Array>)
    ensures
        vtable::outcome(out) == extreme_result(greatest, options.skip_nans, input@),
{
    let dtype = match list_extreme_return_dtype(greatest, input.dtype()) {
        Ok(dtype) => dtype,
        Err(error) => return Err(error),
    };
    let rows: usize = input.len();
    if let Some(cell) = input.as_constant() {
        return Ok(
            Array::constant(dtype, list_extreme(cell, greatest, options.skip_nans), rows),
        );
    }
    let ghost expected = Seq::new(
        rows as nat,
        |r: int| extreme_cell(input@.cells[r], greatest, options.skip_nans),
    );
    let mut cells: Vec<Cell> = Vec::new();
    let mut index: usize = 0;
    while index < rows
        invariant
            index <= rows == input@.len(),
            expected == Seq::new(
                rows as nat,
                |r: int| extreme_cell(input@.cells[r], greatest, options.skip_nans),
            ),
            array::cells_model(cells@) == expected.take(index as int),
        decreases rows - index,
    {
        let ghost before = cells@;
        let cell = list_extreme(&input.cell(index), greatest, options.skip_nans);
        let ghost shown = cell@;
        cells.push(cell);
        proof {
            assert(array::cells_model(cells@) =~= array::cells_model(before).push(shown));
            assert(expected.take(index + 1) =~= expected.take(index as int).push(
                expected[index as int],
            ));
        }
        index = index + 1;
    }
    assert(expected.take(rows as int) =~= expected);
    Ok(Array::column(dtype, cells))
}

/// Minimum of the non-null elements in each list.
///
/// Null lists, empty lists and lists without a participating element produce null. Null elements
/// are ignored.
#[derive(Clone, Copy)]
pub struct ListMin;

/// Maximum of the non-null elements in each list.
///
/// Null lists, empty lists and lists without a participating element produce null. Null elements
/// are ignored.
#[derive(Clone, Copy)]
pub struct ListMax;

/// What is said of another number of operands.
pub open spec fn one_list() -> Seq<char> {
    "a list extreme takes one operand"@
}

impl ListMin {
    /// The name of the operand.
    pub fn child_name(&self, index: usize) -> (out: &'static str)
        requires
            index == 0,
        ensures
            out@ == "input"@,
    {
        "input"
    }

    /// Whether the function looks at nulls themselves: it does not, a null list gives a null.
    pub fn is_null_sensitive(&self, options: &NumericalAggregateOpts) -> (out: bool)
        ensures
            !out,
    {
        false
    }
}

impl ScalarFnVTable for ListMin {
    type Options = NumericalAggregateOpts;

    open spec fn id_text(&self) -> Seq<char> {
        "vortex.list.min"@
    }

    open spec fn arity_of(&self, options: &NumericalAggregateOpts) -> nat {
        1
    }

    open spec fn result_dtype(&self, options: &NumericalAggregateOpts, dtypes: Seq<DTypeV>) -> Result<
        DTypeV,
        Seq<char>,
    > {
        if dtypes.len() != 1 {
            Err(one_list())
        } else {
            extreme_dtype(false, dtypes[0])
        }
    }

    open spec fn result(&self, options: &NumericalAggregateOpts, args: Seq<ArrayV>, rows: nat) -> Result<
        ArrayV,
        Seq<char>,
    > {
        extreme_result(false, options.skip_nans, args[0])
    }

    open spec fn strict(&self, options: &NumericalAggregateOpts) -> bool {
        false
    }

    open spec fn fallible(&self, options: &NumericalAggregateOpts) -> bool {
        false
    }

    open spec fn result_validity(&self, options: &NumericalAggregateOpts, args: Seq<ExprV>) -> Option<ExprV> {
        None
    }

    open spec fn reduction(&self, options: &NumericalAggregateOpts, node: ReduceNodeV) -> Result<
        Option<ReduceNodeV>,
        Seq<char>,
    > {
        Ok(None)
    }

    fn id(&self) -> (out: String) {
        String::from_str("vortex.list.min")
    }

    fn arity(&self, options: &NumericalAggregateOpts) -> (out: Arity) {
        Arity::Exact(1)
    }

    fn return_dtype(&self, options: &NumericalAggregateOpts, dtypes: &Vec<DType>) -> (out:
        VortexResult<DType>) {
        if dtypes.len() != 1 {
            return Err(VortexError::of("a list extreme takes one operand"));
        }
        list_extreme_return_dtype(false, &dtypes[0])
    }

    fn execute(&self, options: &NumericalAggregateOpts, args: &ExecutionArgs) -> (out: VortexResult<
        Array,
    >) {
        execute_list_extreme(false, *options, &args.inputs[0])
    }

    fn is_strict(&self, options: &NumericalAggregateOpts) -> (out: bool) {
        false
    }

    fn is_fallible(&self, options: &NumericalAggregateOpts) -> (out: bool) {
        false
    }

    fn validity(&self, options: &NumericalAggregateOpts, args: Vec<Expression>) -> (out: Option<Expression>) {
        None
    }

    fn reduce(&self, options: &NumericalAggregateOpts, node: &ReduceNode) -> (out: VortexResult<Option<ReduceNode>>) {
        Ok(None)
    }
}

impl ListMax {
    /// The name of the operand.
    pub fn child_name(&self, index: usize) -> (out: &'static str)
        requires
            index == 0,
        ensures
            out@ == "input"@,
    {
        "input"
    }

    /// Whether the function looks at nulls themselves: it does not, a null list gives a null.
    pub fn is_null_sensitive(&self, options: &NumericalAggregateOpts) -> (out: bool)
        ensures
            !out,
    {
        false
    }
}

impl ScalarFnVTable for ListMax {
    type Options = NumericalAggregateOpts;

    open spec fn id_text(&self) -> Seq<char> {
        "vortex.list.max"@
    }

    open spec fn arity_of(&self, options: &NumericalAggregateOpts) -> nat {
        1
    }

    open spec fn result_dtype(&self, options: &NumericalAggregateOpts, dtypes: Seq<DTypeV>) -> Result<
        DTypeV,
        Seq<char>,
    > {
        if dtypes.len() != 1 {
            Err(one_list())
        } else {
            extreme_dtype(true, dtypes[0])
        }
    }

    open spec fn result(&self, options: &NumericalAggregateOpts, args: Seq<ArrayV>, rows: nat) -> Result<
        ArrayV,
        Seq<char>,
    > {
        extreme_result(true, options.skip_nans, args[0])
    }

    open spec fn strict(&self, options: &NumericalAggregateOpts) -> bool {
        false
    }

    open spec fn fallible(&self, options: &NumericalAggregateOpts) -> bool {
        false
    }

    open spec fn result_validity(&self, options: &NumericalAggregateOpts, args: Seq<ExprV>) -> Option<ExprV> {
        None
    }

    open spec fn reduction(&self, options: &NumericalAggregateOpts, node: ReduceNodeV) -> Result<
        Option<ReduceNodeV>,
        Seq<char>,
    > {
        Ok(None)
    }

    fn id(&self) -> (out: String) {
        String::from_str("vortex.list.max")
    }

    fn arity(&self, options: &NumericalAggregateOpts) -> (out: Arity) {
        Arity::Exact(1)
    }

    fn return_dtype(&self, options: &NumericalAggregateOpts, dtypes: &Vec<DType>) -> (out:
        VortexResult<DType>) {
        if dtypes.len() != 1 {
            return Err(VortexError::of("a list extreme takes one operand"));
        }
        list_extreme_return_dtype(true, &dtypes[0])
    }

    fn execute(&self, options: &NumericalAggregateOpts, args: &ExecutionArgs) -> (out: VortexResult<
        Array,
    >) {
        execute_list_extreme(true, *options, &args.inputs[0])
    }

    fn is_strict(&self, options: &NumericalAggregateOpts) -> (out: bool) {
        false
    }

    fn is_fallible(&self, options: &NumericalAggregateOpts) -> (out: bool) {
        false
    }

    fn validity(&self, options: &NumericalAggregateOpts, args: Vec<Expression>) -> (out: Option<Expression>) {
        None
    }

    fn reduce(&self, options: &NumericalAggregateOpts, node: &ReduceNode) -> (out: VortexResult<Option<ReduceNode>>) {
        Ok(None)
    }
}

/// The participating elements are scalars of one type.
pub open spec fn scalars(cells: Seq<CellV>, skip_nans: bool) -> bool {
    forall|i: int, j: int|
        #![trigger cells[i], cells[j]]
        0 <= i < cells.len() && 0 <= j < cells.len() && participates(cells[i], skip_nans)
            && participates(cells[j], skip_nans) ==> order::alike(cells[i].value, cells[j].value)
}

/// The extreme of a list is one of its participating elements, and no other participating element
/// replaces it; only a list without participating elements has none.
pub proof fn extremes_are_extreme(cells: Seq<CellV>, greatest: bool, skip_nans: bool, n: nat)
    requires
        n <= cells.len(),
        scalars(cells, skip_nans),
    ensures
        match extreme(cells, greatest, skip_nans, n) {
            None => forall|i: int| 0 <= i < n ==> !participates(#[trigger] cells[i], skip_nans),
            Some(value) => (exists|i: int|
                0 <= i < n && participates(#[trigger] cells[i], skip_nans) && cells[i].value
                    == value) && (forall|i: int|
                0 <= i < n && participates(#[trigger] cells[i], skip_nans) ==> !replaces(
                    greatest,
                    cells[i].value,
                    value,
                )),
        },
    decreases n,
{
    if n > 0 {
        let m = (n - 1) as nat;
        extremes_are_extreme(cells, greatest, skip_nans, m);
        let cell = cells[n - 1];
        if participates(cell, skip_nans) {
            match extreme(cells, greatest, skip_nans, m) {
                None => {
                    order::scalars_are_ordered(cell.value, cell.value, cell.value);
                },
                Some(value) => {
                    let k = choose|i: int|
                        0 <= i < m && participates(#[trigger] cells[i], skip_nans)
                            && cells[i].value == value;
                    assert(order::alike(cells[k].value, cell.value));
                    assert(order::alike(cell.value, cells[k].value));
                    order::scalars_are_ordered(value, cell.value, value);
                    order::scalars_are_ordered(cell.value, value, cell.value);
                    order::scalars_are_ordered(cell.value, cell.value, cell.value);
                    if replaces(greatest, cell.value, value) {
                        assert forall|i: int|
                            0 <= i < n && participates(
                                #[trigger] cells[i],
                                skip_nans,
                            ) implies !replaces(greatest, cells[i].value, cell.value) by {
                            if i < m {
                                let other = cells[i].value;
                                assert(!replaces(greatest, other, value));
                                assert(order::alike(cells[i].value, cells[k].value));
                                assert(order::alike(cells[k].value, cells[i].value));
                                assert(order::alike(cells[i].value, cells[n - 1].value));
                                assert(order::alike(cells[n - 1].value, cells[i].value));
                                order::scalars_are_ordered(other, value, cell.value);
                                order::scalars_are_ordered(cell.value, value, other);
                                order::scalars_are_ordered(other, cell.value, value);
                                order::scalars_are_ordered(value, cell.value, other);
                                order::scalars_are_ordered(cell.value, other, value);
                                order::scalars_are_ordered(value, other, cell.value);
                            }
                        }
                    } else {
                        assert(cells[k].value == value);
                    }
                },
            }
        }
    }
}

/// Without floats that are not numbers, the minimum is below every other participating element and
/// the maximum above it.
pub proof fn extremes_bound_numbers(cells: Seq<CellV>, greatest: bool, skip_nans: bool, i: int)
    requires
        scalars(cells, skip_nans),
        forall|j: int| 0 <= j < cells.len() && participates(#[trigger] cells[j], skip_nans)
            ==> !order::not_a_number(cells[j].value),
        0 <= i < cells.len(),
        participates(cells[i], skip_nans),
    ensures
        extreme(cells, greatest, skip_nans, cells.len()) matches Some(value) && (if greatest {
            order::order(cells[i].value, value) <= 0
        } else {
            order::order(value, cells[i].value) <= 0
        }),
{
    extremes_are_extreme(cells, greatest, skip_nans, cells.len());
    let value = extreme(cells, greatest, skip_nans, cells.len())->Some_0;
    let k = choose|k: int|
        0 <= k < cells.len() && participates(#[trigger] cells[k], skip_nans) && cells[k].value
            == value;
    assert(order::alike(cells[i].value, cells[k].value));
    assert(order::alike(cells[k].value, cells[i].value));
    order::scalars_are_ordered(value, cells[i].value, value);
    assert(!order::not_a_number(cells[k].value));
}

} // verus!
