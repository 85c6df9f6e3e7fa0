//! Logical negation.

use vstd::prelude::*;

use crate::array::{self, Array, ArrayV};
use crate::dtype::{DType, DTypeV, Nullability};
use crate::error::{VortexError, VortexResult};
use crate::expr::tree::{ExprV, Expression};
use crate::mask::{self, Mask};
use crate::scalar_fn::options::EmptyOptions;
use crate::scalar_fn::strict::{self, NullHandling, StrictScalarFnVTable};
use crate::scalar_fn::vtable::{self, Arity, ExecutionArgs, ReduceNode, ReduceNodeV};
use crate::text::join2;
use crate::value::{Cell, CellV, Value, ValueV};

verus! {

/// Inverts boolean values. Nulls stay null.
#[derive(Clone, Copy)]
pub struct Not;

/// The inverse of a boolean payload.
pub open spec fn negated(value: ValueV) -> ValueV {
    ValueV::Bool(!(value is Bool && value->Bool_0))
}

/// Every row inverted, and valid.
pub open spec fn inverted(input: ArrayV) -> ArrayV {
    array::column(
        DTypeV::Bool(input.dtype.nullability()),
        Seq::new(
            input.len(),
            |r: int| CellV { valid: true, value: negated(input.cells[r].value) },
        ),
    )
}

/// What is said of an operand that is not boolean.
pub open spec fn expects_boolean(dtype: DTypeV) -> Seq<char> {
    "Not expression expects a boolean child, got: "@ + dtype.text()
}

/// What is said of another number of operands.
pub open spec fn one_operand() -> Seq<char> {
    "Not takes one operand"@
}

impl Not {
    /// The name of the operand.
    pub fn child_name(&self, index: usize) -> (out: &'static str)
        requires
            index == 0,
        ensures
            out@ == "input"@,
    {
        "input"
    }
}

impl StrictScalarFnVTable for Not {
    type Options = EmptyOptions;

    open spec fn strict_id(&self) -> Seq<char> {
        "vortex.not"@
    }

    open spec fn strict_arity(&self, options: &EmptyOptions) -> nat {
        1
    }

    open spec fn element_dtype(&self, options: &EmptyOptions, dtypes: Seq<DTypeV>) -> Result<
        DTypeV,
        Seq<char>,
    > {
        if dtypes.len() != 1 {
            Err(one_operand())
        } else if dtypes[0] is Bool {
            Ok(DTypeV::Bool(Nullability::NonNullable))
        } else {
            Err(expects_boolean(dtypes[0]))
        }
    }

    open spec fn handling(&self, options: &EmptyOptions) -> NullHandling {
        NullHandling::Dense
    }

    open spec fn kernel_fallible(&self, options: &EmptyOptions) -> bool {
        false
    }

    open spec fn kernel(&self, options: &EmptyOptions, args: Seq<ArrayV>, rows: nat) -> Result<
        ArrayV,
        Seq<char>,
    > {
        Ok(inverted(args[0]))
    }

    open spec fn branch_kernel(
        &self,
        options: &EmptyOptions,
        args: Seq<ArrayV>,
        rows: nat,
        valid: Seq<bool>,
    ) -> Result<Option<ArrayV>, Seq<char>> {
        Ok(None)
    }

    open spec fn shrinks(&self, options: &EmptyOptions) -> bool {
        false
    }

    open spec fn strict_validity(&self, options: &EmptyOptions, args: Seq<ExprV>) -> Option<ExprV> {
        None
    }

    open spec fn strict_reduction(&self, options: &EmptyOptions, node: ReduceNodeV) -> Result<
        Option<ReduceNodeV>,
        Seq<char>,
    > {
        Ok(None)
    }

    fn id(&self) -> (out: String) {
        String::from_str("vortex.not")
    }

    fn arity(&self, options: &EmptyOptions) -> (out: Arity) {
        Arity::Exact(1)
    }

    fn return_element_dtype(&self, options: &EmptyOptions, dtypes: &Vec<DType>) -> (out:
        VortexResult<DType>) {
        if dtypes.len() != 1 {
            return Err(VortexError::of("Not takes one operand"));
        }
        match &dtypes[0] {
            DType::Bool(_) => Ok(DType::Bool(Nullability::NonNullable)),
            _ => Err(
                VortexError::new(
                    join2(
                        "Not expression expects a boolean child, got: ",
                        dtypes[0].to_text().as_str(),
                    ),
                ),
            ),
        }
    }

    fn null_handling(&self, options: &EmptyOptions) -> (out: NullHandling) {
        NullHandling::Dense
    }

    fn is_fallible(&self, options: &EmptyOptions) -> (out: bool) {
        false
    }

    fn execute_strict(&self, options: &EmptyOptions, args: &ExecutionArgs) -> (out: VortexResult<
        Array,
    >) {
        let input = &args.inputs[0];
        let rows: usize = input.len();
        let ghost expected = inverted(args@[0]).cells;
        let mut cells: Vec<Cell> = Vec::new();
        let mut index: usize = 0;
        while index < rows
            invariant
                index <= rows == input@.len(),
                expected == inverted(input@).cells,
                array::cells_model(cells@) == expected.take(index as int),
            decreases rows - index,
        {
            let ghost before = cells@;
            let bit = match input.cell(index).value {
                Value::Bool(bit) => bit,
                _ => false,
            };
            let cell = Cell::valid(Value::Bool(!bit));
            cells.push(cell);
            proof {
                assert(array::cells_model(cells@) =~= array::cells_model(before).push(cell@));
                assert(expected.take(index + 1) =~= expected.take(index as int).push(
                    expected[index as int],
                ));
            }
            index = index + 1;
        }
        assert(expected.take(rows as int) =~= expected);
        Ok(Array::column(DType::Bool(input.dtype().nullability()), cells))
    }

    fn execute_strict_branch(
        &self,
        options: &EmptyOptions,
        args: &ExecutionArgs,
        valid: &Mask,
    ) -> (out: VortexResult<Option<Array>>) {
        Ok(None)
    }

    fn decode_shrinks_when_filtered(&self, options: &EmptyOptions) -> (out: bool) {
        false
    }

    fn validity(&self, options: &EmptyOptions, args: Vec<Expression>) -> (out: Option<Expression>) {
        None
    }

    fn reduce(&self, options: &EmptyOptions, node: &ReduceNode) -> (out: VortexResult<Option<ReduceNode>>) {
        Ok(None)
    }
}

/// The negation of a column.
pub open spec fn not_result(input: ArrayV) -> Result<ArrayV, Seq<char>> {
    strict::lifted(&Not, &EmptyOptions, seq![input], input.len())
}

/// The negation of a boolean column whose type admits its nulls exists, and shows the inverse of
/// every valid row and null elsewhere.
pub proof fn not_inverts_valid_rows(input: ArrayV, r: int)
    requires
        input.dtype is Bool,
        input.uniform(),
        input.dtype.nullable() || mask::all_true(input.valid_bits()),
        0 <= r < input.len(),
    ensures
        not_result(input) is Ok,
        not_result(input)->Ok_0.len() == input.len(),
        not_result(input)->Ok_0.row(r) == (if input.cells[r].valid {
            Some(negated(input.cells[r].value))
        } else {
            None
        }),
{
    not_keeps_rows(input);
    let args = seq![input];
    let rows = input.len();
    let dtypes = vtable::dtypes_of(args);
    assert(dtypes =~= seq![input.dtype]);
    assert(args[0] == input && dtypes[0] == input.dtype);
    assert(strict::any_nullable(dtypes) == input.dtype.nullable());
    strict::conjoined_rows(args, rows);
    let valid = strict::conjoined(args).bits(rows);
    assert(vtable::valid_at(args, r) == valid[r]);
    assert(valid[r] == input.cells[r].valid) by {
        if valid[r] {
            assert(args[0].cells[r].valid);
        } else {
            let i = choose|i: int| 0 <= i < args.len() && !(#[trigger] args[i]).cells[r].valid;
            assert(i == 0);
        }
    }
    assert(input.constant matches Some(cell) ==> input.cells[r] == cell && input.cells[0] == cell);
    let declared = DTypeV::Bool(input.dtype.nullability());
    assert forall|n: Nullability| #[trigger] DTypeV::Bool(n).eq_ignore_nullability(declared) by {
        assert(DTypeV::Bool(n).erased() == declared.erased());
    }
    assert(strict::lifted_dtype(Not.element_dtype(&EmptyOptions, dtypes), dtypes) == Ok::<
        DTypeV,
        Seq<char>,
    >(declared));
    let values = inverted(input);
    assert(values.dtype.eq_ignore_nullability(declared));
    assert(DTypeV::Bool(Nullability::Nullable).eq_ignore_nullability(declared));
    if !input.dtype.nullable() {
        assert(input.valid_bits()[r]);
        assert(args[0].validity() is NonNullable);
        assert(args.drop_last() =~= Seq::empty());
        assert(strict::conjoined(Seq::<ArrayV>::empty()) is NonNullable);
        assert(strict::conjoined(args) is NonNullable);
    }
    assert(mask::all_true(values.valid_bits()));
    let one = inverted(input.first());
    assert(strict::first_rows(args) =~= seq![input.first()]);
    assert(mask::all_true(one.valid_bits()));
}

/// Wherever negation succeeds, a valid row shows its inverse, and a null row is null.
pub proof fn not_shows_inverses(input: ArrayV, r: int)
    requires
        input.uniform(),
        0 <= r < input.len(),
        not_result(input) is Ok,
    ensures
        not_result(input)->Ok_0.row(r) == (if input.cells[r].valid {
            Some(negated(input.cells[r].value))
        } else {
            None
        }),
{
    let args = seq![input];
    let rows = input.len();
    assert(args[0] == input);
    strict::conjoined_rows(args, rows);
    let valid = strict::conjoined(args).bits(rows);
    assert(vtable::valid_at(args, r) == valid[r]);
    assert(valid[r] == input.cells[r].valid) by {
        if valid[r] {
            assert(args[0].cells[r].valid);
        } else {
            let i = choose|i: int| 0 <= i < args.len() && !(#[trigger] args[i]).cells[r].valid;
            assert(i == 0);
        }
    }
    assert(input.constant matches Some(cell) ==> input.cells[r] == cell && input.cells[0] == cell);
    assert(strict::first_rows(args) =~= seq![input.first()]);
}

/// Where negation succeeds, its column has as many rows as its input.
pub proof fn not_keeps_rows(input: ArrayV)
    requires
        input.uniform(),
    ensures
        not_result(input) matches Ok(out) ==> out.len() == input.len() && out.uniform(),
{
}

} // verus!
