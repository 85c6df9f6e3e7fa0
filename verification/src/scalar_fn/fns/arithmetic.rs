//! Arithmetic on primitive columns.

use vstd::prelude::*;

use crate::array::{self, Array, ArrayV};
use crate::dtype::{DType, DTypeV, Nullability, PType};
use crate::error::{VortexError, VortexResult};
use crate::mask;
use crate::native::NativePType;
use crate::scalar_fn::fns::zip;
use crate::scalar_fn::fns::numeric::{self, CheckedArithmetic, NumericOperator};
use crate::scalar_fn::row::batch::{self, execute_rows, RowBatch};
use crate::scalar_fn::row::deferred::{self, DeferredFn, DeferredRowFn};
use crate::scalar_fn::row::element::{InputElement, OutputElement};
use crate::scalar_fn::row::policy::RowPolicy;
use crate::scalar_fn::row::primitive::{self, wrong_column_error, PrimitiveElement};
use crate::scalar_fn::row::result::SinkResult;
use crate::scalar_fn::row::tuple::ElementTuple;
use crate::scalar_fn::strict;
use crate::scalar_fn::vtable::{self, ExecutionArgs};
use crate::text::join2;
use crate::value::{CellV, ValueV};

verus! {

/// One arithmetic operator at one width, as a value and its failure evidence.
pub trait CheckedPrimitiveOp<T: CheckedArithmetic> {
    /// How this operation reports a failing row.
    type Failure: SinkResult;

    /// Which operator this is.
    spec fn operator() -> NumericOperator;

    /// The error of a batch in which a valid row failed.
    fn error() -> (out: &'static str)
        ensures
            out@ == numeric::overflow_text(Self::operator()),
    ;

    /// The value of a row, with evidence of whether the row failed.
    fn apply(lhs: T, rhs: T) -> (out: (T, Self::Failure))
        ensures
            out.0.rank() == numeric::stored(
                Self::operator(),
                lhs.rank(),
                rhs.rank(),
                T::lowest(),
                T::highest(),
            ),
            out.1.immediate() is Ok,
            out.1.deferred() == numeric::overflows(
                Self::operator(),
                lhs.rank(),
                rhs.rank(),
                T::lowest(),
                T::highest(),
            ),
    ;
}

/// Checked addition, failing on overflow.
pub struct CheckedAdd;

/// Checked subtraction, failing on overflow.
pub struct CheckedSub;

/// Checked multiplication, failing on overflow.
pub struct CheckedMul;

/// Checked division, failing on a zero divisor and on the least value divided by minus one.
pub struct CheckedDiv;

impl<T: CheckedArithmetic> CheckedPrimitiveOp<T> for CheckedAdd {
    type Failure = bool;

    open spec fn operator() -> NumericOperator {
        NumericOperator::Add
    }

    fn error() -> (out: &'static str) {
        "integer overflow in checked add"
    }

    fn apply(lhs: T, rhs: T) -> (out: (T, bool)) {
        (lhs.add_value(rhs), lhs.add_error(rhs))
    }
}

impl<T: CheckedArithmetic> CheckedPrimitiveOp<T> for CheckedSub {
    type Failure = bool;

    open spec fn operator() -> NumericOperator {
        NumericOperator::Sub
    }

    fn error() -> (out: &'static str) {
        "integer overflow in checked sub"
    }

    fn apply(lhs: T, rhs: T) -> (out: (T, bool)) {
        (lhs.sub_value(rhs), lhs.sub_error(rhs))
    }
}

impl<T: CheckedArithmetic> CheckedPrimitiveOp<T> for CheckedMul {
    type Failure = T::MulFailure;

    open spec fn operator() -> NumericOperator {
        NumericOperator::Mul
    }

    fn error() -> (out: &'static str) {
        "integer overflow in checked mul"
    }

    fn apply(lhs: T, rhs: T) -> (out: (T, T::MulFailure)) {
        (lhs.mul_value(rhs), lhs.mul_failure(rhs))
    }
}

impl<T: CheckedArithmetic> CheckedPrimitiveOp<T> for CheckedDiv {
    type Failure = bool;

    open spec fn operator() -> NumericOperator {
        NumericOperator::Div
    }

    fn error() -> (out: &'static str) {
        "integer division by zero or overflow in checked div"
    }

    fn apply(lhs: T, rhs: T) -> (out: (T, bool)) {
        let failed = lhs.div_error(rhs);
        proof {
            lhs.rank_in_range();
        }
        let value = if failed {
            T::zero()
        } else {
            lhs.div_value(rhs)
        };
        (value, failed)
    }
}

/// An arithmetic operator over rows of two primitives.
pub struct NumericRows<T, Op> {
    pub marker: std::marker::PhantomData<(T, Op)>,
}

impl<T: CheckedArithmetic, Op: CheckedPrimitiveOp<T>> DeferredRowFn for NumericRows<T, Op> {
    type Options = ();

    type Args = (T, T);

    type Out = T;

    type Failure = Op::Failure;

    type State = ();

    open spec fn deferred_id(&self) -> Seq<char> {
        "vortex.numeric_binary"@
    }

    open spec fn value_of(&self, options: &(), row: (T, T)) -> ValueV {
        ValueV::Primitive(
            T::ptype(),
            numeric::stored(Op::operator(), row.0.rank(), row.1.rank(), T::lowest(), T::highest()),
        )
    }

    open spec fn fails(&self, options: &(), row: (T, T)) -> bool {
        numeric::overflows(Op::operator(), row.0.rank(), row.1.rank(), T::lowest(), T::highest())
    }

    open spec fn failure_text(&self, options: &()) -> Seq<char> {
        numeric::overflow_text(Op::operator())
    }

    open spec fn prepared(
        &self,
        options: &(),
        constants: (Option<T>, Option<T>),
        state: (),
    ) -> bool {
        true
    }

    fn id(&self) -> (out: String) {
        String::from_str("vortex.numeric_binary")
    }

    fn prepare<'a>(&self, options: &(), constants: (Option<T>, Option<T>)) -> (state: ()) {
    }

    fn apply<'a>(&self, options: &(), state: &(), row: (T, T)) -> (out: (T, Op::Failure)) {
        assert(<T as InputElement>::meaning(row.0) == row.0);
        assert(<T as InputElement>::meaning(row.1) == row.1);
        let out = Op::apply(row.0, row.1);
        proof {
            out.0.rank_in_range();
        }
        out
    }

    fn failure(&self, options: &()) -> (out: VortexError) {
        VortexError::of(Op::error())
    }
}

/// What the payloads of two columns of `T` stand for, as integers.
pub open spec fn typed_operands<T: CheckedArithmetic>(lhs: ArrayV, rhs: ArrayV) -> Seq<(int, int)> {
    Seq::new(
        lhs.len(),
        |r: int|
            (T::of_payload(lhs.cells[r].value).rank(), T::of_payload(rhs.cells[r].value).rank()),
    )
}

/// The operands of row `r` overflow.
pub open spec fn overflows_at(
    op: NumericOperator,
    range: (int, int),
    operands: Seq<(int, int)>,
    r: int,
) -> bool {
    numeric::overflows(op, operands[r].0, operands[r].1, range.0, range.1)
}

/// Some row overflows, valid or not.
pub open spec fn any_overflow(
    op: NumericOperator,
    range: (int, int),
    operands: Seq<(int, int)>,
) -> bool {
    exists|r: int| 0 <= r < operands.len() && #[trigger] overflows_at(op, range, operands, r)
}

/// Some row that is valid on both sides overflows.
pub open spec fn valid_overflow(
    op: NumericOperator,
    range: (int, int),
    operands: Seq<(int, int)>,
    lhs: ArrayV,
    rhs: ArrayV,
) -> bool {
    exists|r: int|
        0 <= r < operands.len() && zip::both_valid(lhs, rhs, r) && #[trigger] overflows_at(
            op,
            range,
            operands,
            r,
        )
}

/// The payloads of an arithmetic column. Behind a null lies what the payloads give, or zero if some
/// row overflowed.
pub open spec fn arithmetic_values(
    op: NumericOperator,
    ptype: PType,
    range: (int, int),
    operands: Seq<(int, int)>,
    lhs: ArrayV,
    rhs: ArrayV,
) -> Seq<ValueV> {
    Seq::new(
        operands.len(),
        |r: int|
            if any_overflow(op, range, operands) && !zip::both_valid(lhs, rhs, r) {
                ValueV::Primitive(ptype, 0)
            } else {
                ValueV::Primitive(
                    ptype,
                    numeric::stored(op, operands[r].0, operands[r].1, range.0, range.1),
                )
            },
    )
}

/// What an arithmetic operator gives: an error if some row that is valid on both sides overflows,
/// whatever lies behind nulls, and otherwise the column of results.
pub open spec fn arithmetic_result(
    op: NumericOperator,
    ptype: PType,
    range: (int, int),
    operands: Seq<(int, int)>,
    lhs: ArrayV,
    rhs: ArrayV,
) -> Result<ArrayV, Seq<char>> {
    if valid_overflow(op, range, operands, lhs, rhs) {
        Err(numeric::overflow_text(op))
    } else {
        Ok(
            zip::zipped(
                DTypeV::Primitive(
                    ptype,
                    lhs.dtype.nullability().union(rhs.dtype.nullability()),
                ),
                lhs,
                rhs,
                arithmetic_values(op, ptype, range, operands, lhs, rhs),
            ),
        )
    }
}

/// Arithmetic on two columns of `T`.
fn execute_typed<T: CheckedArithmetic, Op: CheckedPrimitiveOp<T>>(lhs: &Array, rhs: &Array) -> (out:
    VortexResult<Array>)
    requires
        lhs@.len() == rhs@.len(),
        lhs@.dtype matches DTypeV::Primitive(p, _) && p == T::ptype(),
        rhs@.dtype matches DTypeV::Primitive(p, _) && p == T::ptype(),
    ensures
        vtable::outcome(out) == arithmetic_result(
            Op::operator(),
            T::ptype(),
            (T::lowest(), T::highest()),
            typed_operands::<T>(lhs@, rhs@),
            lhs@,
            rhs@,
        ),
{
    let mut inputs: Vec<Array> = Vec::new();
    inputs.push(lhs.clone());
    inputs.push(rhs.clone());
    let args = ExecutionArgs::new(inputs, lhs.len());
    let function = DeferredFn {
        function: NumericRows::<T, Op> { marker: std::marker::PhantomData },
    };
    proof {
        array::array_is_uniform(lhs);
        array::array_is_uniform(rhs);
        assert(args@ =~= seq![lhs@, rhs@]);
        batch_is_arithmetic::<T, Op>(&function, lhs@, rhs@);
    }
    execute_rows(&function, &(), &args)
}

#[verifier::spinoff_prover]
#[verifier::rlimit(60)]
proof fn batch_is_arithmetic<T: CheckedArithmetic, Op: CheckedPrimitiveOp<T>>(
    function: &DeferredFn<NumericRows<T, Op>>,
    lhs: ArrayV,
    rhs: ArrayV,
)
    requires
        lhs.len() == rhs.len(),
        lhs.uniform(),
        rhs.uniform(),
        lhs.dtype matches DTypeV::Primitive(p, _) && p == T::ptype(),
        rhs.dtype matches DTypeV::Primitive(p, _) && p == T::ptype(),
    ensures
        batch::batch_result(function, &(), seq![lhs, rhs], lhs.len()) == arithmetic_result(
            Op::operator(),
            T::ptype(),
            (T::lowest(), T::highest()),
            typed_operands::<T>(lhs, rhs),
            lhs,
            rhs,
        ),
{
    let args = seq![lhs, rhs];
    let rows = lhs.len();
    let op = Op::operator();
    let range = (T::lowest(), T::highest());
    let f = &function.function;
    let operands = typed_operands::<T>(lhs, rhs);
    let expected = arithmetic_values(op, T::ptype(), range, operands, lhs, rhs);
    let failing = valid_overflow(op, range, operands, lhs, rhs);
    let declared = DTypeV::Primitive(
        T::ptype(),
        lhs.dtype.nullability().union(rhs.dtype.nullability()),
    );
    let goal = zip::zipped(declared, lhs, rhs, expected);
    let dtypes = vtable::dtypes_of(args);
    assert(dtypes =~= seq![lhs.dtype, rhs.dtype]);
    assert(vtable::aligned(args, rows));
    strict::conjoined_rows(args, rows);
    zip::pair_facts(lhs, rhs);
    let valid = strict::conjoined(args).bits(rows);
    T::of_payload(ValueV::Null).rank_in_range();
    assert(T::placeholder_payload() == ValueV::Primitive(T::ptype(), 0));
    assert(<(T, T)>::decodes(args) is Ok);
    assert(<(T, T)>::decodes_tolerant(args) == Ok::<bool, Seq<char>>(true));
    assert(<T as InputElement>::dense_safe());
    assert(<(T, T) as ElementTuple>::dense_safe());
    assert(!<T as InputElement>::decode_fallible());
    assert(!<(T, T) as ElementTuple>::decode_fallible());
    assert forall|r: int| 0 <= r < rows implies #[trigger] <(T, T)>::row_at(args, r) == (
        T::of_payload(lhs.cells[r].value),
        T::of_payload(rhs.cells[r].value),
    ) by {
    }
    assert forall|r: int|
        #![trigger f.fails(&(), <(T, T)>::row_at(args, r))]
        #![trigger overflows_at(op, range, operands, r)]
        0 <= r < rows implies f.fails(&(), <(T, T)>::row_at(args, r)) == overflows_at(
        op,
        range,
        operands,
        r,
    ) by {
        assert(<(T, T)>::row_at(args, r) == (
            T::of_payload(lhs.cells[r].value),
            T::of_payload(rhs.cells[r].value),
        ));
    }
    let result = batch::batch_result(function, &(), args, rows);
    assert(function.planned(&(), dtypes) == Ok::<(DTypeV, RowPolicy), Seq<char>>(
        (DTypeV::Primitive(T::ptype(), Nullability::NonNullable), RowPolicy::DenseWithRetry),
    ));
    let all = T::built(deferred::row_values(f, &(), args, rows));
    assert(mask::all_true(all.valid_bits()));
    let fails = deferred::any_fails(f, &(), args, rows);
    assert(fails == any_overflow(op, range, operands)) by {
        if fails {
            let r = choose|r: int|
                0 <= r < rows && #[trigger] f.fails(&(), <(T, T)>::row_at(args, r));
            assert(overflows_at(op, range, operands, r));
        }
        if any_overflow(op, range, operands) {
            let r = choose|r: int|
                0 <= r < operands.len() && #[trigger] overflows_at(op, range, operands, r);
            assert(f.fails(&(), <(T, T)>::row_at(args, r)));
        }
    }
    if failing {
        let r = choose|r: int|
            0 <= r < operands.len() && zip::both_valid(lhs, rhs, r) && #[trigger] overflows_at(
                op,
                range,
                operands,
                r,
            );
        assert(valid[r] && f.fails(&(), <(T, T)>::row_at(args, r)));
        assert(lhs.constant matches Some(cell) ==> lhs.cells[r] == cell && lhs.cells[0] == cell);
        assert(rhs.constant matches Some(cell) ==> rhs.cells[r] == cell && rhs.cells[0] == cell);
        assert(!zip::null_side(lhs, rhs));
        assert(zip::both_valid(lhs, rhs, r));
    }
    if strict::has_null_constant(args) {
    } else if rows > 0 && strict::all_constant(args) {
        constant_arithmetic::<T, Op>(function, lhs, rhs);
        assert(lhs.cells[0] == lhs.constant->Some_0 && rhs.cells[0] == rhs.constant->Some_0);
        assert(zip::both_valid(lhs, rhs, 0));
        let row = <(T, T)>::row_at(args, 0);
        assert(f.fails(&(), row) == failing) by {
            assert(f.fails(&(), row) == overflows_at(op, range, operands, 0));
            if failing {
                let r = choose|r: int|
                    0 <= r < operands.len() && zip::both_valid(lhs, rhs, r)
                        && #[trigger] overflows_at(op, range, operands, r);
                assert(lhs.cells[r] == lhs.cells[0] && rhs.cells[r] == rhs.cells[0]);
                assert(operands[r] == operands[0]);
            }
        }
        assert(f.value_of(&(), row) == expected[0]);
    } else if mask::all_true(valid) {
        assert(failing == fails) by {
            if fails {
                let r = choose|r: int|
                    0 <= r < rows && #[trigger] f.fails(&(), <(T, T)>::row_at(args, r));
                assert(valid[r]);
                assert(zip::both_valid(lhs, rhs, r) && overflows_at(op, range, operands, r));
            }
        }
        if !failing {
            assert(result->Ok_0.cells =~= goal.cells);
        }
    } else if mask::all_false(valid) {
    } else {
        assert(deferred::any_valid_fails(f, &(), args, valid) == failing) by {
            if deferred::any_valid_fails(f, &(), args, valid) {
                let r = choose|r: int|
                    0 <= r < valid.len() && valid[r] && #[trigger] f.fails(
                        &(),
                        <(T, T)>::row_at(args, r),
                    );
                assert(zip::both_valid(lhs, rhs, r) && overflows_at(op, range, operands, r));
            }
        }
        let some = T::built(deferred::valid_row_values(f, &(), args, valid));
        assert(mask::all_true(some.valid_bits()));
        let values = if fails {
            some
        } else {
            all
        };
        if !failing {
            let whole = ArrayV { dtype: declared, ..values };
            assert(values.len() == rows && valid.len() == rows);
            assert(values.dtype.with_nullability(declared.nullability()) == declared);
            assert(batch::finalized(function.batch_id(), declared, rows, values) == Ok::<
                ArrayV,
                Seq<char>,
            >(whole));
            assert(result == batch::masked_execution(
                function.batch_id(),
                declared,
                valid,
                batch::RowExecutionV::Output(values),
            ));
            assert forall|r: int| 0 <= r < rows implies #[trigger] result->Ok_0.cells[r]
                == goal.cells[r] by {
                assert(valid[r] == zip::both_valid(lhs, rhs, r));
            }
            assert(result->Ok_0.cells =~= goal.cells);
        }
    }
}

proof fn constant_arithmetic<T: CheckedArithmetic, Op: CheckedPrimitiveOp<T>>(
    function: &DeferredFn<NumericRows<T, Op>>,
    lhs: ArrayV,
    rhs: ArrayV,
)
    requires
        lhs.len() == rhs.len(),
        lhs.len() > 0,
        lhs.uniform(),
        rhs.uniform(),
        lhs.dtype matches DTypeV::Primitive(p, _) && p == T::ptype(),
        rhs.dtype matches DTypeV::Primitive(p, _) && p == T::ptype(),
        strict::all_constant(seq![lhs, rhs]),
        !strict::has_null_constant(seq![lhs, rhs]),
    ensures
        ({
            let args = seq![lhs, rhs];
            let declared = DTypeV::Primitive(
                T::ptype(),
                lhs.dtype.nullability().union(rhs.dtype.nullability()),
            );
            let row = <(T, T)>::row_at(args, 0);
            batch::batch_result(function, &(), args, lhs.len()) == (if function.function.fails(
                &(),
                row,
            ) {
                Err::<ArrayV, Seq<char>>(numeric::overflow_text(Op::operator()))
            } else {
                Ok(
                    array::constant(
                        declared,
                        CellV { valid: true, value: function.function.value_of(&(), row) },
                        lhs.len(),
                    ),
                )
            })
        }),
{
    let args = seq![lhs, rhs];
    let f = &function.function;
    let dtypes = vtable::dtypes_of(args);
    assert(dtypes =~= seq![lhs.dtype, rhs.dtype]);
    assert(strict::any_nullable(dtypes) == (lhs.dtype.nullable() || rhs.dtype.nullable())) by {
        if lhs.dtype.nullable() {
            assert(dtypes[0].nullable());
        }
        if rhs.dtype.nullable() {
            assert(dtypes[1].nullable());
        }
    }
    assert(<T as InputElement>::dense_safe());
    assert(<(T, T) as ElementTuple>::dense_safe());
    assert(!<T as InputElement>::decode_fallible());
    assert(!<(T, T) as ElementTuple>::decode_fallible());
    let first = strict::first_rows(args);
    assert(first =~= seq![lhs.first(), rhs.first()]);
    assert(<(T, T)>::decodes(first) is Ok);
    let row = <(T, T)>::row_at(args, 0);
    assert(<(T, T)>::row_at(first, 0) == row);
    assert(deferred::any_fails(f, &(), first, 1) == f.fails(&(), row)) by {
        if f.fails(&(), row) {
            assert(f.fails(&(), <(T, T)>::row_at(first, 0)));
        }
    }
    let one = T::built(deferred::row_values(f, &(), first, 1));
    assert(mask::all_true(one.valid_bits()));
    assert(one.cells[0] == CellV { valid: true, value: f.value_of(&(), row) });
}

/// The least and greatest value of an integer type.
pub open spec fn range_of(ptype: PType) -> (int, int) {
    match ptype {
        PType::U8 => (<u8>::lowest(), <u8>::highest()),
        PType::U16 => (<u16>::lowest(), <u16>::highest()),
        PType::U32 => (<u32>::lowest(), <u32>::highest()),
        PType::U64 => (<u64>::lowest(), <u64>::highest()),
        PType::I8 => (<i8>::lowest(), <i8>::highest()),
        PType::I16 => (<i16>::lowest(), <i16>::highest()),
        PType::I32 => (<i32>::lowest(), <i32>::highest()),
        _ => (<i64>::lowest(), <i64>::highest()),
    }
}

/// What the payloads of two integer columns stand for.
pub open spec fn integer_operands(ptype: PType, lhs: ArrayV, rhs: ArrayV) -> Seq<(int, int)> {
    match ptype {
        PType::U8 => typed_operands::<u8>(lhs, rhs),
        PType::U16 => typed_operands::<u16>(lhs, rhs),
        PType::U32 => typed_operands::<u32>(lhs, rhs),
        PType::U64 => typed_operands::<u64>(lhs, rhs),
        PType::I8 => typed_operands::<i8>(lhs, rhs),
        PType::I16 => typed_operands::<i16>(lhs, rhs),
        PType::I32 => typed_operands::<i32>(lhs, rhs),
        _ => typed_operands::<i64>(lhs, rhs),
    }
}

/// Dispatch on the operator.
fn execute_operator<T: CheckedArithmetic>(lhs: &Array, rhs: &Array, op: NumericOperator) -> (out:
    VortexResult<Array>)
    requires
        lhs@.len() == rhs@.len(),
        lhs@.dtype matches DTypeV::Primitive(p, _) && p == T::ptype(),
        rhs@.dtype matches DTypeV::Primitive(p, _) && p == T::ptype(),
    ensures
        vtable::outcome(out) == arithmetic_result(
            op,
            T::ptype(),
            (T::lowest(), T::highest()),
            typed_operands::<T>(lhs@, rhs@),
            lhs@,
            rhs@,
        ),
{
    match op {
        NumericOperator::Add => execute_typed::<T, CheckedAdd>(lhs, rhs),
        NumericOperator::Sub => execute_typed::<T, CheckedSub>(lhs, rhs),
        NumericOperator::Mul => execute_typed::<T, CheckedMul>(lhs, rhs),
        NumericOperator::Div => execute_typed::<T, CheckedDiv>(lhs, rhs),
    }
}

/// What is said of arithmetic on floating-point columns, which is not executed here.
pub open spec fn float_arithmetic(ptype: PType) -> Seq<char> {
    "no integer arithmetic on a column of "@ + ptype.text()
}

/// The integer type of two operands, or what is said where they have none in common.
pub open spec fn operand_ptype(lhs: DTypeV, rhs: DTypeV) -> Result<PType, Seq<char>> {
    match lhs {
        DTypeV::Primitive(ptype, _) => if !(rhs matches DTypeV::Primitive(other, _) && other
            == ptype) {
            Err(primitive::wrong_column(ptype.text(), rhs))
        } else if ptype.float() {
            Err(float_arithmetic(ptype))
        } else {
            Ok(ptype)
        },
        _ => Err(primitive::wrong_column("primitive"@, lhs)),
    }
}

/// Arithmetic on two columns.
pub open spec fn numeric_result(op: NumericOperator, lhs: ArrayV, rhs: ArrayV) -> Result<
    ArrayV,
    Seq<char>,
> {
    match operand_ptype(lhs.dtype, rhs.dtype) {
        Err(text) => Err(text),
        Ok(ptype) => arithmetic_result(
            op,
            ptype,
            range_of(ptype),
            integer_operands(ptype, lhs, rhs),
            lhs,
            rhs,
        ),
    }
}

/// Arithmetic on two integer columns of one type.
pub fn execute_numeric_primitive(lhs: &Array, rhs: &Array, op: NumericOperator) -> (out:
    VortexResult<Array>)
    requires
        lhs@.len() == rhs@.len(),
    ensures
        vtable::outcome(out) == numeric_result(op, lhs@, rhs@),
{
    let ptype = match lhs.dtype() {
        DType::Primitive(ptype, _) => *ptype,
        _ => return Err(wrong_column_error("primitive", lhs.dtype())),
    };
    let same = match rhs.dtype() {
        DType::Primitive(other, _) => *other == ptype,
        _ => false,
    };
    if !same {
        return Err(wrong_column_error(ptype.name(), rhs.dtype()));
    }
    match ptype {
        PType::U8 => execute_operator::<u8>(lhs, rhs, op),
        PType::U16 => execute_operator::<u16>(lhs, rhs, op),
        PType::U32 => execute_operator::<u32>(lhs, rhs, op),
        PType::U64 => execute_operator::<u64>(lhs, rhs, op),
        PType::I8 => execute_operator::<i8>(lhs, rhs, op),
        PType::I16 => execute_operator::<i16>(lhs, rhs, op),
        PType::I32 => execute_operator::<i32>(lhs, rhs, op),
        PType::I64 => execute_operator::<i64>(lhs, rhs, op),
        _ => Err(
            VortexError::new(join2("no integer arithmetic on a column of ", ptype.name())),
        ),
    }
}

/// Where arithmetic succeeds, a row that is valid on both sides holds the exact result, and every
/// other row is null.
pub proof fn arithmetic_is_exact_on_valid_rows(op: NumericOperator, lhs: ArrayV, rhs: ArrayV, r: int)
    requires
        lhs.len() == rhs.len(),
        lhs.uniform(),
        rhs.uniform(),
        0 <= r < lhs.len(),
        numeric_result(op, lhs, rhs) is Ok,
    ensures
        ({
            let out = numeric_result(op, lhs, rhs)->Ok_0;
            let ptype = operand_ptype(lhs.dtype, rhs.dtype)->Ok_0;
            let (a, b) = integer_operands(ptype, lhs, rhs)[r];
            &&& out.len() == lhs.len()
            &&& out.row(r) == (if zip::both_valid(lhs, rhs, r) {
                Some(ValueV::Primitive(ptype, numeric::exact(op, a, b)))
            } else {
                None
            })
        }),
{
    let ptype = operand_ptype(lhs.dtype, rhs.dtype)->Ok_0;
    let range = range_of(ptype);
    let operands = integer_operands(ptype, lhs, rhs);
    let values = arithmetic_values(op, ptype, range, operands, lhs, rhs);
    let declared = numeric_result(op, lhs, rhs)->Ok_0.dtype;
    assert(lhs.constant matches Some(cell) ==> lhs.cells[r] == cell && lhs.cells[0] == cell);
    assert(rhs.constant matches Some(cell) ==> rhs.cells[r] == cell && rhs.cells[0] == cell);
    if lhs.constant is Some && rhs.constant is Some {
        assert(operands[r] == operands[0]);
        assert(zip::both_valid(lhs, rhs, r) == zip::both_valid(lhs, rhs, 0));
        assert(values[r] == values[0]);
    }
    zip::zipped_rows(
        DTypeV::Primitive(ptype, lhs.dtype.nullability().union(rhs.dtype.nullability())),
        lhs,
        rhs,
        values,
        r,
    );
    if zip::both_valid(lhs, rhs, r) {
        assert(!overflows_at(op, range, operands, r));
        numeric::stored_is_exact(op, operands[r].0, operands[r].1, range.0, range.1);
    }
}

} // verus!
