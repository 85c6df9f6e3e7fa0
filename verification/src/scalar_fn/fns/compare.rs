//! Comparing primitive columns.

use vstd::prelude::*;

use crate::array::{self, Array, ArrayV};
use crate::bits;
use crate::dtype::{DType, DTypeV, Nullability, PType};
use crate::error::{VortexError, VortexResult};
use crate::native::{F16, F32, F64};
use crate::scalar_fn::fns::operators::CompareOperator;
use crate::scalar_fn::fns::zip;
use crate::scalar_fn::fns::simd::{self, apply_op, compare_into_words, CpuFeatures, PrimitiveInput, SimdCompare};
use crate::scalar_fn::row::batch::{self, execute_rows, RowBatch};
use crate::scalar_fn::row::policy::RowPolicy;
use crate::scalar_fn::row::element::{InputElement, OutputElement};
use crate::scalar_fn::row::kernel::{self, DenseRows, KernelFn, PackedBoolOutput, RowKernel, RowKernelOutput};
use crate::scalar_fn::row::primitive::{self, wrong_column_error, PrimitiveElement};
use crate::scalar_fn::row::tuple::{ArgView, ElementTuple};
use crate::mask;
use crate::scalar_fn::strict;
use crate::scalar_fn::vtable::{self, ExecutionArgs};
use crate::text::{self, decimal, join3};
use crate::value::{CellV, ValueV};

verus! {

/// A comparison of two primitive columns that writes bitmap words directly.
#[derive(Clone, Copy)]
pub struct PrimitiveComparisonKernel {
    pub op: CompareOperator,
    pub features: CpuFeatures,
}

impl<'a, T: SimdCompare + PrimitiveElement> PrimitiveInput<'a, T> {
    /// The input that a decoded argument stands for, which must have `row_count` rows, or one row
    /// if it is a constant.
    pub fn from_arg_view(view: ArgView<'a, Vec<T>>, row_count: usize) -> (out: VortexResult<Self>)
        ensures
            match (view, out) {
                (ArgView::Column(values), Ok(input)) => values@.len() == row_count && (
                input matches PrimitiveInput::Slice(slice) && slice@ == values@),
                (ArgView::Column(values), Err(error)) => values@.len() != row_count && error@
                    == crate::scalar_fn::row::kernel::wrong_input_rows(row_count as nat),
                (ArgView::Constant(values), Ok(input)) => values@.len() == 1 && input
                    == PrimitiveInput::<T>::Constant(values@[0]),
                (ArgView::Constant(values), Err(error)) => values@.len() != 1 && error@
                    == "a decoded batch constant does not contain exactly one row"@,
            },
    {
        match view {
            ArgView::Column(values) => {
                if values.len() != row_count {
                    return Err(
                        VortexError::new(
                            join3(
                                "a decoded row input does not address exactly ",
                                decimal(row_count as u64).as_str(),
                                " rows",
                            ),
                        ),
                    );
                }
                Ok(PrimitiveInput::Slice(values.as_slice()))
            },
            ArgView::Constant(values) => {
                if values.len() != 1 {
                    return Err(
                        VortexError::of(
                            "a decoded batch constant does not contain exactly one row",
                        ),
                    );
                }
                Ok(PrimitiveInput::Constant(values[0]))
            },
        }
    }
}

impl<T: SimdCompare + PrimitiveElement> RowKernel<(T, T)> for PrimitiveComparisonKernel {
    type Element = bool;

    type Output = PackedBoolOutput;

    open spec fn evaluated(&self, row: (T, T)) -> ValueV {
        ValueV::Bool(simd::op_holds(self.op, row.0, row.1))
    }

    fn eval<'a>(&self, row: (T, T)) -> (out: bool) {
        assert(<T as InputElement>::meaning(row.0) == row.0);
        assert(<T as InputElement>::meaning(row.1) == row.1);
        apply_op(row.0, row.1, self.op)
    }

    fn collect_dense<'a>(&self, rows: DenseRows<'a, (T, T)>) -> (out: VortexResult<
        PackedBoolOutput,
    >) {
        let row_count: usize = rows.len();
        let columns = rows.inputs();
        let lhs = match PrimitiveInput::from_arg_view(columns.0.view(), row_count) {
            Ok(input) => input,
            Err(error) => {
                assert(false);
                return Err(error);
            },
        };
        let rhs = match PrimitiveInput::from_arg_view(columns.1.view(), row_count) {
            Ok(input) => input,
            Err(error) => {
                assert(false);
                return Err(error);
            },
        };
        let mut output = PackedBoolOutput::zeroed(row_count);
        compare_into_words(lhs, rhs, self.op, row_count, output.words_mut(), self.features);
        proof {
            let expected = Seq::new(
                rows.rows(),
                |r: int| <Self as RowKernel<(T, T)>>::evaluated(self, <(T, T)>::at(columns, r)),
            );
            let column = simd::compare_column(lhs, rhs, self.op, row_count as int);
            assert(bits::packs(output.packed(), column));
            assert forall|r: int| 0 <= r < row_count implies output.bit(r) == simd::op_holds(
                self.op,
                columns.0.at(r),
                columns.1.at(r),
            ) by {
                assert(<(T, T)>::can_get(columns, r));
                assert(bits::row_bit(output.packed(), r) == column[r]);
            }
            assert(output.rows() =~= expected);
        }
        Ok(output)
    }
}

/// The comparison of two payloads of one primitive type.
pub open spec fn compare_payloads(ptype: PType, op: CompareOperator, lhs: ValueV, rhs: ValueV) -> bool {
    match ptype {
        PType::U8 => typed_comparison::<u8>(op, lhs, rhs),
        PType::U16 => typed_comparison::<u16>(op, lhs, rhs),
        PType::U32 => typed_comparison::<u32>(op, lhs, rhs),
        PType::U64 => typed_comparison::<u64>(op, lhs, rhs),
        PType::I8 => typed_comparison::<i8>(op, lhs, rhs),
        PType::I16 => typed_comparison::<i16>(op, lhs, rhs),
        PType::I32 => typed_comparison::<i32>(op, lhs, rhs),
        PType::I64 => typed_comparison::<i64>(op, lhs, rhs),
        PType::F16 => typed_comparison::<F16>(op, lhs, rhs),
        PType::F32 => typed_comparison::<F32>(op, lhs, rhs),
        PType::F64 => typed_comparison::<F64>(op, lhs, rhs),
    }
}

/// The comparison of two payloads of `T`.
pub open spec fn typed_comparison<T: PrimitiveElement>(op: CompareOperator, lhs: ValueV, rhs: ValueV) -> bool {
    simd::op_holds(op, T::of_payload(lhs), T::of_payload(rhs))
}

/// The type of a comparison.
pub open spec fn compared_dtype(lhs: DTypeV, rhs: DTypeV) -> DTypeV {
    DTypeV::Bool(lhs.nullability().union(rhs.nullability()))
}

/// The payloads of a comparison of two columns of `T`.
pub open spec fn typed_values<T: PrimitiveElement>(op: CompareOperator, lhs: ArrayV, rhs: ArrayV) -> Seq<
    ValueV,
> {
    Seq::new(
        lhs.len(),
        |r: int| ValueV::Bool(typed_comparison::<T>(op, lhs.cells[r].value, rhs.cells[r].value)),
    )
}

/// The payloads of a comparison of two primitive columns.
pub open spec fn primitive_values(
    ptype: PType,
    op: CompareOperator,
    lhs: ArrayV,
    rhs: ArrayV,
) -> Seq<ValueV> {
    Seq::new(
        lhs.len(),
        |r: int|
            ValueV::Bool(compare_payloads(ptype, op, lhs.cells[r].value, rhs.cells[r].value)),
    )
}

/// Compare two columns of `T`.
fn compare_typed<T: SimdCompare + PrimitiveElement>(
    lhs: &Array,
    rhs: &Array,
    op: CompareOperator,
    features: CpuFeatures,
) -> (out: VortexResult<Array>)
    requires
        lhs@.len() == rhs@.len(),
        lhs@.dtype matches DTypeV::Primitive(p, _) && p == T::ptype(),
        rhs@.dtype matches DTypeV::Primitive(p, _) && p == T::ptype(),
    ensures
        vtable::outcome(out) == Ok::<ArrayV, Seq<char>>(
            zip::zipped(
                compared_dtype(lhs@.dtype, rhs@.dtype),
                lhs@,
                rhs@,
                typed_values::<T>(op, lhs@, rhs@),
            ),
        ),
{
    let mut inputs: Vec<Array> = Vec::new();
    inputs.push(lhs.clone());
    inputs.push(rhs.clone());
    let args = ExecutionArgs::new(inputs, lhs.len());
    let function = KernelFn::<(T, T), PrimitiveComparisonKernel>::new(
        String::from_str("vortex.binary"),
        PrimitiveComparisonKernel { op, features },
    );
    proof {
        array::array_is_uniform(lhs);
        array::array_is_uniform(rhs);
        assert(args@ =~= seq![lhs@, rhs@]);
        comparison_is_zipped::<T>(&function, lhs@, rhs@);
    }
    execute_rows(&function, &(), &args)
}

proof fn comparison_is_zipped<T: SimdCompare + PrimitiveElement>(
    function: &KernelFn<(T, T), PrimitiveComparisonKernel>,
    lhs: ArrayV,
    rhs: ArrayV,
)
    requires
        lhs.len() == rhs.len(),
        lhs.uniform(),
        rhs.uniform(),
        lhs.dtype matches DTypeV::Primitive(p, _) && p == T::ptype(),
        rhs.dtype matches DTypeV::Primitive(p, _) && p == T::ptype(),
    ensures
        batch::batch_result(function, &(), seq![lhs, rhs], lhs.len()) == Ok::<ArrayV, Seq<char>>(
            zip::zipped(
                compared_dtype(lhs.dtype, rhs.dtype),
                lhs,
                rhs,
                typed_values::<T>(function.kernel.op, lhs, rhs),
            ),
        ),
{
    let args = seq![lhs, rhs];
    let rows = lhs.len();
    let expected = typed_values::<T>(function.kernel.op, lhs, rhs);
    let declared = compared_dtype(lhs.dtype, rhs.dtype);
    let goal = zip::zipped(declared, lhs, rhs, expected);
    let dtypes = vtable::dtypes_of(args);
    assert(dtypes =~= seq![lhs.dtype, rhs.dtype]);
    assert(vtable::aligned(args, rows));
    strict::conjoined_rows(args, rows);
    zip::pair_facts(lhs, rhs);
    let valid = strict::conjoined(args).bits(rows);
    assert(<(T, T)>::decodes(args) is Ok);
    let values = bool::built(
        kernel::kernel_rows::<(T, T), PrimitiveComparisonKernel>(&function.kernel, args, rows),
    );
    assert(mask::all_true(values.valid_bits()));
    assert forall|r: int| 0 <= r < rows implies (#[trigger] values.cells[r]) == (CellV {
        valid: true,
        value: expected[r],
    }) by {
        assert(<(T, T)>::row_at(args, r) == (
            T::of_payload(lhs.cells[r].value),
            T::of_payload(rhs.cells[r].value),
        ));
    }
    let result = batch::batch_result(function, &(), args, rows);
    if strict::has_null_constant(args) {
    } else if rows > 0 && strict::all_constant(args) {
        let first = strict::first_rows(args);
        assert(first =~= seq![lhs.first(), rhs.first()]);
        assert(<(T, T)>::decodes(first) is Ok);
        let one = bool::built(
            kernel::kernel_rows::<(T, T), PrimitiveComparisonKernel>(&function.kernel, first, 1),
        );
        assert(mask::all_true(one.valid_bits()));
        assert(<(T, T)>::row_at(first, 0) == (
            T::of_payload(lhs.cells[0].value),
            T::of_payload(rhs.cells[0].value),
        ));
        assert(one.cells[0] == CellV { valid: true, value: expected[0] });
    } else if mask::all_true(valid) {
        assert(result->Ok_0.cells =~= goal.cells);
    } else if mask::all_false(valid) {
    } else {
        let whole = ArrayV { dtype: declared, ..values };
        assert(values.len() == rows && valid.len() == rows);
        assert(values.dtype.with_nullability(declared.nullability()) == declared);
        assert(batch::finalized(function.batch_id(), declared, rows, values) == Ok::<
            ArrayV,
            Seq<char>,
        >(whole));
        assert(<T as InputElement>::dense_safe());
        assert(<(T, T) as ElementTuple>::dense_safe());
        assert(!<T as InputElement>::decode_fallible());
        assert(!<(T, T) as ElementTuple>::decode_fallible());
        assert(function.planned(&(), dtypes) == Ok::<(DTypeV, RowPolicy), Seq<char>>(
            (DTypeV::Bool(Nullability::NonNullable), RowPolicy::Dense),
        ));
        assert(result == batch::masked_execution(
            function.batch_id(),
            declared,
            valid,
            batch::RowExecutionV::Output(values),
        ));
        assert(result->Ok_0.cells =~= goal.cells);
    }
}

/// Whether two columns can be compared as primitives, or what is said where they cannot.
pub open spec fn comparable(lhs: DTypeV, rhs: DTypeV) -> Result<PType, Seq<char>> {
    match lhs {
        DTypeV::Primitive(ptype, _) => if rhs matches DTypeV::Primitive(other, _) && other == ptype {
            Ok(ptype)
        } else {
            Err(primitive::wrong_column(ptype.text(), rhs))
        },
        _ => Err(primitive::wrong_column("primitive"@, lhs)),
    }
}

/// Compare two primitive columns of the same type.
///
/// Floats compare in their total order, with signed zeros and NaN patterns told apart, and equality
/// is bitwise.
pub fn compare_primitive(
    lhs: &Array,
    rhs: &Array,
    op: CompareOperator,
    features: CpuFeatures,
) -> (out: VortexResult<Array>)
    requires
        lhs@.len() == rhs@.len(),
    ensures
        vtable::outcome(out) == (match comparable(lhs@.dtype, rhs@.dtype) {
            Ok(ptype) => Ok(
                zip::zipped(
                    compared_dtype(lhs@.dtype, rhs@.dtype),
                    lhs@,
                    rhs@,
                    primitive_values(ptype, op, lhs@, rhs@),
                ),
            ),
            Err(text) => Err::<ArrayV, Seq<char>>(text),
        }),
{
    let ptype = match lhs.dtype() {
        DType::Primitive(ptype, _) => *ptype,
        _ => return Err(wrong_column_error("primitive", lhs.dtype())),
    };
    let same = match rhs.dtype() {
        DType::Primitive(other, _) => *other == ptype,
        _ => false,
    };
    if !same {
        return Err(wrong_column_error(ptype.name(), rhs.dtype()));
    }
    match ptype {
        PType::U8 => {
            assert(primitive_values(ptype, op, lhs@, rhs@) =~= typed_values::<u8>(op, lhs@, rhs@));
            compare_typed::<u8>(lhs, rhs, op, features)
        },
        PType::U16 => {
            assert(primitive_values(ptype, op, lhs@, rhs@) =~= typed_values::<u16>(op, lhs@, rhs@));
            compare_typed::<u16>(lhs, rhs, op, features)
        },
        PType::U32 => {
            assert(primitive_values(ptype, op, lhs@, rhs@) =~= typed_values::<u32>(op, lhs@, rhs@));
            compare_typed::<u32>(lhs, rhs, op, features)
        },
        PType::U64 => {
            assert(primitive_values(ptype, op, lhs@, rhs@) =~= typed_values::<u64>(op, lhs@, rhs@));
            compare_typed::<u64>(lhs, rhs, op, features)
        },
        PType::I8 => {
            assert(primitive_values(ptype, op, lhs@, rhs@) =~= typed_values::<i8>(op, lhs@, rhs@));
            compare_typed::<i8>(lhs, rhs, op, features)
        },
        PType::I16 => {
            assert(primitive_values(ptype, op, lhs@, rhs@) =~= typed_values::<i16>(op, lhs@, rhs@));
            compare_typed::<i16>(lhs, rhs, op, features)
        },
        PType::I32 => {
            assert(primitive_values(ptype, op, lhs@, rhs@) =~= typed_values::<i32>(op, lhs@, rhs@));
            compare_typed::<i32>(lhs, rhs, op, features)
        },
        PType::I64 => {
            assert(primitive_values(ptype, op, lhs@, rhs@) =~= typed_values::<i64>(op, lhs@, rhs@));
            compare_typed::<i64>(lhs, rhs, op, features)
        },
        PType::F16 => {
            assert(primitive_values(ptype, op, lhs@, rhs@) =~= typed_values::<F16>(op, lhs@, rhs@));
            compare_typed::<F16>(lhs, rhs, op, features)
        },
        PType::F32 => {
            assert(primitive_values(ptype, op, lhs@, rhs@) =~= typed_values::<F32>(op, lhs@, rhs@));
            compare_typed::<F32>(lhs, rhs, op, features)
        },
        PType::F64 => {
            assert(primitive_values(ptype, op, lhs@, rhs@) =~= typed_values::<F64>(op, lhs@, rhs@));
            compare_typed::<F64>(lhs, rhs, op, features)
        },
    }
}

} // verus!
