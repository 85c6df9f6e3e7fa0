//! Executing a row function over one nullable batch.

use vstd::prelude::*;

use crate::array::{self, Array, ArrayV};
use crate::dtype::{DType, DTypeV, Nullability};
use crate::error::{VortexError, VortexResult};
use crate::mask::{self, Mask};
use crate::scalar_fn::row::policy::{self, skipping_beats_filtering, BatchPlan, RowPolicy};
use crate::scalar_fn::strict::{self, conjoin, filter_inputs, first_row_inputs, any_null_constant, every_constant, scatter_valid};
use crate::scalar_fn::vtable::{self, ExecutionArgs};
use crate::text::{self, decimal, join2, join3};

verus! {

/// What running rows produced: a column, or evidence of failure to report once it is known that a
/// valid row caused it.
#[derive(Debug)]
pub enum RowExecution {
    Output(Array),
    Deferred(VortexError),
}

/// The meaning of a [`RowExecution`].
pub enum RowExecutionV {
    Output(ArrayV),
    Deferred(Seq<char>),
}

impl View for RowExecution {
    type V = RowExecutionV;

    open spec fn view(&self) -> RowExecutionV {
        match self {
            RowExecution::Output(array) => RowExecutionV::Output(array@),
            RowExecution::Deferred(error) => RowExecutionV::Deferred(error@),
        }
    }
}

impl RowExecutionV {
    /// The column, or the deferred error.
    pub open spec fn settled(self) -> Result<ArrayV, Seq<char>> {
        match self {
            RowExecutionV::Output(array) => Ok(array),
            RowExecutionV::Deferred(error) => Err(error),
        }
    }
}

impl RowExecution {
    /// The column, or the deferred error.
    pub fn into_result(self) -> (out: VortexResult<Array>)
        ensures
            vtable::outcome(out) == self@.settled(),
    {
        match self {
            RowExecution::Output(array) => Ok(array),
            RowExecution::Deferred(error) => Err(error),
        }
    }
}

/// A run as what it produced.
pub open spec fn run_outcome(result: VortexResult<RowExecution>) -> Result<
    RowExecutionV,
    Seq<char>,
> {
    match result {
        Ok(execution) => Ok(execution@),
        Err(error) => Err(error@),
    }
}

/// An optional run as what it produced.
pub open spec fn maybe_run_outcome(result: VortexResult<Option<RowExecution>>) -> Result<
    Option<RowExecutionV>,
    Seq<char>,
> {
    match result {
        Ok(Some(execution)) => Ok(Some(execution@)),
        Ok(None) => Ok(None),
        Err(error) => Err(error@),
    }
}

/// A plan as its type and policy.
pub open spec fn plan_outcome(result: VortexResult<BatchPlan>) -> Result<
    (DTypeV, RowPolicy),
    Seq<char>,
> {
    match result {
        Ok(plan) => Ok((plan.output_dtype@, plan.policy)),
        Err(error) => Err(error@),
    }
}

/// A row function at concrete element types.
pub trait RowBatch {
    type Options;

    spec fn batch_id(&self) -> Seq<char>;

    /// The number of arguments.
    spec fn batch_arity(&self, options: &Self::Options) -> nat;

    /// The output type and policy for these input types.
    spec fn planned(&self, options: &Self::Options, dtypes: Seq<DTypeV>) -> Result<
        (DTypeV, RowPolicy),
        Seq<char>,
    >;

    /// Rows may be run only where every input is valid.
    spec fn needs_valid(&self, options: &Self::Options) -> bool;

    /// Running every row.
    spec fn ran(&self, options: &Self::Options, args: Seq<ArrayV>, rows: nat) -> Result<
        RowExecutionV,
        Seq<char>,
    >;

    /// Running the rows of a mask in place; `None` where there is no such execution.
    spec fn ran_valid(
        &self,
        options: &Self::Options,
        args: Seq<ArrayV>,
        rows: nat,
        valid: Seq<bool>,
    ) -> Result<Option<RowExecutionV>, Seq<char>>;

    fn id(&self) -> (out: String)
        ensures
            out@ == self.batch_id(),
    ;

    /// Check the input types and select the policy.
    fn plan(&self, options: &Self::Options, dtypes: &Vec<DType>) -> (out: VortexResult<BatchPlan>)
        ensures
            plan_outcome(out) == self.planned(options, vtable::dtypes_model(dtypes@)),
            out matches Ok(plan) ==> (self.needs_valid(options) ==> plan.policy is ValidOnly),
            out is Ok ==> dtypes@.len() == self.batch_arity(options),
    ;

    /// Run every row.
    fn run(&self, options: &Self::Options, args: &ExecutionArgs) -> (out: VortexResult<
        RowExecution,
    >)
        requires
            args.well_formed(),
            args@.len() == self.batch_arity(options),
            self.needs_valid(options) ==> vtable::all_valid(args@, args.row_count as nat),
        ensures
            run_outcome(out) == self.ran(options, args@, args.row_count as nat),
    ;

    /// Run the rows of a mask in place.
    fn run_valid(&self, options: &Self::Options, args: &ExecutionArgs, valid: &Mask) -> (out:
        VortexResult<Option<RowExecution>>)
        requires
            args.well_formed(),
            args@.len() == self.batch_arity(options),
            valid@.len() == args.row_count,
            forall|r: int|
                0 <= r < args.row_count && #[trigger] valid@[r] ==> vtable::valid_at(args@, r),
        ensures
            maybe_run_outcome(out) == self.ran_valid(
                options,
                args@,
                args.row_count as nat,
                valid@,
            ),
    ;
}

/// What is said of an output of another length.
pub open spec fn wrong_rows(id: Seq<char>, expected: nat, produced: nat) -> Seq<char> {
    id + ": row output must contain "@ + text::decimal_text(expected) + " rows, got "@
        + text::decimal_text(produced)
}

/// What is said of an output of another type.
pub open spec fn wrong_dtype(id: Seq<char>, expected: DTypeV, produced: DTypeV) -> Seq<char> {
    id + ": row output dtype must match "@ + expected.text() + ", got "@ + produced.text()
}

/// What is said of an output with nulls.
pub open spec fn produced_nulls(id: Seq<char>) -> Seq<char> {
    id + ": row kernel must produce only valid rows"@
}

/// An output at the function's boundary: of the right length, of the declared type but for the
/// outer nullability, and without nulls.
pub open spec fn finalized(id: Seq<char>, declared: DTypeV, rows: nat, values: ArrayV) -> Result<
    ArrayV,
    Seq<char>,
> {
    if values.len() != rows {
        Err(wrong_rows(id, rows, values.len()))
    } else if values.dtype.with_nullability(declared.nullability()) != declared {
        Err(wrong_dtype(id, declared, values.dtype))
    } else if !mask::all_true(values.valid_bits()) {
        Err(produced_nulls(id))
    } else {
        Ok(ArrayV { dtype: declared, ..values })
    }
}

/// Check an output at the function's boundary.
pub fn finalize_kernel_output(id: &str, declared: &DType, rows: usize, values: Array) -> (out:
    VortexResult<Array>)
    ensures
        vtable::outcome(out) == finalized(id@, declared@, rows as nat, values@),
{
    if values.len() != rows {
        let mut message = join3(
            id,
            ": row output must contain ",
            decimal(rows as u64).as_str(),
        );
        message.append(" rows, got ");
        message.append(decimal(values.len() as u64).as_str());
        return Err(VortexError::new(message));
    }
    if !values.dtype().with_nullability(declared.nullability()).same_as(declared) {
        let mut message = join3(id, ": row output dtype must match ", declared.to_text().as_str());
        message.append(", got ");
        message.append(values.dtype().to_text().as_str());
        return Err(VortexError::new(message));
    }
    if !values.valid_mask().all_true() {
        return Err(VortexError::new(join2(id, ": row kernel must produce only valid rows")));
    }
    Ok(Array { dtype: declared.clone(), repr: values.repr })
}

/// A full-length execution with the rows outside the mask made null.
pub open spec fn masked_execution(
    id: Seq<char>,
    declared: DTypeV,
    valid: Seq<bool>,
    execution: RowExecutionV,
) -> Result<ArrayV, Seq<char>> {
    match execution {
        RowExecutionV::Deferred(error) => Err(error),
        RowExecutionV::Output(values) => match finalized(id, declared, valid.len(), values) {
            Err(error) => Err(error),
            Ok(array) => Ok(array.mask(valid)),
        },
    }
}

/// Filtering the inputs, running every row and scattering the output.
pub open spec fn filtered_run<F: RowBatch>(
    function: &F,
    options: &F::Options,
    args: Seq<ArrayV>,
    valid: Seq<bool>,
    declared: DTypeV,
) -> Result<ArrayV, Seq<char>> {
    let given = mask::true_count(valid);
    match function.ran(options, strict::filtered(args, valid), given) {
        Err(error) => Err(error),
        Ok(execution) => match execution {
            RowExecutionV::Deferred(error) => Err(error),
            RowExecutionV::Output(values) => match finalized(
                function.batch_id(),
                declared,
                given,
                values,
            ) {
                Err(error) => Err(error),
                Ok(array) => strict::scatter_result(array, valid),
            },
        },
    }
}

/// Running only the valid rows, in place where that is possible.
pub open spec fn valid_run<F: RowBatch>(
    function: &F,
    options: &F::Options,
    args: Seq<ArrayV>,
    rows: nat,
    valid: Seq<bool>,
    declared: DTypeV,
) -> Result<ArrayV, Seq<char>> {
    match function.ran_valid(options, args, rows, valid) {
        Err(error) => Err(error),
        Ok(Some(execution)) => masked_execution(
            function.batch_id(),
            declared,
            valid,
            execution,
        ),
        Ok(None) => filtered_run(function, options, args, valid, declared),
    }
}

/// The batch's result under a policy, for a mask with both valid and invalid rows.
pub open spec fn mixed_run<F: RowBatch>(
    function: &F,
    options: &F::Options,
    args: Seq<ArrayV>,
    rows: nat,
    valid: Seq<bool>,
    declared: DTypeV,
    policy: RowPolicy,
) -> Result<ArrayV, Seq<char>> {
    match policy {
        RowPolicy::Dense => match function.ran(options, args, rows) {
            Err(error) => Err(error),
            Ok(execution) => masked_execution(function.batch_id(), declared, valid, execution),
        },
        RowPolicy::DenseWithRetry => match function.ran(options, args, rows) {
            Err(error) => Err(error),
            Ok(RowExecutionV::Deferred(_)) => valid_run(
                function,
                options,
                args,
                rows,
                valid,
                declared,
            ),
            Ok(execution) => masked_execution(function.batch_id(), declared, valid, execution),
        },
        RowPolicy::ValidOnly { filtered_decode_cost } => if policy::skipping_preferred(
            filtered_decode_cost as nat,
            valid,
        ) {
            valid_run(function, options, args, rows, valid, declared)
        } else {
            filtered_run(function, options, args, valid, declared)
        },
    }
}

/// Running every row of a batch whose inputs are all valid.
pub open spec fn whole_run<F: RowBatch>(
    function: &F,
    options: &F::Options,
    args: Seq<ArrayV>,
    rows: nat,
    declared: DTypeV,
) -> Result<ArrayV, Seq<char>> {
    match function.ran(options, args, rows) {
        Err(error) => Err(error),
        Ok(execution) => match execution.settled() {
            Err(error) => Err(error),
            Ok(values) => finalized(function.batch_id(), declared, rows, values),
        },
    }
}

/// The result of a batch.
pub open spec fn batch_result<F: RowBatch>(
    function: &F,
    options: &F::Options,
    args: Seq<ArrayV>,
    rows: nat,
) -> Result<ArrayV, Seq<char>> {
    let dtypes = vtable::dtypes_of(args);
    match function.planned(options, dtypes) {
        Err(error) => Err(error),
        Ok((element, policy)) => {
            let declared = element.with_nullability(
                element.nullability().union(Nullability::of(strict::any_nullable(dtypes))),
            );
            let valid = strict::conjoined(args).bits(rows);
            if strict::has_null_constant(args) {
                Ok(array::all_null(declared, rows))
            } else if args.len() > 0 && rows > 0 && strict::all_constant(args) {
                match whole_run(function, options, strict::first_rows(args), 1, declared) {
                    Err(error) => Err(error),
                    Ok(one) => Ok(array::constant(declared, one.cells[0], rows)),
                }
            } else if mask::all_true(valid) {
                whole_run(function, options, args, rows, declared)
            } else if mask::all_false(valid) {
                Ok(array::all_null(declared, rows))
            } else {
                mixed_run(function, options, args, rows, valid, declared, policy)
            }
        },
    }
}

fn finish_masked(id: &str, declared: &DType, valid: &Mask, execution: RowExecution) -> (out:
    VortexResult<Array>)
    ensures
        vtable::outcome(out) == masked_execution(id@, declared@, valid@, execution@),
{
    match execution {
        RowExecution::Deferred(error) => Err(error),
        RowExecution::Output(values) => match finalize_kernel_output(
            id,
            declared,
            valid.len(),
            values,
        ) {
            Err(error) => Err(error),
            Ok(array) => Ok(array.mask(valid)),
        },
    }
}

fn run_filtered<F: RowBatch>(
    function: &F,
    options: &F::Options,
    args: &ExecutionArgs,
    valid: &Mask,
    declared: &DType,
) -> (out: VortexResult<Array>)
    requires
        args.well_formed(),
        args@.len() == function.batch_arity(options),
        valid@ == strict::conjoined(args@).bits(args.row_count as nat),
        !mask::all_false(valid@),
    ensures
        vtable::outcome(out) == filtered_run(function, options, args@, valid@, declared@),
{
    proof {
        strict::conjoined_rows(args@, args.row_count as nat);
        strict::filtered_is_valid(args@, valid@);
    }
    let given = filter_inputs(args, valid);
    match function.run(options, &given) {
        Err(error) => Err(error),
        Ok(RowExecution::Deferred(error)) => Err(error),
        Ok(RowExecution::Output(values)) => match finalize_kernel_output(
            function.id().as_str(),
            declared,
            given.row_count,
            values,
        ) {
            Err(error) => Err(error),
            Ok(array) => scatter_valid(array, valid),
        },
    }
}

fn run_valid_rows<F: RowBatch>(
    function: &F,
    options: &F::Options,
    args: &ExecutionArgs,
    valid: &Mask,
    declared: &DType,
) -> (out: VortexResult<Array>)
    requires
        args.well_formed(),
        args@.len() == function.batch_arity(options),
        valid@ == strict::conjoined(args@).bits(args.row_count as nat),
        !mask::all_false(valid@),
    ensures
        vtable::outcome(out) == valid_run(
            function,
            options,
            args@,
            args.row_count as nat,
            valid@,
            declared@,
        ),
{
    proof {
        strict::conjoined_rows(args@, args.row_count as nat);
    }
    match function.run_valid(options, args, valid) {
        Err(error) => Err(error),
        Ok(Some(execution)) => finish_masked(function.id().as_str(), declared, valid, execution),
        Ok(None) => run_filtered(function, options, args, valid, declared),
    }
}

fn run_whole<F: RowBatch>(
    function: &F,
    options: &F::Options,
    args: &ExecutionArgs,
    declared: &DType,
) -> (out: VortexResult<Array>)
    requires
        args.well_formed(),
        args@.len() == function.batch_arity(options),
        vtable::all_valid(args@, args.row_count as nat),
    ensures
        vtable::outcome(out) == whole_run(
            function,
            options,
            args@,
            args.row_count as nat,
            declared@,
        ),
{
    match function.run(options, args) {
        Err(error) => Err(error),
        Ok(execution) => match execution.into_result() {
            Err(error) => Err(error),
            Ok(values) => finalize_kernel_output(
                function.id().as_str(),
                declared,
                args.row_count,
                values,
            ),
        },
    }
}

/// Execute a row function over one batch.
pub fn execute_rows<F: RowBatch>(function: &F, options: &F::Options, args: &ExecutionArgs) -> (out:
    VortexResult<Array>)
    requires
        args.well_formed(),
    ensures
        vtable::outcome(out) == batch_result(function, options, args@, args.row_count as nat),
{
    let dtypes = args.dtypes();
    let plan = match function.plan(options, &dtypes) {
        Ok(plan) => plan,
        Err(error) => return Err(error),
    };
    assert(dtypes@.len() == args@.len()) by {
        assert(vtable::dtypes_model(dtypes@).len() == vtable::dtypes_of(args@).len());
    }
    let element = plan.output_dtype;
    let nullable = strict::any_is_nullable(&dtypes);
    let declared = element.with_nullability(
        element.nullability().or(Nullability::from_bool(nullable)),
    );
    if any_null_constant(args) {
        return Ok(Array::all_null(declared, args.row_count));
    }
    if args.inputs.len() > 0 && args.row_count > 0 && every_constant(args) {
        let one_row = first_row_inputs(args);
        proof {
            strict::constants_are_valid(args@, args.row_count as nat);
        }
        return match run_whole(function, options, &one_row, &declared) {
            Err(error) => Err(error),
            Ok(one) => Ok(Array::constant(declared, one.cell(0), args.row_count)),
        };
    }
    let valid = conjoin(args).execute_mask(args.row_count);
    proof {
        strict::conjoined_rows(args@, args.row_count as nat);
    }
    if valid.all_true() {
        return run_whole(function, options, args, &declared);
    }
    if valid.all_false() {
        return Ok(Array::all_null(declared, args.row_count));
    }
    match plan.policy {
        RowPolicy::Dense => match function.run(options, args) {
            Err(error) => Err(error),
            Ok(execution) => finish_masked(function.id().as_str(), &declared, &valid, execution),
        },
        RowPolicy::DenseWithRetry => match function.run(options, args) {
            Err(error) => Err(error),
            Ok(RowExecution::Deferred(_)) => run_valid_rows(
                function,
                options,
                args,
                &valid,
                &declared,
            ),
            Ok(RowExecution::Output(values)) => finish_masked(
                function.id().as_str(),
                &declared,
                &valid,
                RowExecution::Output(values),
            ),
        },
        RowPolicy::ValidOnly { filtered_decode_cost } => {
            if skipping_beats_filtering(filtered_decode_cost, &valid) {
                run_valid_rows(function, options, args, &valid, &declared)
            } else {
                run_filtered(function, options, args, &valid, &declared)
            }
        },
    }
}

} // verus!
