//! Row functions that write into a column under construction.

use vstd::prelude::*;

use crate::array::{Array, ArrayV};
use crate::dtype::{DType, DTypeV};
use crate::error::{VortexError, VortexResult};
use crate::mask::Mask;
use crate::scalar_fn::row::batch::{RowBatch, RowExecution, RowExecutionV};
use crate::scalar_fn::row::deferred;
use crate::scalar_fn::row::element::{self, OutputElement};
use crate::scalar_fn::row::policy::{self, BatchPlan, RowPolicy};
use crate::scalar_fn::row::result::SinkResult;
use crate::scalar_fn::row::tuple::ElementTuple;
use crate::scalar_fn::vtable::{self, ExecutionArgs};
use crate::text::join2;
use crate::value::ValueV;

verus! {

/// A column allocated once per batch and written one row at a time.
pub trait OutputSink: Sized {
    /// The type of the column, given the input types. It must not be nullable.
    spec fn sink_type(dtypes: Seq<DTypeV>) -> Result<DTypeV, Seq<char>>;

    /// The payloads written so far.
    spec fn held(&self) -> Seq<ValueV>;

    /// The payloads of a fresh sink, or what is said where none can be made.
    spec fn fresh(rows: nat, dtype: DTypeV) -> Result<Seq<ValueV>, Seq<char>>;

    /// The column of these payloads.
    spec fn finished(rows: Seq<ValueV>) -> Result<ArrayV, Seq<char>>;

    /// A finished column has one valid row for each payload, in order.
    proof fn finished_in_order(rows: Seq<ValueV>)
        ensures
            Self::finished(rows) matches Ok(out) ==> element::in_order(out, rows),
    ;

    fn sink_dtype(dtypes: &Vec<DType>) -> (out: VortexResult<DType>)
        ensures
            vtable::dtype_outcome(out) == Self::sink_type(vtable::dtypes_model(dtypes@)),
    ;

    /// Allocate a sink.
    fn with_capacity(rows: usize, dtype: &DType) -> (out: VortexResult<Self>)
        ensures
            match out {
                Ok(sink) => Self::fresh(rows as nat, dtype@) == Ok::<Seq<ValueV>, Seq<char>>(
                    sink.held(),
                ) && sink.held().len() == rows,
                Err(error) => Self::fresh(rows as nat, dtype@) == Err::<Seq<ValueV>, Seq<char>>(
                    error@,
                ),
            },
    ;

    /// Finish into the column.
    fn finish(self) -> (out: VortexResult<Array>)
        ensures
            vtable::outcome(out) == Self::finished(self.held()),
    ;
}

/// A row function that writes each row into a sink.
pub trait SinkRowFn {
    type Options;

    type Args: ElementTuple;

    type Sink: OutputSink;

    /// What writing a row reports.
    type Ret: SinkResult;

    spec fn sink_id(&self) -> Seq<char>;

    /// The payload of a row.
    spec fn written(&self, options: &Self::Options, row: <Self::Args as ElementTuple>::V) -> ValueV;

    /// What is said of a row that fails at once.
    spec fn immediate(&self, options: &Self::Options, row: <Self::Args as ElementTuple>::V) -> Result<
        (),
        Seq<char>,
    >;

    /// The row fails, to be reported at the end of the batch.
    spec fn fails(&self, options: &Self::Options, row: <Self::Args as ElementTuple>::V) -> bool;

    /// What is said if some row failed by the end of the batch.
    spec fn failure_text(&self, options: &Self::Options) -> Seq<char>;

    fn id(&self) -> (out: String)
        ensures
            out@ == self.sink_id(),
    ;

    /// Write row `index`.
    fn write<'a>(
        &self,
        options: &Self::Options,
        row: <Self::Args as ElementTuple>::Elems<'a>,
        sink: &mut Self::Sink,
        index: usize,
    ) -> (out: Self::Ret)
        requires
            index < old(sink).held().len(),
        ensures
            out.immediate() == self.immediate(options, Self::Args::meaning(row)),
            out.deferred() == self.fails(options, Self::Args::meaning(row)),
            out.immediate() is Ok ==> final(sink).held() == old(sink).held().update(
                index as int,
                self.written(options, Self::Args::meaning(row)),
            ),
    ;

    /// The error of a batch in which some row failed.
    fn failure(&self, options: &Self::Options) -> (out: VortexError)
        ensures
            out@ == self.failure_text(options),
    ;
}

/// A sink of one owned value per row.
pub struct ElementSink<T> {
    values: Vec<T>,
}

impl<T: OutputElement> ElementSink<T> {
    pub closed spec fn values(&self) -> Seq<T> {
        self.values@
    }

    /// Set the value of row `index`.
    pub fn write(&mut self, index: usize, value: T)
        requires
            index < old(self).values().len(),
        ensures
            final(self).values() == old(self).values().update(index as int, value),
            final(self).held() == old(self).held().update(index as int, value.payload()),
    {
        self.values.set(index, value);
        assert(self.held() =~= old(self).held().update(index as int, value.payload()));
    }
}

impl<T: OutputElement> OutputSink for ElementSink<T> {
    open spec fn sink_type(dtypes: Seq<DTypeV>) -> Result<DTypeV, Seq<char>> {
        Ok(T::element_type())
    }

    open spec fn held(&self) -> Seq<ValueV> {
        Seq::new(self.values().len(), |i: int| self.values()[i].payload())
    }

    open spec fn fresh(rows: nat, dtype: DTypeV) -> Result<Seq<ValueV>, Seq<char>> {
        Ok(Seq::new(rows, |i: int| T::placeholder_payload()))
    }

    open spec fn finished(rows: Seq<ValueV>) -> Result<ArrayV, Seq<char>> {
        Ok(T::built(rows))
    }

    proof fn finished_in_order(rows: Seq<ValueV>) {
        T::built_in_order(rows);
    }

    fn sink_dtype(dtypes: &Vec<DType>) -> (out: VortexResult<DType>) {
        Ok(T::element_dtype())
    }

    fn with_capacity(rows: usize, dtype: &DType) -> (out: VortexResult<Self>) {
        let mut values: Vec<T> = Vec::new();
        let mut index: usize = 0;
        while index < rows
            invariant
                index <= rows,
                values@.len() == index,
                forall|i: int|
                    0 <= i < index ==> (#[trigger] values@[i]).payload()
                        == T::placeholder_payload(),
            decreases rows - index,
        {
            values.push(T::placeholder());
            index = index + 1;
        }
        let sink = ElementSink { values };
        assert(sink.held() =~= Seq::new(rows as nat, |i: int| T::placeholder_payload()));
        Ok(sink)
    }

    fn finish(self) -> (out: VortexResult<Array>) {
        Ok(T::build(self.values))
    }
}

/// What is said of a sink whose type is nullable.
pub open spec fn nullable_sink(dtype: DTypeV) -> Seq<char> {
    "row output sinks must declare a non-nullable dtype, got "@ + dtype.text()
}

/// The output type of a sink-writing row function.
pub open spec fn row_sink_dtype<A: ElementTuple, S: OutputSink>(dtypes: Seq<DTypeV>) -> Result<
    DTypeV,
    Seq<char>,
> {
    match A::accepts(dtypes) {
        Err(error) => Err(error),
        Ok(()) => match S::sink_type(dtypes) {
            Err(error) => Err(error),
            Ok(dtype) => if dtype.nullable() {
                Err(nullable_sink(dtype))
            } else {
                Ok(dtype)
            },
        },
    }
}

/// Check the input types of a sink-writing row function and return the type its sink builds.
pub fn validate_row_sink<A: ElementTuple, S: OutputSink>(dtypes: &Vec<DType>) -> (out: VortexResult<
    DType,
>)
    ensures
        vtable::dtype_outcome(out) == row_sink_dtype::<A, S>(vtable::dtypes_model(dtypes@)),
{
    if let Err(error) = A::validate(dtypes) {
        return Err(error);
    }
    let dtype = match S::sink_dtype(dtypes) {
        Ok(dtype) => dtype,
        Err(error) => return Err(error),
    };
    if dtype.is_nullable() {
        return Err(
            VortexError::new(
                join2(
                    "row output sinks must declare a non-nullable dtype, got ",
                    dtype.to_text().as_str(),
                ),
            ),
        );
    }
    Ok(dtype)
}

/// The sink after the first `n` rows, or what is said at the first row that fails at once.
pub open spec fn filled<F: SinkRowFn>(
    function: &F,
    options: &F::Options,
    args: Seq<ArrayV>,
    start: Seq<ValueV>,
    n: nat,
) -> Result<Seq<ValueV>, Seq<char>>
    decreases n,
{
    if n == 0 {
        Ok(start)
    } else {
        match filled(function, options, args, start, (n - 1) as nat) {
            Err(error) => Err(error),
            Ok(held) => match function.immediate(options, F::Args::row_at(args, n - 1)) {
                Err(error) => Err(error),
                Ok(()) => Ok(
                    held.update(n - 1, function.written(options, F::Args::row_at(args, n - 1))),
                ),
            },
        }
    }
}

proof fn filled_stops<F: SinkRowFn>(
    function: &F,
    options: &F::Options,
    args: Seq<ArrayV>,
    start: Seq<ValueV>,
    m: nat,
    n: nat,
)
    requires
        m <= n,
        filled(function, options, args, start, m) is Err,
    ensures
        filled(function, options, args, start, n) == filled(function, options, args, start, m),
    decreases n - m,
{
    if m < n {
        filled_stops(function, options, args, start, m, (n - 1) as nat);
    }
}

/// Some row of the first `rows` fails by the end of the batch.
pub open spec fn sink_fails<F: SinkRowFn>(
    function: &F,
    options: &F::Options,
    args: Seq<ArrayV>,
    rows: nat,
) -> bool {
    exists|r: int|
        0 <= r < rows && #[trigger] function.fails(options, F::Args::row_at(args, r))
}

/// The sink-writing loop over every row.
pub open spec fn sink_result<F: SinkRowFn>(
    function: &F,
    options: &F::Options,
    args: Seq<ArrayV>,
    rows: nat,
) -> Result<RowExecutionV, Seq<char>> {
    match F::Sink::sink_type(vtable::dtypes_of(args)) {
        Err(error) => Err(error),
        Ok(dtype) => match F::Sink::fresh(rows, dtype) {
            Err(error) => Err(error),
            Ok(start) => match F::Args::decodes(args) {
                Err(error) => Err(error),
                Ok(()) => match filled(function, options, args, start, rows) {
                    Err(error) => Err(error),
                    Ok(held) => if sink_fails(function, options, args, rows) {
                        Ok(RowExecutionV::Deferred(function.failure_text(options)))
                    } else {
                        match F::Sink::finished(held) {
                            Err(error) => Err(error),
                            Ok(array) => Ok(RowExecutionV::Output(array)),
                        }
                    },
                },
            },
        },
    }
}

/// Allocate the sink once, decode every input column once, then write one row at a time.
pub fn execute_row_sink<F: SinkRowFn>(
    function: &F,
    options: &F::Options,
    args: &ExecutionArgs,
) -> (out: VortexResult<RowExecution>)
    requires
        args.well_formed(),
        args@.len() == <F::Args as ElementTuple>::arity(),
        <F::Args as ElementTuple>::dense_safe() || vtable::all_valid(args@, args.row_count as nat),
    ensures
        crate::scalar_fn::row::batch::run_outcome(out) == sink_result(
            function,
            options,
            args@,
            args.row_count as nat,
        ),
{
    let row_count: usize = args.row_count;
    let dtypes = args.dtypes();
    let dtype = match F::Sink::sink_dtype(&dtypes) {
        Ok(dtype) => dtype,
        Err(error) => return Err(error),
    };
    let mut sink = match F::Sink::with_capacity(row_count, &dtype) {
        Ok(sink) => sink,
        Err(error) => return Err(error),
    };
    let ghost start = sink.held();
    let columns = match F::Args::decode(args) {
        Ok(columns) => columns,
        Err(error) => return Err(error),
    };
    proof {
        assert forall|r: int| 0 <= r < args.row_count implies (#[trigger] F::Args::can_get(
            &columns,
            r,
        )) && F::Args::at(&columns, r) == F::Args::row_at(args@, r) by {
            assert(<F::Args as ElementTuple>::dense_safe() || vtable::valid_at(args@, r));
        }
    }
    let mut failures = F::Ret::start();
    let mut index: usize = 0;
    while index < row_count
        invariant
            index <= row_count == args.row_count,
            deferred::reads_dense_rows::<F::Args>(&columns, args@, args.row_count as nat),
            sink.held().len() == row_count,
            filled(function, options, args@, start, index as nat) == Ok::<Seq<ValueV>, Seq<char>>(
                sink.held(),
            ),
            F::Ret::failure(failures) == sink_fails(function, options, args@, index as nat),
            F::Sink::sink_type(vtable::dtypes_of(args@)) == Ok::<DTypeV, Seq<char>>(dtype@),
            F::Sink::fresh(row_count as nat, dtype@) == Ok::<Seq<ValueV>, Seq<char>>(start),
            F::Args::decodes(args@) is Ok,
        decreases row_count - index,
    {
        assert(F::Args::can_get(&columns, index as int));
        let result = function.write(options, F::Args::get(&columns, index), &mut sink, index);
        let ghost failed = result.deferred();
        if let Err(error) = result.accumulate(&mut failures) {
            proof {
                filled_stops(
                    function,
                    options,
                    args@,
                    start,
                    (index + 1) as nat,
                    row_count as nat,
                );
            }
            return Err(error);
        }
        proof {
            if sink_fails(function, options, args@, (index + 1) as nat) {
                let r = choose|r: int|
                    0 <= r < index + 1 && #[trigger] function.fails(
                        options,
                        F::Args::row_at(args@, r),
                    );
                if r < index {
                    assert(sink_fails(function, options, args@, index as nat));
                }
            }
            if failed {
                assert(function.fails(options, F::Args::row_at(args@, index as int)));
            }
        }
        index = index + 1;
    }
    if F::Ret::occurred(&failures) {
        return Ok(RowExecution::Deferred(function.failure(options)));
    }
    match sink.finish() {
        Ok(array) => Ok(RowExecution::Output(array)),
        Err(error) => Err(error),
    }
}

/// A sink-writing row function as a batch function.
pub struct SinkFn<F> {
    pub function: F,
}

impl<F: SinkRowFn> RowBatch for SinkFn<F> {
    type Options = F::Options;

    open spec fn batch_id(&self) -> Seq<char> {
        self.function.sink_id()
    }

    open spec fn batch_arity(&self, options: &F::Options) -> nat {
        <F::Args as ElementTuple>::arity() as nat
    }

    open spec fn planned(&self, options: &F::Options, dtypes: Seq<DTypeV>) -> Result<
        (DTypeV, RowPolicy),
        Seq<char>,
    > {
        match row_sink_dtype::<F::Args, F::Sink>(dtypes) {
            Err(error) => Err(error),
            Ok(dtype) => Ok(
                (
                    dtype,
                    if policy::dense_arguments::<F::Args>() && !<F::Ret as SinkResult>::fallible() {
                        if <F::Ret as SinkResult>::deferrable() {
                            RowPolicy::DenseWithRetry
                        } else {
                            RowPolicy::Dense
                        }
                    } else {
                        RowPolicy::ValidOnly {
                            filtered_decode_cost: <F::Args as ElementTuple>::decode_cost(),
                        }
                    },
                ),
            ),
        }
    }

    open spec fn needs_valid(&self, options: &F::Options) -> bool {
        !<F::Args as ElementTuple>::dense_safe()
    }

    open spec fn ran(&self, options: &F::Options, args: Seq<ArrayV>, rows: nat) -> Result<
        RowExecutionV,
        Seq<char>,
    > {
        sink_result(&self.function, options, args, rows)
    }

    /// A sink takes its rows in order, so none can be skipped.
    open spec fn ran_valid(
        &self,
        options: &F::Options,
        args: Seq<ArrayV>,
        rows: nat,
        valid: Seq<bool>,
    ) -> Result<Option<RowExecutionV>, Seq<char>> {
        Ok(None)
    }

    fn id(&self) -> (out: String) {
        self.function.id()
    }

    fn plan(&self, options: &F::Options, dtypes: &Vec<DType>) -> (out: VortexResult<BatchPlan>) {
        match validate_row_sink::<F::Args, F::Sink>(dtypes) {
            Err(error) => Err(error),
            Ok(output_dtype) => {
                proof {
                    F::Args::accepts_arity(vtable::dtypes_model(dtypes@));
                }
                Ok(BatchPlan { output_dtype, policy: RowPolicy::for_sink::<F::Args, F::Ret>() })
            },
        }
    }

    fn run(&self, options: &F::Options, args: &ExecutionArgs) -> (out: VortexResult<
        RowExecution,
    >) {
        execute_row_sink(&self.function, options, args)
    }

    fn run_valid(&self, options: &F::Options, args: &ExecutionArgs, valid: &Mask) -> (out:
        VortexResult<Option<RowExecution>>) {
        Ok(None)
    }
}

} // verus!
