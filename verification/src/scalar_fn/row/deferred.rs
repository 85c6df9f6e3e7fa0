//! Row functions that write a provisional value in every row and report failure once per batch.

use vstd::prelude::*;

use crate::array::ArrayV;
use crate::dtype::{DType, DTypeV};
use crate::error::{VortexError, VortexResult};
use crate::mask::{self, Mask};
use crate::scalar_fn::row::batch::{RowBatch, RowExecution, RowExecutionV};
use crate::scalar_fn::row::element::{self, OutputElement};
use crate::scalar_fn::row::kernel;
use crate::scalar_fn::row::policy::{self, BatchPlan, RowPolicy};
use crate::scalar_fn::row::result::SinkResult;
use crate::scalar_fn::row::row_fn::{self, validate_row_args};
use crate::scalar_fn::row::tuple::{self, ElementTuple};
use crate::scalar_fn::vtable::{self, ExecutionArgs};
use crate::value::ValueV;

verus! {

/// A row function whose failures are evidence reduced over the batch.
pub trait DeferredRowFn {
    type Options;

    /// The input elements of a row.
    type Args: ElementTuple;

    /// The element that a row produces.
    type Out: OutputElement;

    /// The evidence of failure.
    type Failure: SinkResult;

    /// What is prepared once per run from the constant operands.
    type State;

    spec fn deferred_id(&self) -> Seq<char>;

    /// The value of a row, provisional where the row fails.
    spec fn value_of(&self, options: &Self::Options, row: <Self::Args as ElementTuple>::V) -> ValueV;

    /// The row fails.
    spec fn fails(&self, options: &Self::Options, row: <Self::Args as ElementTuple>::V) -> bool;

    /// What is said if some row failed.
    spec fn failure_text(&self, options: &Self::Options) -> Seq<char>;

    /// `state` is what `constants` prepare.
    spec fn prepared(
        &self,
        options: &Self::Options,
        constants: <Self::Args as ElementTuple>::ConstV,
        state: Self::State,
    ) -> bool;

    fn id(&self) -> (out: String)
        ensures
            out@ == self.deferred_id(),
    ;

    fn prepare<'a>(
        &self,
        options: &Self::Options,
        constants: <Self::Args as ElementTuple>::ConstElems<'a>,
    ) -> (state: Self::State)
        ensures
            self.prepared(options, Self::Args::const_meaning(constants), state),
    ;

    /// Compute one row and its evidence.
    fn apply<'a>(
        &self,
        options: &Self::Options,
        state: &Self::State,
        row: <Self::Args as ElementTuple>::Elems<'a>,
    ) -> (out: (Self::Out, Self::Failure))
        requires
            exists|constants: <Self::Args as ElementTuple>::ConstV| #[trigger]
                self.prepared(options, constants, *state) && Self::Args::agree(
                    constants,
                    Self::Args::meaning(row),
                ),
        ensures
            out.0.payload() == self.value_of(options, Self::Args::meaning(row)),
            out.1.immediate() is Ok,
            out.1.deferred() == self.fails(options, Self::Args::meaning(row)),
    ;

    /// The error of a batch in which some row failed.
    fn failure(&self, options: &Self::Options) -> (out: VortexError)
        ensures
            out@ == self.failure_text(options),
    ;
}

/// Some row of the first `rows` fails.
pub open spec fn any_fails<F: DeferredRowFn>(
    function: &F,
    options: &F::Options,
    args: Seq<ArrayV>,
    rows: nat,
) -> bool {
    exists|r: int|
        0 <= r < rows && #[trigger] function.fails(options, F::Args::row_at(args, r))
}

/// Some row of the mask fails.
pub open spec fn any_valid_fails<F: DeferredRowFn>(
    function: &F,
    options: &F::Options,
    args: Seq<ArrayV>,
    valid: Seq<bool>,
) -> bool {
    exists|r: int|
        0 <= r < valid.len() && valid[r] && #[trigger] function.fails(
            options,
            F::Args::row_at(args, r),
        )
}

/// The values of every row.
pub open spec fn row_values<F: DeferredRowFn>(
    function: &F,
    options: &F::Options,
    args: Seq<ArrayV>,
    rows: nat,
) -> Seq<ValueV> {
    Seq::new(rows, |r: int| function.value_of(options, F::Args::row_at(args, r)))
}

/// The values of the rows of the mask, with placeholders elsewhere.
pub open spec fn valid_row_values<F: DeferredRowFn>(
    function: &F,
    options: &F::Options,
    args: Seq<ArrayV>,
    valid: Seq<bool>,
) -> Seq<ValueV> {
    Seq::new(
        valid.len(),
        |r: int|
            if valid[r] {
                function.value_of(options, F::Args::row_at(args, r))
            } else {
                F::Out::placeholder_payload()
            },
    )
}

/// A deferred row function as a batch function.
pub struct DeferredFn<F> {
    pub function: F,
}

impl<F: DeferredRowFn> DeferredFn<F> {
    /// The values of a batch of which no row is visited.
    fn placeholders(&self, options: &F::Options, args: &ExecutionArgs, valid: &Mask) -> (out: Vec<
        F::Out,
    >)
        requires
            valid@.len() == args.row_count,
            mask::all_false(valid@),
        ensures
            Seq::new(out@.len(), |i: int| out@[i].payload()) == valid_row_values(
                &self.function,
                options,
                args@,
                valid@,
            ),
            !any_valid_fails(&self.function, options, args@, valid@),
    {
        let rows: usize = valid.len();
        let mut values: Vec<F::Out> = Vec::new();
        let mut index: usize = 0;
        while index < rows
            invariant
                index <= rows,
                values@.len() == index,
                forall|i: int|
                    0 <= i < index ==> (#[trigger] values@[i]).payload()
                        == F::Out::placeholder_payload(),
            decreases rows - index,
        {
            values.push(F::Out::placeholder());
            index = index + 1;
        }
        assert(Seq::new(values@.len(), |i: int| values@[i].payload()) =~= valid_row_values(
            &self.function,
            options,
            args@,
            valid@,
        ));
        values
    }
}

impl<F: DeferredRowFn> RowBatch for DeferredFn<F> {
    type Options = F::Options;

    open spec fn batch_id(&self) -> Seq<char> {
        self.function.deferred_id()
    }

    open spec fn batch_arity(&self, options: &F::Options) -> nat {
        <F::Args as ElementTuple>::arity() as nat
    }

    open spec fn planned(&self, options: &F::Options, dtypes: Seq<DTypeV>) -> Result<
        (DTypeV, RowPolicy),
        Seq<char>,
    > {
        match row_fn::row_dtype::<F::Args, F::Out>(dtypes) {
            Err(error) => Err(error),
            Ok(dtype) => Ok(
                (
                    dtype,
                    if policy::dense_arguments::<F::Args>() {
                        RowPolicy::DenseWithRetry
                    } else {
                        RowPolicy::ValidOnly {
                            filtered_decode_cost: <F::Args as ElementTuple>::decode_cost(),
                        }
                    },
                ),
            ),
        }
    }

    open spec fn needs_valid(&self, options: &F::Options) -> bool {
        !<F::Args as ElementTuple>::dense_safe()
    }

    open spec fn ran(&self, options: &F::Options, args: Seq<ArrayV>, rows: nat) -> Result<
        RowExecutionV,
        Seq<char>,
    > {
        match F::Args::decodes(args) {
            Err(error) => Err(error),
            Ok(()) => if any_fails(&self.function, options, args, rows) {
                Ok(RowExecutionV::Deferred(self.function.failure_text(options)))
            } else {
                Ok(
                    RowExecutionV::Output(
                        F::Out::built(row_values(&self.function, options, args, rows)),
                    ),
                )
            },
        }
    }

    open spec fn ran_valid(
        &self,
        options: &F::Options,
        args: Seq<ArrayV>,
        rows: nat,
        valid: Seq<bool>,
    ) -> Result<Option<RowExecutionV>, Seq<char>> {
        match F::Args::decodes_tolerant(args) {
            Err(error) => Err(error),
            Ok(false) => Ok(None),
            Ok(true) => if any_valid_fails(&self.function, options, args, valid) {
                Ok(Some(RowExecutionV::Deferred(self.function.failure_text(options))))
            } else {
                Ok(
                    Some(
                        RowExecutionV::Output(
                            F::Out::built(valid_row_values(&self.function, options, args, valid)),
                        ),
                    ),
                )
            },
        }
    }

    fn id(&self) -> (out: String) {
        self.function.id()
    }

    fn plan(&self, options: &F::Options, dtypes: &Vec<DType>) -> (out: VortexResult<BatchPlan>) {
        match validate_row_args::<F::Args, F::Out>(dtypes) {
            Err(error) => Err(error),
            Ok(output_dtype) => {
                proof {
                    F::Args::accepts_arity(vtable::dtypes_model(dtypes@));
                }
                Ok(
                    BatchPlan {
                        output_dtype,
                        policy: RowPolicy::for_deferred_output::<F::Args>(),
                    },
                )
            },
        }
    }

    fn run(&self, options: &F::Options, args: &ExecutionArgs) -> (out: VortexResult<
        RowExecution,
    >) {
        let columns = match F::Args::decode(args) {
            Ok(columns) => columns,
            Err(error) => return Err(error),
        };
        proof {
            if !<F::Args as ElementTuple>::dense_safe() {
                assert(args.row_count > 0 ==> vtable::valid_at(args@, 0));
                tuple::valid_rows_have_no_null_constant(args@, args.row_count as nat, 0);
            }
        }
        let state = self.function.prepare(options, F::Args::constants(&columns));
        let mut failures = F::Failure::start();
        let mut values: Vec<F::Out> = Vec::new();
        let mut index: usize = 0;
        proof {
            assert forall|r: int| 0 <= r < args.row_count implies (
            #[trigger] F::Args::can_get(&columns, r)) && F::Args::at(&columns, r)
                == F::Args::row_at(args@, r) by {
                assert(<F::Args as ElementTuple>::dense_safe() || vtable::valid_at(args@, r));
            }
        }
        while index < args.row_count
            invariant
                index <= args.row_count,
                reads_dense_rows::<F::Args>(&columns, args@, args.row_count as nat),
                F::Args::can_get_constants(&columns),
                self.function.prepared(options, F::Args::constants_of(&columns), state),
                values@.len() == index,
                forall|r: int|
                    0 <= r < index ==> (#[trigger] values@[r]).payload() == row_values(
                        &self.function,
                        options,
                        args@,
                        args.row_count as nat,
                    )[r],
                F::Failure::failure(failures) == any_fails(
                    &self.function,
                    options,
                    args@,
                    index as nat,
                ),
            decreases args.row_count - index,
        {
            proof {
                assert(F::Args::can_get(&columns, index as int));
                F::Args::constants_agree(&columns, index as int);
            }
            let (value, failure) = self.function.apply(
                options,
                &state,
                F::Args::get(&columns, index),
            );
            values.push(value);
            let ghost failed = failure.deferred();
            if let Err(error) = failure.accumulate(&mut failures) {
                assert(false);
                return Err(error);
            }
            proof {
                let row = F::Args::row_at(args@, index as int);
                assert(failed == self.function.fails(options, row));
                if any_fails(&self.function, options, args@, (index + 1) as nat) {
                    let r = choose|r: int|
                        0 <= r < index + 1 && #[trigger] self.function.fails(
                            options,
                            F::Args::row_at(args@, r),
                        );
                    if r < index {
                        assert(any_fails(&self.function, options, args@, index as nat));
                    }
                }
            }
            index = index + 1;
        }
        assert(element::payloads_of(values@) =~= row_values(
            &self.function,
            options,
            args@,
            args.row_count as nat,
        ));
        if F::Failure::occurred(&failures) {
            Ok(RowExecution::Deferred(self.function.failure(options)))
        } else {
            Ok(RowExecution::Output(F::Out::build(values)))
        }
    }

    fn run_valid(&self, options: &F::Options, args: &ExecutionArgs, valid: &Mask) -> (out:
        VortexResult<Option<RowExecution>>) {
        let columns = match F::Args::decode_null_tolerant(args) {
            Ok(Some(columns)) => columns,
            Ok(None) => return Ok(None),
            Err(error) => return Err(error),
        };
        if valid.all_false() {
            return Ok(Some(RowExecution::Output(F::Out::build(self.placeholders(options, args, valid)))));
        }
        proof {
            let r = choose|r: int| 0 <= r < valid@.len() && #[trigger] valid@[r];
            tuple::valid_rows_have_no_null_constant(args@, args.row_count as nat, r);
        }
        let state = self.function.prepare(options, F::Args::constants(&columns));
        let mut failures = F::Failure::start();
        let mut values: Vec<F::Out> = Vec::new();
        let mut index: usize = 0;
        assert(kernel::reads_valid_rows::<F::Args>(&columns, args@, args.row_count as nat));
        while index < args.row_count
            invariant
                index <= args.row_count == valid@.len(),
                kernel::reads_valid_rows::<F::Args>(&columns, args@, args.row_count as nat),
                forall|r: int|
                    0 <= r < args.row_count && #[trigger] valid@[r] ==> vtable::valid_at(args@, r),
                F::Args::can_get_constants(&columns),
                self.function.prepared(options, F::Args::constants_of(&columns), state),
                values@.len() == index,
                forall|r: int|
                    0 <= r < index ==> (#[trigger] values@[r]).payload() == valid_row_values(
                        &self.function,
                        options,
                        args@,
                        valid@,
                    )[r],
                F::Failure::failure(failures) == any_valid_fails(
                    &self.function,
                    options,
                    args@,
                    valid@.take(index as int),
                ),
            decreases args.row_count - index,
        {
            let ghost taken = valid@.take(index as int);
            let ghost next = valid@.take(index + 1);
            let ghost row = F::Args::row_at(args@, index as int);
            let ghost mut failed = false;
            if valid.value(index) {
                proof {
                    assert(vtable::valid_at(args@, index as int));
                    assert(F::Args::can_get(&columns, index as int));
                    F::Args::constants_agree(&columns, index as int);
                }
                let (value, failure) = self.function.apply(
                    options,
                    &state,
                    F::Args::get(&columns, index),
                );
                values.push(value);
                proof {
                    failed = failure.deferred();
                }
                if let Err(error) = failure.accumulate(&mut failures) {
                    assert(false);
                    return Err(error);
                }
            } else {
                values.push(F::Out::placeholder());
            }
            proof {
                if any_valid_fails(&self.function, options, args@, next) {
                    let r = choose|r: int|
                        0 <= r < next.len() && next[r] && #[trigger] self.function.fails(
                            options,
                            F::Args::row_at(args@, r),
                        );
                    if r < index {
                        assert(taken[r] && self.function.fails(options, F::Args::row_at(args@, r)));
                        assert(any_valid_fails(&self.function, options, args@, taken));
                    }
                }
                if any_valid_fails(&self.function, options, args@, taken) {
                    let r = choose|r: int|
                        0 <= r < taken.len() && taken[r] && #[trigger] self.function.fails(
                            options,
                            F::Args::row_at(args@, r),
                        );
                    assert(next[r] && self.function.fails(options, F::Args::row_at(args@, r)));
                }
                if failed {
                    assert(next[index as int] && self.function.fails(options, row));
                }
            }
            index = index + 1;
        }
        assert(valid@.take(index as int) =~= valid@);
        assert(element::payloads_of(values@) =~= valid_row_values(
            &self.function,
            options,
            args@,
            valid@,
        ));
        if F::Failure::occurred(&failures) {
            Ok(Some(RowExecution::Deferred(self.function.failure(options))))
        } else {
            Ok(Some(RowExecution::Output(F::Out::build(values))))
        }
    }
}

/// Every row of decoded columns is the row of the arguments.
pub open spec fn reads_dense_rows<Args: ElementTuple>(
    columns: &Args::Columns,
    args: Seq<ArrayV>,
    rows: nat,
) -> bool {
    forall|r: int|
        0 <= r < rows ==> (#[trigger] Args::can_get(columns, r)) && Args::at(columns, r)
            == Args::row_at(args, r)
}

} // verus!
