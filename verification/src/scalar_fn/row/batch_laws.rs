//! What holds of every row function that runs over whole batches.

use vstd::prelude::*;

use crate::array::ArrayV;
use crate::dtype::{self, DTypeV, Nullability};
use crate::mask;
use crate::scalar_fn::row::batch::{self, RowBatch, RowExecutionV};
use crate::scalar_fn::row::deferred::{self, DeferredFn, DeferredRowFn};
use crate::scalar_fn::row::element::{self, OutputElement};
use crate::scalar_fn::row::kernel::{self, KernelFn, RowKernel, RowKernelOutput};
use crate::scalar_fn::row::row_laws;
use crate::scalar_fn::row::sink::{self, OutputSink, SinkFn, SinkRowFn};
use crate::scalar_fn::row::tuple::ElementTuple;
use crate::scalar_fn::strict;
use crate::scalar_fn::vtable;
use crate::value::{CellV, ValueV};

verus! {

/// Columns of these elements always decode.
pub open spec fn always_decodes<A: ElementTuple>() -> bool {
    &&& forall|args: Seq<ArrayV>| (#[trigger] A::decodes(args)) is Ok
    &&& forall|args: Seq<ArrayV>| (#[trigger] A::decodes_tolerant(args)) is Ok
}

/// Row `r` of the output is what the function computes from row `r` of the inputs, or null where
/// an input is.
pub open spec fn shows_value<F: DeferredRowFn>(
    function: &F,
    options: &F::Options,
    args: Seq<ArrayV>,
    out: ArrayV,
    r: int,
) -> bool {
    out.row(r) == (if vtable::valid_at(args, r) {
        Some(function.value_of(options, F::Args::row_at(args, r)))
    } else {
        None
    })
}

/// Some row that is valid in every input fails.
pub open spec fn valid_row_fails<F: DeferredRowFn>(
    function: &F,
    options: &F::Options,
    args: Seq<ArrayV>,
    rows: nat,
) -> bool {
    exists|r: int|
        0 <= r < rows && vtable::valid_at(args, r) && #[trigger] function.fails(
            options,
            F::Args::row_at(args, r),
        )
}

/// A plain column passes the function's boundary under the type it declares.
proof fn valid_columns_are_final(
    id: Seq<char>,
    element: DTypeV,
    nullability: Nullability,
    values: Seq<ValueV>,
)
    requires
        !element.nullable(),
    ensures
        ({
            let declared = element.with_nullability(nullability);
            let built = element::valid_column(element, values);
            batch::finalized(id, declared, values.len(), built) == Ok::<ArrayV, Seq<char>>(
                ArrayV { dtype: declared, ..built },
            )
        }),
{
    let built = element::valid_column(element, values);
    dtype::non_nullable_types_admit_both(element, nullability);
    assert(mask::all_true(built.valid_bits()));
}

/// Constant inputs give every row what they give the first.
proof fn constant_rows_are_first<A: ElementTuple>(args: Seq<ArrayV>, rows: nat, r: int)
    requires
        vtable::aligned(args, rows),
        args.len() == A::arity(),
        strict::all_constant(args),
        0 <= r < rows,
    ensures
        A::row_at(strict::first_rows(args), 0) == A::row_at(args, r),
{
    let first = strict::first_rows(args);
    assert forall|k: int| 0 <= k < first.len() implies (#[trigger] first[k]).cells[0].value
        == args[k].cells[r].value by {
        assert(args[k].constant is Some && args[k].uniform() && args[k].len() == rows);
        assert(args[k].cells[0] == args[k].constant->Some_0);
        assert(args[k].cells[r] == args[k].constant->Some_0);
    }
    A::rows_are_local(first, 0, args, r);
}

/// A chosen row of filtered inputs is the row it was chosen from.
proof fn filtered_rows_are_kept<A: ElementTuple>(args: Seq<ArrayV>, valid: Seq<bool>, r: int)
    requires
        vtable::aligned(args, valid.len()),
        args.len() == A::arity(),
        0 <= r < valid.len(),
        valid[r],
    ensures
        0 <= mask::rank(valid, r) < mask::true_count(valid),
        A::row_at(strict::filtered(args, valid), mask::rank(valid, r) as int) == A::row_at(args, r),
{
    let k = mask::rank(valid, r) as int;
    let inputs = strict::filtered(args, valid);
    mask::rank_step(valid, r);
    mask::rank_monotone(valid, r + 1, valid.len() as int);
    assert forall|i: int| 0 <= i < inputs.len() implies (#[trigger] inputs[i]).cells[k].value
        == args[i].cells[r].value by {
        assert(args[i].len() == valid.len());
        mask::select_at_rank(args[i].cells, valid);
    }
    A::rows_are_local(inputs, k, args, r);
}

/// A function that reports its failures once per batch fails exactly if a row that is valid in
/// every input fails; what lies behind nulls is never observed. Otherwise every such row holds what
/// the function computes from it, and every other row is null.
#[verifier::spinoff_prover]
#[verifier::rlimit(60)]
pub proof fn deferred_functions_fail_only_on_valid_rows<F: DeferredRowFn>(
    function: &DeferredFn<F>,
    options: &F::Options,
    args: Seq<ArrayV>,
    rows: nat,
)
    requires
        args.len() > 0,
        vtable::aligned(args, rows),
        args.len() == <F::Args as ElementTuple>::arity(),
        row_laws::plain_output::<F::Out>(),
        always_decodes::<F::Args>(),
        function.planned(options, vtable::dtypes_of(args)) is Ok,
    ensures
        match batch::batch_result(function, options, args, rows) {
            Err(error) => valid_row_fails(&function.function, options, args, rows) && error
                == function.function.failure_text(options),
            Ok(out) => !valid_row_fails(&function.function, options, args, rows) && out.len()
                == rows && (forall|r: int|
                0 <= r < rows ==> #[trigger] shows_value(
                    &function.function,
                    options,
                    args,
                    out,
                    r,
                )),
        },
{
    let f = &function.function;
    let dtypes = vtable::dtypes_of(args);
    let element = F::Out::element_type();
    let nullability = element.nullability().union(Nullability::of(strict::any_nullable(dtypes)));
    let declared = element.with_nullability(nullability);
    let id = function.batch_id();
    let result = batch::batch_result(function, options, args, rows);
    let failing = valid_row_fails(f, options, args, rows);
    strict::conjoined_rows(args, rows);
    let valid = strict::conjoined(args).bits(rows);
    if strict::has_null_constant(args) {
        let i = choose|i: int|
            0 <= i < args.len() && ((#[trigger] args[i]).constant matches Some(cell)
                && !cell.valid);
        assert forall|r: int| 0 <= r < rows implies !#[trigger] vtable::valid_at(args, r) by {
            assert(args[i].len() == rows && args[i].uniform());
            assert(args[i].cells[r] == args[i].constant->Some_0);
        }
    } else if rows > 0 && strict::all_constant(args) {
        let first = strict::first_rows(args);
        let row = F::Args::row_at(first, 0);
        assert forall|r: int| 0 <= r < rows implies #[trigger] F::Args::row_at(args, r) == row
            && vtable::valid_at(args, r) by {
            constant_rows_are_first::<F::Args>(args, rows, r);
            all_constant_rows_are_valid(args, rows, r);
        }
        assert(F::Args::decodes(first) is Ok);
        assert(deferred::any_fails(f, options, first, 1) == f.fails(options, row)) by {
            if f.fails(options, row) {
                assert(f.fails(options, F::Args::row_at(first, 0)));
            }
        }
        assert(failing == f.fails(options, row)) by {
            if f.fails(options, row) {
                assert(vtable::valid_at(args, 0) && f.fails(options, F::Args::row_at(args, 0)));
            }
        }
        let values = deferred::row_values(f, options, first, 1);
        valid_columns_are_final(id, element, nullability, values);
        assert(F::Out::built(values) == element::valid_column(element, values));
        if !failing {
            let out = result->Ok_0;
            assert forall|r: int| 0 <= r < rows implies #[trigger] shows_value(
                f,
                options,
                args,
                out,
                r,
            ) by {
                assert(F::Args::row_at(args, r) == row);
                assert(out.cells[r] == CellV { valid: true, value: values[0] });
            }
        }
    } else if mask::all_true(valid) {
        assert(F::Args::decodes(args) is Ok);
        assert(deferred::any_fails(f, options, args, rows) == failing) by {
            if deferred::any_fails(f, options, args, rows) {
                let r = choose|r: int|
                    0 <= r < rows && #[trigger] f.fails(options, F::Args::row_at(args, r));
                assert(valid[r]);
            }
        }
        let values = deferred::row_values(f, options, args, rows);
        valid_columns_are_final(id, element, nullability, values);
        assert(F::Out::built(values) == element::valid_column(element, values));
        if !failing {
            assert forall|r: int| 0 <= r < rows implies #[trigger] shows_value(
                f,
                options,
                args,
                result->Ok_0,
                r,
            ) by {
                assert(valid[r]);
            }
        }
    } else if mask::all_false(valid) {
        assert forall|r: int| 0 <= r < rows implies !#[trigger] vtable::valid_at(args, r) by {
            assert(!valid[r]);
        }
    } else {
        mixed_deferred_run(function, options, args, rows);
    }
}

/// Constants that are not null are valid in every row.
proof fn all_constant_rows_are_valid(args: Seq<ArrayV>, rows: nat, r: int)
    requires
        vtable::aligned(args, rows),
        strict::all_constant(args),
        !strict::has_null_constant(args),
        0 <= r < rows,
    ensures
        vtable::valid_at(args, r),
{
    assert forall|i: int| 0 <= i < args.len() implies (#[trigger] args[i]).cells[r].valid by {
        assert(args[i].constant is Some && args[i].uniform() && args[i].len() == rows);
        assert(args[i].cells[r] == args[i].constant->Some_0);
    }
}

/// The valid rows of a batch that has both valid and invalid ones.
#[verifier::spinoff_prover]
#[verifier::rlimit(60)]
proof fn mixed_deferred_run<F: DeferredRowFn>(
    function: &DeferredFn<F>,
    options: &F::Options,
    args: Seq<ArrayV>,
    rows: nat,
)
    requires
        args.len() > 0,
        vtable::aligned(args, rows),
        args.len() == <F::Args as ElementTuple>::arity(),
        row_laws::plain_output::<F::Out>(),
        always_decodes::<F::Args>(),
        function.planned(options, vtable::dtypes_of(args)) is Ok,
        !mask::all_true(strict::conjoined(args).bits(rows)),
        !mask::all_false(strict::conjoined(args).bits(rows)),
    ensures
        ({
            let dtypes = vtable::dtypes_of(args);
            let (element, policy) = function.planned(options, dtypes)->Ok_0;
            let declared = element.with_nullability(
                element.nullability().union(Nullability::of(strict::any_nullable(dtypes))),
            );
            let valid = strict::conjoined(args).bits(rows);
            match batch::mixed_run(function, options, args, rows, valid, declared, policy) {
                Err(error) => valid_row_fails(&function.function, options, args, rows) && error
                    == function.function.failure_text(options),
                Ok(out) => !valid_row_fails(&function.function, options, args, rows) && out.len()
                    == rows && (forall|r: int|
                    0 <= r < rows ==> #[trigger] shows_value(
                        &function.function,
                        options,
                        args,
                        out,
                        r,
                    )),
            }
        }),
{
    let f = &function.function;
    let dtypes = vtable::dtypes_of(args);
    let element = F::Out::element_type();
    let nullability = element.nullability().union(Nullability::of(strict::any_nullable(dtypes)));
    let declared = element.with_nullability(nullability);
    let id = function.batch_id();
    let failing = valid_row_fails(f, options, args, rows);
    strict::conjoined_rows(args, rows);
    let valid = strict::conjoined(args).bits(rows);
    let policy = function.planned(options, dtypes)->Ok_0.1;
    let result = batch::mixed_run(function, options, args, rows, valid, declared, policy);
    assert(F::Args::decodes(args) is Ok);
    let fails = deferred::any_fails(f, options, args, rows);
    assert(deferred::any_valid_fails(f, options, args, valid) == failing) by {
        if deferred::any_valid_fails(f, options, args, valid) {
            let r = choose|r: int|
                0 <= r < valid.len() && valid[r] && #[trigger] f.fails(
                    options,
                    F::Args::row_at(args, r),
                );
            assert(vtable::valid_at(args, r));
        }
        if failing {
            let r = choose|r: int|
                0 <= r < rows && vtable::valid_at(args, r) && #[trigger] f.fails(
                    options,
                    F::Args::row_at(args, r),
                );
            assert(valid[r]);
        }
    }
    assert(failing ==> fails);
    let all = deferred::row_values(f, options, args, rows);
    let some = deferred::valid_row_values(f, options, args, valid);
    valid_columns_are_final(id, element, nullability, all);
    valid_columns_are_final(id, element, nullability, some);
    assert(F::Out::built(all) == element::valid_column(element, all));
    assert(F::Out::built(some) == element::valid_column(element, some));
    let given = mask::true_count(valid);
    let inputs = strict::filtered(args, valid);
    let kept = deferred::row_values(f, options, inputs, given);
    valid_columns_are_final(id, element, nullability, kept);
    assert(F::Out::built(kept) == element::valid_column(element, kept));
    assert(F::Args::decodes(inputs) is Ok);
    assert(deferred::any_fails(f, options, inputs, given) == failing) by {
        if deferred::any_fails(f, options, inputs, given) {
            let k = choose|k: int|
                0 <= k < given && #[trigger] f.fails(options, F::Args::row_at(inputs, k));
            let r = mask::chosen_at(valid, k);
            filtered_rows_are_kept::<F::Args>(args, valid, r);
            assert(vtable::valid_at(args, r) && f.fails(options, F::Args::row_at(args, r)));
        }
        if failing {
            let r = choose|r: int|
                0 <= r < rows && vtable::valid_at(args, r) && #[trigger] f.fails(
                    options,
                    F::Args::row_at(args, r),
                );
            assert(valid[r]);
            filtered_rows_are_kept::<F::Args>(args, valid, r);
            assert(f.fails(options, F::Args::row_at(inputs, mask::rank(valid, r) as int)));
        }
    }
    if !failing {
        let out = result->Ok_0;
        assert forall|r: int| 0 <= r < rows implies #[trigger] shows_value(
            f,
            options,
            args,
            out,
            r,
        ) by {
            assert(valid[r] == vtable::valid_at(args, r));
            if valid[r] {
                filtered_rows_are_kept::<F::Args>(args, valid, r);
            }
        }
    }
}

/// Columns of this output hold the payloads they are collected from, one valid row each.
pub open spec fn plain_kernel_output<O: RowKernelOutput>() -> bool {
    forall|payloads: Seq<ValueV>| #[trigger]
        kernel::output_column::<O>(payloads) == Ok::<ArrayV, Seq<char>>(
            element::valid_column(O::Element::element_type(), payloads),
        )
}

/// A kernel computes every row that is valid in every input from that row alone, and every other
/// row is null, whichever rows were visited and however the output was collected.
#[verifier::spinoff_prover]
#[verifier::rlimit(60)]
pub proof fn kernels_compute_each_valid_row<Args: ElementTuple, K: RowKernel<Args>>(
    function: &KernelFn<Args, K>,
    args: Seq<ArrayV>,
    rows: nat,
)
    requires
        args.len() > 0,
        vtable::aligned(args, rows),
        args.len() == Args::arity(),
        plain_kernel_output::<K::Output>(),
        always_decodes::<Args>(),
        function.planned(&(), vtable::dtypes_of(args)) is Ok,
    ensures
        batch::batch_result(function, &(), args, rows) matches Ok(out) && out.len() == rows && (
        forall|r: int|
            0 <= r < rows ==> #[trigger] out.row(r) == (if vtable::valid_at(args, r) {
                Some(function.kernel.evaluated(Args::row_at(args, r)))
            } else {
                None
            })),
{
    let k = &function.kernel;
    let dtypes = vtable::dtypes_of(args);
    let element = K::Element::element_type();
    let nullability = element.nullability().union(Nullability::of(strict::any_nullable(dtypes)));
    let declared = element.with_nullability(nullability);
    let id = function.batch_id();
    let out = batch::batch_result(function, &(), args, rows)->Ok_0;
    strict::conjoined_rows(args, rows);
    let valid = strict::conjoined(args).bits(rows);
    let first = strict::first_rows(args);
    let given = mask::true_count(valid);
    let inputs = strict::filtered(args, valid);
    let one = kernel::kernel_rows(k, first, 1);
    let all = kernel::kernel_rows(k, args, rows);
    let some = kernel::kernel_valid_rows(k, args, valid);
    let kept = kernel::kernel_rows(k, inputs, given);
    valid_columns_are_final(id, element, nullability, one);
    valid_columns_are_final(id, element, nullability, all);
    valid_columns_are_final(id, element, nullability, some);
    valid_columns_are_final(id, element, nullability, kept);
    assert(kernel::output_column::<K::Output>(one) is Ok);
    assert(kernel::output_column::<K::Output>(all) is Ok);
    assert(kernel::output_column::<K::Output>(some) is Ok);
    assert(kernel::output_column::<K::Output>(kept) is Ok);
    assert(Args::decodes(first) is Ok && Args::decodes(args) is Ok && Args::decodes(inputs) is Ok);
    assert(Args::decodes_tolerant(args) is Ok);
    assert forall|r: int| 0 <= r < rows implies #[trigger] out.row(r) == (if vtable::valid_at(
        args,
        r,
    ) {
        Some(k.evaluated(Args::row_at(args, r)))
    } else {
        None
    }) by {
        assert(valid[r] == vtable::valid_at(args, r));
        if strict::has_null_constant(args) {
            let i = choose|i: int|
                0 <= i < args.len() && ((#[trigger] args[i]).constant matches Some(cell)
                    && !cell.valid);
            assert(args[i].len() == rows && args[i].uniform());
            assert(args[i].cells[r] == args[i].constant->Some_0);
        } else if strict::all_constant(args) {
            constant_rows_are_first::<Args>(args, rows, r);
            all_constant_rows_are_valid(args, rows, r);
        } else if valid[r] {
            filtered_rows_are_kept::<Args>(args, valid, r);
        }
    }
}

/// Columns of this type finish with the payloads written into them, one valid row each.
pub open spec fn plain_sink<S: OutputSink>(dtype: DTypeV) -> bool {
    &&& forall|n: nat| (#[trigger] S::fresh(n, dtype)) matches Ok(start) && start.len() == n
    &&& forall|held: Seq<ValueV>| #[trigger]
        S::finished(held) == Ok::<ArrayV, Seq<char>>(element::valid_column(dtype, held))
}

proof fn filled_rows<F: SinkRowFn>(
    function: &F,
    options: &F::Options,
    args: Seq<ArrayV>,
    start: Seq<ValueV>,
    n: nat,
)
    requires
        n <= start.len(),
        sink::filled(function, options, args, start, n) is Ok,
    ensures
        ({
            let held = sink::filled(function, options, args, start, n)->Ok_0;
            &&& held.len() == start.len()
            &&& forall|i: int|
                0 <= i < n ==> #[trigger] held[i] == function.written(
                    options,
                    F::Args::row_at(args, i),
                )
        }),
    decreases n,
{
    if n > 0 {
        filled_rows(function, options, args, start, (n - 1) as nat);
    }
}

/// A run over rows that succeeds and reports no failure holds what was written into each.
proof fn sink_rows<F: SinkRowFn>(
    function: &F,
    options: &F::Options,
    args: Seq<ArrayV>,
    rows: nat,
    dtype: DTypeV,
)
    requires
        F::Sink::sink_type(vtable::dtypes_of(args)) == Ok::<DTypeV, Seq<char>>(dtype),
        plain_sink::<F::Sink>(dtype),
        sink::sink_result(function, options, args, rows) matches Ok(RowExecutionV::Output(_)),
    ensures
        ({
            let out = sink::sink_result(function, options, args, rows)->Ok_0->Output_0;
            &&& out == element::valid_column(dtype, Seq::new(rows, |i: int| out.cells[i].value))
            &&& forall|i: int|
                0 <= i < rows ==> #[trigger] out.cells[i] == (CellV {
                    valid: true,
                    value: function.written(options, F::Args::row_at(args, i)),
                })
        }),
{
    let start = F::Sink::fresh(rows, dtype)->Ok_0;
    assert(F::Sink::fresh(rows, dtype) matches Ok(start) && start.len() == rows);
    filled_rows(function, options, args, start, rows);
    let held = sink::filled(function, options, args, start, rows)->Ok_0;
    let out = sink::sink_result(function, options, args, rows)->Ok_0->Output_0;
    assert(F::Sink::finished(held) == Ok::<ArrayV, Seq<char>>(element::valid_column(dtype, held)));
    assert(out == element::valid_column(dtype, held));
    assert(Seq::new(rows, |i: int| out.cells[i].value) =~= held);
}

/// Wherever a sink-writing function succeeds, a row that is valid in every input holds what was
/// written for it, and every other row is null.
#[verifier::spinoff_prover]
#[verifier::rlimit(60)]
pub proof fn sinks_hold_what_is_written<F: SinkRowFn>(
    function: &SinkFn<F>,
    options: &F::Options,
    args: Seq<ArrayV>,
    rows: nat,
    r: int,
)
    requires
        args.len() > 0,
        vtable::aligned(args, rows),
        args.len() == <F::Args as ElementTuple>::arity(),
        function.planned(options, vtable::dtypes_of(args)) matches Ok(plan) && plain_sink::<
            F::Sink,
        >(plan.0),
        batch::batch_result(function, options, args, rows) is Ok,
        0 <= r < rows,
    ensures
        ({
            let out = batch::batch_result(function, options, args, rows)->Ok_0;
            out.len() == rows && out.row(r) == (if vtable::valid_at(args, r) {
                Some(function.function.written(options, F::Args::row_at(args, r)))
            } else {
                None
            })
        }),
{
    let f = &function.function;
    let dtypes = vtable::dtypes_of(args);
    let (element, policy) = function.planned(options, dtypes)->Ok_0;
    let nullability = element.nullability().union(Nullability::of(strict::any_nullable(dtypes)));
    let declared = element.with_nullability(nullability);
    let id = function.batch_id();
    let out = batch::batch_result(function, options, args, rows)->Ok_0;
    strict::conjoined_rows(args, rows);
    let valid = strict::conjoined(args).bits(rows);
    assert(valid[r] == vtable::valid_at(args, r));
    if strict::has_null_constant(args) {
        let i = choose|i: int|
            0 <= i < args.len() && ((#[trigger] args[i]).constant matches Some(cell)
                && !cell.valid);
        assert(args[i].len() == rows && args[i].uniform());
        assert(args[i].cells[r] == args[i].constant->Some_0);
    } else if strict::all_constant(args) {
        let first = strict::first_rows(args);
        assert(vtable::dtypes_of(first) =~= dtypes);
        sink_rows(f, options, first, 1, element);
        let one = sink::sink_result(f, options, first, 1)->Ok_0->Output_0;
        valid_columns_are_final(id, element, nullability, Seq::new(1, |i: int| one.cells[i].value));
        constant_rows_are_first::<F::Args>(args, rows, r);
        all_constant_rows_are_valid(args, rows, r);
    } else if mask::all_true(valid) {
        sink_rows(f, options, args, rows, element);
        let all = sink::sink_result(f, options, args, rows)->Ok_0->Output_0;
        valid_columns_are_final(id, element, nullability, Seq::new(rows, |i: int| all.cells[i].value));
    } else if !mask::all_false(valid) {
        let dense = sink::sink_result(f, options, args, rows);
        let given = mask::true_count(valid);
        let inputs = strict::filtered(args, valid);
        assert(vtable::dtypes_of(inputs) =~= dtypes);
        if !(policy is ValidOnly) && (dense matches Ok(RowExecutionV::Output(_))) {
            sink_rows(f, options, args, rows, element);
            let all = dense->Ok_0->Output_0;
            valid_columns_are_final(
                id,
                element,
                nullability,
                Seq::new(rows, |i: int| all.cells[i].value),
            );
        } else {
            sink_rows(f, options, inputs, given, element);
            let kept = sink::sink_result(f, options, inputs, given)->Ok_0->Output_0;
            valid_columns_are_final(
                id,
                element,
                nullability,
                Seq::new(given, |i: int| kept.cells[i].value),
            );
            if valid[r] {
                filtered_rows_are_kept::<F::Args>(args, valid, r);
                assert(kept.cells[mask::rank(valid, r) as int] == (CellV {
                    valid: true,
                    value: f.written(
                        options,
                        F::Args::row_at(inputs, mask::rank(valid, r) as int),
                    ),
                }));
            }
        }
    }
}

} // verus!
