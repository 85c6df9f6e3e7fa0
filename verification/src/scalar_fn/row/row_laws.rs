//! What holds of every row function.

use vstd::prelude::*;

use crate::array::ArrayV;
use crate::mask;
use crate::scalar_fn::row::element::{self, ApplyResult, OutputElement};
use crate::scalar_fn::row::row_fn::{self, OutOf, RowFn};
use crate::scalar_fn::row::tuple::ElementTuple;
use crate::scalar_fn::strict::{self, NullHandling, NullStrategy, StrictScalarFnVTable};
use crate::scalar_fn::strict_laws;
use crate::scalar_fn::strict_rows;
use crate::scalar_fn::vtable;
use crate::value::{CellV, ValueV};

verus! {

/// Columns of this element hold the payloads they are built from, one valid row each.
pub open spec fn plain_output<T: OutputElement>() -> bool {
    forall|payloads: Seq<ValueV>| #[trigger]
        T::built(payloads) == element::valid_column(T::element_type(), payloads)
}

/// The function never answers from encodings.
pub open spec fn never_reduces<F: RowFn>(function: &F, options: &F::Options) -> bool {
    forall|args: Seq<ArrayV>| #[trigger]
        function.reduced(options, args) == Ok::<Option<ArrayV>, Seq<char>>(None)
}

/// Row `r` of the output is what the function computes from row `r` of the inputs.
pub open spec fn shows_eval<F: RowFn>(
    function: &F,
    options: &F::Options,
    args: Seq<ArrayV>,
    out: ArrayV,
    r: int,
) -> bool {
    out.row(r) == (if strict_laws::null_at(args, r) {
        None
    } else {
        Some(function.eval(options, F::Args::row_at(args, r))->Ok_0)
    }) && (!strict_laws::null_at(args, r) ==> function.eval(options, F::Args::row_at(args, r)) is Ok)
}

proof fn evaluated_rows<F: RowFn>(
    function: &F,
    options: &F::Options,
    args: Seq<ArrayV>,
    n: nat,
    i: int,
)
    requires
        row_fn::evaluated(function, options, args, n) is Ok,
    ensures
        row_fn::evaluated(function, options, args, n)->Ok_0.len() == n,
        0 <= i < n ==> function.eval(options, F::Args::row_at(args, i)) == Ok::<ValueV, Seq<char>>(
            row_fn::evaluated(function, options, args, n)->Ok_0[i],
        ),
    decreases n,
{
    if n > 0 {
        evaluated_rows(function, options, args, (n - 1) as nat, i);
    }
}

proof fn evaluated_valid_rows<F: RowFn>(
    function: &F,
    options: &F::Options,
    args: Seq<ArrayV>,
    valid: Seq<bool>,
    n: nat,
    i: int,
)
    requires
        row_fn::evaluated_valid(function, options, args, valid, n) is Ok,
    ensures
        row_fn::evaluated_valid(function, options, args, valid, n)->Ok_0.len() == n,
        0 <= i < n && valid[i] ==> function.eval(options, F::Args::row_at(args, i)) == Ok::<
            ValueV,
            Seq<char>,
        >(row_fn::evaluated_valid(function, options, args, valid, n)->Ok_0[i]),
    decreases n,
{
    if n > 0 {
        evaluated_valid_rows(function, options, args, valid, (n - 1) as nat, i);
    }
}

proof fn infallible_rows<F: RowFn>(function: &F, options: &F::Options, args: Seq<ArrayV>, n: nat)
    requires
        !<F::Ret as ApplyResult>::fallible(),
    ensures
        row_fn::evaluated(function, options, args, n) is Ok,
    decreases n,
{
    if n > 0 {
        infallible_rows(function, options, args, (n - 1) as nat);
        function.eval_is_total(options, F::Args::row_at(args, n - 1));
    }
}

/// The value at a row is determined by that row alone: wherever a row function succeeds, a row that
/// is valid in every input holds what the function computes from it, and every other row is null,
/// whichever rows were visited and however constants and nulls were encoded.
#[verifier::spinoff_prover]
#[verifier::rlimit(40)]
pub proof fn row_functions_compute_each_valid_row<F: RowFn>(
    function: &F,
    options: &F::Options,
    args: Seq<ArrayV>,
    rows: nat,
    r: int,
)
    requires
        args.len() > 0,
        vtable::aligned(args, rows),
        args.len() == <F::Args as ElementTuple>::arity(),
        never_reduces(function, options),
        strict::lifted(function, options, args, rows) is Ok,
        0 <= r < rows,
    ensures
        ({
            let out = strict::lifted(function, options, args, rows)->Ok_0;
            out.len() == rows && shows_eval(function, options, args, out, r)
        }),
{
    let dtypes = vtable::dtypes_of(args);
    let declared = strict::lifted_dtype(function.element_dtype(options, dtypes), dtypes)->Ok_0;
    let out = strict::lifted(function, options, args, rows)->Ok_0;
    assert forall|i: int| 0 <= i < args.len() implies (#[trigger] args[i]).len() == rows by {
    }
    strict::conjoined_bits(args, rows);
    let validity = strict::conjoined(args);
    let valid = validity.bits(rows);
    assert(valid[r] == !strict_laws::null_at(args, r));
    assert(valid.len() == rows);
    if strict_laws::null_at(args, r) {
        strict_laws::strict_functions_propagate_nulls(function, options, args, rows, r);
    }
    if strict::has_null_constant(args) {
        let i = choose|i: int|
            0 <= i < args.len() && ((#[trigger] args[i]).constant matches Some(cell)
                && !cell.valid);
        assert(args[i].cells[r] == args[i].constant->Some_0);
        assert(strict_laws::null_at(args, r));
    } else if rows > 0 && strict::all_constant(args) {
        let first = strict::first_rows(args);
        let values = row_fn::evaluated(function, options, first, 1)->Ok_0;
        assert(function.reduced(options, first) == Ok::<Option<ArrayV>, Seq<char>>(None));
        evaluated_rows(function, options, first, 1, 0);
        let one = OutOf::<F>::built(values);
        OutOf::<F>::built_in_order(values);
        assert forall|k: int| 0 <= k < first.len() implies (#[trigger] first[k]).cells[0].value
            == args[k].cells[r].value by {
            assert(args[k].constant is Some && args[k].uniform());
            assert(args[k].cells[0] == args[k].constant->Some_0);
            assert(args[k].cells[r] == args[k].constant->Some_0);
        }
        F::Args::rows_are_local(first, 0, args, r);
        assert(out.cells[r] == one.cells[0]);
    } else {
        assert(function.reduced(options, args) == Ok::<Option<ArrayV>, Seq<char>>(None));
        match function.handling(options) {
            NullHandling::Dense => {
                if !(validity is AllInvalid) {
                    dense_rows(function, options, args, rows, r);
                }
            },
            NullHandling::Filter => {
                if mask::all_true(valid) {
                    dense_rows(function, options, args, rows, r);
                } else if !mask::all_false(valid) {
                    let branch = strict::branch_result(
                        function,
                        options,
                        args,
                        rows,
                        valid,
                        declared,
                    );
                    if strict::branch_preferred(function.shrinks(options), valid) && (
                    branch matches Ok(Some(_))) {
                        let values = row_fn::evaluated_valid(
                            function,
                            options,
                            args,
                            valid,
                            rows,
                        )->Ok_0;
                        evaluated_valid_rows(function, options, args, valid, rows, r);
                        let built = OutOf::<F>::built(values);
                        OutOf::<F>::built_in_order(values);
                        assert(out.cells == built.mask(valid).cells);
                    } else {
                        filtered_rows(function, options, args, rows, r);
                    }
                }
            },
        }
    }
}

/// Where a row loop succeeds, it gives one plain row for every input row.
pub proof fn kernel_keeps_rows<F: RowFn>(
    function: &F,
    options: &F::Options,
    args: Seq<ArrayV>,
    rows: nat,
)
    requires
        plain_output::<OutOf<F>>(),
        never_reduces(function, options),
    ensures
        function.kernel(options, args, rows) matches Ok(out) ==> out.len() == rows && out.constant
            is None && out.shared is None,
{
    assert(function.reduced(options, args) == Ok::<Option<ArrayV>, Seq<char>>(None));
    if let Ok(values) = row_fn::evaluated(function, options, args, rows) {
        evaluated_rows(function, options, args, rows, 0);
        assert(OutOf::<F>::built(values) == element::valid_column(
            OutOf::<F>::element_type(),
            values,
        ));
    }
}

proof fn dense_rows<F: RowFn>(
    function: &F,
    options: &F::Options,
    args: Seq<ArrayV>,
    rows: nat,
    r: int,
)
    requires
        never_reduces(function, options),
        function.kernel(options, args, rows) is Ok,
        0 <= r < rows,
    ensures
        ({
            let values = function.kernel(options, args, rows)->Ok_0;
            &&& values.len() == rows
            &&& function.eval(options, F::Args::row_at(args, r)) is Ok
            &&& values.cells[r] == (CellV {
                valid: true,
                value: function.eval(options, F::Args::row_at(args, r))->Ok_0,
            })
        }),
{
    assert(function.reduced(options, args) == Ok::<Option<ArrayV>, Seq<char>>(None));
    evaluated_rows(function, options, args, rows, r);
    let values = row_fn::evaluated(function, options, args, rows)->Ok_0;
    OutOf::<F>::built_in_order(values);
}

proof fn filtered_rows<F: RowFn>(
    function: &F,
    options: &F::Options,
    args: Seq<ArrayV>,
    rows: nat,
    r: int,
)
    requires
        args.len() > 0,
        vtable::aligned(args, rows),
        args.len() == <F::Args as ElementTuple>::arity(),
        never_reduces(function, options),
        0 <= r < rows,
        strict::conjoined(args).bits(rows).len() == rows,
    ensures
        ({
            let valid = strict::conjoined(args).bits(rows);
            let given = mask::true_count(valid);
            let inputs = strict::filtered(args, valid);
            valid[r] && function.kernel(options, inputs, given) is Ok ==> {
                let values = function.kernel(options, inputs, given)->Ok_0;
                let k = mask::rank(valid, r) as int;
                &&& 0 <= k < given
                &&& values.len() == given
                &&& function.eval(options, F::Args::row_at(args, r)) is Ok
                &&& values.cells[k] == (CellV {
                    valid: true,
                    value: function.eval(options, F::Args::row_at(args, r))->Ok_0,
                })
            }
        }),
{
    let valid = strict::conjoined(args).bits(rows);
    let given = mask::true_count(valid);
    let inputs = strict::filtered(args, valid);
    if valid[r] && function.kernel(options, inputs, given) is Ok {
        let k = mask::rank(valid, r) as int;
        assert(args[0].len() == rows);
        mask::select_at_rank(args[0].cells, valid);
        mask::rank_step(valid, r);
        mask::rank_monotone(valid, r + 1, valid.len() as int);
        assert forall|i: int| 0 <= i < inputs.len() implies (#[trigger] inputs[i]).cells[k].value
            == args[i].cells[r].value by {
            assert(args[i].len() == rows);
            mask::select_at_rank(args[i].cells, valid);
        }
        F::Args::rows_are_local(inputs, k, args, r);
        dense_rows(function, options, inputs, given, k);
    }
}

/// A row function whose return type carries no error computes every row of columns that decode.
pub proof fn infallible_row_functions_compute_every_row<F: RowFn>(
    function: &F,
    options: &F::Options,
    args: Seq<ArrayV>,
    rows: nat,
)
    requires
        !<F::Ret as ApplyResult>::fallible(),
        F::Args::decodes(args) is Ok,
        never_reduces(function, options),
    ensures
        function.kernel(options, args, rows) is Ok,
{
    assert(function.reduced(options, args) == Ok::<Option<ArrayV>, Seq<char>>(None));
    infallible_rows(function, options, args, rows);
}

/// The chosen rows are computed alike in place and filtered: they have the same first failure.
proof fn chosen_rows_fail_alike<F: RowFn>(
    function: &F,
    options: &F::Options,
    args: Seq<ArrayV>,
    valid: Seq<bool>,
    n: nat,
)
    requires
        vtable::aligned(args, valid.len()),
        args.len() == <F::Args as ElementTuple>::arity(),
        args.len() > 0,
        n <= valid.len(),
    ensures
        match row_fn::evaluated_valid(function, options, args, valid, n) {
            Ok(_) => row_fn::evaluated(
                function,
                options,
                strict::filtered(args, valid),
                mask::rank(valid, n as int),
            ) is Ok,
            Err(error) => row_fn::evaluated(
                function,
                options,
                strict::filtered(args, valid),
                mask::rank(valid, n as int),
            ) == Err::<Seq<ValueV>, Seq<char>>(error),
        },
    decreases n,
{
    if n > 0 {
        let r = n - 1;
        chosen_rows_fail_alike(function, options, args, valid, r as nat);
        mask::rank_step(valid, r);
        if valid[r] {
            let inputs = strict::filtered(args, valid);
            let k = mask::rank(valid, r) as int;
            assert forall|i: int| 0 <= i < inputs.len() implies (#[trigger] inputs[i]).cells[k].value
                == args[i].cells[r].value by {
                assert(args[i].len() == valid.len());
                mask::select_at_rank(args[i].cells, valid);
            }
            F::Args::rows_are_local(inputs, k, args, r);
        }
    } else {
        assert(valid.take(0) =~= Seq::empty());
    }
}

/// A forced strategy changes nothing of a row function that computes its rows from decoded columns:
/// filtering first and branching over the nulls give the same column, and the same complaint where
/// a valid row has no result.
pub proof fn forced_strategies_agree_on_row_functions<F: RowFn>(
    function: &F,
    options: &F::Options,
    args: Seq<ArrayV>,
    rows: nat,
)
    requires
        args.len() > 0,
        vtable::aligned(args, rows),
        args.len() == <F::Args as ElementTuple>::arity(),
        never_reduces(function, options),
        F::Args::decodes(strict::filtered(args, strict::conjoined(args).bits(rows))) is Ok,
        F::Args::decodes_tolerant(args) == Ok::<bool, Seq<char>>(true),
    ensures
        strict_rows::same_outcome(
            strict::forced(function, options, args, rows, NullStrategy::Filter),
            strict::forced(function, options, args, rows, NullStrategy::BranchAndSkip),
        ),
{
    let dtypes = vtable::dtypes_of(args);
    strict::conjoined_rows(args, rows);
    let valid = strict::conjoined(args).bits(rows);
    if strict::lifted_dtype(function.element_dtype(options, dtypes), dtypes) is Ok
        && !mask::all_true(valid) && !mask::all_false(valid) {
        let inputs = strict::filtered(args, valid);
        let given = mask::true_count(valid);
        assert(function.reduced(options, args) == Ok::<Option<ArrayV>, Seq<char>>(None));
        assert(function.reduced(options, inputs) == Ok::<Option<ArrayV>, Seq<char>>(None));
        chosen_rows_fail_alike(function, options, args, valid, rows);
        assert(valid.take(valid.len() as int) =~= valid);
        let kept = row_fn::evaluated(function, options, inputs, given);
        let placed = row_fn::evaluated_valid(function, options, args, valid, rows);
        if placed is Ok {
            let values = OutOf::<F>::built(kept->Ok_0);
            let all = OutOf::<F>::built(placed->Ok_0);
            OutOf::<F>::built_in_order(kept->Ok_0);
            OutOf::<F>::built_in_order(placed->Ok_0);
            evaluated_rows(function, options, inputs, given, 0);
            evaluated_valid_rows(function, options, args, valid, rows, 0);
            let a = strict::scattered(values, valid);
            let b = all.mask(valid);
            assert forall|r: int| 0 <= r < rows implies #[trigger] a.row(r) == b.row(r) by {
                evaluated_valid_rows(function, options, args, valid, rows, r);
                if valid[r] {
                    filtered_rows(function, options, args, rows, r);
                }
            }
            let r = choose|r: int| 0 <= r < valid.len() && !#[trigger] valid[r];
            assert(!a.valid_bits()[r]);
            assert(!b.valid_bits()[r]);
            assert(!mask::all_true(a.valid_bits()) && !mask::all_true(b.valid_bits()));
            let declared = strict::lifted_dtype(
                function.element_dtype(options, dtypes),
                dtypes,
            )->Ok_0;
            let x = strict::reconciled(a, declared);
            let y = strict::reconciled(b, declared);
            if x is Ok {
                assert forall|r: int| 0 <= r < rows implies #[trigger] x->Ok_0.row(r)
                    == y->Ok_0.row(r) by {
                    assert(a.row(r) == b.row(r));
                }
            }
            assert(strict_rows::same_outcome(x, y));
        }
    }
}

} // verus!
