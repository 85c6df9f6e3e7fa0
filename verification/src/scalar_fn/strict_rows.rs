//! The rows of strict functions.

use vstd::prelude::*;

use crate::array::{self, ArrayV};
use crate::dtype::DTypeV;
use crate::mask;
use crate::scalar_fn::strict::{self, NullStrategy, StrictScalarFnVTable};
use crate::scalar_fn::strict_laws::{self, null_at, payloads};
use crate::scalar_fn::vtable;
use crate::value::{CellV, ValueV};

verus! {

/// Scattering puts every value at its place and a null at every other, and filtering by the same
/// mask gives the values back.
pub proof fn filtering_undoes_scattering(values: ArrayV, valid: Seq<bool>)
    requires
        values.len() == mask::true_count(valid),
    ensures
        ({
            let out = strict::scattered(values, valid);
            &&& out.len() == valid.len()
            &&& forall|i: int|
                #![trigger out.cells[i]]
                0 <= i < valid.len() ==> if valid[i] {
                    mask::rank(valid, i) < values.len() && out.cells[i]
                        == values.cells[mask::rank(valid, i) as int]
                } else {
                    out.row(i) is None
                }
            &&& out.filter(valid).cells == values.cells
        }),
{
    let out = strict::scattered(values, valid);
    assert forall|i: int|
        #![trigger out.cells[i]]
        0 <= i < valid.len() implies if valid[i] {
        mask::rank(valid, i) < values.len() && out.cells[i] == values.cells[mask::rank(
            valid,
            i,
        ) as int]
    } else {
        out.row(i) is None
    } by {
        mask::rank_step(valid, i);
        mask::rank_monotone(valid, i + 1, valid.len() as int);
    }
    mask::select_at_rank(out.cells, valid);
    let kept = mask::select(out.cells, valid);
    assert forall|k: int| 0 <= k < values.len() implies kept[k] == values.cells[k] by {
        let i = mask::chosen_at(valid, k);
        assert(valid[i]);
        assert(out.cells[i] == values.cells[k]);
    }
    assert(kept =~= values.cells);
}

/// Filtered columns are as long as the mask has rows.
proof fn filtered_is_aligned(args: Seq<ArrayV>, rows: nat, valid: Seq<bool>)
    requires
        vtable::aligned(args, rows),
        valid.len() == rows,
    ensures
        vtable::aligned(strict::filtered(args, valid), mask::true_count(valid)),
{
    let inputs = strict::filtered(args, valid);
    assert forall|i: int| 0 <= i < inputs.len() implies (#[trigger] inputs[i]).len()
        == mask::true_count(valid) && inputs[i].uniform() by {
        assert(args[i].len() == rows && args[i].uniform());
        mask::select_at_rank(args[i].cells, valid);
        if let Some(cell) = args[i].constant {
            array::select_of_uniform(args[i].cells, valid, cell);
        }
        if let Some(value) = args[i].shared {
            array::select_of_shared(args[i].cells, valid, value);
        }
    }
}

/// Every run of the kernel gives one row for every row that it is given.
pub open spec fn keeps_rows<V: StrictScalarFnVTable>(function: &V, options: &V::Options) -> bool {
    &&& forall|args: Seq<ArrayV>, rows: nat|
        vtable::aligned(args, rows) ==> (#[trigger] function.kernel(options, args, rows) matches Ok(
            out,
        ) ==> out.len() == rows)
    &&& forall|args: Seq<ArrayV>, rows: nat, valid: Seq<bool>|
        vtable::aligned(args, rows) && valid.len() == rows ==> (#[trigger] function.branch_kernel(
            options,
            args,
            rows,
            valid,
        ) matches Ok(Some(out)) ==> out.len() == rows)
}

/// The row that the kernel itself gives for row `r`, in the run that is made: over the one row of
/// constants, over all rows, in place over the valid rows, or over the filtered rows, where it
/// stands at its rank.
pub open spec fn own_row<V: StrictScalarFnVTable>(
    function: &V,
    options: &V::Options,
    args: Seq<ArrayV>,
    rows: nat,
    r: int,
) -> CellV {
    let valid = strict::conjoined(args).bits(rows);
    if strict::all_constant(args) {
        function.kernel(options, strict::first_rows(args), 1)->Ok_0.cells[0]
    } else if function.handling(options) is Dense || mask::all_true(valid) {
        function.kernel(options, args, rows)->Ok_0.cells[r]
    } else if strict::branch_preferred(function.shrinks(options), valid)
        && function.branch_kernel(options, args, rows, valid) matches Ok(Some(_)) {
        function.branch_kernel(options, args, rows, valid)->Ok_0->Some_0.cells[r]
    } else {
        function.kernel(
            options,
            strict::filtered(args, valid),
            mask::true_count(valid),
        )->Ok_0.cells[mask::rank(valid, r) as int]
    }
}

/// Wherever a strict function succeeds, its column has one row for every row and the declared
/// type, which is nullable if the element type or any input is; a row that is null in any input is
/// null, and every other row is the kernel's own, a null that the kernel gave included.
pub proof fn strict_rows_are_the_kernels<V: StrictScalarFnVTable>(
    function: &V,
    options: &V::Options,
    args: Seq<ArrayV>,
    rows: nat,
    r: int,
)
    requires
        args.len() > 0,
        vtable::aligned(args, rows),
        keeps_rows(function, options),
        strict::lifted(function, options, args, rows) is Ok,
        0 <= r < rows,
    ensures
        ({
            let out = strict::lifted(function, options, args, rows)->Ok_0;
            let dtypes = vtable::dtypes_of(args);
            &&& out.len() == rows
            &&& strict::lifted_dtype(function.element_dtype(options, dtypes), dtypes) == Ok::<
                DTypeV,
                Seq<char>,
            >(out.dtype)
            &&& out.row(r) == (if null_at(args, r) {
                None
            } else {
                own_row(function, options, args, rows, r).logical()
            })
        }),
{
    strict_laws::strict_functions_return_the_declared_type(function, options, args, rows);
    let out = strict::lifted(function, options, args, rows)->Ok_0;
    if null_at(args, r) {
        strict_laws::strict_functions_propagate_nulls(function, options, args, rows, r);
    }
    strict::conjoined_rows(args, rows);
    let valid = strict::conjoined(args).bits(rows);
    assert(valid.len() == rows);
    assert(vtable::valid_at(args, r) == valid[r]);
    assert(valid[r] == !null_at(args, r)) by {
        if !null_at(args, r) {
            assert forall|i: int| 0 <= i < args.len() implies (#[trigger] args[i]).cells[r].valid by {
            }
        }
        if valid[r] && null_at(args, r) {
            let i = choose|i: int| 0 <= i < args.len() && !(#[trigger] args[i]).cells[r].valid;
            assert(args[i].cells[r].valid);
        }
    }
    assert(strict::has_null_constant(args) ==> null_at(args, r)) by {
        if strict::has_null_constant(args) {
            let i = choose|i: int|
                0 <= i < args.len() && ((#[trigger] args[i]).constant matches Some(cell)
                    && !cell.valid);
            assert(args[i].len() == rows && args[i].uniform());
            assert(!args[i].cells[r].valid);
        }
    }
    mask::rank_step(valid, r);
    mask::rank_monotone(valid, r + 1, valid.len() as int);
    let firsts = strict::first_rows(args);
    assert(vtable::aligned(firsts, 1)) by {
        assert forall|i: int| 0 <= i < firsts.len() implies (#[trigger] firsts[i]).len() == 1
            && firsts[i].uniform() by {
            assert(args[i].len() == rows && args[i].uniform());
        }
    }
    let inputs = strict::filtered(args, valid);
    assert(vtable::aligned(inputs, mask::true_count(valid))) by {
        filtered_is_aligned(args, rows, valid);
    }
}

/// What `f` gives for the first `n` rows, or what it says of the first row of which it gives
/// nothing.
pub open spec fn rows_outcome(
    f: spec_fn(Seq<ValueV>) -> Result<CellV, Seq<char>>,
    args: Seq<ArrayV>,
    n: nat,
) -> Result<Seq<CellV>, Seq<char>>
    decreases n,
{
    if n == 0 {
        Ok(Seq::empty())
    } else {
        match rows_outcome(f, args, (n - 1) as nat) {
            Err(error) => Err(error),
            Ok(cells) => match f(payloads(args, n - 1)) {
                Err(error) => Err(error),
                Ok(cell) => Ok(cells.push(cell)),
            },
        }
    }
}

/// What `f` says of the first of `n` rows that is chosen and of which it gives nothing.
pub open spec fn chosen_failure(
    f: spec_fn(Seq<ValueV>) -> Result<CellV, Seq<char>>,
    args: Seq<ArrayV>,
    valid: Seq<bool>,
    n: nat,
) -> Option<Seq<char>>
    decreases n,
{
    if n == 0 {
        None
    } else {
        match chosen_failure(f, args, valid, (n - 1) as nat) {
            Some(error) => Some(error),
            None => if valid[n - 1] {
                match f(payloads(args, n - 1)) {
                    Err(error) => Some(error),
                    Ok(_) => None,
                }
            } else {
                None
            },
        }
    }
}

/// The kernel computes each row as `f` of the payloads of the row, and fails at the first row that
/// has no result, in columns of type `dtype`.
pub open spec fn computes_rows<V: StrictScalarFnVTable>(
    function: &V,
    options: &V::Options,
    dtypes: Seq<DTypeV>,
    dtype: DTypeV,
    f: spec_fn(Seq<ValueV>) -> Result<CellV, Seq<char>>,
) -> bool {
    forall|args: Seq<ArrayV>, rows: nat|
        vtable::aligned(args, rows) && vtable::dtypes_of(args) == dtypes ==> match #[trigger] function.kernel(
            options,
            args,
            rows,
        ) {
            Err(error) => rows_outcome(f, args, rows) == Err::<Seq<CellV>, Seq<char>>(error),
            Ok(out) => out.dtype == dtype && rows_outcome(f, args, rows) == Ok::<
                Seq<CellV>,
                Seq<char>,
            >(out.cells),
        }
}

/// The kernel computes the chosen rows in place as `f` of their payloads, and fails at the first of
/// them that has no result.
pub open spec fn computes_in_place<V: StrictScalarFnVTable>(
    function: &V,
    options: &V::Options,
    dtypes: Seq<DTypeV>,
    dtype: DTypeV,
    f: spec_fn(Seq<ValueV>) -> Result<CellV, Seq<char>>,
) -> bool {
    forall|args: Seq<ArrayV>, rows: nat, valid: Seq<bool>|
        vtable::aligned(args, rows) && vtable::dtypes_of(args) == dtypes && strict_laws::mixes_rows(
            args,
            rows,
            valid,
        ) ==> match #[trigger] function.branch_kernel(options, args, rows, valid) {
            Err(error) => chosen_failure(f, args, valid, rows) == Some(error),
            Ok(None) => false,
            Ok(Some(out)) => chosen_failure(f, args, valid, rows) is None && out.len() == rows
                && out.dtype == dtype && (forall|r: int|
                0 <= r < rows && valid[r] ==> #[trigger] out.cells[r] == f(payloads(args, r))->Ok_0),
        }
}

/// Two outcomes say the same: the same complaint, or columns of one type that show the same rows.
pub open spec fn same_outcome(a: Result<ArrayV, Seq<char>>, b: Result<ArrayV, Seq<char>>) -> bool {
    match (a, b) {
        (Ok(x), Ok(y)) => x.dtype == y.dtype && x.len() == y.len() && forall|r: int|
            0 <= r < x.len() ==> #[trigger] x.row(r) == y.row(r),
        (Err(x), Err(y)) => x == y,
        _ => false,
    }
}

/// Filtering first computes the chosen rows in their order.
proof fn filtered_rows(
    f: spec_fn(Seq<ValueV>) -> Result<CellV, Seq<char>>,
    args: Seq<ArrayV>,
    valid: Seq<bool>,
    n: nat,
)
    requires
        vtable::aligned(args, valid.len()),
        n <= valid.len(),
    ensures
        match rows_outcome(f, strict::filtered(args, valid), mask::rank(valid, n as int)) {
            Err(error) => chosen_failure(f, args, valid, n) == Some(error),
            Ok(cells) => chosen_failure(f, args, valid, n) is None && cells.len() == mask::rank(
                valid,
                n as int,
            ) && forall|r: int|
                #![trigger valid[r]]
                0 <= r < n && valid[r] ==> mask::rank(valid, r) < cells.len()
                    && cells[mask::rank(valid, r) as int] == f(payloads(args, r))->Ok_0,
        },
    decreases n,
{
    if n == 0 {
        assert(valid.take(0) =~= Seq::empty());
    } else {
        let m = (n - 1) as nat;
        filtered_rows(f, args, valid, m);
        mask::rank_step(valid, m as int);
        let inputs = strict::filtered(args, valid);
        if valid[m as int] {
            let k = mask::rank(valid, m as int);
            assert(payloads(inputs, k as int) =~= payloads(args, m as int)) by {
                assert forall|i: int| 0 <= i < args.len() implies inputs[i].cells[k as int].value
                    == args[i].cells[m as int].value by {
                    assert(args[i].len() == valid.len());
                    mask::select_at_rank(args[i].cells, valid);
                }
            }
            assert((mask::rank(valid, n as int) - 1) as nat == k);
            assert forall|r: int|
                #![trigger valid[r]]
                0 <= r < n && valid[r] implies mask::rank(valid, r) <= k by {
                mask::rank_monotone(valid, r, m as int);
            }
            assert forall|r: int|
                #![trigger valid[r]]
                0 <= r < m && valid[r] implies mask::rank(valid, r) < k by {
                mask::rank_step(valid, r);
                mask::rank_monotone(valid, r + 1, m as int);
            }
        }
    }
}

/// A forced strategy changes nothing: of a kernel that computes row by row, and can compute the
/// valid rows in place, filtering first and branching over the nulls give the same column, and the
/// same complaint where a row has no result.
#[verifier::spinoff_prover]
#[verifier::rlimit(40)]
pub proof fn forced_strategies_agree<V: StrictScalarFnVTable>(
    function: &V,
    options: &V::Options,
    args: Seq<ArrayV>,
    rows: nat,
    dtype: DTypeV,
    f: spec_fn(Seq<ValueV>) -> Result<CellV, Seq<char>>,
)
    requires
        vtable::aligned(args, rows),
        computes_rows(function, options, vtable::dtypes_of(args), dtype, f),
        computes_in_place(function, options, vtable::dtypes_of(args), dtype, f),
    ensures
        same_outcome(
            strict::forced(function, options, args, rows, NullStrategy::Filter),
            strict::forced(function, options, args, rows, NullStrategy::BranchAndSkip),
        ),
{
    let dtypes = vtable::dtypes_of(args);
    strict::conjoined_rows(args, rows);
    let valid = strict::conjoined(args).bits(rows);
    if strict::lifted_dtype(function.element_dtype(options, dtypes), dtypes) is Ok
        && !mask::all_true(valid) && !mask::all_false(valid) {
        let declared = strict::lifted_dtype(function.element_dtype(options, dtypes), dtypes)->Ok_0;
        let inputs = strict::filtered(args, valid);
        let given = mask::true_count(valid);
        filtered_is_aligned(args, rows, valid);
        assert(vtable::dtypes_of(inputs) =~= dtypes);
        filtered_rows(f, args, valid, rows);
        assert(valid.take(valid.len() as int) =~= valid);
        assert(mask::rank(valid, rows as int) == given);
        assert forall|r: int| 0 <= r < rows && #[trigger] valid[r] implies vtable::valid_at(
            args,
            r,
        ) by {
        }
        assert(strict_laws::mixes_rows(args, rows, valid));
        match (function.kernel(options, inputs, given), function.branch_kernel(
            options,
            args,
            rows,
            valid,
        )) {
            (Ok(values), Ok(Some(placed))) => {
                let a = strict::scattered(values, valid);
                let b = placed.mask(valid);
                assert(values.len() == given);
                assert forall|r: int| 0 <= r < rows implies #[trigger] a.row(r) == b.row(r) by {
                    if valid[r] {
                        assert(placed.cells[r] == f(payloads(args, r))->Ok_0);
                    }
                }
                let r = choose|r: int| 0 <= r < valid.len() && !#[trigger] valid[r];
                assert(!a.valid_bits()[r]);
                assert(!b.valid_bits()[r]);
                assert(!mask::all_true(a.valid_bits()) && !mask::all_true(b.valid_bits()));
            },
            _ => {},
        }
    }
}

/// Branching is never silently replaced by filtering: forced on a kernel that cannot compute the
/// valid rows in place, over a mask with both valid and invalid rows, it is an error.
pub proof fn missing_branches_are_errors<V: StrictScalarFnVTable>(
    function: &V,
    options: &V::Options,
    args: Seq<ArrayV>,
    rows: nat,
)
    requires
        !mask::all_true(strict::conjoined(args).bits(rows)),
        !mask::all_false(strict::conjoined(args).bits(rows)),
        function.branch_kernel(options, args, rows, strict::conjoined(args).bits(rows)) == Ok::<
            Option<ArrayV>,
            Seq<char>,
        >(None),
    ensures
        strict::forced(function, options, args, rows, NullStrategy::BranchAndSkip) is Err,
{
}

} // verus!
