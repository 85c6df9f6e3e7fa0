//! What holds of every strict function.

use vstd::prelude::*;

use crate::array::{self, ArrayV};
use crate::dtype::{self, DTypeV, Nullability};
use crate::mask::{self, ValidityV};
use crate::scalar_fn::strict::{self, NullHandling, StrictScalarFnVTable};
use crate::scalar_fn::vtable;
use crate::value::{CellV, ValueV};

verus! {

/// A column whose type admits no nulls has none.
pub open spec fn typed(args: Seq<ArrayV>) -> bool {
    forall|i: int|
        0 <= i < args.len() ==> (#[trigger] args[i]).dtype.nullable() || mask::all_true(
            args[i].valid_bits(),
        )
}

/// Some input is null at row `r`.
pub open spec fn null_at(args: Seq<ArrayV>, r: int) -> bool {
    exists|i: int| 0 <= i < args.len() && !(#[trigger] args[i]).cells[r].valid
}

/// The payloads of row `r`.
pub open spec fn payloads(args: Seq<ArrayV>, r: int) -> Seq<ValueV> {
    Seq::new(args.len(), |i: int| args[i].cells[r].value)
}

proof fn reconciled_keeps_rows(values: ArrayV, declared: DTypeV)
    ensures
        strict::reconciled(values, declared) matches Ok(out) ==> out.cells == values.cells
            && out.dtype == declared,
{
}

/// Nulls propagate: wherever a strict function succeeds, a row that is null in any input is null
/// in the output.
pub proof fn strict_functions_propagate_nulls<V: StrictScalarFnVTable>(
    function: &V,
    options: &V::Options,
    args: Seq<ArrayV>,
    rows: nat,
    r: int,
)
    requires
        vtable::aligned(args, rows),
        strict::lifted(function, options, args, rows) is Ok,
        0 <= r < rows,
        null_at(args, r),
    ensures
        ({
            let out = strict::lifted(function, options, args, rows)->Ok_0;
            r < out.len() && out.row(r) is None
        }),
{
    let dtypes = vtable::dtypes_of(args);
    let declared = strict::lifted_dtype(function.element_dtype(options, dtypes), dtypes)->Ok_0;
    let null_input = choose|i: int| 0 <= i < args.len() && !(#[trigger] args[i]).cells[r].valid;
    assert forall|i: int| 0 <= i < args.len() implies (#[trigger] args[i]).len() == rows by {
    }
    strict::conjoined_bits(args, rows);
    let validity = strict::conjoined(args);
    let valid = validity.bits(rows);
    assert(!valid[r]);
    assert(!mask::all_true(valid));
    if strict::has_null_constant(args) {
    } else if rows > 0 && strict::all_constant(args) {
        assert(args[null_input].constant is Some);
        assert(args[null_input].uniform());
        assert(false);
    } else {
        match function.handling(options) {
            NullHandling::Dense => {
                if !(validity is AllInvalid) {
                    match validity {
                        ValidityV::Array(bits) => {
                            let values = function.kernel(options, args, rows)->Ok_0;
                            reconciled_keeps_rows(values.mask(bits), declared);
                        },
                        _ => {
                            assert(valid[r]);
                        },
                    }
                }
            },
            NullHandling::Filter => {
                if !mask::all_false(valid) {
                    match function.branch_kernel(options, args, rows, valid) {
                        Ok(Some(values)) => {
                            reconciled_keeps_rows(values.mask(valid), declared);
                        },
                        _ => {},
                    }
                    match function.kernel(
                        options,
                        strict::filtered(args, valid),
                        mask::true_count(valid),
                    ) {
                        Ok(values) => {
                            reconciled_keeps_rows(strict::scattered(values, valid), declared);
                        },
                        _ => {},
                    }
                }
            },
        }
    }
}

/// Wherever a strict function over at least one input succeeds, its column has the declared type:
/// the element type, nullable if the element type or any input is.
pub proof fn strict_functions_return_the_declared_type<V: StrictScalarFnVTable>(
    function: &V,
    options: &V::Options,
    args: Seq<ArrayV>,
    rows: nat,
)
    requires
        args.len() > 0,
        strict::lifted(function, options, args, rows) is Ok,
    ensures
        strict::lifted_dtype(
            function.element_dtype(options, vtable::dtypes_of(args)),
            vtable::dtypes_of(args),
        ) == Ok::<DTypeV, Seq<char>>(strict::lifted(function, options, args, rows)->Ok_0.dtype),
{
    let dtypes = vtable::dtypes_of(args);
    let declared = strict::lifted_dtype(function.element_dtype(options, dtypes), dtypes)->Ok_0;
    let valid = strict::conjoined(args).bits(rows);
    match function.kernel(options, args, rows) {
        Ok(values) => {
            reconciled_keeps_rows(values, declared);
            match strict::conjoined(args) {
                ValidityV::Array(bits) => {
                    reconciled_keeps_rows(values.mask(bits), declared);
                },
                _ => {},
            }
        },
        _ => {},
    }
    match function.kernel(options, strict::first_rows(args), 1) {
        Ok(values) => {
            reconciled_keeps_rows(values, declared);
        },
        _ => {},
    }
    match function.branch_kernel(options, args, rows, valid) {
        Ok(Some(values)) => {
            reconciled_keeps_rows(values.mask(valid), declared);
        },
        _ => {},
    }
    match function.kernel(options, strict::filtered(args, valid), mask::true_count(valid)) {
        Ok(values) => {
            reconciled_keeps_rows(strict::scattered(values, valid), declared);
        },
        _ => {},
    }
}

/// The kernel computes row `r` as `f` of the payloads of row `r`, in columns of type `dtype`.
pub open spec fn row_local<V: StrictScalarFnVTable>(
    function: &V,
    options: &V::Options,
    dtypes: Seq<DTypeV>,
    dtype: DTypeV,
    f: spec_fn(Seq<ValueV>) -> ValueV,
) -> bool {
    forall|args: Seq<ArrayV>, rows: nat|
        vtable::aligned(args, rows) && vtable::dtypes_of(args) == dtypes ==> (#[trigger] function.kernel(
            options,
            args,
            rows,
        ) matches Ok(out) && out.len() == rows && out.dtype == dtype && forall|r: int|
            0 <= r < rows ==> #[trigger] out.cells[r] == (CellV {
                valid: true,
                value: f(payloads(args, r)),
            }))
}

/// A mask of `rows` rows with both valid and invalid ones, where every valid row is valid in every
/// input.
pub open spec fn mixes_rows(args: Seq<ArrayV>, rows: nat, valid: Seq<bool>) -> bool {
    &&& valid.len() == rows
    &&& !mask::all_true(valid)
    &&& !mask::all_false(valid)
    &&& forall|r: int| 0 <= r < rows && #[trigger] valid[r] ==> vtable::valid_at(args, r)
}

/// The kernel computes the chosen rows in place as `f` of their payloads.
pub open spec fn row_local_in_place<V: StrictScalarFnVTable>(
    function: &V,
    options: &V::Options,
    dtypes: Seq<DTypeV>,
    dtype: DTypeV,
    f: spec_fn(Seq<ValueV>) -> ValueV,
) -> bool {
    forall|args: Seq<ArrayV>, rows: nat, valid: Seq<bool>|
        vtable::aligned(args, rows) && vtable::dtypes_of(args) == dtypes && mixes_rows(
            args,
            rows,
            valid,
        ) ==> (#[trigger] function.branch_kernel(options, args, rows, valid) matches Ok(Some(out))
            && out.len() == rows && out.dtype == dtype && forall|r: int|
            0 <= r < rows && valid[r] ==> #[trigger] out.cells[r] == (CellV {
                valid: true,
                value: f(payloads(args, r)),
            }))
}

/// The rows that a strict row-local function shows: `f` of the row where every input is valid,
/// null elsewhere.
pub open spec fn shows_rows(
    out: ArrayV,
    args: Seq<ArrayV>,
    rows: nat,
    f: spec_fn(Seq<ValueV>) -> ValueV,
) -> bool {
    &&& out.len() == rows
    &&& forall|r: int|
        0 <= r < rows ==> #[trigger] out.row(r) == (if null_at(args, r) {
            None
        } else {
            Some(f(payloads(args, r)))
        })
}

proof fn nullable_reconciles(values: ArrayV, dtype: DTypeV, declared: DTypeV)
    requires
        values.dtype == dtype.with_nullability(Nullability::Nullable) || values.dtype == dtype,
        exists|n: Nullability| #[trigger] dtype.with_nullability(n) == declared,
        declared.nullable() || mask::all_true(values.valid_bits()),
    ensures
        strict::reconciled(values, declared) is Ok,
        strict::reconciled(values, declared)->Ok_0.cells == values.cells,
{
    let n = choose|n: Nullability| #[trigger] dtype.with_nullability(n) == declared;
    dtype::eq_ignore_nullability_is_an_equivalence(dtype, declared, declared, n);
    dtype::eq_ignore_nullability_is_an_equivalence(
        dtype,
        values.dtype,
        declared,
        Nullability::Nullable,
    );
}

/// The three ways of running a row-local kernel over a mask with both valid and invalid rows
/// agree: over every row and then masked, over the filtered rows and scattered back, and in place
/// over the valid rows.
pub proof fn null_strategies_agree<V: StrictScalarFnVTable>(
    function: &V,
    options: &V::Options,
    args: Seq<ArrayV>,
    rows: nat,
    dtype: DTypeV,
    f: spec_fn(Seq<ValueV>) -> ValueV,
)
    requires
        vtable::aligned(args, rows),
        typed(args),
        !function.kernel_fallible(options),
        function.element_dtype(options, vtable::dtypes_of(args)) == Ok::<DTypeV, Seq<char>>(dtype),
        row_local(function, options, vtable::dtypes_of(args), dtype, f),
        row_local_in_place(function, options, vtable::dtypes_of(args), dtype, f),
        strict::conjoined(args) is Array,
        !mask::all_false(strict::conjoined(args)->Array_0),
        !mask::all_true(strict::conjoined(args)->Array_0),
    ensures
        ({
            let dtypes = vtable::dtypes_of(args);
            let valid = strict::conjoined(args)->Array_0;
            let declared = strict::lifted_dtype(
                function.element_dtype(options, dtypes),
                dtypes,
            )->Ok_0;
            let dense = strict::dense_result(function, options, args, rows, declared);
            let filter = strict::filter_result(function, options, args, valid, declared);
            let branch = strict::branch_result(function, options, args, rows, valid, declared);
            &&& dense is Ok && shows_rows(dense->Ok_0, args, rows, f)
            &&& filter is Ok && shows_rows(filter->Ok_0, args, rows, f)
            &&& branch matches Ok(Some(out)) && shows_rows(out, args, rows, f)
        }),
{
    let dtypes = vtable::dtypes_of(args);
    let valid = strict::conjoined(args)->Array_0;
    let n = dtype.nullability().union(Nullability::of(strict::any_nullable(dtypes)));
    let declared = dtype.with_nullability(n);
    assert forall|i: int| 0 <= i < args.len() implies (#[trigger] args[i]).len() == rows by {
    }
    strict::conjoined_bits(args, rows);
    assert(strict::conjoined(args).bits(rows) == valid);
    assert(valid.len() == rows);
    assert forall|r: int| 0 <= r < rows implies #[trigger] valid[r] == !null_at(args, r) by {
        assert(strict::conjoined(args).bits(rows)[r] == valid[r]);
        if valid[r] {
            assert forall|i: int| 0 <= i < args.len() implies (#[trigger] args[i]).cells[r].valid by {
            }
        }
    }
    let missing = choose|r: int| 0 <= r < valid.len() && !#[trigger] valid[r];
    assert(null_at(args, missing));
    let at = choose|i: int| 0 <= i < args.len() && !(#[trigger] args[i]).cells[missing].valid;
    assert(args[at].valid_bits()[missing] == false);
    assert(dtypes[at].nullable());
    dtype::with_nullability_sets_nullability(dtype, n);
    let values = function.kernel(options, args, rows)->Ok_0;
    assert(function.kernel(options, args, rows) is Ok);
    let dense = values.mask(valid);
    assert(dtype.with_nullability(n) == declared);
    nullable_reconciles(dense, dtype, declared);
    let dense_out = strict::dense_result(function, options, args, rows, declared)->Ok_0;
    assert forall|r: int| 0 <= r < rows implies #[trigger] dense_out.row(r) == (if null_at(args, r) {
        None
    } else {
        Some(f(payloads(args, r)))
    }) by {
        assert(dense_out.cells[r] == dense.cells[r]);
        assert(values.cells[r] == CellV { valid: true, value: f(payloads(args, r)) });
        assert(valid[r] == !null_at(args, r));
    }
    let given = mask::true_count(valid);
    let inputs = strict::filtered(args, valid);
    assert forall|i: int| 0 <= i < inputs.len() implies (#[trigger] inputs[i]).len() == given
        && inputs[i].uniform() by {
        assert(args[i].len() == rows && args[i].uniform());
        mask::select_at_rank(args[i].cells, valid);
        if let Some(cell) = args[i].constant {
            array::select_of_uniform(args[i].cells, valid, cell);
        }
        if let Some(value) = args[i].shared {
            array::select_of_shared(args[i].cells, valid, value);
        }
    }
    assert(vtable::dtypes_of(inputs) =~= dtypes);
    assert(function.kernel(options, inputs, given) is Ok);
    let some = function.kernel(options, inputs, given)->Ok_0;
    let put = strict::scattered(some, valid);
    assert forall|r: int| 0 <= r < rows && #[trigger] valid[r] implies some.cells[mask::rank(
        valid,
        r,
    ) as int] == (CellV { valid: true, value: f(payloads(args, r)) }) && mask::rank(valid, r)
        < given by {
        let k = mask::rank(valid, r) as int;
        mask::select_at_rank(args[0].cells, valid);
        mask::rank_step(valid, r);
        mask::rank_monotone(valid, r + 1, valid.len() as int);
        assert(payloads(inputs, k) =~= payloads(args, r)) by {
            assert forall|i: int| 0 <= i < args.len() implies inputs[i].cells[k].value
                == args[i].cells[r].value by {
                assert(args[i].len() == rows);
                mask::select_at_rank(args[i].cells, valid);
            }
        }
        assert(some.cells[k] == CellV { valid: true, value: f(payloads(inputs, k)) });
    }
    nullable_reconciles(put, dtype, declared);
    let filter_out = strict::filter_result(function, options, args, valid, declared)->Ok_0;
    assert forall|r: int| 0 <= r < rows implies #[trigger] filter_out.row(r) == (if null_at(
        args,
        r,
    ) {
        None
    } else {
        Some(f(payloads(args, r)))
    }) by {
        assert(filter_out.cells[r] == put.cells[r]);
        assert(valid[r] == !null_at(args, r));
    }
    let placed = function.branch_kernel(options, args, rows, valid)->Ok_0->Some_0;
    assert(function.branch_kernel(options, args, rows, valid) matches Ok(Some(_)));
    let kept = placed.mask(valid);
    nullable_reconciles(kept, dtype, declared);
    let branch_out = strict::branch_result(
        function,
        options,
        args,
        rows,
        valid,
        declared,
    )->Ok_0->Some_0;
    assert forall|r: int| 0 <= r < rows implies #[trigger] branch_out.row(r) == (if null_at(
        args,
        r,
    ) {
        None
    } else {
        Some(f(payloads(args, r)))
    }) by {
        assert(branch_out.cells[r] == kept.cells[r]);
        assert(valid[r] == !null_at(args, r));
        if valid[r] {
            assert(placed.cells[r] == CellV { valid: true, value: f(payloads(args, r)) });
        }
    }
}

} // verus!
