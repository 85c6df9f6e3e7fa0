//! Lifting a kernel over non-null values into a scalar function that propagates nulls.

use vstd::prelude::*;

use crate::array::{self, Array, ArrayV};
use crate::dtype::{DType, DTypeV, Nullability};
use crate::error::{VortexError, VortexResult};
use crate::mask::{self, Mask, Validity, ValidityV};
use crate::expr::tree::{self, ExprV, Expression};
use crate::scalar_fn::vtable::{self, Arity, ExecutionArgs, ReduceNode, ReduceNodeV, ScalarFnVTable};
use crate::text::{self, decimal, join2, join3};
use crate::value::{self, CellV};

verus! {

/// How a strict kernel sees rows that are null in some input.
#[derive(Clone, Copy, PartialEq, Eq, Structural, Debug)]
pub enum NullHandling {
    /// Evaluate every row, including rows behind nulls, then mask the result.
    Dense,
    /// Evaluate the rows that are valid in every input, then put the results back in place.
    Filter,
}

/// Which strategy handles a mask with both valid and invalid rows.
#[derive(Clone, Copy, PartialEq, Eq, Structural, Debug)]
pub enum NullStrategy {
    /// Filter the inputs down to the valid rows, run the kernel, and scatter back.
    Filter,
    /// Compute only the valid rows of the unfiltered inputs, and mask the full-length result.
    BranchAndSkip,
}

/// A scalar function that is unconditionally strict: its kernel ignores nulls, and null
/// propagation, constant folding and nullability are derived.
pub trait StrictScalarFnVTable {
    type Options;

    spec fn strict_id(&self) -> Seq<char>;

    spec fn strict_arity(&self, options: &Self::Options) -> nat;

    /// The type that the kernel produces over non-null values.
    spec fn element_dtype(&self, options: &Self::Options, dtypes: Seq<DTypeV>) -> Result<
        DTypeV,
        Seq<char>,
    >;

    spec fn handling(&self, options: &Self::Options) -> NullHandling;

    spec fn kernel_fallible(&self, options: &Self::Options) -> bool;

    /// The kernel.
    spec fn kernel(&self, options: &Self::Options, args: Seq<ArrayV>, rows: nat) -> Result<
        ArrayV,
        Seq<char>,
    >;

    /// The kernel over the rows of a mask, in place; `None` where there is no such execution.
    spec fn branch_kernel(
        &self,
        options: &Self::Options,
        args: Seq<ArrayV>,
        rows: nat,
        valid: Seq<bool>,
    ) -> Result<Option<ArrayV>, Seq<char>>;

    /// Whether per-row decode work shrinks when the inputs are filtered first.
    spec fn shrinks(&self, options: &Self::Options) -> bool;

    /// The expression for the validity of the result, given those for the arguments.
    ///
    /// A kernel that never turns a row of non-null values into a null may answer with the
    /// conjunction; one that can leaves it at `None`, since the conjunction would report a row
    /// valid that is not.
    spec fn strict_validity(&self, options: &Self::Options, args: Seq<ExprV>) -> Option<ExprV>;

    /// A simpler tree that means the same, `None` where there is none.
    spec fn strict_reduction(&self, options: &Self::Options, node: ReduceNodeV) -> Result<
        Option<ReduceNodeV>,
        Seq<char>,
    >;

    fn id(&self) -> (out: String)
        ensures
            out@ == self.strict_id(),
    ;

    fn arity(&self, options: &Self::Options) -> (out: Arity)
        ensures
            out matches Arity::Exact(n) && n == self.strict_arity(options),
    ;

    fn return_element_dtype(&self, options: &Self::Options, dtypes: &Vec<DType>) -> (out:
        VortexResult<DType>)
        ensures
            vtable::dtype_outcome(out) == self.element_dtype(
                options,
                vtable::dtypes_model(dtypes@),
            ),
    ;

    fn null_handling(&self, options: &Self::Options) -> (out: NullHandling)
        ensures
            out == self.handling(options),
    ;

    fn is_fallible(&self, options: &Self::Options) -> (out: bool)
        ensures
            out == self.kernel_fallible(options),
    ;

    fn execute_strict(&self, options: &Self::Options, args: &ExecutionArgs) -> (out: VortexResult<
        Array,
    >)
        requires
            args.well_formed(),
            args@.len() == self.strict_arity(options),
            self.handling(options) is Filter ==> vtable::all_valid(
                args@,
                args.row_count as nat,
            ),
        ensures
            vtable::outcome(out) == self.kernel(options, args@, args.row_count as nat),
    ;

    fn execute_strict_branch(
        &self,
        options: &Self::Options,
        args: &ExecutionArgs,
        valid: &Mask,
    ) -> (out: VortexResult<Option<Array>>)
        requires
            args.well_formed(),
            args@.len() == self.strict_arity(options),
            valid@.len() == args.row_count,
            !mask::all_true(valid@),
            !mask::all_false(valid@),
            forall|r: int|
                0 <= r < args.row_count && #[trigger] valid@[r] ==> vtable::valid_at(args@, r),
        ensures
            vtable::maybe_outcome(out) == self.branch_kernel(
                options,
                args@,
                args.row_count as nat,
                valid@,
            ),
    ;

    fn decode_shrinks_when_filtered(&self, options: &Self::Options) -> (out: bool)
        ensures
            out == self.shrinks(options),
    ;

    fn validity(&self, options: &Self::Options, args: Vec<Expression>) -> (out: Option<Expression>)
        requires
            args@.len() == self.strict_arity(options),
        ensures
            vtable::optional_model(out) == self.strict_validity(
                options,
                tree::expressions_model(args@),
            ),
    ;

    fn reduce(&self, options: &Self::Options, node: &ReduceNode) -> (out: VortexResult<
        Option<ReduceNode>,
    >)
        requires
            node.children@.len() == self.strict_arity(options),
        ensures
            vtable::reduce_outcome(out) == self.strict_reduction(options, node@),
    ;
}

/// Whether any type is nullable.
pub open spec fn any_nullable(dtypes: Seq<DTypeV>) -> bool {
    exists|i: int| 0 <= i < dtypes.len() && (#[trigger] dtypes[i]).nullable()
}

/// A type made nullable if any input is.
pub open spec fn lifted_dtype(
    element: Result<DTypeV, Seq<char>>,
    dtypes: Seq<DTypeV>,
) -> Result<DTypeV, Seq<char>> {
    match element {
        Ok(dtype) => Ok(
            dtype.with_nullability(
                dtype.nullability().union(Nullability::of(any_nullable(dtypes))),
            ),
        ),
        Err(error) => Err(error),
    }
}

/// What is said when a kernel and its declared type disagree.
pub open spec fn dtype_mismatch(produced: DTypeV, declared: DTypeV) -> Seq<char> {
    "strict kernel produced "@ + produced.text() + " but the function declares "@ + declared.text()
}

/// A kernel's column under the declared type. Nullability is cast away; any other difference is
/// an error.
pub open spec fn reconciled(values: ArrayV, declared: DTypeV) -> Result<ArrayV, Seq<char>> {
    if !values.dtype.eq_ignore_nullability(declared) {
        Err(dtype_mismatch(values.dtype, declared))
    } else if values.dtype == declared {
        Ok(values)
    } else {
        values.cast(declared)
    }
}

/// What is said of a mask of another length.
pub open spec fn mask_mismatch(rows: nat, bits: nat) -> Seq<char> {
    "cannot mask "@ + text::decimal_text(rows) + " rows with "@ + text::decimal_text(bits)
        + " bits"@
}

/// A kernel's column, masked and brought under the declared type.
pub open spec fn masked(values: ArrayV, valid: Seq<bool>, declared: DTypeV) -> Result<
    ArrayV,
    Seq<char>,
> {
    if values.len() != valid.len() {
        Err(mask_mismatch(values.len(), valid.len()))
    } else {
        reconciled(values.mask(valid), declared)
    }
}

/// What is said when a kernel returns another number of rows than it was given.
pub open spec fn filtered_mismatch(produced: nat, given: nat) -> Seq<char> {
    "strict kernel produced "@ + text::decimal_text(produced) + " rows for "@ + text::decimal_text(
        given,
    ) + " filtered rows"@
}

/// The row that row `i` of a scattered column reads: its rank if it is valid, else any.
pub open spec fn gather_index(valid: Seq<bool>, i: int) -> nat {
    if valid[i] {
        mask::rank(valid, i)
    } else {
        0
    }
}

/// One value per valid row, put back in place, with nulls between.
pub open spec fn scattered(values: ArrayV, valid: Seq<bool>) -> ArrayV {
    ArrayV {
        dtype: values.dtype.with_nullability(Nullability::Nullable),
        cells: Seq::new(
            valid.len(),
            |i: int| values.cells[gather_index(valid, i) as int].masked(valid[i]),
        ),
        constant: None,
        shared: None,
    }
}

/// What is said of a mask without both valid and invalid rows.
pub open spec fn unmixed_scatter() -> Seq<char> {
    "scatter_valid requires a mixed mask"@
}

/// Scattering, which needs one value per valid row and a mask with both valid and invalid rows.
pub open spec fn scatter_result(values: ArrayV, valid: Seq<bool>) -> Result<ArrayV, Seq<char>> {
    let given = mask::true_count(valid);
    if values.len() != given {
        Err(filtered_mismatch(values.len(), given))
    } else if mask::all_true(valid) || mask::all_false(valid) {
        Err(unmixed_scatter())
    } else {
        Ok(scattered(values, valid))
    }
}

/// The valid rows of every column.
pub open spec fn filtered(args: Seq<ArrayV>, valid: Seq<bool>) -> Seq<ArrayV> {
    Seq::new(args.len(), |i: int| args[i].filter(valid))
}

/// The first row of every column.
pub open spec fn first_rows(args: Seq<ArrayV>) -> Seq<ArrayV> {
    Seq::new(args.len(), |i: int| args[i].first())
}

/// The conjunction of the columns' validities.
pub open spec fn conjoined(args: Seq<ArrayV>) -> ValidityV
    decreases args.len(),
{
    if args.len() == 0 {
        ValidityV::NonNullable
    } else {
        conjoined(args.drop_last()).and(args.last().validity())
    }
}

/// Some input is a null constant.
pub open spec fn has_null_constant(args: Seq<ArrayV>) -> bool {
    exists|i: int|
        0 <= i < args.len() && ((#[trigger] args[i]).constant matches Some(cell) && !cell.valid)
}

/// Every input is constant.
pub open spec fn all_constant(args: Seq<ArrayV>) -> bool {
    forall|i: int| 0 <= i < args.len() ==> (#[trigger] args[i]).constant is Some
}

/// What is said of a fallible kernel that asks to see rows behind nulls.
pub open spec fn fallible_dense(id: Seq<char>) -> Seq<char> {
    id
        + " is fallible and cannot use NullHandling::Dense: rows behind nulls hold arbitrary values and must not raise errors"@
}

/// What is said when a forced strategy does not exist.
pub open spec fn no_branch(id: Seq<char>) -> Seq<char> {
    id + " has no branch-and-skip execution for these inputs"@
}

/// Filtering, running the kernel and scattering.
pub open spec fn filter_result<V: StrictScalarFnVTable>(
    function: &V,
    options: &V::Options,
    args: Seq<ArrayV>,
    valid: Seq<bool>,
    declared: DTypeV,
) -> Result<ArrayV, Seq<char>> {
    let given = mask::true_count(valid);
    match function.kernel(options, filtered(args, valid), given) {
        Err(error) => Err(error),
        Ok(values) => match scatter_result(values, valid) {
            Err(error) => Err(error),
            Ok(array) => reconciled(array, declared),
        },
    }
}

/// Computing the valid rows in place; `None` if the kernel cannot.
pub open spec fn branch_result<V: StrictScalarFnVTable>(
    function: &V,
    options: &V::Options,
    args: Seq<ArrayV>,
    rows: nat,
    valid: Seq<bool>,
    declared: DTypeV,
) -> Result<Option<ArrayV>, Seq<char>> {
    match function.branch_kernel(options, args, rows, valid) {
        Err(error) => Err(error),
        Ok(None) => Ok(None),
        Ok(Some(values)) => match masked(values, valid, declared) {
            Ok(array) => Ok(Some(array)),
            Err(error) => Err(error),
        },
    }
}

/// Whether computing in place is preferred for a mask with both valid and invalid rows: always,
/// unless decode work shrinks under filtering and fewer than three quarters of the rows survive.
pub open spec fn branch_preferred(shrinks: bool, valid: Seq<bool>) -> bool {
    !shrinks || 4 * mask::true_count(valid) >= 3 * valid.len()
}

/// The result where the kernel sees only valid rows.
pub open spec fn filtered_result<V: StrictScalarFnVTable>(
    function: &V,
    options: &V::Options,
    args: Seq<ArrayV>,
    rows: nat,
    declared: DTypeV,
) -> Result<ArrayV, Seq<char>> {
    let valid = conjoined(args).bits(rows);
    if mask::all_true(valid) {
        match function.kernel(options, args, rows) {
            Err(error) => Err(error),
            Ok(values) => reconciled(values, declared),
        }
    } else if mask::all_false(valid) {
        Ok(array::all_null(declared, rows))
    } else if branch_preferred(function.shrinks(options), valid) {
        match branch_result(function, options, args, rows, valid, declared) {
            Err(error) => Err(error),
            Ok(Some(array)) => Ok(array),
            Ok(None) => filter_result(function, options, args, valid, declared),
        }
    } else {
        filter_result(function, options, args, valid, declared)
    }
}

/// The result where the kernel sees every row.
pub open spec fn dense_result<V: StrictScalarFnVTable>(
    function: &V,
    options: &V::Options,
    args: Seq<ArrayV>,
    rows: nat,
    declared: DTypeV,
) -> Result<ArrayV, Seq<char>> {
    if function.kernel_fallible(options) {
        Err(fallible_dense(function.strict_id()))
    } else if conjoined(args) is AllInvalid {
        Ok(array::all_null(declared, rows))
    } else {
        match function.kernel(options, args, rows) {
            Err(error) => Err(error),
            Ok(values) => match conjoined(args) {
                ValidityV::Array(valid) => masked(values, valid, declared),
                _ => reconciled(values, declared),
            },
        }
    }
}

/// What is said when a one-row execution returns no row.
pub open spec fn no_row() -> Seq<char> {
    "index 0 out of bounds from 0 to 0"@
}

/// One row evaluated and repeated.
pub open spec fn folded_result<V: StrictScalarFnVTable>(
    function: &V,
    options: &V::Options,
    args: Seq<ArrayV>,
    rows: nat,
    declared: DTypeV,
) -> Result<ArrayV, Seq<char>> {
    match function.kernel(options, first_rows(args), 1) {
        Err(error) => Err(error),
        Ok(values) => match reconciled(values, declared) {
            Err(error) => Err(error),
            Ok(values) => if values.len() == 0 {
                Err(no_row())
            } else {
                Ok(array::constant(values.dtype, values.cells[0], rows))
            },
        },
    }
}

/// The result of a lifted kernel.
pub open spec fn lifted<V: StrictScalarFnVTable>(
    function: &V,
    options: &V::Options,
    args: Seq<ArrayV>,
    rows: nat,
) -> Result<ArrayV, Seq<char>> {
    if args.len() == 0 {
        function.kernel(options, args, rows)
    } else {
        let dtypes = vtable::dtypes_of(args);
        match lifted_dtype(function.element_dtype(options, dtypes), dtypes) {
            Err(error) => Err(error),
            Ok(declared) => if has_null_constant(args) {
                Ok(array::all_null(declared, rows))
            } else if rows > 0 && all_constant(args) {
                folded_result(function, options, args, rows, declared)
            } else {
                match function.handling(options) {
                    NullHandling::Dense => dense_result(function, options, args, rows, declared),
                    NullHandling::Filter => filtered_result(
                        function,
                        options,
                        args,
                        rows,
                        declared,
                    ),
                }
            },
        }
    }
}

/// Bring a kernel's column under the declared type.
pub fn with_return_dtype(values: Array, declared: &DType) -> (out: VortexResult<Array>)
    ensures
        vtable::outcome(out) == reconciled(values@, declared@),
{
    if !values.dtype().eq_ignore_nullability(declared) {
        let mut message = join3(
            "strict kernel produced ",
            values.dtype().to_text().as_str(),
            " but the function declares ",
        );
        message.append(declared.to_text().as_str());
        return Err(VortexError::new(message));
    }
    if values.dtype().same_as(declared) {
        Ok(values)
    } else {
        values.cast(declared)
    }
}

/// Mask a kernel's column and bring it under the declared type.
fn mask_to_dtype(values: Array, valid: &Mask, declared: &DType) -> (out: VortexResult<Array>)
    ensures
        vtable::outcome(out) == masked(values@, valid@, declared@),
{
    if values.len() != valid.len() {
        let mut message = join3("cannot mask ", decimal(values.len() as u64).as_str(), " rows with ");
        message.append(decimal(valid.len() as u64).as_str());
        message.append(" bits");
        return Err(VortexError::new(message));
    }
    with_return_dtype(values.mask(valid), declared)
}

/// Scatter `values`, one per set bit of `valid`, to the positions of the set bits, with a null at
/// every other position. The mask must have both valid and invalid rows.
pub fn scatter_valid(values: Array, valid: &Mask) -> (out: VortexResult<Array>)
    ensures
        vtable::outcome(out) == scatter_result(values@, valid@),
{
    let count: usize = valid.true_count();
    if values.len() != count {
        let mut message = join3(
            "strict kernel produced ",
            decimal(values.len() as u64).as_str(),
            " rows for ",
        );
        message.append(decimal(count as u64).as_str());
        message.append(" filtered rows");
        return Err(VortexError::new(message));
    }
    if valid.all_true() || valid.all_false() {
        return Err(VortexError::of("scatter_valid requires a mixed mask"));
    }
    proof {
        mask::true_count_bounds(valid@);
    }
    let rows: usize = valid.len();
    let mut indices: Vec<u64> = Vec::new();
    let mut rank: u64 = 0;
    let mut index: usize = 0;
    assert(valid@.take(0) =~= Seq::empty());
    while index < rows
        invariant
            index <= rows == valid@.len(),
            count == mask::true_count(valid@),
            0 < count == values@.len(),
            rank == mask::rank(valid@, index as int),
            rank <= index,
            indices@.len() == index,
            forall|i: int|
                0 <= i < index ==> #[trigger] indices@[i] == gather_index(valid@, i)
                    && indices@[i] < values@.len(),
        decreases rows - index,
    {
        proof {
            mask::rank_step(valid@, index as int);
            mask::rank_monotone(valid@, index + 1, valid@.len() as int);
        }
        if valid.value(index) {
            indices.push(rank);
            rank = rank + 1;
        } else {
            indices.push(0);
        }
        index = index + 1;
    }
    let gathered = values.take(&indices);
    let out = gathered.mask(valid);
    proof {
        assert(out@.cells =~= scattered(values@, valid@).cells);
    }
    Ok(out)
}

/// Whether computing in place is preferred over filtering.
pub fn branch_beats_filter(decode_shrinks_when_filtered: bool, valid: &Mask) -> (out: bool)
    ensures
        out == branch_preferred(decode_shrinks_when_filtered, valid@),
{
    if !decode_shrinks_when_filtered {
        return true;
    }
    let count: usize = valid.true_count();
    let rows: usize = valid.len();
    4 * (count as u128) >= 3 * (rows as u128)
}

/// The conjoined validity has one bit per row, set where every input is valid.
pub proof fn conjoined_bits(args: Seq<ArrayV>, rows: nat)
    requires
        forall|i: int| 0 <= i < args.len() ==> (#[trigger] args[i]).len() == rows,
    ensures
        conjoined(args).fits(rows),
        conjoined(args).bits(rows).len() == rows,
        forall|r: int|
            0 <= r < rows ==> (#[trigger] conjoined(args).bits(rows)[r] <==> forall|i: int|
                0 <= i < args.len() ==> (#[trigger] args[i]).cells[r].valid),
    decreases args.len(),
{
    if args.len() > 0 {
        let init = args.drop_last();
        let last = args.last();
        assert forall|i: int| 0 <= i < init.len() implies (#[trigger] init[i]).len() == rows by {
            assert(args[i].len() == rows);
        }
        conjoined_bits(init, rows);
        assert(args[args.len() - 1].len() == rows);
        assert(last.validity().bits(rows) =~= last.valid_bits());
        assert forall|r: int| 0 <= r < rows implies (#[trigger] conjoined(args).bits(rows)[r]
            <==> forall|i: int|
            0 <= i < args.len() ==> (#[trigger] args[i]).cells[r].valid) by {
            assert(last.validity().bits(rows)[r] == last.cells[r].valid);
            assert(conjoined(args).bits(rows)[r] == (conjoined(init).bits(rows)[r]
                && last.cells[r].valid));
            if conjoined(args).bits(rows)[r] {
                assert forall|i: int| 0 <= i < args.len() implies (#[trigger] args[i]).cells[r].valid by {
                    if i < init.len() {
                        assert(init[i].cells[r].valid);
                    }
                }
            } else {
                if !last.cells[r].valid {
                    assert(!args[args.len() - 1].cells[r].valid);
                } else {
                    let i = choose|i: int|
                        0 <= i < init.len() && !(#[trigger] init[i]).cells[r].valid;
                    assert(!args[i].cells[r].valid);
                }
            }
        }
    }
}

/// A row of the conjoined validity is set exactly if every input is valid there.
pub proof fn conjoined_rows(args: Seq<ArrayV>, rows: nat)
    requires
        vtable::aligned(args, rows),
    ensures
        conjoined(args).fits(rows),
        conjoined(args).bits(rows).len() == rows,
        forall|r: int|
            0 <= r < rows ==> #[trigger] conjoined(args).bits(rows)[r] == vtable::valid_at(args, r),
        mask::all_true(conjoined(args).bits(rows)) == vtable::all_valid(args, rows),
{
    assert forall|i: int| 0 <= i < args.len() implies (#[trigger] args[i]).len() == rows by {
    }
    conjoined_bits(args, rows);
    let bits = conjoined(args).bits(rows);
    assert forall|r: int| 0 <= r < rows implies #[trigger] bits[r] == vtable::valid_at(args, r) by {
    }
    if mask::all_true(bits) {
        assert forall|r: int| 0 <= r < rows implies #[trigger] vtable::valid_at(args, r) by {
            assert(bits[r]);
        }
    }
    if vtable::all_valid(args, rows) {
        assert forall|r: int| 0 <= r < bits.len() implies #[trigger] bits[r] by {
            assert(vtable::valid_at(args, r));
        }
    }
}

/// What a mask keeps of rows that are valid under it is valid.
proof fn selected_are_valid(cells: Seq<CellV>, bits: Seq<bool>)
    requires
        bits.len() <= cells.len(),
        forall|r: int| 0 <= r < bits.len() && #[trigger] bits[r] ==> cells[r].valid,
    ensures
        forall|k: int|
            0 <= k < mask::select(cells, bits).len() ==> (#[trigger] mask::select(cells, bits)[k]).valid,
    decreases bits.len(),
{
    if bits.len() > 0 {
        let init = bits.drop_last();
        assert forall|r: int| 0 <= r < init.len() && #[trigger] init[r] implies cells[r].valid by {
            assert(bits[r]);
        }
        selected_are_valid(cells, init);
        assert(bits[bits.len() - 1] == bits.last());
    }
}

/// Filtered by their conjoined validity, inputs are valid throughout.
pub proof fn filtered_is_valid(args: Seq<ArrayV>, valid: Seq<bool>)
    requires
        vtable::aligned(args, valid.len()),
        forall|r: int| 0 <= r < valid.len() && #[trigger] valid[r] ==> vtable::valid_at(args, r),
    ensures
        vtable::all_valid(filtered(args, valid), mask::true_count(valid)),
{
    let out = filtered(args, valid);
    assert forall|k: int| 0 <= k < mask::true_count(valid) implies #[trigger] vtable::valid_at(
        out,
        k,
    ) by {
        assert forall|i: int| 0 <= i < out.len() implies (#[trigger] out[i]).cells[k].valid by {
            assert(args[i].len() == valid.len());
            assert forall|r: int| 0 <= r < valid.len() && #[trigger] valid[r] implies args[i].cells[r].valid by {
                assert(vtable::valid_at(args, r));
            }
            mask::select_at_rank(args[i].cells, valid);
            selected_are_valid(args[i].cells, valid);
        }
    }
}

/// The conjoined validity of the inputs.
pub fn conjoin(args: &ExecutionArgs) -> (out: Validity)
    requires
        args.well_formed(),
    ensures
        out@ == conjoined(args@),
        out@.fits(args.row_count as nat),
{
    let mut validity = Validity::NonNullable;
    let mut index: usize = 0;
    assert(args@.take(0) =~= Seq::empty());
    while index < args.inputs.len()
        invariant
            args.well_formed(),
            index <= args.inputs@.len(),
            validity@ == conjoined(args@.take(index as int)),
            validity@.fits(args.row_count as nat),
        decreases args.inputs@.len() - index,
    {
        assert(args@[index as int] == args.inputs@[index as int]@);
        validity = validity.and(args.inputs[index].validity());
        proof {
            assert(args@.take(index + 1).drop_last() =~= args@.take(index as int));
            assert(args@.take(index + 1).last() == args@[index as int]);
        }
        index = index + 1;
    }
    assert(args@.take(args@.len() as int) =~= args@);
    validity
}

/// Every input reduced to the valid rows.
pub fn filter_inputs(args: &ExecutionArgs, valid: &Mask) -> (out: ExecutionArgs)
    requires
        args.well_formed(),
        valid@.len() == args.row_count,
    ensures
        out@ == filtered(args@, valid@),
        out.row_count == mask::true_count(valid@),
        out.well_formed(),
{
    let mut inputs: Vec<Array> = Vec::new();
    let mut index: usize = 0;
    while index < args.inputs.len()
        invariant
            args.well_formed(),
            valid@.len() == args.row_count,
            index <= args.inputs@.len(),
            vtable::arrays_model(inputs@) == filtered(args@, valid@).take(index as int),
        decreases args.inputs@.len() - index,
    {
        assert(args@[index as int] == args.inputs@[index as int]@);
        let ghost before = inputs@;
        let input = args.inputs[index].filter(valid);
        inputs.push(input);
        proof {
            assert(vtable::arrays_model(inputs@) =~= vtable::arrays_model(before).push(input@));
            assert(filtered(args@, valid@).take(index + 1) =~= filtered(args@, valid@).take(
                index as int,
            ).push(filtered(args@, valid@)[index as int]));
        }
        index = index + 1;
    }
    let out = ExecutionArgs::new(inputs, valid.true_count());
    proof {
        assert(out@ =~= filtered(args@, valid@));
        assert forall|i: int| 0 <= i < out@.len() implies (#[trigger] out@[i]).len()
            == out.row_count && out@[i].uniform() by {
            assert(args@[i].len() == args.row_count);
            mask::select_at_rank(args@[i].cells, valid@);
            array::array_is_uniform(&out.inputs@[i]);
        }
    }
    out
}

/// The first row of every input.
pub fn first_row_inputs(args: &ExecutionArgs) -> (out: ExecutionArgs)
    requires
        args.well_formed(),
        args.row_count > 0,
    ensures
        out@ == first_rows(args@),
        out.row_count == 1,
        out.well_formed(),
{
    let mut inputs: Vec<Array> = Vec::new();
    let mut index: usize = 0;
    while index < args.inputs.len()
        invariant
            args.well_formed(),
            args.row_count > 0,
            index <= args.inputs@.len(),
            vtable::arrays_model(inputs@) == first_rows(args@).take(index as int),
        decreases args.inputs@.len() - index,
    {
        assert(args@[index as int] == args.inputs@[index as int]@);
        assert(args@[index as int].len() == args.row_count);
        let ghost before = inputs@;
        let input = args.inputs[index].first();
        inputs.push(input);
        proof {
            assert(vtable::arrays_model(inputs@) =~= vtable::arrays_model(before).push(input@));
            assert(first_rows(args@).take(index + 1) =~= first_rows(args@).take(index as int).push(
                first_rows(args@)[index as int],
            ));
        }
        index = index + 1;
    }
    let out = ExecutionArgs::new(inputs, 1);
    proof {
        assert(out@ =~= first_rows(args@));
        assert forall|i: int| 0 <= i < out@.len() implies (#[trigger] out@[i]).len()
            == out.row_count && out@[i].uniform() by {
            assert(args@[i].len() == args.row_count);
            array::array_is_uniform(&out.inputs@[i]);
        }
    }
    out
}

/// Run the kernel over every row, including the rows behind nulls, then mask its result.
fn execute_dense<V: StrictScalarFnVTable>(
    function: &V,
    options: &V::Options,
    args: &ExecutionArgs,
    validity: Validity,
    declared: &DType,
) -> (out: VortexResult<Array>)
    requires
        args.well_formed(),
        args@.len() == function.strict_arity(options),
        function.handling(options) is Dense,
        validity@ == conjoined(args@),
        validity@.fits(args.row_count as nat),
    ensures
        vtable::outcome(out) == dense_result(
            function,
            options,
            args@,
            args.row_count as nat,
            declared@,
        ),
{
    if function.is_fallible(options) {
        return Err(
            VortexError::new(
                join2(
                    function.id().as_str(),
                    " is fallible and cannot use NullHandling::Dense: rows behind nulls hold arbitrary values and must not raise errors",
                ),
            ),
        );
    }
    if let Validity::AllInvalid = validity {
        return Ok(Array::all_null(declared.clone(), args.row_count));
    }
    let values = match function.execute_strict(options, args) {
        Ok(values) => values,
        Err(error) => return Err(error),
    };
    match validity {
        Validity::Array(bits) => mask_to_dtype(values, &Mask::new(bits), declared),
        _ => with_return_dtype(values, declared),
    }
}

/// Compute only the rows of `valid` in place and mask the full-length result. `None` means that
/// the kernel has no such execution for these inputs.
fn execute_branched<V: StrictScalarFnVTable>(
    function: &V,
    options: &V::Options,
    args: &ExecutionArgs,
    valid: &Mask,
    declared: &DType,
) -> (out: VortexResult<Option<Array>>)
    requires
        args.well_formed(),
        args@.len() == function.strict_arity(options),
        valid@ == conjoined(args@).bits(args.row_count as nat),
        !mask::all_true(valid@),
        !mask::all_false(valid@),
    ensures
        vtable::maybe_outcome(out) == branch_result(
            function,
            options,
            args@,
            args.row_count as nat,
            valid@,
            declared@,
        ),
{
    proof {
        conjoined_rows(args@, args.row_count as nat);
    }
    match function.execute_strict_branch(options, args, valid) {
        Err(error) => Err(error),
        Ok(None) => Ok(None),
        Ok(Some(values)) => match mask_to_dtype(values, valid, declared) {
            Ok(array) => Ok(Some(array)),
            Err(error) => Err(error),
        },
    }
}

/// Filter every input down to the rows of `valid`, run the kernel over those, and scatter its
/// results back into a null-padded column.
fn filter_and_scatter<V: StrictScalarFnVTable>(
    function: &V,
    options: &V::Options,
    args: &ExecutionArgs,
    valid: &Mask,
    declared: &DType,
) -> (out: VortexResult<Array>)
    requires
        args.well_formed(),
        args@.len() == function.strict_arity(options),
        valid@ == conjoined(args@).bits(args.row_count as nat),
        !mask::all_false(valid@),
    ensures
        vtable::outcome(out) == filter_result(function, options, args@, valid@, declared@),
{
    proof {
        conjoined_rows(args@, args.row_count as nat);
    }
    let given = filter_inputs(args, valid);
    proof {
        filtered_is_valid(args@, valid@);
    }
    match function.execute_strict(options, &given) {
        Err(error) => Err(error),
        Ok(values) => match scatter_valid(values, valid) {
            Err(error) => Err(error),
            Ok(array) => with_return_dtype(array, declared),
        },
    }
}

/// Materialize the conjoined validity, take the all-true and all-false shortcuts, and pick a
/// strategy for a mask with both.
fn execute_filtered<V: StrictScalarFnVTable>(
    function: &V,
    options: &V::Options,
    args: &ExecutionArgs,
    validity: Validity,
    declared: &DType,
) -> (out: VortexResult<Array>)
    requires
        args.well_formed(),
        args@.len() == function.strict_arity(options),
        validity@ == conjoined(args@),
        validity@.fits(args.row_count as nat),
    ensures
        vtable::outcome(out) == filtered_result(
            function,
            options,
            args@,
            args.row_count as nat,
            declared@,
        ),
{
    let valid = validity.execute_mask(args.row_count);
    proof {
        conjoined_rows(args@, args.row_count as nat);
    }
    // An empty mask is both all-true and all-false, and keeps a non-nullable type.
    if valid.all_true() {
        return match function.execute_strict(options, args) {
            Ok(values) => with_return_dtype(values, declared),
            Err(error) => Err(error),
        };
    }
    if valid.all_false() {
        return Ok(Array::all_null(declared.clone(), args.row_count));
    }
    if branch_beats_filter(function.decode_shrinks_when_filtered(options), &valid) {
        match execute_branched(function, options, args, &valid, declared) {
            Err(error) => return Err(error),
            Ok(Some(array)) => return Ok(array),
            Ok(None) => {},
        }
    }
    filter_and_scatter(function, options, args, &valid, declared)
}

/// Whether any type is nullable.
pub fn any_is_nullable(dtypes: &Vec<DType>) -> (out: bool)
    ensures
        out == any_nullable(vtable::dtypes_model(dtypes@)),
{
    let ghost model = vtable::dtypes_model(dtypes@);
    let mut nullable = false;
    let mut index: usize = 0;
    while index < dtypes.len()
        invariant
            index <= dtypes@.len(),
            model == vtable::dtypes_model(dtypes@),
            nullable == exists|i: int| 0 <= i < index && (#[trigger] model[i]).nullable(),
        decreases dtypes@.len() - index,
    {
        let here = dtypes[index].is_nullable();
        assert(model[index as int].nullable() == here);
        nullable = nullable || here;
        index = index + 1;
    }
    nullable
}

/// Where every input is a constant and none a null, the first rows are valid.
pub proof fn constants_are_valid(args: Seq<ArrayV>, rows: nat)
    requires
        vtable::aligned(args, rows),
        rows > 0,
        all_constant(args),
        !has_null_constant(args),
    ensures
        vtable::all_valid(first_rows(args), 1),
{
    let first = first_rows(args);
    assert forall|r: int| 0 <= r < 1 implies #[trigger] vtable::valid_at(first, r) by {
        assert forall|i: int| 0 <= i < first.len() implies (#[trigger] first[i]).cells[r].valid by {
            assert(args[i].constant is Some && args[i].uniform());
            assert(args[i].cells[0] == args[i].constant->Some_0);
        }
    }
}

/// The declared return type of a lifted kernel.
fn lift_dtype<V: StrictScalarFnVTable>(function: &V, options: &V::Options, dtypes: &Vec<DType>) -> (out:
    VortexResult<DType>)
    ensures
        vtable::dtype_outcome(out) == lifted_dtype(
            function.element_dtype(options, vtable::dtypes_model(dtypes@)),
            vtable::dtypes_model(dtypes@),
        ),
{
    let element = match function.return_element_dtype(options, dtypes) {
        Ok(element) => element,
        Err(error) => return Err(error),
    };
    let nullable = any_is_nullable(dtypes);
    Ok(element.with_nullability(element.nullability().or(Nullability::from_bool(nullable))))
}

/// Execute a strict function with a forced strategy for a mask with both valid and invalid rows.
///
/// Neither null constants nor all-constant inputs are folded. Forcing the in-place strategy on a
/// kernel that lacks it is an error.
pub fn execute_strict_with_strategy<V: StrictScalarFnVTable>(
    function: &V,
    options: &V::Options,
    args: &ExecutionArgs,
    strategy: NullStrategy,
) -> (out: VortexResult<Array>)
    requires
        args.well_formed(),
        args@.len() == function.strict_arity(options),
    ensures
        vtable::outcome(out) == forced(
            function,
            options,
            args@,
            args.row_count as nat,
            strategy,
        ),
{
    let dtypes = args.dtypes();
    let declared = match lift_dtype(function, options, &dtypes) {
        Ok(declared) => declared,
        Err(error) => return Err(error),
    };
    let valid = conjoin(args).execute_mask(args.row_count);
    proof {
        conjoined_rows(args@, args.row_count as nat);
    }
    if valid.all_true() {
        return match function.execute_strict(options, args) {
            Ok(values) => with_return_dtype(values, &declared),
            Err(error) => Err(error),
        };
    }
    if valid.all_false() {
        return Ok(Array::all_null(declared, args.row_count));
    }
    match strategy {
        NullStrategy::Filter => filter_and_scatter(function, options, args, &valid, &declared),
        NullStrategy::BranchAndSkip => match execute_branched(
            function,
            options,
            args,
            &valid,
            &declared,
        ) {
            Err(error) => Err(error),
            Ok(Some(array)) => Ok(array),
            Ok(None) => Err(
                VortexError::new(
                    join2(
                        function.id().as_str(),
                        " has no branch-and-skip execution for these inputs",
                    ),
                ),
            ),
        },
    }
}

/// The result under a forced strategy.
pub open spec fn forced<V: StrictScalarFnVTable>(
    function: &V,
    options: &V::Options,
    args: Seq<ArrayV>,
    rows: nat,
    strategy: NullStrategy,
) -> Result<ArrayV, Seq<char>> {
    let dtypes = vtable::dtypes_of(args);
    match lifted_dtype(function.element_dtype(options, dtypes), dtypes) {
        Err(error) => Err(error),
        Ok(declared) => {
            let valid = conjoined(args).bits(rows);
            if mask::all_true(valid) {
                match function.kernel(options, args, rows) {
                    Err(error) => Err(error),
                    Ok(values) => reconciled(values, declared),
                }
            } else if mask::all_false(valid) {
                Ok(array::all_null(declared, rows))
            } else {
                match strategy {
                    NullStrategy::Filter => filter_result(
                        function,
                        options,
                        args,
                        valid,
                        declared,
                    ),
                    NullStrategy::BranchAndSkip => match branch_result(
                        function,
                        options,
                        args,
                        rows,
                        valid,
                        declared,
                    ) {
                        Err(error) => Err(error),
                        Ok(Some(array)) => Ok(array),
                        Ok(None) => Err(no_branch(function.strict_id())),
                    },
                }
            }
        },
    }
}

/// Whether some input is a null constant.
pub fn any_null_constant(args: &ExecutionArgs) -> (out: bool)
    ensures
        out == has_null_constant(args@),
{
    let mut index: usize = 0;
    while index < args.inputs.len()
        invariant
            index <= args.inputs@.len(),
            forall|i: int|
                0 <= i < index ==> !((#[trigger] args@[i]).constant matches Some(cell)
                    && !cell.valid),
        decreases args.inputs@.len() - index,
    {
        assert(args@[index as int] == args.inputs@[index as int]@);
        if let Some(cell) = args.inputs[index].as_constant() {
            if !cell.valid {
                return true;
            }
        }
        index = index + 1;
    }
    false
}

/// Whether every input is constant.
pub fn every_constant(args: &ExecutionArgs) -> (out: bool)
    ensures
        out == all_constant(args@),
{
    let mut index: usize = 0;
    while index < args.inputs.len()
        invariant
            index <= args.inputs@.len(),
            forall|i: int| 0 <= i < index ==> (#[trigger] args@[i]).constant is Some,
        decreases args.inputs@.len() - index,
    {
        assert(args@[index as int] == args.inputs@[index as int]@);
        if args.inputs[index].as_constant().is_none() {
            return false;
        }
        index = index + 1;
    }
    true
}

/// Every strict function is a scalar function.
impl<V: StrictScalarFnVTable> ScalarFnVTable for V {
    type Options = V::Options;

    open spec fn id_text(&self) -> Seq<char> {
        self.strict_id()
    }

    open spec fn arity_of(&self, options: &V::Options) -> nat {
        self.strict_arity(options)
    }

    open spec fn result_dtype(&self, options: &V::Options, dtypes: Seq<DTypeV>) -> Result<
        DTypeV,
        Seq<char>,
    > {
        lifted_dtype(self.element_dtype(options, dtypes), dtypes)
    }

    open spec fn result(&self, options: &V::Options, args: Seq<ArrayV>, rows: nat) -> Result<
        ArrayV,
        Seq<char>,
    > {
        lifted(self, options, args, rows)
    }

    open spec fn strict(&self, options: &V::Options) -> bool {
        true
    }

    open spec fn fallible(&self, options: &V::Options) -> bool {
        self.kernel_fallible(options)
    }

    open spec fn result_validity(&self, options: &V::Options, args: Seq<ExprV>) -> Option<ExprV> {
        self.strict_validity(options, args)
    }

    open spec fn reduction(&self, options: &V::Options, node: ReduceNodeV) -> Result<
        Option<ReduceNodeV>,
        Seq<char>,
    > {
        self.strict_reduction(options, node)
    }

    fn id(&self) -> (out: String) {
        StrictScalarFnVTable::id(self)
    }

    fn arity(&self, options: &V::Options) -> (out: Arity) {
        StrictScalarFnVTable::arity(self, options)
    }

    fn return_dtype(&self, options: &V::Options, dtypes: &Vec<DType>) -> (out: VortexResult<
        DType,
    >) {
        lift_dtype(self, options, dtypes)
    }

    fn execute(&self, options: &V::Options, args: &ExecutionArgs) -> (out: VortexResult<Array>) {
        // Nullary functions have no input values that could be null.
        if args.inputs.len() == 0 {
            return self.execute_strict(options, args);
        }
        let dtypes = args.dtypes();
        let declared = match lift_dtype(self, options, &dtypes) {
            Ok(declared) => declared,
            Err(error) => return Err(error),
        };
        if any_null_constant(args) {
            return Ok(Array::all_null(declared, args.row_count));
        }
        if args.row_count > 0 && every_constant(args) {
            let one_row = first_row_inputs(args);
            proof {
                constants_are_valid(args@, args.row_count as nat);
            }
            let values = match self.execute_strict(options, &one_row) {
                Ok(values) => values,
                Err(error) => return Err(error),
            };
            let values = match with_return_dtype(values, &declared) {
                Ok(values) => values,
                Err(error) => return Err(error),
            };
            if values.is_empty() {
                return Err(VortexError::of("index 0 out of bounds from 0 to 0"));
            }
            return Ok(Array::constant(values.dtype().clone(), values.cell(0), args.row_count));
        }
        let validity = conjoin(args);
        match self.null_handling(options) {
            NullHandling::Dense => execute_dense(self, options, args, validity, &declared),
            NullHandling::Filter => execute_filtered(self, options, args, validity, &declared),
        }
    }

    fn is_strict(&self, options: &V::Options) -> (out: bool) {
        true
    }

    fn is_fallible(&self, options: &V::Options) -> (out: bool) {
        StrictScalarFnVTable::is_fallible(self, options)
    }

    fn validity(&self, options: &V::Options, args: Vec<Expression>) -> (out: Option<Expression>) {
        StrictScalarFnVTable::validity(self, options, args)
    }

    fn reduce(&self, options: &V::Options, node: &ReduceNode) -> (out: VortexResult<
        Option<ReduceNode>,
    >) {
        StrictScalarFnVTable::reduce(self, options, node)
    }
}

} // verus!
