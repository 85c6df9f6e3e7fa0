//! Row functions, and the loops that run them.

use vstd::prelude::*;

use crate::array::{Array, ArrayV};
use crate::dtype::{DType, DTypeV};
use crate::error::{VortexError, VortexResult};
use crate::expr::tree::{self, conjoin, ExprV, Expression};
use crate::mask::{self, Mask};
use crate::scalar_fn::row::element::{self, ApplyResult, OutputElement};
use crate::scalar_fn::row::tuple::{self, ElementTuple};
use crate::scalar_fn::strict::{self, NullHandling, NullStrategy, StrictScalarFnVTable};
use crate::scalar_fn::vtable::{self, Arity, ExecutionArgs, ReduceNode, ReduceNodeV};
use crate::text::{self, decimal, join2, join3};
use crate::value::ValueV;

verus! {

/// A scalar function computed one row at a time.
pub trait RowFn {
    type Options;

    /// The input elements of a row.
    type Args: ElementTuple;

    /// What one row returns: an element, or a result of one.
    type Ret: ApplyResult;

    /// What is prepared once per batch from the constant operands.
    type State;

    spec fn row_id(&self) -> Seq<char>;

    /// The row computation: a payload, or what is said where there is none.
    spec fn eval(
        &self,
        options: &Self::Options,
        row: <Self::Args as ElementTuple>::V,
    ) -> Result<ValueV, Seq<char>>;

    /// `state` is what `constants` prepare.
    spec fn prepared(
        &self,
        options: &Self::Options,
        constants: <Self::Args as ElementTuple>::ConstV,
        state: Self::State,
    ) -> bool;

    /// The encoding-aware rewrite.
    spec fn reduced(&self, options: &Self::Options, args: Seq<ArrayV>) -> Result<
        Option<ArrayV>,
        Seq<char>,
    >;

    /// The computation fails only where its return type can say so.
    proof fn eval_is_total(&self, options: &Self::Options, row: <Self::Args as ElementTuple>::V)
        ensures
            !<Self::Ret as ApplyResult>::fallible() ==> self.eval(options, row) is Ok,
    ;

    /// The name of the function.
    fn id(&self) -> (out: String)
        ensures
            out@ == self.row_id(),
    ;

    /// Prepare the state that every row of a batch shares.
    fn prepare<'a>(
        &self,
        options: &Self::Options,
        constants: <Self::Args as ElementTuple>::ConstElems<'a>,
    ) -> (state: Self::State)
        ensures
            self.prepared(options, Self::Args::const_meaning(constants), state),
    ;

    /// Compute one row.
    fn apply<'a>(
        &self,
        options: &Self::Options,
        state: &Self::State,
        row: <Self::Args as ElementTuple>::Elems<'a>,
    ) -> (out: Self::Ret)
        requires
            exists|constants: <Self::Args as ElementTuple>::ConstV| #[trigger]
                self.prepared(options, constants, *state) && Self::Args::agree(
                    constants,
                    Self::Args::meaning(row),
                ),
        ensures
            out.applied() == self.eval(options, Self::Args::meaning(row)),
    ;

    /// Answer from the encodings of the inputs, without a row loop.
    fn reduce_encoded(&self, options: &Self::Options, args: &ExecutionArgs) -> (out: VortexResult<
        Option<Array>,
    >)
        requires
            args.well_formed(),
        ensures
            vtable::maybe_outcome(out) == self.reduced(options, args@),
    ;
}

/// The element that a row function produces.
pub type OutOf<F> = <<F as RowFn>::Ret as ApplyResult>::Out;

/// The payloads of the first `n` rows, or what is said at the first row that has none.
pub open spec fn evaluated<F: RowFn>(
    function: &F,
    options: &F::Options,
    args: Seq<ArrayV>,
    n: nat,
) -> Result<Seq<ValueV>, Seq<char>>
    decreases n,
{
    if n == 0 {
        Ok(Seq::empty())
    } else {
        match evaluated(function, options, args, (n - 1) as nat) {
            Err(error) => Err(error),
            Ok(values) => match function.eval(options, F::Args::row_at(args, n - 1)) {
                Err(error) => Err(error),
                Ok(value) => Ok(values.push(value)),
            },
        }
    }
}

/// The payloads of the first `n` rows where only the rows of `valid` are computed and every other
/// row holds a placeholder.
pub open spec fn evaluated_valid<F: RowFn>(
    function: &F,
    options: &F::Options,
    args: Seq<ArrayV>,
    valid: Seq<bool>,
    n: nat,
) -> Result<Seq<ValueV>, Seq<char>>
    decreases n,
{
    if n == 0 {
        Ok(Seq::empty())
    } else {
        match evaluated_valid(function, options, args, valid, (n - 1) as nat) {
            Err(error) => Err(error),
            Ok(values) => if valid[n - 1] {
                match function.eval(options, F::Args::row_at(args, n - 1)) {
                    Err(error) => Err(error),
                    Ok(value) => Ok(values.push(value)),
                }
            } else {
                Ok(values.push(OutOf::<F>::placeholder_payload()))
            },
        }
    }
}

/// The row loop over every row.
pub open spec fn loop_result<F: RowFn>(
    function: &F,
    options: &F::Options,
    args: Seq<ArrayV>,
    rows: nat,
) -> Result<ArrayV, Seq<char>> {
    match F::Args::decodes(args) {
        Err(error) => Err(error),
        Ok(()) => match evaluated(function, options, args, rows) {
            Err(error) => Err(error),
            Ok(values) => Ok(OutOf::<F>::built(values)),
        },
    }
}

/// What is said of a mask without both valid and invalid rows.
pub open spec fn unmixed_branch() -> Seq<char> {
    "execute_row_loop_branch requires a mixed mask"@
}

/// The row loop over the rows of a mask with both valid and invalid rows; `None` if some argument
/// has no null-tolerant decode.
pub open spec fn branch_loop_result<F: RowFn>(
    function: &F,
    options: &F::Options,
    args: Seq<ArrayV>,
    rows: nat,
    valid: Seq<bool>,
) -> Result<Option<ArrayV>, Seq<char>> {
    match F::Args::decodes_tolerant(args) {
        Err(error) => Err(error),
        Ok(false) => Ok(None),
        Ok(true) => if mask::all_true(valid) || mask::all_false(valid) {
            Err(unmixed_branch())
        } else {
            match evaluated_valid(function, options, args, valid, rows) {
                Err(error) => Err(error),
                Ok(values) => Ok(Some(OutOf::<F>::built(values))),
            }
        },
    }
}

/// What is said of an answer from encodings with another number of rows.
pub open spec fn wrong_answer_rows(id: Seq<char>, produced: nat, given: nat) -> Seq<char> {
    id + " produced "@ + text::decimal_text(produced) + " rows for "@ + text::decimal_text(given)
        + " input rows"@
}

/// An answer from encodings, which must have one row per input row.
pub open spec fn answered(id: Seq<char>, array: ArrayV, rows: nat) -> Result<ArrayV, Seq<char>> {
    if array.len() == rows {
        Ok(array)
    } else {
        Err(wrong_answer_rows(id, array.len(), rows))
    }
}

/// Check that an answer from encodings has one row per input row.
fn check_answer(id: &str, array: Array, rows: usize) -> (out: VortexResult<Array>)
    ensures
        vtable::outcome(out) == answered(id@, array@, rows as nat),
{
    let produced: usize = array.len();
    if produced == rows {
        return Ok(array);
    }
    let mut message = join3(id, " produced ", decimal(produced as u64).as_str());
    message.append(" rows for ");
    message.append(decimal(rows as u64).as_str());
    message.append(" input rows");
    Err(VortexError::new(message))
}

/// What is said of an output element whose type is nullable.
pub open spec fn nullable_element(dtype: DTypeV) -> Seq<char> {
    "row output elements must declare a non-nullable dtype, got "@ + dtype.text()
}

/// The output type of a row function over these input types.
pub open spec fn row_dtype<A: ElementTuple, R: ApplyResult>(dtypes: Seq<DTypeV>) -> Result<
    DTypeV,
    Seq<char>,
> {
    match A::accepts(dtypes) {
        Err(error) => Err(error),
        Ok(()) => if R::Out::element_type().nullable() {
            Err(nullable_element(R::Out::element_type()))
        } else {
            Ok(R::Out::element_type())
        },
    }
}

/// Check the input types of a row function and return its output element type.
pub fn validate_row_args<A: ElementTuple, R: ApplyResult>(dtypes: &Vec<DType>) -> (out:
    VortexResult<DType>)
    ensures
        vtable::dtype_outcome(out) == row_dtype::<A, R>(vtable::dtypes_model(dtypes@)),
{
    if let Err(error) = A::validate(dtypes) {
        return Err(error);
    }
    let dtype = R::Out::element_dtype();
    if dtype.is_nullable() {
        return Err(
            VortexError::new(
                join2(
                    "row output elements must declare a non-nullable dtype, got ",
                    dtype.to_text().as_str(),
                ),
            ),
        );
    }
    Ok(dtype)
}

/// Whether a row function can fail on legal data: in decoding an argument, or in a row.
pub fn row_is_fallible<A: ElementTuple, R: ApplyResult>() -> (out: bool)
    ensures
        out == (A::decode_fallible() || R::fallible()),
{
    proof {
        A::constants_hold();
        R::constant_holds();
    }
    A::DECODE_FALLIBLE || R::FALLIBLE
}

/// The null handling that arguments and return type allow: every row is evaluated exactly if each
/// argument is readable behind nulls and nothing can fail.
pub fn row_null_handling<A: ElementTuple, R: ApplyResult>() -> (out: NullHandling)
    ensures
        out == (if A::dense_safe() && !A::decode_fallible() && !R::fallible() {
            NullHandling::Dense
        } else {
            NullHandling::Filter
        }),
{
    proof {
        A::constants_hold();
    }
    if A::DENSE_SAFE && !row_is_fallible::<A, R>() {
        NullHandling::Dense
    } else {
        NullHandling::Filter
    }
}

/// Decode every input column once, prepare, then compute one output element per row.
pub fn execute_row_loop_prepared<F: RowFn>(
    function: &F,
    options: &F::Options,
    args: &ExecutionArgs,
) -> (out: VortexResult<Array>)
    requires
        args.well_formed(),
        args@.len() == <F::Args as ElementTuple>::arity(),
        <F::Args as ElementTuple>::dense_safe() || vtable::all_valid(args@, args.row_count as nat),
    ensures
        vtable::outcome(out) == loop_result(function, options, args@, args.row_count as nat),
{
    let columns = match F::Args::decode(args) {
        Ok(columns) => columns,
        Err(error) => return Err(error),
    };
    proof {
        if !<F::Args as ElementTuple>::dense_safe() {
            assert(args.row_count > 0 ==> vtable::valid_at(args@, 0));
            tuple::valid_rows_have_no_null_constant(args@, args.row_count as nat, 0);
        }
    }
    let state = function.prepare(options, F::Args::constants(&columns));
    let mut values: Vec<OutOf<F>> = Vec::new();
    let mut index: usize = 0;
    assert(element::payloads_of(values@) =~= Seq::empty());
    while index < args.row_count
        invariant
            index <= args.row_count,
            F::Args::decodes(args@) is Ok,
            F::Args::can_get_constants(&columns),
            function.prepared(options, F::Args::constants_of(&columns), state),
            <F::Args as ElementTuple>::dense_safe() || vtable::all_valid(
                args@,
                args.row_count as nat,
            ),
            forall|r: int|
                0 <= r < args.row_count && (<F::Args as ElementTuple>::dense_safe()
                    || vtable::valid_at(args@, r)) ==> (#[trigger] F::Args::can_get(&columns, r))
                    && F::Args::at(&columns, r) == F::Args::row_at(args@, r),
            evaluated(function, options, args@, index as nat) == Ok::<Seq<ValueV>, Seq<char>>(
                element::payloads_of(values@),
            ),
        decreases args.row_count - index,
    {
        proof {
            assert(<F::Args as ElementTuple>::dense_safe() || vtable::valid_at(args@, index as int));
            assert(F::Args::can_get(&columns, index as int));
            F::Args::constants_agree(&columns, index as int);
        }
        let ghost before = values@;
        match function.apply(options, &state, F::Args::get(&columns, index)).into_result() {
            Ok(value) => {
                values.push(value);
                assert(element::payloads_of(values@) =~= element::payloads_of(before).push(
                    value.payload(),
                ));
            },
            Err(error) => {
                proof {
                    evaluated_stops(
                        function,
                        options,
                        args@,
                        (index + 1) as nat,
                        args.row_count as nat,
                    );
                }
                return Err(error);
            },
        }
        index = index + 1;
    }
    Ok(<OutOf<F> as OutputElement>::build(values))
}

/// A row loop that stopped stays stopped.
proof fn evaluated_stops<F: RowFn>(
    function: &F,
    options: &F::Options,
    args: Seq<ArrayV>,
    m: nat,
    n: nat,
)
    requires
        m <= n,
        evaluated(function, options, args, m) is Err,
    ensures
        evaluated(function, options, args, n) == evaluated(function, options, args, m),
    decreases n - m,
{
    if m < n {
        evaluated_stops(function, options, args, m, (n - 1) as nat);
    }
}

proof fn evaluated_valid_stops<F: RowFn>(
    function: &F,
    options: &F::Options,
    args: Seq<ArrayV>,
    valid: Seq<bool>,
    m: nat,
    n: nat,
)
    requires
        m <= n,
        evaluated_valid(function, options, args, valid, m) is Err,
    ensures
        evaluated_valid(function, options, args, valid, n) == evaluated_valid(
            function,
            options,
            args,
            valid,
            m,
        ),
    decreases n - m,
{
    if m < n {
        evaluated_valid_stops(function, options, args, valid, m, (n - 1) as nat);
    }
}

/// Decode every column null-tolerantly, then run the row loop only over the rows set in `valid`,
/// leaving a placeholder in every other output slot. `None` means that some argument cannot be
/// decoded so. The mask must have both valid and invalid rows.
pub fn execute_row_loop_branch<F: RowFn>(
    function: &F,
    options: &F::Options,
    args: &ExecutionArgs,
    valid: &Mask,
) -> (out: VortexResult<Option<Array>>)
    requires
        args.well_formed(),
        args@.len() == <F::Args as ElementTuple>::arity(),
        valid@.len() == args.row_count,
        forall|r: int|
            0 <= r < args.row_count && #[trigger] valid@[r] ==> vtable::valid_at(args@, r),
    ensures
        vtable::maybe_outcome(out) == branch_loop_result(
            function,
            options,
            args@,
            args.row_count as nat,
            valid@,
        ),
{
    let columns = match F::Args::decode_null_tolerant(args) {
        Ok(Some(columns)) => columns,
        Ok(None) => return Ok(None),
        Err(error) => return Err(error),
    };
    if valid.all_true() || valid.all_false() {
        return Err(VortexError::of("execute_row_loop_branch requires a mixed mask"));
    }
    proof {
        let r = choose|r: int| 0 <= r < valid@.len() && #[trigger] valid@[r];
        tuple::valid_rows_have_no_null_constant(args@, args.row_count as nat, r);
    }
    let state = function.prepare(options, F::Args::constants(&columns));
    let mut values: Vec<OutOf<F>> = Vec::new();
    let mut index: usize = 0;
    assert(element::payloads_of(values@) =~= Seq::empty());
    while index < args.row_count
        invariant
            index <= args.row_count == valid@.len(),
            !mask::all_true(valid@) && !mask::all_false(valid@),
            F::Args::decodes_tolerant(args@) == Ok::<bool, Seq<char>>(true),
            F::Args::can_get_constants(&columns),
            function.prepared(options, F::Args::constants_of(&columns), state),
            forall|r: int|
                0 <= r < args.row_count && #[trigger] valid@[r] ==> vtable::valid_at(args@, r),
            forall|r: int|
                0 <= r < args.row_count && vtable::valid_at(args@, r) ==> (
                #[trigger] F::Args::can_get(&columns, r)) && F::Args::at(&columns, r)
                    == F::Args::row_at(args@, r),
            evaluated_valid(function, options, args@, valid@, index as nat) == Ok::<
                Seq<ValueV>,
                Seq<char>,
            >(element::payloads_of(values@)),
        decreases args.row_count - index,
    {
        let ghost before = values@;
        if valid.value(index) {
            proof {
                assert(vtable::valid_at(args@, index as int));
                assert(F::Args::can_get(&columns, index as int));
                F::Args::constants_agree(&columns, index as int);
            }
            match function.apply(options, &state, F::Args::get(&columns, index)).into_result() {
                Ok(value) => {
                    values.push(value);
                    assert(element::payloads_of(values@) =~= element::payloads_of(before).push(
                        value.payload(),
                    ));
                },
                Err(error) => {
                    proof {
                        evaluated_valid_stops(
                            function,
                            options,
                            args@,
                            valid@,
                            (index + 1) as nat,
                            args.row_count as nat,
                        );
                    }
                    return Err(error);
                },
            }
        } else {
            let value = <OutOf<F> as OutputElement>::placeholder();
            values.push(value);
            assert(element::payloads_of(values@) =~= element::payloads_of(before).push(
                value.payload(),
            ));
        }
        index = index + 1;
    }
    Ok(Some(<OutOf<F> as OutputElement>::build(values)))
}

/// Every row function is a strict function whose kernel is the row loop.
impl<F: RowFn> StrictScalarFnVTable for F {
    type Options = F::Options;

    open spec fn strict_id(&self) -> Seq<char> {
        self.row_id()
    }

    open spec fn strict_arity(&self, options: &F::Options) -> nat {
        <F::Args as ElementTuple>::arity() as nat
    }

    open spec fn element_dtype(&self, options: &F::Options, dtypes: Seq<DTypeV>) -> Result<
        DTypeV,
        Seq<char>,
    > {
        row_dtype::<F::Args, F::Ret>(dtypes)
    }

    open spec fn handling(&self, options: &F::Options) -> NullHandling {
        if <F::Args as ElementTuple>::dense_safe() && !<F::Args as ElementTuple>::decode_fallible()
            && !<F::Ret as ApplyResult>::fallible() {
            NullHandling::Dense
        } else {
            NullHandling::Filter
        }
    }

    open spec fn kernel_fallible(&self, options: &F::Options) -> bool {
        <F::Args as ElementTuple>::decode_fallible() || <F::Ret as ApplyResult>::fallible()
    }

    open spec fn kernel(&self, options: &F::Options, args: Seq<ArrayV>, rows: nat) -> Result<
        ArrayV,
        Seq<char>,
    > {
        match self.reduced(options, args) {
            Err(error) => Err(error),
            Ok(Some(array)) => answered(self.row_id(), array, rows),
            Ok(None) => loop_result(self, options, args, rows),
        }
    }

    open spec fn branch_kernel(
        &self,
        options: &F::Options,
        args: Seq<ArrayV>,
        rows: nat,
        valid: Seq<bool>,
    ) -> Result<Option<ArrayV>, Seq<char>> {
        match self.reduced(options, args) {
            Err(error) => Err(error),
            Ok(Some(array)) => match answered(self.row_id(), array, rows) {
                Err(error) => Err(error),
                Ok(array) => Ok(Some(array)),
            },
            Ok(None) => branch_loop_result(self, options, args, rows, valid),
        }
    }

    open spec fn shrinks(&self, options: &F::Options) -> bool {
        <F::Args as ElementTuple>::decode_cost() > 0
    }

    open spec fn strict_validity(&self, options: &F::Options, args: Seq<ExprV>) -> Option<ExprV> {
        tree::conjunction(args)
    }

    open spec fn strict_reduction(&self, options: &F::Options, node: ReduceNodeV) -> Result<
        Option<ReduceNodeV>,
        Seq<char>,
    > {
        Ok(None)
    }

    fn id(&self) -> (out: String) {
        RowFn::id(self)
    }

    fn arity(&self, options: &F::Options) -> (out: Arity) {
        proof {
            F::Args::constants_hold();
        }
        Arity::Exact(<F::Args as ElementTuple>::ARITY)
    }

    fn return_element_dtype(&self, options: &F::Options, dtypes: &Vec<DType>) -> (out:
        VortexResult<DType>) {
        validate_row_args::<F::Args, F::Ret>(dtypes)
    }

    fn null_handling(&self, options: &F::Options) -> (out: NullHandling) {
        row_null_handling::<F::Args, F::Ret>()
    }

    fn is_fallible(&self, options: &F::Options) -> (out: bool) {
        row_is_fallible::<F::Args, F::Ret>()
    }

    fn execute_strict(&self, options: &F::Options, args: &ExecutionArgs) -> (out: VortexResult<
        Array,
    >) {
        match self.reduce_encoded(options, args) {
            Err(error) => Err(error),
            Ok(Some(array)) => check_answer(RowFn::id(self).as_str(), array, args.row_count),
            Ok(None) => execute_row_loop_prepared(self, options, args),
        }
    }

    fn execute_strict_branch(
        &self,
        options: &F::Options,
        args: &ExecutionArgs,
        valid: &Mask,
    ) -> (out: VortexResult<Option<Array>>) {
        match self.reduce_encoded(options, args) {
            Err(error) => Err(error),
            Ok(Some(array)) => match check_answer(
                RowFn::id(self).as_str(),
                array,
                args.row_count,
            ) {
                Err(error) => Err(error),
                Ok(array) => Ok(Some(array)),
            },
            Ok(None) => execute_row_loop_branch(self, options, args, valid),
        }
    }

    fn decode_shrinks_when_filtered(&self, options: &F::Options) -> (out: bool) {
        proof {
            F::Args::constants_hold();
        }
        <F::Args as ElementTuple>::FILTERED_DECODE_COST > 0
    }

    fn validity(&self, options: &F::Options, args: Vec<Expression>) -> (out: Option<Expression>) {
        conjoin(args)
    }

    fn reduce(&self, options: &F::Options, node: &ReduceNode) -> (out: VortexResult<Option<ReduceNode>>) {
        Ok(None)
    }
}

/// Execute a row function over inputs with a forced strategy for a mask with both valid and
/// invalid rows. Neither null constants nor all-constant inputs are folded.
pub fn execute_row_fn_with_strategy<F: RowFn>(
    row_fn: &F,
    options: &F::Options,
    inputs: Vec<Array>,
    row_count: usize,
    strategy: NullStrategy,
) -> (out: VortexResult<Array>)
    requires
        vtable::aligned(vtable::arrays_model(inputs@), row_count as nat),
        inputs@.len() == row_fn.strict_arity(options),
    ensures
        vtable::outcome(out) == strict::forced(
            row_fn,
            options,
            vtable::arrays_model(inputs@),
            row_count as nat,
            strategy,
        ),
{
    let args = ExecutionArgs::new(inputs, row_count);
    strict::execute_strict_with_strategy(row_fn, options, &args, strategy)
}

} // verus!
