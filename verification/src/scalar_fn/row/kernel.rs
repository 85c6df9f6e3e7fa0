//! Infallible row kernels with a selectable output representation.

use vstd::prelude::*;

use crate::array::{Array, ArrayV};
use crate::bits::{self, low_bits, push_bit};
use crate::dtype::{DType, DTypeV};
use crate::error::{VortexError, VortexResult};
use crate::mask::Mask;
use crate::scalar_fn::row::batch::{RowBatch, RowExecution, RowExecutionV};
use crate::scalar_fn::row::element::{self, OutputElement};
use crate::scalar_fn::row::policy::{self, BatchPlan, RowPolicy};
use crate::scalar_fn::row::row_fn::{self, validate_row_args};
use crate::scalar_fn::row::tuple::ElementTuple;
use crate::scalar_fn::vtable::{self, ExecutionArgs};
use crate::text::{self, decimal, join3};
use crate::value::ValueV;

verus! {

/// What is said of decoded inputs of another length.
pub open spec fn wrong_input_rows(rows: nat) -> Seq<char> {
    "a decoded row input does not address exactly "@ + text::decimal_text(rows) + " rows"@
}

fn wrong_input_rows_error(rows: usize) -> (out: VortexError)
    ensures
        out@ == wrong_input_rows(rows as nat),
{
    VortexError::new(
        join3(
            "a decoded row input does not address exactly ",
            decimal(rows as u64).as_str(),
            " rows",
        ),
    )
}

/// A validated dense batch of typed row inputs.
pub struct DenseRows<'a, Args: ElementTuple> {
    inputs: &'a Args::Columns,
    row_count: usize,
}

impl<'a, Args: ElementTuple> DenseRows<'a, Args> {
    /// The decoded inputs.
    pub closed spec fn columns(self) -> &'a Args::Columns {
        self.inputs
    }

    /// The number of rows.
    pub closed spec fn rows(self) -> nat {
        self.row_count as nat
    }

    /// Every row of the batch may be read.
    pub open spec fn readable(self) -> bool {
        &&& Args::addresses(self.columns(), self.rows())
        &&& forall|r: int| 0 <= r < self.rows() ==> #[trigger] Args::can_get(self.columns(), r)
    }

    /// Check that the decoded inputs stand for `row_count` rows.
    pub fn new(inputs: &'a Args::Columns, row_count: usize) -> (out: VortexResult<Self>)
        ensures
            match out {
                Ok(rows) => Args::addresses(inputs, row_count as nat) && rows.columns() == inputs
                    && rows.rows() == row_count,
                Err(error) => !Args::addresses(inputs, row_count as nat) && error@
                    == wrong_input_rows(row_count as nat),
            },
    {
        if Args::rows_match(inputs, row_count) {
            Ok(DenseRows { inputs, row_count })
        } else {
            Err(wrong_input_rows_error(row_count))
        }
    }

    /// The decoded inputs.
    pub fn inputs(&self) -> (out: &'a Args::Columns)
        ensures
            out == self.columns(),
    {
        self.inputs
    }

    /// The number of input rows.
    pub fn len(&self) -> (out: usize)
        ensures
            out == self.rows(),
    {
        self.row_count
    }

    /// Whether the batch has no rows.
    pub fn is_empty(&self) -> (out: bool)
        ensures
            out == (self.rows() == 0),
    {
        self.row_count == 0
    }
}

/// A complete output batch of an infallible kernel.
pub trait RowKernelOutput: Sized {
    type Element: OutputElement;

    /// The payload of each row.
    spec fn rows(&self) -> Seq<ValueV>;

    /// The representation invariant.
    spec fn well_formed(&self) -> bool;

    /// The column of these payloads, or what is said where there is none.
    spec fn finished(rows: Seq<ValueV>) -> Result<ArrayV, Seq<char>>;

    /// A finished column has one valid row for each payload, in order.
    proof fn finished_in_order(rows: Seq<ValueV>)
        ensures
            Self::finished(rows) matches Ok(out) ==> element::in_order(out, rows),
    ;

    /// Whether these payloads are refused, and what is said of them.
    spec fn refused(rows: Seq<ValueV>) -> Option<Seq<char>>;

    /// Build the output from one value per row.
    fn from_values(values: Vec<Self::Element>) -> (out: VortexResult<Self>)
        ensures
            match out {
                Ok(output) => output.well_formed() && output.rows() == element::payloads_of(values@)
                    && Self::refused(element::payloads_of(values@)) is None,
                Err(error) => Self::refused(element::payloads_of(values@)) == Some(error@),
            },
    ;

    /// The all-valid column.
    fn finish(self) -> (out: VortexResult<Array>)
        requires
            self.well_formed(),
        ensures
            vtable::outcome(out) == Self::finished(self.rows()),
    ;
}

/// The column that an output type makes of payloads.
pub open spec fn output_column<O: RowKernelOutput>(rows: Seq<ValueV>) -> Result<
    ArrayV,
    Seq<char>,
> {
    match O::refused(rows) {
        Some(error) => Err(error),
        None => O::finished(rows),
    }
}

/// A kernel output of one value per row.
pub struct VecOutput<T> {
    values: Vec<T>,
}

impl<T: OutputElement> VecOutput<T> {
    pub closed spec fn held(&self) -> Seq<T> {
        self.values@
    }
}

impl<T: OutputElement> RowKernelOutput for VecOutput<T> {
    type Element = T;

    open spec fn rows(&self) -> Seq<ValueV> {
        element::payloads_of(self.held())
    }

    open spec fn well_formed(&self) -> bool {
        true
    }

    open spec fn finished(rows: Seq<ValueV>) -> Result<ArrayV, Seq<char>> {
        Ok(T::built(rows))
    }

    proof fn finished_in_order(rows: Seq<ValueV>) {
        T::built_in_order(rows);
    }

    open spec fn refused(rows: Seq<ValueV>) -> Option<Seq<char>> {
        None
    }

    fn from_values(values: Vec<T>) -> (out: VortexResult<Self>) {
        Ok(VecOutput { values })
    }

    fn finish(self) -> (out: VortexResult<Array>) {
        Ok(T::build(self.values))
    }
}

/// A boolean kernel output backed by mask words: bit `i % 64` of word `i / 64` is row `i`. Unused
/// tail bits can hold anything until the output is finished.
pub struct PackedBoolOutput {
    words: Vec<u64>,
    row_count: usize,
}

impl PackedBoolOutput {
    /// The words.
    pub closed spec fn packed(&self) -> Seq<u64> {
        self.words@
    }

    /// The number of rows.
    pub closed spec fn count(&self) -> nat {
        self.row_count as nat
    }

    /// There are as many words as the rows need.
    pub open spec fn sized(&self) -> bool {
        self.packed().len() == bits::word_count(self.count() as int)
    }

    /// Row `i`.
    pub open spec fn bit(&self, i: int) -> bool {
        bits::row_bit(self.packed(), i)
    }

    /// An all-false output.
    pub fn zeroed(row_count: usize) -> (out: Self)
        ensures
            out.sized(),
            out.count() == row_count,
            forall|w: int| 0 <= w < out.packed().len() ==> #[trigger] out.packed()[w] == 0,
            forall|i: int| 0 <= i < row_count ==> !#[trigger] out.bit(i),
    {
        let full: usize = row_count / 64;
        let count: usize = if row_count % 64 == 0 {
            full
        } else {
            full + 1
        };
        let mut words: Vec<u64> = Vec::new();
        let mut index: usize = 0;
        while index < count
            invariant
                index <= count,
                words@.len() == index,
                forall|w: int| 0 <= w < index ==> words@[w] == 0,
            decreases count - index,
        {
            words.push(0);
            index = index + 1;
        }
        let out = PackedBoolOutput { words, row_count };
        proof {
            bits::zero_has_no_bits();
            assert forall|i: int| 0 <= i < row_count implies !#[trigger] out.bit(i) by {
                assert(words@[i / 64] == 0);
            }
        }
        out
    }

    /// The number of rows.
    pub fn len(&self) -> (out: usize)
        ensures
            out == self.count(),
    {
        self.row_count
    }

    /// Whether there are no rows.
    pub fn is_empty(&self) -> (out: bool)
        ensures
            out == (self.count() == 0),
    {
        self.row_count == 0
    }

    /// The words, to write rows into.
    pub fn words_mut(&mut self) -> (out: &mut [u64])
        ensures
            out@ == old(self).packed(),
            final(self).packed() == final(out)@,
            final(self).count() == old(self).count(),
    {
        self.words.as_mut_slice()
    }
}

impl RowKernelOutput for PackedBoolOutput {
    type Element = bool;

    open spec fn rows(&self) -> Seq<ValueV> {
        Seq::new(self.count(), |i: int| ValueV::Bool(self.bit(i)))
    }

    open spec fn well_formed(&self) -> bool {
        self.sized()
    }

    open spec fn finished(rows: Seq<ValueV>) -> Result<ArrayV, Seq<char>> {
        Ok(bool::built(rows))
    }

    proof fn finished_in_order(rows: Seq<ValueV>) {
    }

    open spec fn refused(rows: Seq<ValueV>) -> Option<Seq<char>> {
        None
    }

    /// The bits past the last row are clear.
    fn from_values(values: Vec<bool>) -> (out: VortexResult<Self>)
        ensures
            out is Ok,
            out->Ok_0.count() == values@.len(),
            bits::packs(out->Ok_0.packed(), values@),
    {
        let mut output = PackedBoolOutput::zeroed(values.len());
        let rows: usize = values.len();
        let mut index: usize = 0;
        let mut words: Vec<u64> = Vec::new();
        let mut word: u64 = 0;
        proof {
            bits::zero_has_no_bits();
        }
        while index < rows
            invariant
                index <= rows == values@.len(),
                words@.len() == index / 64,
                forall|i: int|
                    0 <= i < 64 * words@.len() ==> #[trigger] bits::row_bit(words@, i)
                        == values@[i],
                forall|j: int|
                    0 <= j < 64 ==> #[trigger] bits::bit_at(word, j) == (j < index % 64
                        && values@[index - index % 64 + j]),
            decreases rows - index,
        {
            let bit: usize = index % 64;
            let ghost before = word;
            word = push_bit(word, bit as u64, values[index]);
            index = index + 1;
            if bit == 63 {
                let ghost old_words = words@;
                words.push(word);
                proof {
                    assert forall|i: int|
                        0 <= i < 64 * words@.len() implies #[trigger] bits::row_bit(words@, i)
                        == values@[i] by {
                        if i < 64 * old_words.len() {
                            assert(bits::row_bit(old_words, i) == bits::row_bit(words@, i));
                        } else {
                            assert(i / 64 == old_words.len());
                            assert(words@[i / 64] == word);
                            assert(i == 64 * old_words.len() + i % 64);
                            if i % 64 < 63 {
                                assert(bits::bit_at(before, i % 64) == values@[i]);
                            }
                        }
                    }
                    bits::zero_has_no_bits();
                }
                word = 0;
            }
        }
        if rows % 64 != 0 {
            let ghost old_words = words@;
            words.push(word);
            proof {
                assert forall|i: int| 0 <= i < rows implies #[trigger] bits::row_bit(words@, i)
                    == values@[i] by {
                    if i < 64 * old_words.len() {
                        assert(bits::row_bit(old_words, i) == bits::row_bit(words@, i));
                    } else {
                        assert(i / 64 == old_words.len());
                        assert(i == 64 * old_words.len() + i % 64);
                        assert(bits::bit_at(word, i % 64) == values@[i]);
                    }
                }
                assert forall|i: int| rows <= i < 64 * words@.len() implies !#[trigger] bits::row_bit(
                    words@,
                    i,
                ) by {
                    assert(i / 64 == old_words.len());
                    assert(i % 64 >= rows % 64);
                }
            }
        }
        output.words = words;
        proof {
            assert(output.sized());
            assert forall|i: int| 0 <= i < rows implies output.bit(i) == #[trigger] values@[i] by {
                assert(bits::row_bit(words@, i) == values@[i]);
            }
            assert(output.rows() =~= element::payloads_of(values@));
        }
        Ok(output)
    }

    fn finish(self) -> (out: VortexResult<Array>) {
        let rows: usize = self.row_count;
        let mut words = self.words;
        let ghost before = words@;
        if rows % 64 != 0 {
            let last: usize = words.len() - 1;
            let keep = low_bits((rows % 64) as u64);
            let word = words[last];
            words[last] = word & keep;
            proof {
                assert forall|i: int| 0 <= i < rows implies #[trigger] bits::row_bit(words@, i)
                    == bits::row_bit(before, i) by {
                    if i / 64 == last {
                        bits::masked_bit(word, keep, i % 64);
                    }
                }
            }
        }
        let mut values: Vec<bool> = Vec::new();
        let mut index: usize = 0;
        while index < rows
            invariant
                index <= rows,
                words@.len() == bits::word_count(rows as int),
                values@.len() == index,
                forall|i: int|
                    0 <= i < index ==> #[trigger] values@[i] == bits::row_bit(words@, i),
            decreases rows - index,
        {
            let word = words[index / 64];
            let shift: u64 = (index % 64) as u64;
            values.push((word >> shift) & 1 == 1);
            index = index + 1;
        }
        proof {
            assert(element::payloads_of(values@) =~= self.rows()) by {
                assert forall|i: int| 0 <= i < rows implies values@[i] == self.bit(i) by {
                    assert(values@[i] == bits::row_bit(words@, i));
                }
            }
        }
        Ok(bool::build(values))
    }
}

/// One row operation with a selectable output representation.
pub trait RowKernel<Args: ElementTuple> {
    /// The value of one row.
    type Element: OutputElement;

    /// The output batch.
    type Output: RowKernelOutput<Element = Self::Element>;

    /// The operation on one row.
    spec fn evaluated(&self, row: Args::V) -> ValueV;

    /// Evaluate one row.
    fn eval<'a>(&self, row: Args::Elems<'a>) -> (out: Self::Element)
        ensures
            out.payload() == self.evaluated(Args::meaning(row)),
    ;

    /// Collect a dense batch, in a representation-specific way where there is one.
    fn collect_dense<'a>(&self, rows: DenseRows<'a, Args>) -> (out: VortexResult<Self::Output>)
        requires
            rows.readable(),
        ensures
            match out {
                Ok(output) => output.well_formed() && output.rows() == Seq::new(
                    rows.rows(),
                    |r: int| self.evaluated(Args::at(rows.columns(), r)),
                ) && Self::Output::refused(
                    Seq::new(rows.rows(), |r: int| self.evaluated(Args::at(rows.columns(), r))),
                ) is None,
                Err(error) => Self::Output::refused(
                    Seq::new(rows.rows(), |r: int| self.evaluated(Args::at(rows.columns(), r))),
                ) == Some(error@),
            },
    ;
}

/// The payloads that a kernel computes from the rows of the columns.
pub open spec fn kernel_rows<Args: ElementTuple, K: RowKernel<Args>>(
    kernel: &K,
    args: Seq<ArrayV>,
    rows: nat,
) -> Seq<ValueV> {
    Seq::new(rows, |r: int| kernel.evaluated(Args::row_at(args, r)))
}

/// The payloads of the rows of a mask, with placeholders elsewhere.
pub open spec fn kernel_valid_rows<Args: ElementTuple, K: RowKernel<Args>>(
    kernel: &K,
    args: Seq<ArrayV>,
    valid: Seq<bool>,
) -> Seq<ValueV> {
    Seq::new(
        valid.len(),
        |r: int|
            if valid[r] {
                kernel.evaluated(Args::row_at(args, r))
            } else {
                K::Element::placeholder_payload()
            },
    )
}

/// A kernel over every row.
pub open spec fn kernel_result<Args: ElementTuple, K: RowKernel<Args>>(
    kernel: &K,
    args: Seq<ArrayV>,
    rows: nat,
) -> Result<ArrayV, Seq<char>> {
    match Args::decodes(args) {
        Err(error) => Err(error),
        Ok(()) => output_column::<K::Output>(kernel_rows(kernel, args, rows)),
    }
}

/// A kernel over the rows of a mask.
pub open spec fn kernel_valid_result<Args: ElementTuple, K: RowKernel<Args>>(
    kernel: &K,
    args: Seq<ArrayV>,
    valid: Seq<bool>,
) -> Result<Option<ArrayV>, Seq<char>> {
    match Args::decodes_tolerant(args) {
        Err(error) => Err(error),
        Ok(false) => Ok(None),
        Ok(true) => match output_column::<K::Output>(kernel_valid_rows(kernel, args, valid)) {
            Err(error) => Err(error),
            Ok(array) => Ok(Some(array)),
        },
    }
}

/// Collect one value per row with the plain traversal.
pub fn collect_rows<'a, Args: ElementTuple, K: RowKernel<Args>>(
    kernel: &K,
    rows: &DenseRows<'a, Args>,
) -> (out: Vec<K::Element>)
    requires
        rows.readable(),
    ensures
        element::payloads_of(out@) == Seq::new(
            rows.rows(),
            |r: int| kernel.evaluated(Args::at(rows.columns(), r)),
        ),
{
    let mut values: Vec<K::Element> = Vec::new();
    let count: usize = rows.len();
    let mut index: usize = 0;
    while index < count
        invariant
            index <= count == rows.rows(),
            rows.readable(),
            values@.len() == index,
            forall|r: int|
                0 <= r < index ==> (#[trigger] values@[r]).payload() == kernel.evaluated(
                    Args::at(rows.columns(), r),
                ),
        decreases count - index,
    {
        assert(Args::can_get(rows.columns(), index as int));
        values.push(kernel.eval(Args::get(rows.inputs(), index)));
        index = index + 1;
    }
    assert(element::payloads_of(values@) =~= Seq::new(
        rows.rows(),
        |r: int| kernel.evaluated(Args::at(rows.columns(), r)),
    ));
    values
}

/// Decode and validate the inputs, then collect densely.
pub fn execute_kernel<Args: ElementTuple, K: RowKernel<Args>>(args: &ExecutionArgs, kernel: &K) -> (out:
    VortexResult<Array>)
    requires
        args.well_formed(),
        args@.len() == Args::arity(),
        Args::dense_safe() || vtable::all_valid(args@, args.row_count as nat),
    ensures
        vtable::outcome(out) == kernel_result(kernel, args@, args.row_count as nat),
{
    let inputs = match Args::decode(args) {
        Ok(inputs) => inputs,
        Err(error) => return Err(error),
    };
    let rows = match DenseRows::<Args>::new(&inputs, args.row_count) {
        Ok(rows) => rows,
        Err(error) => return Err(error),
    };
    proof {
        assert forall|r: int| 0 <= r < rows.rows() implies (#[trigger] Args::can_get(
            rows.columns(),
            r,
        )) && Args::at(rows.columns(), r) == Args::row_at(args@, r) by {
            assert(Args::dense_safe() || vtable::valid_at(args@, r));
            assert(Args::can_get(&inputs, r));
        }
        assert forall|r: int| 0 <= r < rows.rows() implies kernel.evaluated(
            Args::at(rows.columns(), r),
        ) == kernel.evaluated(Args::row_at(args@, r)) by {
            assert(Args::can_get(rows.columns(), r));
        }
        assert(Seq::new(
            rows.rows(),
            |r: int| kernel.evaluated(Args::at(rows.columns(), r)),
        ) =~= kernel_rows(kernel, args@, args.row_count as nat));
    }
    match kernel.collect_dense(rows) {
        Ok(output) => output.finish(),
        Err(error) => Err(error),
    }
}

/// What is said of a mask of another length.
pub open spec fn wrong_mask_rows(rows: nat, bits: nat) -> Seq<char> {
    "the validity mask must address exactly "@ + text::decimal_text(rows) + " rows, got "@
        + text::decimal_text(bits)
}

/// The valid rows of decoded columns are the rows of the arguments.
pub open spec fn reads_valid_rows<Args: ElementTuple>(
    columns: &Args::Columns,
    args: Seq<ArrayV>,
    rows: nat,
) -> bool {
    forall|r: int|
        0 <= r < rows && vtable::valid_at(args, r) ==> (#[trigger] Args::can_get(columns, r))
            && Args::at(columns, r) == Args::row_at(args, r)
}

/// Decode nullable inputs, then compute one value for each valid row and leave a placeholder in
/// every other. `None` means that some argument has no null-tolerant decode.
pub fn execute_kernel_valid_rows<Args: ElementTuple, K: RowKernel<Args>>(
    args: &ExecutionArgs,
    valid: &Mask,
    kernel: &K,
) -> (out: VortexResult<Option<Array>>)
    requires
        args.well_formed(),
        args@.len() == Args::arity(),
        forall|r: int|
            0 <= r < args.row_count && r < valid@.len() && #[trigger] valid@[r]
                ==> vtable::valid_at(args@, r),
    ensures
        valid@.len() == args.row_count ==> vtable::maybe_outcome(out) == kernel_valid_result(
            kernel,
            args@,
            valid@,
        ),
        valid@.len() != args.row_count && Args::decodes_tolerant(args@) == Ok::<bool, Seq<char>>(
            true,
        ) ==> (out matches Err(error) && error@ == wrong_mask_rows(
            args.row_count as nat,
            valid@.len(),
        )),
        valid@.len() != args.row_count && Args::decodes_tolerant(args@) != Ok::<bool, Seq<char>>(
            true,
        ) ==> vtable::maybe_outcome(out) == (match Args::decodes_tolerant(args@) {
            Err(error) => Err::<Option<ArrayV>, Seq<char>>(error),
            Ok(_) => Ok(None),
        }),
{
    let columns = match Args::decode_null_tolerant(args) {
        Ok(Some(columns)) => columns,
        Ok(None) => return Ok(None),
        Err(error) => return Err(error),
    };
    let row_count: usize = args.row_count;
    if valid.len() != row_count {
        let mut message = join3(
            "the validity mask must address exactly ",
            decimal(row_count as u64).as_str(),
            " rows, got ",
        );
        message.append(decimal(valid.len() as u64).as_str());
        return Err(VortexError::new(message));
    }
    if !Args::rows_match(&columns, row_count) {
        assert(false);
        return Err(wrong_input_rows_error(row_count));
    }
    assert(reads_valid_rows::<Args>(&columns, args@, args.row_count as nat));
    let mut values: Vec<K::Element> = Vec::new();
    let mut index: usize = 0;
    while index < row_count
        invariant
            index <= row_count == args.row_count == valid@.len(),
            forall|r: int|
                0 <= r < args.row_count && r < valid@.len() && #[trigger] valid@[r]
                    ==> vtable::valid_at(args@, r),
            reads_valid_rows::<Args>(&columns, args@, args.row_count as nat),
            values@.len() == index,
            forall|r: int|
                0 <= r < index ==> (#[trigger] values@[r]).payload() == kernel_valid_rows(
                    kernel,
                    args@,
                    valid@,
                )[r],
        decreases row_count - index,
    {
        if valid.value(index) {
            assert(vtable::valid_at(args@, index as int));
            assert(Args::can_get(&columns, index as int));
            values.push(kernel.eval(Args::get(&columns, index)));
        } else {
            values.push(K::Element::placeholder());
        }
        index = index + 1;
    }
    assert(element::payloads_of(values@) =~= kernel_valid_rows(kernel, args@, valid@));
    match K::Output::from_values(values) {
        Err(error) => Err(error),
        Ok(output) => match output.finish() {
            Ok(array) => Ok(Some(array)),
            Err(error) => Err(error),
        },
    }
}

/// A kernel as a batch function.
pub struct KernelFn<Args, K> {
    pub id: String,
    pub kernel: K,
    pub marker: std::marker::PhantomData<Args>,
}

impl<Args: ElementTuple, K: RowKernel<Args>> KernelFn<Args, K> {
    pub fn new(id: String, kernel: K) -> (out: Self)
        ensures
            out.id@ == id@,
            out.kernel == kernel,
    {
        KernelFn { id, kernel, marker: std::marker::PhantomData }
    }
}

impl<Args: ElementTuple, K: RowKernel<Args>> RowBatch for KernelFn<Args, K> {
    type Options = ();

    open spec fn batch_id(&self) -> Seq<char> {
        self.id@
    }

    open spec fn batch_arity(&self, options: &()) -> nat {
        Args::arity() as nat
    }

    open spec fn planned(&self, options: &(), dtypes: Seq<DTypeV>) -> Result<
        (DTypeV, RowPolicy),
        Seq<char>,
    > {
        match row_fn::row_dtype::<Args, K::Element>(dtypes) {
            Err(error) => Err(error),
            Ok(dtype) => Ok(
                (
                    dtype,
                    if policy::dense_arguments::<Args>() {
                        RowPolicy::Dense
                    } else {
                        RowPolicy::ValidOnly { filtered_decode_cost: Args::decode_cost() }
                    },
                ),
            ),
        }
    }

    open spec fn needs_valid(&self, options: &()) -> bool {
        !Args::dense_safe()
    }

    open spec fn ran(&self, options: &(), args: Seq<ArrayV>, rows: nat) -> Result<
        RowExecutionV,
        Seq<char>,
    > {
        match kernel_result(&self.kernel, args, rows) {
            Err(error) => Err(error),
            Ok(array) => Ok(RowExecutionV::Output(array)),
        }
    }

    open spec fn ran_valid(
        &self,
        options: &(),
        args: Seq<ArrayV>,
        rows: nat,
        valid: Seq<bool>,
    ) -> Result<Option<RowExecutionV>, Seq<char>> {
        match kernel_valid_result(&self.kernel, args, valid) {
            Err(error) => Err(error),
            Ok(None) => Ok(None),
            Ok(Some(array)) => Ok(Some(RowExecutionV::Output(array))),
        }
    }

    fn id(&self) -> (out: String) {
        self.id.clone()
    }

    fn plan(&self, options: &(), dtypes: &Vec<DType>) -> (out: VortexResult<BatchPlan>) {
        match validate_row_args::<Args, K::Element>(dtypes) {
            Err(error) => Err(error),
            Ok(output_dtype) => {
                proof {
                    Args::accepts_arity(vtable::dtypes_model(dtypes@));
                }
                Ok(BatchPlan { output_dtype, policy: RowPolicy::for_owned_output::<Args>() })
            },
        }
    }

    fn run(&self, options: &(), args: &ExecutionArgs) -> (out: VortexResult<RowExecution>) {
        match execute_kernel(args, &self.kernel) {
            Err(error) => Err(error),
            Ok(array) => Ok(RowExecution::Output(array)),
        }
    }

    fn run_valid(&self, options: &(), args: &ExecutionArgs, valid: &Mask) -> (out: VortexResult<
        Option<RowExecution>,
    >) {
        match execute_kernel_valid_rows(args, valid, &self.kernel) {
            Err(error) => Err(error),
            Ok(None) => Ok(None),
            Ok(Some(array)) => Ok(Some(RowExecution::Output(array))),
        }
    }
}

} // verus!
