//! Row kernels over whole batches, failures reported once per batch, and what is persisted.

use std::sync::atomic::{AtomicUsize, Ordering};
use std::sync::Arc;

use vstd::prelude::int;
use vstd::prelude::nat;
use vstd::seq::Seq;

use vortex_rows::array::{Array, ArrayV};
use vortex_rows::dtype::{DType, DTypeV, Nullability, PType};
use vortex_rows::error::{VortexError, VortexResult};
use vortex_rows::scalar_fn::array_metadata::{
    decode_children_and_options, decode_scalar_fn_array, encode_children_and_options,
};
use vortex_rows::scalar_fn::cost::is_negative_cost;
use vortex_rows::scalar_fn::fns::byte_length::ByteLength;
use vortex_rows::scalar_fn::fns::not::Not;
use vortex_rows::scalar_fn::fns::operators::Operator;
use vortex_rows::scalar_fn::options::{EmptyOptions, PersistableOptions, ScalarFnOptions};
use vortex_rows::scalar_fn::row::batch::{execute_rows, finalize_kernel_output};
use vortex_rows::scalar_fn::row::deferred::{DeferredFn, DeferredRowFn};
use vortex_rows::scalar_fn::row::element::{InputElement, OutputElement};
use vortex_rows::scalar_fn::row::kernel::{
    collect_rows, DenseRows, KernelFn, PackedBoolOutput, RowKernel, RowKernelOutput, VecOutput,
};
use vortex_rows::scalar_fn::row::policy::skipping_beats_filtering;
use vortex_rows::scalar_fn::row::sink::{ElementSink, SinkFn, SinkRowFn};
use vortex_rows::scalar_fn::row::tuple::{ArgView, ElementTuple};
use vortex_rows::scalar_fn::vtable::ExecutionArgs;
use vortex_rows::mask::Mask;
use vortex_rows::stats::session::{StatsRewriteKind, StatsSession, REWRITE_CACHE_CAPACITY};
use vortex_rows::value::{Cell, Value, ValueV};

const NON: Nullability = Nullability::NonNullable;
const NULL: Nullability = Nullability::Nullable;

fn i64s(values: &[i64]) -> Array {
    Array::column(
        DType::Primitive(PType::I64, NON),
        values.iter().map(|v| Cell::valid(Value::I64(*v))).collect(),
    )
}

/// A column whose null rows still hold a value.
fn nullable_i64s(values: &[(bool, i64)]) -> Array {
    Array::column(
        DType::Primitive(PType::I64, NULL),
        values.iter().map(|(valid, v)| Cell { valid: *valid, value: Value::I64(*v) }).collect(),
    )
}

fn constant_i64(value: i64, rows: usize) -> Array {
    Array::constant(DType::Primitive(PType::I64, NON), Cell::valid(Value::I64(value)), rows)
}

fn bools(nullability: Nullability, values: &[Option<bool>]) -> Array {
    Array::column(
        DType::Bool(nullability),
        values
            .iter()
            .map(|v| match v {
                Some(v) => Cell::valid(Value::Bool(*v)),
                None => Cell::null(),
            })
            .collect(),
    )
}

fn show(cell: &Cell) -> String {
    if cell.valid {
        format!("{:?}", cell.value)
    } else {
        "null".to_string()
    }
}

fn assert_arrays_eq(actual: &Array, expected: &Array) {
    assert_eq!(actual.dtype().to_text(), expected.dtype().to_text());
    let rows = |array: &Array| (0..array.len()).map(|row| show(&array.cell(row))).collect::<Vec<_>>();
    assert_eq!(rows(actual), rows(expected));
}

// Kernels with an output of their own.

/// Which values are positive, packed into words.
struct PackedPositive;

impl RowKernel<(i64,)> for PackedPositive {
    type Element = bool;
    type Output = PackedBoolOutput;

    fn evaluated(&self, _row: (i64,)) -> ValueV {
        unreachable!()
    }

    fn eval<'a>(&self, row: (i64,)) -> bool {
        row.0 > 0
    }

    fn collect_dense<'a>(&self, rows: DenseRows<'a, (i64,)>) -> VortexResult<PackedBoolOutput> {
        let mut output = PackedBoolOutput::zeroed(rows.len());
        match rows.inputs().0.view() {
            ArgView::Column(values) => {
                for (word, values) in values.chunks(64).enumerate() {
                    output.words_mut()[word] = values
                        .iter()
                        .enumerate()
                        .fold(0, |word, (bit, value)| word | (u64::from(*value > 0) << bit));
                }
            }
            ArgView::Constant(value) => {
                if value[0] > 0 {
                    output.words_mut().fill(u64::MAX);
                }
            }
        }
        Ok(output)
    }
}

fn run_kernel<A: ElementTuple, K: RowKernel<A>>(id: &str, kernel: K, input: Array) -> VortexResult<Array> {
    let rows = input.len();
    let function = KernelFn::<A, K>::new(id.to_string(), kernel);
    execute_rows(&function, &(), &ExecutionArgs::new(vec![input], rows))
}

#[test]
fn test_dense_kernel_writes_packed_output_words() {
    let input = nullable_i64s(&[(true, 1), (true, -1), (false, 2), (true, 0), (true, 3)]);
    let actual = run_kernel::<(i64,), _>("test.packed_positive", PackedPositive, input).unwrap();
    let expected = bools(NULL, &[Some(true), Some(false), None, Some(false), Some(true)]);
    assert_arrays_eq(&actual, &expected);
}

#[test]
fn test_dense_kernel_handles_batch_constant_input() {
    let input = constant_i64(7, 65);
    let actual = run_kernel::<(i64,), _>("test.packed_positive", PackedPositive, input).unwrap();
    assert_arrays_eq(&actual, &bools(NON, &[Some(true); 65]));
}

#[test]
fn packed_output_spans_words() {
    let values: Vec<i64> = (0..130).map(|row| if row % 3 == 0 { 1 } else { -1 }).collect();
    let expected: Vec<Option<bool>> = (0..130).map(|row| Some(row % 3 == 0)).collect();
    let actual =
        run_kernel::<(i64,), _>("test.packed_positive", PackedPositive, i64s(&values)).unwrap();
    assert_arrays_eq(&actual, &bools(NON, &expected));
}

/// An element that cannot be read behind nulls.
struct CarefulI64;

impl InputElement for CarefulI64 {
    type Column = Vec<i64>;
    type Elem<'a> = i64;
    type V = i64;

    const DENSE_SAFE: bool = false;
    const DECODE_FALLIBLE: bool = false;
    const DECODE_SHRINKS_WHEN_FILTERED: bool = false;

    fn dense_safe() -> bool {
        unreachable!()
    }

    fn decode_fallible() -> bool {
        unreachable!()
    }

    fn decode_shrinks() -> bool {
        unreachable!()
    }

    fn constants_hold() {}

    fn accepts(_dtype: DTypeV) -> Result<(), Seq<char>> {
        unreachable!()
    }

    fn reads(_value: ValueV) -> Option<i64> {
        unreachable!()
    }

    fn decodes(_array: ArrayV) -> Result<(), Seq<char>> {
        unreachable!()
    }

    fn decodes_tolerant(_array: ArrayV) -> Result<bool, Seq<char>> {
        unreachable!()
    }

    fn column_len(_column: &Vec<i64>) -> nat {
        unreachable!()
    }

    fn column_at(_column: &Vec<i64>, _i: int) -> Option<i64> {
        unreachable!()
    }

    fn meaning(_elem: i64) -> i64 {
        unreachable!()
    }

    fn validate(dtype: &DType) -> VortexResult<()> {
        <i64 as InputElement>::validate(dtype)
    }

    fn decode(array: &Array) -> VortexResult<Vec<i64>> {
        <i64 as InputElement>::decode(array)
    }

    fn decode_null_tolerant(array: &Array) -> VortexResult<Option<Vec<i64>>> {
        Ok(Some(<i64 as InputElement>::decode(array)?))
    }

    fn column_rows(column: &Vec<i64>) -> usize {
        column.len()
    }

    fn get<'a>(column: &'a Vec<i64>, index: usize) -> i64 {
        column[index]
    }
}

struct IdentityKernel;

impl RowKernel<(CarefulI64,)> for IdentityKernel {
    type Element = i64;
    type Output = VecOutput<i64>;

    fn evaluated(&self, _row: (i64,)) -> ValueV {
        unreachable!()
    }

    fn eval<'a>(&self, row: (i64,)) -> i64 {
        row.0
    }

    fn collect_dense<'a>(&self, rows: DenseRows<'a, (CarefulI64,)>) -> VortexResult<VecOutput<i64>> {
        VecOutput::from_values(collect_rows(self, &rows))
    }
}

#[test]
fn test_dense_kernel_retains_the_validated_views() {
    let input = i64s(&[1, 2, 3]);
    let actual =
        run_kernel::<(CarefulI64,), _>("test.retained_view_identity", IdentityKernel, input).unwrap();
    assert_arrays_eq(&actual, &i64s(&[1, 2, 3]));
}

/// An output that counts how often it is built from values.
struct CountingBoolOutput {
    values: Vec<bool>,
}

impl RowKernelOutput for CountingBoolOutput {
    type Element = bool;

    fn rows(&self) -> Seq<ValueV> {
        unreachable!()
    }

    fn well_formed(&self) -> bool {
        unreachable!()
    }

    fn finished(_rows: Seq<ValueV>) -> Result<ArrayV, Seq<char>> {
        unreachable!()
    }

    fn finished_in_order(_rows: Seq<ValueV>) {
        unreachable!()
    }

    fn refused(_rows: Seq<ValueV>) -> Option<Seq<char>> {
        unreachable!()
    }

    fn from_values(values: Vec<bool>) -> VortexResult<Self> {
        Ok(CountingBoolOutput { values })
    }

    fn finish(self) -> VortexResult<Array> {
        Ok(bools(NON, &self.values.into_iter().map(Some).collect::<Vec<_>>()))
    }
}

struct PositiveKernel;

impl RowKernel<(CarefulI64,)> for PositiveKernel {
    type Element = bool;
    type Output = CountingBoolOutput;

    fn evaluated(&self, _row: (i64,)) -> ValueV {
        unreachable!()
    }

    fn eval<'a>(&self, row: (i64,)) -> bool {
        row.0 > 0
    }

    fn collect_dense<'a>(
        &self,
        _rows: DenseRows<'a, (CarefulI64,)>,
    ) -> VortexResult<CountingBoolOutput> {
        panic!("only the valid rows are run")
    }
}

#[test]
fn test_valid_only_kernel_uses_its_associated_output() {
    let input = nullable_i64s(&[(true, 1), (false, -1), (true, 2)]);
    let actual =
        run_kernel::<(CarefulI64,), _>("test.valid_only_output", PositiveKernel, input).unwrap();
    assert_arrays_eq(&actual, &bools(NULL, &[Some(true), None, Some(true)]));
}

/// An output with a row too few, or of another type.
struct WrongOutput<const SHORT: bool> {
    rows: usize,
}

impl<const SHORT: bool> RowKernelOutput for WrongOutput<SHORT> {
    type Element = bool;

    fn rows(&self) -> Seq<ValueV> {
        unreachable!()
    }

    fn well_formed(&self) -> bool {
        unreachable!()
    }

    fn finished(_rows: Seq<ValueV>) -> Result<ArrayV, Seq<char>> {
        unreachable!()
    }

    fn finished_in_order(_rows: Seq<ValueV>) {
        unreachable!()
    }

    fn refused(_rows: Seq<ValueV>) -> Option<Seq<char>> {
        unreachable!()
    }

    fn from_values(values: Vec<bool>) -> VortexResult<Self> {
        Ok(WrongOutput { rows: values.len() })
    }

    fn finish(self) -> VortexResult<Array> {
        if SHORT {
            Ok(bools(NON, &vec![Some(true); self.rows.saturating_sub(1)]))
        } else {
            Ok(i64s(&vec![1; self.rows]))
        }
    }
}

struct WrongKernel<const SHORT: bool>;

impl<const SHORT: bool> RowKernel<(i64,)> for WrongKernel<SHORT> {
    type Element = bool;
    type Output = WrongOutput<SHORT>;

    fn evaluated(&self, _row: (i64,)) -> ValueV {
        unreachable!()
    }

    fn eval<'a>(&self, _row: (i64,)) -> bool {
        true
    }

    fn collect_dense<'a>(&self, rows: DenseRows<'a, (i64,)>) -> VortexResult<WrongOutput<SHORT>> {
        WrongOutput::from_values(collect_rows(self, &rows))
    }
}

#[test]
fn test_dense_kernel_rejects_wrong_output_length() {
    let id = "test.wrong_length_kernel_output";
    let error = run_kernel::<(i64,), _>(id, WrongKernel::<true>, i64s(&[1, 2])).err().unwrap();
    let error = error.message();
    assert!(error.contains("test.wrong_length_kernel_output"), "{error}");
    assert!(error.contains("must contain 2 rows, got 1"), "{error}");
}

#[test]
fn test_dense_kernel_rejects_wrong_output_dtype() {
    let id = "test.wrong_dtype_kernel_output";
    let error = run_kernel::<(i64,), _>(id, WrongKernel::<false>, i64s(&[1, 2])).err().unwrap();
    let error = error.message();
    assert!(error.contains("test.wrong_dtype_kernel_output"), "{error}");
    assert!(error.contains("output dtype must match bool") && error.contains("got i64"), "{error}");
}

/// An element that builds a null into its column.
struct NullProducingI64(i64);

impl OutputElement for NullProducingI64 {
    fn element_type() -> DTypeV {
        unreachable!()
    }

    fn payload(self) -> ValueV {
        unreachable!()
    }

    fn placeholder_payload() -> ValueV {
        unreachable!()
    }

    fn built(_payloads: Seq<ValueV>) -> ArrayV {
        unreachable!()
    }

    fn built_in_order(_payloads: Seq<ValueV>) {
        unreachable!()
    }

    fn element_dtype() -> DType {
        DType::Primitive(PType::I64, NON)
    }

    fn build(values: Vec<Self>) -> Array {
        let rows: Vec<(bool, i64)> =
            values.into_iter().enumerate().map(|(index, value)| (index != 0, value.0)).collect();
        nullable_i64s(&rows)
    }

    fn placeholder() -> Self {
        NullProducingI64(0)
    }
}

struct NullProducingKernel;

impl RowKernel<(i64,)> for NullProducingKernel {
    type Element = NullProducingI64;
    type Output = VecOutput<NullProducingI64>;

    fn evaluated(&self, _row: (i64,)) -> ValueV {
        unreachable!()
    }

    fn eval<'a>(&self, row: (i64,)) -> NullProducingI64 {
        NullProducingI64(row.0)
    }

    fn collect_dense<'a>(
        &self,
        rows: DenseRows<'a, (i64,)>,
    ) -> VortexResult<VecOutput<NullProducingI64>> {
        VecOutput::from_values(collect_rows(self, &rows))
    }
}

#[test]
fn test_kernel_output_rejects_nulls_at_function_boundary() {
    let id = "test.invalid_kernel_output";
    let error = run_kernel::<(i64,), _>(id, NullProducingKernel, i64s(&[1, 2])).err().unwrap();
    let error = error.message();
    assert!(error.contains("test.invalid_kernel_output"), "{error}");
    assert!(error.contains("row kernel must produce only valid rows"), "{error}");
}

#[test]
fn test_finalize_kernel_output_rejects_nested_dtype_mismatch() {
    let list_of = |nullability| {
        DType::List(Arc::new(DType::Primitive(PType::I64, nullability)), NON)
    };
    let empty = Cell::valid(Value::List(Vec::new().into()));
    let values = Array::constant(list_of(NON), empty.clone(), 2);
    let id = "test.finalize_kernel_output";
    assert!(finalize_kernel_output(id, &list_of(NULL), 2, values).is_err());
    let values = Array::constant(list_of(NON), empty, 2);
    assert!(finalize_kernel_output(id, &list_of(NON), 2, values).is_ok());
}

// Failures reported once per batch.

/// Addition that reports an overflow at the end, and counts its preparations.
struct DeferredAdd {
    prepare_count: AtomicUsize,
}

impl DeferredRowFn for DeferredAdd {
    type Options = EmptyOptions;
    type Args = (i64, i64);
    type Out = i64;
    type Failure = bool;
    type State = ();

    fn deferred_id(&self) -> Seq<char> {
        unreachable!()
    }

    fn value_of(&self, _options: &EmptyOptions, _row: (i64, i64)) -> ValueV {
        unreachable!()
    }

    fn fails(&self, _options: &EmptyOptions, _row: (i64, i64)) -> bool {
        unreachable!()
    }

    fn failure_text(&self, _options: &EmptyOptions) -> Seq<char> {
        unreachable!()
    }

    fn prepared(
        &self,
        _options: &EmptyOptions,
        _constants: (Option<i64>, Option<i64>),
        _state: (),
    ) -> bool {
        unreachable!()
    }

    fn id(&self) -> String {
        "test.deferred_add".to_string()
    }

    fn prepare<'a>(&self, _options: &EmptyOptions, _constants: (Option<i64>, Option<i64>)) {
        self.prepare_count.fetch_add(1, Ordering::Relaxed);
    }

    fn apply<'a>(&self, _options: &EmptyOptions, _state: &(), row: (i64, i64)) -> (i64, bool) {
        row.0.overflowing_add(row.1)
    }

    fn failure(&self, _options: &EmptyOptions) -> VortexError {
        VortexError::of("deferred addition overflowed")
    }
}

/// The sum of a column and one, and how often the addition was prepared.
fn add_one(lhs: Array) -> (VortexResult<Array>, usize) {
    let rows = lhs.len();
    let function = DeferredFn { function: DeferredAdd { prepare_count: AtomicUsize::new(0) } };
    let args = ExecutionArgs::new(vec![lhs, constant_i64(1, rows)], rows);
    let result = execute_rows(&function, &EmptyOptions, &args);
    (result, function.function.prepare_count.load(Ordering::Relaxed))
}

#[test]
fn test_deferred_owned_execution_retries_null_row_failure() {
    let (result, prepared) = add_one(nullable_i64s(&[(true, 1), (false, i64::MAX)]));
    assert_arrays_eq(&result.unwrap(), &nullable_i64s(&[(true, 2), (false, 0)]));
    assert_eq!(prepared, 2);
}

#[test]
fn test_deferred_owned_execution_does_not_retry_partially_valid_success() {
    let (result, prepared) = add_one(nullable_i64s(&[(true, 1), (false, 2)]));
    assert_arrays_eq(&result.unwrap(), &nullable_i64s(&[(true, 2), (false, 0)]));
    assert_eq!(prepared, 1);
}

#[test]
fn test_deferred_owned_execution_retries_and_reports_valid_row_failure() {
    let (result, prepared) = add_one(nullable_i64s(&[(true, i64::MAX), (false, 1)]));
    let error = result.err().unwrap();
    assert!(error.message().contains("deferred addition overflowed"), "{}", error.message());
    assert_eq!(prepared, 2);
}

#[test]
fn test_deferred_owned_array_backed_all_valid_error_does_not_retry() {
    let (result, prepared) = add_one(nullable_i64s(&[(true, i64::MAX), (true, 1)]));
    let error = result.err().unwrap();
    assert!(error.message().contains("deferred addition overflowed"), "{}", error.message());
    assert_eq!(prepared, 1);
}

/// Writes each value as it is, in a way that could have failed.
struct ValidOnlyIdentity;

impl SinkRowFn for ValidOnlyIdentity {
    type Options = EmptyOptions;
    type Args = (i64,);
    type Sink = ElementSink<i64>;
    type Ret = VortexResult<()>;

    fn sink_id(&self) -> Seq<char> {
        unreachable!()
    }

    fn written(&self, _options: &EmptyOptions, _row: (i64,)) -> ValueV {
        unreachable!()
    }

    fn immediate(&self, _options: &EmptyOptions, _row: (i64,)) -> Result<(), Seq<char>> {
        unreachable!()
    }

    fn fails(&self, _options: &EmptyOptions, _row: (i64,)) -> bool {
        unreachable!()
    }

    fn failure_text(&self, _options: &EmptyOptions) -> Seq<char> {
        unreachable!()
    }

    fn id(&self) -> String {
        "test.valid_only_identity".to_string()
    }

    fn write<'a>(
        &self,
        _options: &EmptyOptions,
        row: (i64,),
        sink: &mut ElementSink<i64>,
        index: usize,
    ) -> VortexResult<()> {
        sink.write(index, row.0);
        Ok(())
    }

    fn failure(&self, _options: &EmptyOptions) -> VortexError {
        VortexError::of("unused")
    }
}

#[test]
fn test_valid_only_empty_batch_preserves_nonnullable_dtype() {
    let function = SinkFn { function: ValidOnlyIdentity };
    let args = ExecutionArgs::new(vec![i64s(&[])], 0);
    let actual = execute_rows(&function, &EmptyOptions, &args).unwrap();
    assert_eq!(actual.len(), 0);
    assert_eq!(actual.dtype().to_text(), "i64");

    let args = ExecutionArgs::new(vec![nullable_i64s(&[(true, 4), (false, 9)])], 2);
    let actual = execute_rows(&function, &EmptyOptions, &args).unwrap();
    assert_arrays_eq(&actual, &nullable_i64s(&[(true, 4), (false, 0)]));
}

/// Skipping pays unless enough decode work would be filtered away.
#[test]
fn skipping_is_chosen_by_decode_work_and_density() {
    let mask = |valid: usize| Mask::new((0..100).map(|row| row < valid).collect());
    assert!(skipping_beats_filtering(0, &mask(1)));
    assert!(skipping_beats_filtering(0, &mask(99)));
    assert!(skipping_beats_filtering(1, &mask(99)));
    assert!(!skipping_beats_filtering(1, &mask(1)));
}

// What is persisted.

#[test]
fn operators_round_trip_through_their_metadata() {
    let operators = [
        Operator::Eq,
        Operator::NotEq,
        Operator::Gt,
        Operator::Gte,
        Operator::Lt,
        Operator::Lte,
        Operator::And,
        Operator::Or,
        Operator::Add,
        Operator::Sub,
        Operator::Mul,
        Operator::Div,
    ];
    for operator in operators {
        let bytes = operator.serialize().unwrap().unwrap();
        assert_eq!(Operator::deserialize(&bytes).unwrap(), operator);
    }
    // A message without its field is the first operator.
    assert_eq!(Operator::Eq.serialize().unwrap(), Some(vec![]));
    assert_eq!(Operator::Div.serialize().unwrap(), Some(vec![8, 11]));
    assert_eq!(
        Operator::deserialize(&[8, 12]).err().unwrap().message(),
        "no binary operator has the number 12"
    );
    assert!(Operator::deserialize(&[8]).is_err());
}

#[test]
fn options_of_one_function_are_compared() {
    let one = ScalarFnOptions { inner: &Not, options: &EmptyOptions };
    let other = ScalarFnOptions { inner: &Not, options: &EmptyOptions };
    assert!(one.same_as(&other));
}

#[test]
fn children_and_options_round_trip() {
    let children = vec![vec![1, 2, 3], vec![], vec![255; 200]];
    for options in [None, Some(vec![]), Some(vec![9, 9])] {
        let metadata = encode_children_and_options(&children, &options);
        let (decoded, rest) = decode_children_and_options(&metadata, 3).unwrap();
        assert_eq!(decoded, children);
        // Absent options are empty ones.
        assert_eq!(rest, options.unwrap_or_default());
    }
    let metadata = encode_children_and_options(&vec![vec![7]], &Some(vec![9]));
    assert_eq!(metadata, [10, 1, 7, 18, 1, 9]);
}

#[test]
fn metadata_of_another_arity_is_refused() {
    let metadata = encode_children_and_options(&vec![vec![1], vec![2]], &None);
    assert!(decode_children_and_options(&metadata, 1).is_err());
    // A truncated field is no field.
    assert!(decode_children_and_options(&metadata[..5], 2).is_err());
}

#[test]
fn fields_of_other_numbers_are_skipped() {
    let mut metadata = vec![24, 5];
    metadata.extend(encode_children_and_options(&vec![vec![1]], &None));
    let (children, options) = decode_children_and_options(&metadata, 1).unwrap();
    assert_eq!((children, options), (vec![vec![1]], vec![]));
}

#[test]
fn cheap_functions_are_applied_first() {
    for id in ["vortex.byte_length", "vortex.get_item", "vortex.literal"] {
        assert!(is_negative_cost(id));
    }
    assert!(!is_negative_cost("vortex.binary"));
    assert!(!is_negative_cost("vortex.not"));
}

// Statistics rewrites.

#[test]
fn rules_are_kept_in_the_order_of_registration() {
    let mut session: StatsSession<&str, u8> = StatsSession::new();
    assert!(session.rewrite_rules_for("vortex.binary").is_none());
    session.register_rewrite("vortex.binary", "first");
    session.register_rewrite("vortex.not", "other");
    session.register_rewrite("vortex.binary", "second");
    assert_eq!(session.rewrite_rules_for("vortex.binary"), Some(&vec!["first", "second"]));
    assert_eq!(session.rewrite_rules_for("vortex.not"), Some(&vec!["other"]));
}

#[test]
fn rewrites_are_cached_until_a_rule_comes() {
    let mut session: StatsSession<&str, u8> = StatsSession::new();
    assert_eq!(session.cached_rewrite(StatsRewriteKind::Falsify, 1), None);
    assert_eq!(session.cache_rewrite(StatsRewriteKind::Falsify, 1, Some(7)), &Some(7));
    // The result that was cached first is the one that is shared.
    assert_eq!(session.cache_rewrite(StatsRewriteKind::Falsify, 1, Some(8)), &Some(7));
    assert_eq!(session.cache_rewrite(StatsRewriteKind::Satisfy, 1, None), &None);
    assert_eq!(session.cached_rewrite(StatsRewriteKind::Falsify, 1), Some(&Some(7)));
    assert_eq!(session.cached_rewrite(StatsRewriteKind::Satisfy, 1), Some(&None));
    session.register_rewrite("vortex.binary", "rule");
    assert_eq!(session.cached_rewrite(StatsRewriteKind::Falsify, 1), None);
}

#[test]
fn a_full_cache_starts_over() {
    let mut session: StatsSession<&str, u8> = StatsSession::new();
    for expr in 0..REWRITE_CACHE_CAPACITY as u64 {
        session.cache_rewrite(StatsRewriteKind::Falsify, expr, None);
    }
    assert_eq!(session.cached_rewrite(StatsRewriteKind::Falsify, 0), Some(&None));
    session.cache_rewrite(StatsRewriteKind::Falsify, u64::MAX, Some(1));
    assert_eq!(session.cached_rewrite(StatsRewriteKind::Falsify, u64::MAX), Some(&Some(1)));
    assert_eq!(session.cached_rewrite(StatsRewriteKind::Falsify, 0), None);
}

#[test]
fn a_restored_column_is_checked_against_its_function() {
    let utf8 = || {
        Array::column(
            DType::Utf8(NON),
            vec![Cell::valid(Value::Bytes(Arc::new(b"abc".to_vec())))],
        )
    };
    let parts = decode_scalar_fn_array(&ByteLength, EmptyOptions, vec![utf8()]).unwrap();
    assert_eq!(parts.children.len(), 1);
    let error = decode_scalar_fn_array(&ByteLength, EmptyOptions, vec![]).err().unwrap();
    assert_eq!(error.message(), "expected 1 argument dtypes, got 0");
    let error = decode_scalar_fn_array(&ByteLength, EmptyOptions, vec![i64s(&[1])]).err().unwrap();
    assert_eq!(error.message(), "expected a Utf8 or Binary column, got i64");
}

/// The bits of the last word that stand for no row are clear.
#[test]
fn packed_tails_are_clear() {
    let mut output = PackedBoolOutput::from_values(vec![true; 70]).unwrap();
    assert_eq!(output.words_mut().to_vec(), vec![u64::MAX, 0b11_1111]);
    assert_eq!(PackedBoolOutput::zeroed(70).words_mut().to_vec(), vec![0, 0]);
    assert_eq!(PackedBoolOutput::zeroed(0).words_mut().len(), 0);
}
