//! Scalar functions computed one row at a time.

use std::marker::PhantomData;
use std::sync::Arc;

use vstd::prelude::nat;
use vstd::seq::Seq;

use vortex_rows::array::{Array, ArrayV, Repr};
use vortex_rows::dtype::{DType, DTypeV, Nullability, PType};
use vortex_rows::error::{VortexError, VortexResult};
use vortex_rows::expr::tree::{call_to_sql, is_not_null, root};
use vortex_rows::mask::Mask;
use vortex_rows::native::F64;
use vortex_rows::scalar_fn::options::{EmptyOptions, PersistableOptions, ScalarFnOptions};
use vortex_rows::scalar_fn::row::batch::{execute_rows, RowBatch};
use vortex_rows::scalar_fn::row::bytes::{Bytes, BytesLen};
use vortex_rows::scalar_fn::row::element::{ApplyResult, InputElement, OutputElement};
use vortex_rows::scalar_fn::row::policy::RowPolicy;
use vortex_rows::scalar_fn::row::result::{DeferredError, SinkResult};
use vortex_rows::scalar_fn::row::row_fn::{
    execute_row_fn_with_strategy, execute_row_loop_branch, row_null_handling, RowFn,
};
use vortex_rows::scalar_fn::row::sink::{OutputSink, SinkFn, SinkRowFn};
use vortex_rows::scalar_fn::row::tuple::{ArgColumn, ArgView, ElementTuple};
use vortex_rows::scalar_fn::row::typed::TypedRowFn;
use vortex_rows::scalar_fn::strict::{NullHandling, NullStrategy};
use vortex_rows::scalar_fn::vtable::{ExecutionArgs, ScalarFnVTable};
use vortex_rows::value::{Cell, Value, ValueV};

const NON: Nullability = Nullability::NonNullable;
const NULL: Nullability = Nullability::Nullable;

fn primitive(ptype: PType, nullability: Nullability, values: Vec<Option<Value>>) -> Array {
    Array::column(
        DType::Primitive(ptype, nullability),
        values
            .into_iter()
            .map(|v| match v {
                Some(v) => Cell::valid(v),
                None => Cell::null(),
            })
            .collect(),
    )
}

fn f64_value(value: f64) -> Value {
    Value::F64(F64 { bits: value.to_bits() })
}

fn f64s(values: &[f64]) -> Array {
    primitive(PType::F64, NON, values.iter().map(|v| Some(f64_value(*v))).collect())
}

fn optional_f64s(values: &[Option<f64>]) -> Array {
    primitive(PType::F64, NULL, values.iter().map(|v| v.map(f64_value)).collect())
}

fn constant_f64(value: f64, rows: usize) -> Array {
    Array::constant(DType::Primitive(PType::F64, NON), Cell::valid(f64_value(value)), rows)
}

fn i64s(values: &[i64]) -> Array {
    primitive(PType::I64, NON, values.iter().map(|v| Some(Value::I64(*v))).collect())
}

fn optional_i64s(values: &[Option<i64>]) -> Array {
    primitive(PType::I64, NULL, values.iter().map(|v| v.map(Value::I64)).collect())
}

/// A column whose null rows still hold a value.
fn hidden_i64s(values: &[(bool, i64)]) -> Array {
    Array::column(
        DType::Primitive(PType::I64, NULL),
        values.iter().map(|(valid, v)| Cell { valid: *valid, value: Value::I64(*v) }).collect(),
    )
}

fn constant_i64(value: i64, rows: usize) -> Array {
    Array::constant(DType::Primitive(PType::I64, NON), Cell::valid(Value::I64(value)), rows)
}

fn i32s(values: &[i32]) -> Array {
    primitive(PType::I32, NON, values.iter().map(|v| Some(Value::I32(*v))).collect())
}

fn optional_i32s(values: &[Option<i32>]) -> Array {
    primitive(PType::I32, NULL, values.iter().map(|v| v.map(Value::I32)).collect())
}

fn constant_i32(value: i32, rows: usize) -> Array {
    Array::constant(DType::Primitive(PType::I32, NON), Cell::valid(Value::I32(value)), rows)
}

fn text_value(text: &str) -> Value {
    Value::Bytes(Arc::new(text.as_bytes().to_vec()))
}

fn optional_strings(values: &[Option<&str>]) -> Array {
    Array::column(
        DType::Utf8(NULL),
        values
            .iter()
            .map(|v| match v {
                Some(v) => Cell::valid(text_value(v)),
                None => Cell::null(),
            })
            .collect(),
    )
}

fn show(cell: &Cell) -> String {
    if !cell.valid {
        return "null".to_string();
    }
    match &cell.value {
        Value::List(cells) => format!("[{}]", cells.iter().map(show).collect::<Vec<_>>().join(", ")),
        value => format!("{value:?}"),
    }
}

fn shown(array: &Array) -> Vec<String> {
    (0..array.len()).map(|row| show(&array.cell(row))).collect()
}

fn assert_arrays_eq(actual: &Array, expected: &Array) {
    assert_eq!(actual.dtype().to_text(), expected.dtype().to_text());
    assert_eq!(shown(actual), shown(expected));
}

/// A row function given by what prepares a batch and what computes a row.
struct Row<A: ElementTuple, R, S> {
    id: &'static str,
    prepare: for<'a> fn(<A as ElementTuple>::ConstElems<'a>) -> S,
    apply: for<'a, 'b> fn(&'b S, <A as ElementTuple>::Elems<'a>) -> R,
    reduce: fn(&ExecutionArgs) -> VortexResult<Option<Array>>,
}

impl<A: ElementTuple, R: ApplyResult, S> RowFn for Row<A, R, S> {
    type Options = EmptyOptions;
    type Args = A;
    type Ret = R;
    type State = S;

    fn row_id(&self) -> Seq<char> {
        unreachable!()
    }

    fn eval(&self, _options: &EmptyOptions, _row: A::V) -> Result<ValueV, Seq<char>> {
        unreachable!()
    }

    fn prepared(&self, _options: &EmptyOptions, _constants: A::ConstV, _state: S) -> bool {
        unreachable!()
    }

    fn reduced(&self, _options: &EmptyOptions, _args: Seq<ArrayV>) -> Result<Option<ArrayV>, Seq<char>> {
        unreachable!()
    }

    fn eval_is_total(&self, _options: &EmptyOptions, _row: A::V) {}

    fn id(&self) -> String {
        self.id.to_string()
    }

    fn prepare<'a>(&self, _options: &EmptyOptions, constants: A::ConstElems<'a>) -> S {
        (self.prepare)(constants)
    }

    fn apply<'a>(&self, _options: &EmptyOptions, state: &S, row: A::Elems<'a>) -> R {
        (self.apply)(state, row)
    }

    fn reduce_encoded(&self, _options: &EmptyOptions, args: &ExecutionArgs) -> VortexResult<Option<Array>> {
        (self.reduce)(args)
    }
}

fn never(_args: &ExecutionArgs) -> VortexResult<Option<Array>> {
    Ok(None)
}

fn apply<A: ElementTuple, R: ApplyResult, S>(
    function: Row<A, R, S>,
    inputs: Vec<Array>,
) -> VortexResult<Array> {
    let rows = inputs.first().map_or(0, |input| input.len());
    ScalarFnVTable::execute(&function, &EmptyOptions, &ExecutionArgs::new(inputs, rows))
}

fn null_handling<A: ElementTuple, R: ApplyResult, S>(_function: &Row<A, R, S>) -> NullHandling {
    row_null_handling::<A, R>()
}

fn float(value: F64) -> f64 {
    f64::from_bits(value.bits)
}

fn bits(value: f64) -> F64 {
    F64 { bits: value.to_bits() }
}

/// `hypot(x, y)`.
fn hypot() -> Row<(F64, F64), F64, ()> {
    Row {
        id: "vortex.test.hypot",
        prepare: |_| (),
        apply: |_, (x, y)| bits(float(x).hypot(float(y))),
        reduce: never,
    }
}

/// Uppercased text.
fn shout() -> Row<(Bytes,), String, ()> {
    Row {
        id: "vortex.test.shout",
        prepare: |_| (),
        apply: |_, (text,)| String::from_utf8_lossy(text).to_uppercase(),
        reduce: never,
    }
}

/// Integer division, undefined at a zero divisor.
fn checked_div() -> Row<(i64, i64), VortexResult<i64>, ()> {
    Row {
        id: "vortex.test.checked_div",
        prepare: |_| (),
        apply: |_, (lhs, rhs)| {
            if rhs == 0 {
                return Err(VortexError::of("division by zero"));
            }
            Ok(lhs / rhs)
        },
        reduce: never,
    }
}

fn assert_hypot_columns() {
    let result = apply(hypot(), vec![f64s(&[3.0, 5.0]), f64s(&[4.0, 12.0])]).unwrap();
    assert_arrays_eq(&result, &f64s(&[5.0, 13.0]));
}

#[test]
fn tests_hypot_columns() {
    assert_hypot_columns();
}

#[test]
fn mod_hypot_columns() {
    assert_hypot_columns();
}

fn assert_hypot_propagates() {
    let x = optional_f64s(&[Some(3.0), None, Some(8.0)]);
    let result = apply(hypot(), vec![x, constant_f64(4.0, 3)]).unwrap();
    assert_arrays_eq(&result, &optional_f64s(&[Some(5.0), None, Some((80.0f64).sqrt())]));
}

#[test]
fn tests_hypot_propagates_nulls_and_constants() {
    assert_hypot_propagates();
}

#[test]
fn mod_hypot_propagates_nulls_and_constants() {
    assert_hypot_propagates();
}

fn assert_shouts() {
    let input = optional_strings(&[Some("hello"), None, Some("Vortex")]);
    let result = apply(shout(), vec![input]).unwrap();
    assert_arrays_eq(&result, &optional_strings(&[Some("HELLO"), None, Some("VORTEX")]));
}

#[test]
fn tests_shout_strings() {
    assert_shouts();
}

#[test]
fn mod_shout_strings() {
    assert_shouts();
}

#[test]
fn tests_display_names_the_function_id() {
    assert_eq!(call_to_sql(&hypot(), &vec![root(), root()]), "vortex.test.hypot($, $)");
}

#[test]
fn mod_display_names_the_function_id() {
    assert_eq!(call_to_sql(&hypot(), &vec![root(), root()]), "vortex.test.hypot($, $)");
    assert_eq!(call_to_sql(&forty_two(), &vec![]), "vortex.test.forty_two()");
}

/// An output element that declares itself nullable.
struct NullableI64(i64);

impl OutputElement for NullableI64 {
    fn element_type() -> DTypeV {
        unreachable!()
    }

    fn payload(self) -> ValueV {
        unreachable!()
    }

    fn placeholder_payload() -> ValueV {
        unreachable!()
    }

    fn built(_payloads: Seq<ValueV>) -> ArrayV {
        unreachable!()
    }

    fn built_in_order(_payloads: Seq<ValueV>) {
        unreachable!()
    }

    fn element_dtype() -> DType {
        DType::Primitive(PType::I64, NULL)
    }

    fn build(values: Vec<Self>) -> Array {
        optional_i64s(&values.into_iter().map(|value| Some(value.0)).collect::<Vec<_>>())
    }

    fn placeholder() -> Self {
        NullableI64(0)
    }
}

#[test]
fn nullable_element_dtype_is_rejected() {
    let function: Row<(i64,), NullableI64, ()> = Row {
        id: "vortex.test.nullable_element",
        prepare: |_| (),
        apply: |_, (value,)| NullableI64(value),
        reduce: never,
    };
    let dtypes = vec![DType::Primitive(PType::I64, NON)];
    let error = ScalarFnVTable::return_dtype(&function, &EmptyOptions, &dtypes).err().unwrap();
    assert!(error.message().contains("non-nullable dtype"), "{}", error.message());
}

fn wrong_length() -> Row<(i64,), i64, ()> {
    Row {
        id: "vortex.test.wrong_length",
        prepare: |_| (),
        apply: |_, (value,)| value,
        reduce: |_| Ok(Some(i64s(&[0]))),
    }
}

fn assert_length_is_validated() {
    let error = apply(wrong_length(), vec![i64s(&[1, 2, 3])]).err().unwrap();
    assert!(
        error.message().contains("produced 1 rows for 3 input rows"),
        "{}",
        error.message()
    );
}

#[test]
fn tests_kernel_result_length_is_validated() {
    assert_length_is_validated();
}

#[test]
fn mod_kernel_result_length_is_validated() {
    assert_length_is_validated();
}

fn forty_two() -> Row<(), i64, ()> {
    Row { id: "vortex.test.forty_two", prepare: |_| (), apply: |_, ()| 42, reduce: never }
}

fn assert_nullary() {
    let args = ExecutionArgs::new(vec![], 3);
    let result = ScalarFnVTable::execute(&forty_two(), &EmptyOptions, &args).unwrap();
    assert_arrays_eq(&result, &i64s(&[42; 3]));
}

#[test]
fn tests_nullary_row_fn_executes_requested_rows() {
    assert_nullary();
}

#[test]
fn mod_nullary_row_fn_executes_requested_rows() {
    assert_nullary();
}

fn assert_four_arguments() {
    let function: Row<(i64, i64, i64, i64), i64, ()> = Row {
        id: "vortex.test.sum_four",
        prepare: |_| (),
        apply: |_, (a, b, c, d)| a + b + c + d,
        reduce: never,
    };
    let inputs = vec![i64s(&[1, 2]), i64s(&[10, 20]), i64s(&[100, 200]), i64s(&[1000, 2000])];
    assert_arrays_eq(&apply(function, inputs).unwrap(), &i64s(&[1111, 2222]));
}

#[test]
fn tests_four_argument_row_fn_executes() {
    assert_four_arguments();
}

#[test]
fn mod_four_argument_row_fn_executes() {
    assert_four_arguments();
}

type TwelveI64s = (i64, i64, i64, i64, i64, i64, i64, i64, i64, i64, i64, i64);

#[test]
fn tests_tuples_are_supported_through_arity_twelve() {
    assert_eq!(<() as ElementTuple>::ARITY, 0);
    assert_eq!(<TwelveI64s as ElementTuple>::ARITY, 12);
}

#[test]
fn mod_tuples_are_supported_through_arity_twelve() {
    assert_eq!(<() as ElementTuple>::ARITY, 0);
    assert_eq!(<TwelveI64s as ElementTuple>::ARITY, 12);
}

#[test]
fn ret_type_decides_fallibility() {
    assert!(!ScalarFnVTable::is_fallible(&hypot(), &EmptyOptions));
    assert!(ScalarFnVTable::is_fallible(&checked_div(), &EmptyOptions));
}

#[test]
fn kernel_flag_decides_fallibility() {
    assert!(!ScalarFnVTable::is_fallible(&hypot(), &EmptyOptions));
    assert!(ScalarFnVTable::is_fallible(&checked_div(), &EmptyOptions));
}

fn assert_error_propagates() {
    let error = apply(checked_div(), vec![i64s(&[10, 10]), i64s(&[2, 0])]).err().unwrap();
    assert!(error.message().contains("division by zero"), "{}", error.message());
}

#[test]
fn tests_fallible_apply_propagates_its_error() {
    assert_error_propagates();
}

#[test]
fn mod_fallible_apply_propagates_its_error() {
    assert_error_propagates();
}

/// The divisor's null slot holds a zero, which a dense pass would divide by.
fn assert_nulls_are_not_divided_by() {
    let rhs = hidden_i64s(&[(true, 2), (false, 0)]);
    let result = apply(checked_div(), vec![i64s(&[10, 10]), rhs]).unwrap();
    assert_arrays_eq(&result, &optional_i64s(&[Some(5), None]));
}

#[test]
fn tests_fallible_apply_never_sees_rows_behind_nulls() {
    assert_nulls_are_not_divided_by();
}

#[test]
fn mod_fallible_apply_never_sees_rows_behind_nulls() {
    assert_nulls_are_not_divided_by();
}

/// The arguments and the return type decide how nulls are handled.
#[test]
fn null_handling_follows_from_args_and_ret() {
    assert_eq!(null_handling(&hypot()), NullHandling::Dense);
    assert_eq!(null_handling(&shout()), NullHandling::Filter);
    assert_eq!(null_handling(&checked_div()), NullHandling::Filter);
}

#[test]
fn null_handling_follows_from_args_and_fallibility() {
    assert_eq!(null_handling(&hypot()), NullHandling::Dense);
    assert_eq!(null_handling(&shout()), NullHandling::Filter);
    assert_eq!(null_handling(&checked_div()), NullHandling::Filter);
}

/// The fixed-signature form: state the row types, compute one row.
struct Plus;

impl TypedRowFn for Plus {
    type Options = EmptyOptions;
    type Args = (F64, F64);
    type Out = F64;

    fn typed_id(&self) -> Seq<char> {
        unreachable!()
    }

    fn payload_of(_options: &EmptyOptions, _row: <(F64, F64) as ElementTuple>::V) -> ValueV {
        unreachable!()
    }

    fn id(&self) -> String {
        "example.plus_f64".to_string()
    }

    fn apply(_options: &EmptyOptions, (lhs, rhs): (F64, F64)) -> F64 {
        bits(float(lhs) + float(rhs))
    }
}

#[test]
fn typed_row_fn_executes_over_a_batch() {
    let inputs = vec![f64s(&[1.0, 2.0, 3.0]), f64s(&[0.5, 0.25, 0.125])];
    let args = ExecutionArgs::new(inputs, 3);
    let result = ScalarFnVTable::execute(&Plus, &EmptyOptions, &args).unwrap();
    assert_arrays_eq(&result, &f64s(&[1.5, 2.25, 3.125]));
    assert_eq!(RowFn::id(&Plus), "example.plus_f64");
    assert!(!ScalarFnVTable::is_fallible(&Plus, &EmptyOptions));
}

/// One decoded row of a [`Traced`] element: its value, whether its column was decoded around
/// nulls, and how many rows that column has.
#[derive(Clone, Copy)]
struct Read<T> {
    value: T,
    tolerant: bool,
    rows: usize,
}

/// An element that reads as `T` does and also tells how its column was decoded. The constants say
/// whether it is readable behind nulls, whether its decode can fail, whether its decode shrinks
/// when filtered, and whether it decodes around nulls.
struct Traced<
    T,
    const DENSE: bool,
    const FALLIBLE: bool,
    const SHRINKS: bool,
    const TOLERANT: bool,
>(PhantomData<T>);

struct TracedColumn<C> {
    column: C,
    tolerant: bool,
}

impl<
    T: InputElement,
    const DENSE: bool,
    const FALLIBLE: bool,
    const SHRINKS: bool,
    const TOLERANT: bool,
> InputElement for Traced<T, DENSE, FALLIBLE, SHRINKS, TOLERANT> {
    type Column = TracedColumn<T::Column>;
    type Elem<'a> = Read<T::Elem<'a>>;
    type V = T::V;

    const DENSE_SAFE: bool = DENSE;
    const DECODE_FALLIBLE: bool = FALLIBLE;
    const DECODE_SHRINKS_WHEN_FILTERED: bool = SHRINKS;

    fn dense_safe() -> bool {
        unreachable!()
    }

    fn decode_fallible() -> bool {
        unreachable!()
    }

    fn decode_shrinks() -> bool {
        unreachable!()
    }

    fn constants_hold() {}

    fn accepts(_dtype: DTypeV) -> Result<(), Seq<char>> {
        unreachable!()
    }

    fn reads(_value: ValueV) -> Option<T::V> {
        unreachable!()
    }

    fn decodes(_array: ArrayV) -> Result<(), Seq<char>> {
        unreachable!()
    }

    fn decodes_tolerant(_array: ArrayV) -> Result<bool, Seq<char>> {
        unreachable!()
    }

    fn column_len(_column: &Self::Column) -> nat {
        unreachable!()
    }

    fn column_at(_column: &Self::Column, _i: vstd::prelude::int) -> Option<T::V> {
        unreachable!()
    }

    fn meaning(_elem: Self::Elem<'_>) -> T::V {
        unreachable!()
    }

    fn validate(dtype: &DType) -> VortexResult<()> {
        T::validate(dtype)
    }

    fn decode(array: &Array) -> VortexResult<Self::Column> {
        Ok(TracedColumn { column: T::decode(array)?, tolerant: false })
    }

    fn decode_null_tolerant(array: &Array) -> VortexResult<Option<Self::Column>> {
        if !TOLERANT {
            return Ok(None);
        }
        Ok(Some(TracedColumn { column: T::decode(array)?, tolerant: true }))
    }

    fn column_rows(column: &Self::Column) -> usize {
        T::column_rows(&column.column)
    }

    fn get<'a>(column: &'a Self::Column, index: usize) -> Self::Elem<'a> {
        Read {
            value: T::get(&column.column, index),
            tolerant: column.tolerant,
            rows: T::column_rows(&column.column),
        }
    }
}

// What the lifting adds around every row loop. The kernel is one wrapping addition, and only its
// argument element decides how nulls are handled, so every case runs both ways.

type MaybeDense<const DENSE: bool> = Traced<i32, DENSE, false, false, false>;

fn add<const DENSE: bool>() -> Row<(MaybeDense<DENSE>, MaybeDense<DENSE>), i32, ()> {
    Row {
        id: if DENSE { "vortex.test.add.dense" } else { "vortex.test.add.filter" },
        prepare: |_| (),
        apply: |_, (lhs, rhs)| lhs.value.wrapping_add(rhs.value),
        reduce: never,
    }
}

fn assert_add(lhs: Array, rhs: Array, expected: Array) {
    assert_eq!(null_handling(&add::<true>()), NullHandling::Dense);
    assert_eq!(null_handling(&add::<false>()), NullHandling::Filter);
    let dense = apply(add::<true>(), vec![lhs.clone(), rhs.clone()]).unwrap();
    let filtered = apply(add::<false>(), vec![lhs, rhs]).unwrap();
    assert_arrays_eq(&dense, &expected);
    assert_arrays_eq(&filtered, &expected);
}

#[test]
fn no_nulls() {
    assert_add(i32s(&[1, 2, 3]), i32s(&[10, 20, 30]), i32s(&[11, 22, 33]));
}

#[test]
fn nulls_propagate() {
    assert_add(
        optional_i32s(&[Some(1), None, Some(3), None]),
        optional_i32s(&[Some(10), Some(20), None, None]),
        optional_i32s(&[Some(11), None, None, None]),
    );
}

/// A null constant makes the whole output null without the kernel running at all.
#[test]
fn null_constant_short_circuits() {
    let null = Array::constant(DType::Primitive(PType::I32, NULL), Cell::null(), 3);
    assert_add(i32s(&[1, 2, 3]), null, optional_i32s(&[None, None, None]));
}

/// All-constant inputs evaluate one row and repeat it.
#[test]
fn tests_all_constants_broadcast() {
    assert_add(constant_i32(2, 4), constant_i32(40, 4), i32s(&[42, 42, 42, 42]));
}

#[test]
fn mixed_constant_and_column() {
    assert_add(
        optional_i32s(&[Some(1), None, Some(3)]),
        constant_i32(10, 3),
        optional_i32s(&[Some(11), None, Some(13)]),
    );
}

/// An empty batch is neither all-valid nor all-null, and keeps its non-nullable type.
#[test]
fn tests_empty_input_keeps_dtype() {
    let result = apply(add::<false>(), vec![i32s(&[]), i32s(&[])]).unwrap();
    assert_eq!(result.len(), 0);
    assert!(!result.dtype().is_nullable());
}

/// The output type is widened where an input is nullable.
#[test]
fn return_dtype_unions_nullability() {
    let non = DType::Primitive(PType::I32, NON);
    let nullable = DType::Primitive(PType::I32, NULL);
    let of = |dtypes: Vec<DType>| {
        ScalarFnVTable::return_dtype(&add::<true>(), &EmptyOptions, &dtypes).unwrap().to_text()
    };
    assert_eq!(of(vec![non.clone(), non.clone()]), non.to_text());
    assert_eq!(of(vec![non, nullable.clone()]), nullable.to_text());
}

#[test]
fn a_row_fn_is_strict() {
    assert!(ScalarFnVTable::is_strict(&add::<true>(), &EmptyOptions));
}

#[test]
fn validity_is_the_child_conjunction() {
    let args = vec![is_not_null(root()), is_not_null(root())];
    let validity = ScalarFnVTable::validity(&add::<true>(), &EmptyOptions, args);
    assert_eq!(
        validity.unwrap().to_sql(),
        "(vortex.is_not_null($) and vortex.is_not_null($))"
    );
}

/// Options persist themselves, so a row function needs no serialization of its own.
#[test]
fn options_round_trip_without_per_function_serde() {
    let function = add::<true>();
    let handle = ScalarFnOptions { inner: &function, options: &EmptyOptions };
    let metadata = handle.serialize().unwrap().expect("EmptyOptions is serializable");
    assert_eq!(EmptyOptions::deserialize(&metadata).unwrap(), EmptyOptions);
}

/// A function over whichever integer width the inputs are is a family of row functions, one for
/// each width.
fn int_max<T: InputElement + Ord + Copy>() -> Row<(T, T), T, ()>
where
    for<'a> T: InputElement<Elem<'a> = T>,
    T: OutputElement,
{
    Row {
        id: "vortex.test.int_max",
        prepare: |_| (),
        apply: |_, (a, b)| a.max(b),
        reduce: never,
    }
}

fn apply_int_max(lhs: Array, rhs: Array) -> VortexResult<Array> {
    match lhs.dtype() {
        DType::Primitive(PType::I16, _) => apply(int_max::<i16>(), vec![lhs, rhs]),
        DType::Primitive(PType::I64, _) => apply(int_max::<i64>(), vec![lhs, rhs]),
        DType::Primitive(PType::U8, _) => apply(int_max::<u8>(), vec![lhs, rhs]),
        _ => Err(VortexError::of("int_max requires integer inputs")),
    }
}

#[test]
fn each_integer_width_has_its_row_function() {
    let i16s = |values: [i16; 3]| {
        primitive(PType::I16, NON, values.iter().map(|v| Some(Value::I16(*v))).collect())
    };
    let u8s = |values: [u8; 3]| {
        primitive(PType::U8, NON, values.iter().map(|v| Some(Value::U8(*v))).collect())
    };
    let result = apply_int_max(i16s([1, 9, 3]), i16s([4, 2, 3])).unwrap();
    assert_arrays_eq(&result, &i16s([4, 9, 3]));
    let result = apply_int_max(i64s(&[1, 9, 3]), i64s(&[4, 2, 3])).unwrap();
    assert_arrays_eq(&result, &i64s(&[4, 9, 3]));
    let result = apply_int_max(u8s([1, 9, 3]), u8s([4, 2, 3])).unwrap();
    assert_arrays_eq(&result, &u8s([4, 9, 3]));
}

#[test]
fn rejects_a_float_width() {
    let error = apply_int_max(f64s(&[1.0]), f64s(&[2.0])).err().unwrap();
    assert!(error.message().contains("integer inputs"), "{}", error.message());
    // Nor does a row function over integers accept a float column.
    let error = apply(int_max::<i64>(), vec![f64s(&[1.0]), f64s(&[2.0])]).err().unwrap();
    assert_eq!(error.message(), "expected a i64 column, got f64");
}

/// A constant operand is decoded once: its column has a single row.
#[test]
fn a_constant_operand_is_decoded_once() {
    type Counted = Traced<i64, true, false, false, false>;
    let decoded_rows: Row<(Counted, Counted), i64, ()> = Row {
        id: "vortex.test.count_decoded",
        prepare: |_| (),
        apply: |_, (lhs, rhs)| (lhs.rows + rhs.rows) as i64,
        reduce: never,
    };
    let add_counted: Row<(Counted, Counted), i64, ()> = Row {
        id: "vortex.test.add_counted",
        prepare: |_| (),
        apply: |_, (lhs, rhs)| lhs.value + rhs.value,
        reduce: never,
    };
    let column: Vec<i64> = (0..64).collect();
    // 64 rows for the real column, plus exactly one for the constant.
    let result = apply(decoded_rows, vec![i64s(&column), constant_i64(10, 64)]).unwrap();
    assert_arrays_eq(&result, &i64s(&[65; 64]));
    let result = apply(add_counted, vec![i64s(&column), constant_i64(10, 64)]).unwrap();
    let sums: Vec<i64> = (0..64).map(|value| value + 10).collect();
    assert_arrays_eq(&result, &i64s(&sums));
}

// The prepared visit: state computed once per batch from the constant operands.

/// `sqrt(x^2 + y^2)`, with the square of any constant operand computed once.
fn prepared_hypot() -> Row<(F64, F64), F64, (Option<f64>, Option<f64>)> {
    Row {
        id: "vortex.test.prepared_hypot",
        prepare: |(x, y)| (x.map(|x| float(x) * float(x)), y.map(|y| float(y) * float(y))),
        apply: |&(x_sq, y_sq), (x, y)| {
            let x = float(x);
            let y = float(y);
            bits((x_sq.unwrap_or(x * x) + y_sq.unwrap_or(y * y)).sqrt())
        },
        reduce: never,
    }
}

/// Which operands were seen as constant: bit 0 for the first, bit 1 for the second.
fn seen_constants() -> Row<(F64, F64), i64, i64> {
    Row {
        id: "vortex.test.seen_constants",
        prepare: |(x, y)| i64::from(x.is_some()) | (i64::from(y.is_some()) << 1),
        apply: |seen, (_, _)| *seen,
        reduce: never,
    }
}

#[test]
fn a_constant_operand_matches_its_expanded_column() {
    let x = f64s(&[3.0, 5.0, 8.0]);
    let expanded = f64s(&[4.0, 4.0, 4.0]);
    let from_constant = apply(prepared_hypot(), vec![x.clone(), constant_f64(4.0, 3)]).unwrap();
    let from_expanded = apply(prepared_hypot(), vec![x.clone(), expanded.clone()]).unwrap();
    assert_arrays_eq(&from_constant, &from_expanded);

    let seen = apply(seen_constants(), vec![x.clone(), constant_f64(4.0, 3)]).unwrap();
    assert_arrays_eq(&seen, &i64s(&[0b10; 3]));
    let seen = apply(seen_constants(), vec![x, expanded]).unwrap();
    assert_arrays_eq(&seen, &i64s(&[0b00; 3]));
}

fn masked_constant() -> Array {
    Array {
        dtype: DType::Primitive(PType::F64, NULL),
        repr: Repr::MaskedConstant(f64_value(4.0), vec![true, false, true]),
    }
}

/// A constant with some rows null is a constant of the batch too.
#[test]
fn a_masked_constant_operand_is_seen_as_constant() {
    let x = f64s(&[3.0, 5.0, 8.0]);
    let seen = apply(seen_constants(), vec![x.clone(), masked_constant()]).unwrap();
    assert_arrays_eq(&seen, &optional_i64s(&[Some(0b10), None, Some(0b10)]));
    let result = apply(prepared_hypot(), vec![x, masked_constant()]).unwrap();
    assert_arrays_eq(&result, &optional_f64s(&[Some(5.0), None, Some((80.0f64).sqrt())]));
}

#[test]
fn all_varying_operands_prepare_nothing() {
    let x = f64s(&[3.0, 5.0]);
    let y = f64s(&[4.0, 12.0]);
    let seen = apply(seen_constants(), vec![x.clone(), y.clone()]).unwrap();
    assert_arrays_eq(&seen, &i64s(&[0b00; 2]));
    assert_arrays_eq(&apply(prepared_hypot(), vec![x, y]).unwrap(), &f64s(&[5.0, 13.0]));
}

/// Two constant operands are folded to a single row, which still prepares from both.
#[test]
fn all_constant_operands_fold_and_still_prepare() {
    let inputs = || vec![constant_f64(3.0, 4), constant_f64(4.0, 4)];
    let seen = apply(seen_constants(), inputs()).unwrap();
    assert_arrays_eq(&seen, &i64s(&[0b11; 4]));
    let result = apply(prepared_hypot(), inputs()).unwrap();
    assert_arrays_eq(&result, &f64s(&[5.0, 5.0, 5.0, 5.0]));
}

#[test]
fn nulls_propagate_through_the_prepared_path() {
    let x = optional_f64s(&[Some(3.0), None, Some(8.0)]);
    let result = apply(prepared_hypot(), vec![x, constant_f64(4.0, 3)]).unwrap();
    assert_arrays_eq(&result, &optional_f64s(&[Some(5.0), None, Some((80.0f64).sqrt())]));
}

/// A total computation over an element whose decode can fail.
fn total_over_parsed() -> Row<(Traced<BytesLen, true, true, false, false>,), u64, ()> {
    Row {
        id: "vortex.test.total_over_parsed",
        prepare: |_| (),
        apply: |_, (len,)| len.value as u64,
        reduce: never,
    }
}

#[test]
fn a_fallible_decode_makes_the_function_fallible() {
    assert!(ScalarFnVTable::is_fallible(&total_over_parsed(), &EmptyOptions));
}

#[test]
fn a_fallible_decode_forces_filtering() {
    assert_eq!(null_handling(&total_over_parsed()), NullHandling::Filter);
}

// Output written per row rather than returned.

/// A column of three-element lists, each written as the slice of one flat buffer.
struct SpreadSink {
    dtype: DType,
    elements: Vec<i64>,
}

impl OutputSink for SpreadSink {
    fn sink_type(_dtypes: Seq<DTypeV>) -> Result<DTypeV, Seq<char>> {
        unreachable!()
    }

    fn held(&self) -> Seq<ValueV> {
        unreachable!()
    }

    fn fresh(_rows: nat, _dtype: DTypeV) -> Result<Seq<ValueV>, Seq<char>> {
        unreachable!()
    }

    fn finished(_rows: Seq<ValueV>) -> Result<ArrayV, Seq<char>> {
        unreachable!()
    }

    fn finished_in_order(_rows: Seq<ValueV>) {
        unreachable!()
    }

    fn sink_dtype(dtypes: &Vec<DType>) -> VortexResult<DType> {
        let element = match dtypes.first() {
            Some(element) => element,
            None => {
                return Err(VortexError::of("a spread sink takes its element type from its input"))
            }
        };
        <i64 as InputElement>::validate(element)?;
        Ok(DType::FixedSizeList(Arc::new(element.with_nullability(NON)), 3, NON))
    }

    fn with_capacity(rows: usize, dtype: &DType) -> VortexResult<Self> {
        Ok(SpreadSink { dtype: dtype.clone(), elements: vec![0; rows * 3] })
    }

    fn finish(self) -> VortexResult<Array> {
        let cells = self
            .elements
            .chunks(3)
            .map(|row| Cell::valid(list_of(row)))
            .collect();
        Ok(Array::column(self.dtype, cells))
    }
}

fn list_of(row: &[i64]) -> Value {
    Value::List(row.iter().map(|v| Cell::valid(Value::I64(*v))).collect::<Vec<_>>().into())
}

/// Repeats each value across a list row, refusing negative ones where that is asked for.
struct Spread<R> {
    id: &'static str,
    outcome: fn(i64) -> R,
}

impl<R: SinkResult> SinkRowFn for Spread<R> {
    type Options = EmptyOptions;
    type Args = (i64,);
    type Sink = SpreadSink;
    type Ret = R;

    fn sink_id(&self) -> Seq<char> {
        unreachable!()
    }

    fn written(&self, _options: &EmptyOptions, _row: (i64,)) -> ValueV {
        unreachable!()
    }

    fn immediate(&self, _options: &EmptyOptions, _row: (i64,)) -> Result<(), Seq<char>> {
        unreachable!()
    }

    fn fails(&self, _options: &EmptyOptions, _row: (i64,)) -> bool {
        unreachable!()
    }

    fn failure_text(&self, _options: &EmptyOptions) -> Seq<char> {
        unreachable!()
    }

    fn id(&self) -> String {
        self.id.to_string()
    }

    fn write<'a>(&self, _options: &EmptyOptions, row: (i64,), sink: &mut SpreadSink, index: usize) -> R {
        sink.elements[index * 3..][..3].fill(row.0);
        (self.outcome)(row.0)
    }

    fn failure(&self, _options: &EmptyOptions) -> VortexError {
        VortexError::of("a negative input")
    }
}

fn spread() -> SinkFn<Spread<()>> {
    SinkFn { function: Spread { id: "vortex.test.spread", outcome: |_| () } }
}

fn spread_non_negative() -> SinkFn<Spread<VortexResult<()>>> {
    SinkFn {
        function: Spread {
            id: "vortex.test.spread_non_negative",
            outcome: |x| {
                if x < 0 {
                    return Err(VortexError::new(format!("negative input {x}")));
                }
                Ok(())
            },
        },
    }
}

fn spread_deferred() -> SinkFn<Spread<DeferredError>> {
    SinkFn {
        function: Spread { id: "vortex.test.spread_deferred", outcome: |x| DeferredError::new(x < 0) },
    }
}

fn write_rows<F: RowBatch<Options = EmptyOptions>>(function: &F, input: Array) -> VortexResult<Array> {
    let rows = input.len();
    execute_rows(function, &EmptyOptions, &ExecutionArgs::new(vec![input], rows))
}

fn spread_rows(values: &[Option<i64>]) -> Array {
    let nullability = if values.iter().all(Option::is_some) { NON } else { NULL };
    let element = DType::Primitive(PType::I64, NON);
    Array::column(
        DType::FixedSizeList(Arc::new(element), 3, nullability),
        values
            .iter()
            .map(|v| match v {
                Some(v) => Cell::valid(list_of(&[*v, *v, *v])),
                None => Cell::null(),
            })
            .collect(),
    )
}

#[test]
fn writes_one_row_at_a_time() {
    let result = write_rows(&spread(), i64s(&[7, -2, 0])).unwrap();
    assert_arrays_eq(&result, &spread_rows(&[Some(7), Some(-2), Some(0)]));
}

/// A null row is written and masked away afterwards.
#[test]
fn nulls_are_masked_after_the_sink() {
    let result = write_rows(&spread(), optional_i64s(&[Some(7), None, Some(4)])).unwrap();
    assert!(result.dtype().is_nullable());
    assert_arrays_eq(&result, &spread_rows(&[Some(7), None, Some(4)]));
}

fn planned<F: RowBatch<Options = EmptyOptions>>(function: &F) -> RowPolicy {
    let dtypes = vec![DType::Primitive(PType::I64, NON)];
    function.plan(&EmptyOptions, &dtypes).unwrap().policy
}

/// A sink whose write cannot fail is dense, and one whose write can runs only valid rows.
#[test]
fn null_handling_follows_from_the_sink_return_type() {
    assert_eq!(planned(&spread()), RowPolicy::Dense);
    assert!(!<() as SinkResult>::FALLIBLE);
    assert_eq!(planned(&spread_non_negative()), RowPolicy::ValidOnly { filtered_decode_cost: 0 });
    assert!(<VortexResult<()> as SinkResult>::FALLIBLE);
    assert_eq!(planned(&spread_deferred()), RowPolicy::DenseWithRetry);
}

#[test]
fn a_failing_row_propagates() {
    let error = write_rows(&spread_non_negative(), i64s(&[1, -5, 3])).err().unwrap();
    assert!(error.message().contains("negative input -5"), "{}", error.message());
}

#[test]
fn a_failing_row_is_never_reached_behind_a_null() {
    let input = || hidden_i64s(&[(true, 1), (false, -5), (true, 3)]);
    let expected = spread_rows(&[Some(1), None, Some(3)]);
    assert_arrays_eq(&write_rows(&spread_non_negative(), input()).unwrap(), &expected);
    assert_arrays_eq(&write_rows(&spread_deferred(), input()).unwrap(), &expected);
    let error = write_rows(&spread_deferred(), i64s(&[1, -5])).err().unwrap();
    assert_eq!(error.message(), "a negative input");
}

#[test]
fn the_sink_dtype_validates_its_input() {
    let dtypes = vec![DType::Primitive(PType::F64, NON)];
    assert!(spread().plan(&EmptyOptions, &dtypes).is_err());
}

#[test]
fn the_return_dtype_is_the_sinks() {
    let dtype = DType::Primitive(PType::I64, NON);
    let plan = spread().plan(&EmptyOptions, &vec![dtype.clone()]).unwrap();
    assert_eq!(
        plan.output_dtype.to_text(),
        DType::FixedSizeList(Arc::new(dtype), 3, NON).to_text()
    );
}

/// A sink that declares itself nullable.
struct NullableSink;

impl OutputSink for NullableSink {
    fn sink_type(_dtypes: Seq<DTypeV>) -> Result<DTypeV, Seq<char>> {
        unreachable!()
    }

    fn held(&self) -> Seq<ValueV> {
        unreachable!()
    }

    fn fresh(_rows: nat, _dtype: DTypeV) -> Result<Seq<ValueV>, Seq<char>> {
        unreachable!()
    }

    fn finished(_rows: Seq<ValueV>) -> Result<ArrayV, Seq<char>> {
        unreachable!()
    }

    fn finished_in_order(_rows: Seq<ValueV>) {
        unreachable!()
    }

    fn sink_dtype(_dtypes: &Vec<DType>) -> VortexResult<DType> {
        Ok(DType::Primitive(PType::I64, NULL))
    }

    fn with_capacity(_rows: usize, _dtype: &DType) -> VortexResult<Self> {
        Ok(NullableSink)
    }

    fn finish(self) -> VortexResult<Array> {
        Ok(optional_i64s(&[]))
    }
}

struct NullableSinkFn;

impl SinkRowFn for NullableSinkFn {
    type Options = EmptyOptions;
    type Args = (i64,);
    type Sink = NullableSink;
    type Ret = ();

    fn sink_id(&self) -> Seq<char> {
        unreachable!()
    }

    fn written(&self, _options: &EmptyOptions, _row: (i64,)) -> ValueV {
        unreachable!()
    }

    fn immediate(&self, _options: &EmptyOptions, _row: (i64,)) -> Result<(), Seq<char>> {
        unreachable!()
    }

    fn fails(&self, _options: &EmptyOptions, _row: (i64,)) -> bool {
        unreachable!()
    }

    fn failure_text(&self, _options: &EmptyOptions) -> Seq<char> {
        unreachable!()
    }

    fn id(&self) -> String {
        "vortex.test.nullable_sink".to_string()
    }

    fn write<'a>(&self, _options: &EmptyOptions, _row: (i64,), _sink: &mut NullableSink, _index: usize) {
    }

    fn failure(&self, _options: &EmptyOptions) -> VortexError {
        VortexError::of("unused")
    }
}

#[test]
fn nullable_sink_dtype_is_rejected() {
    let function = SinkFn { function: NullableSinkFn };
    let dtypes = vec![DType::Primitive(PType::I64, NON)];
    let error = function.plan(&EmptyOptions, &dtypes).err().unwrap();
    assert!(error.message().contains("non-nullable dtype"), "{}", error.message());
}

// Branching around nulls agrees with filtering them away.

fn apply_forced<A: ElementTuple, R: ApplyResult, S>(
    function: &Row<A, R, S>,
    inputs: &[Array],
    strategy: NullStrategy,
) -> VortexResult<Array> {
    let rows = inputs[0].len();
    execute_row_fn_with_strategy(function, &EmptyOptions, inputs.to_vec(), rows, strategy)
}

fn assert_strategies_agree<A: ElementTuple, R: ApplyResult, S>(
    function: Row<A, R, S>,
    inputs: Vec<Array>,
    expected: Array,
) {
    let filtered = apply_forced(&function, &inputs, NullStrategy::Filter).unwrap();
    let branched = apply_forced(&function, &inputs, NullStrategy::BranchAndSkip).unwrap();
    let chosen = apply(function, inputs).unwrap();
    assert_arrays_eq(&filtered, &expected);
    assert_arrays_eq(&branched, &filtered);
    assert_arrays_eq(&chosen, &filtered);
}

/// Strings whose null rows hold views that resolve to nothing.
fn hostile_strings() -> Array {
    Array::column(
        DType::Utf8(NULL),
        vec![
            Cell::valid(text_value("a longer string here")),
            Cell { valid: false, value: Value::UnresolvedBytes(64) },
            Cell::valid(text_value("another non-inlined string")),
            Cell { valid: false, value: Value::UnresolvedBytes(64) },
        ],
    )
}

#[test]
fn branch_matches_filter_for_bytes() {
    assert_strategies_agree(
        shout(),
        vec![hostile_strings()],
        optional_strings(&[
            Some("A LONGER STRING HERE"),
            None,
            Some("ANOTHER NON-INLINED STRING"),
            None,
        ]),
    );
}

#[test]
fn branch_never_applies_a_fallible_kernel_behind_nulls() {
    let rhs = hidden_i64s(&[(true, 2), (false, 0), (true, 3), (false, 0)]);
    assert_strategies_agree(
        checked_div(),
        vec![i64s(&[10, 10, 12, 9]), rhs],
        optional_i64s(&[Some(5), None, Some(4), None]),
    );
}

#[test]
fn branch_conjoins_validities() {
    let lhs = optional_i64s(&[Some(10), None, Some(12), Some(9), None]);
    let rhs = hidden_i64s(&[(true, 2), (true, 0), (true, 3), (false, 0), (false, 0)]);
    assert_strategies_agree(
        checked_div(),
        vec![lhs, rhs],
        optional_i64s(&[Some(5), None, Some(4), None, None]),
    );
}

#[test]
fn branch_handles_constant_operands() {
    let lhs = optional_i64s(&[Some(10), None, Some(12)]);
    assert_strategies_agree(
        checked_div(),
        vec![lhs, constant_i64(2, 3)],
        optional_i64s(&[Some(5), None, Some(6)]),
    );
}

#[test]
fn branch_propagates_real_errors() {
    let rhs = hidden_i64s(&[(true, 2), (false, 3), (true, 0)]);
    let inputs = vec![i64s(&[10, 10, 12]), rhs];
    let error = apply_forced(&checked_div(), &inputs, NullStrategy::BranchAndSkip).err().unwrap();
    assert!(error.message().contains("division by zero"), "{}", error.message());
}

// Which decode a batch gets: around its nulls at full length, or the plain one over the survivors.

type Selected<const SHRINKS: bool, const TOLERANT: bool> =
    Traced<i64, false, false, SHRINKS, TOLERANT>;

/// Tells of each row whether its column was decoded around nulls, and how long that column was.
fn decode_of<const SHRINKS: bool, const TOLERANT: bool>(
) -> Row<(Selected<SHRINKS, TOLERANT>,), i64, ()> {
    Row {
        id: "vortex.test.decode_of",
        prepare: |_| (),
        apply: |_, (row,)| row.rows as i64 * 2 + i64::from(row.tolerant),
        reduce: never,
    }
}

/// 32 rows of which the first `valid` are valid.
fn survivors(valid: i64) -> Array {
    let values: Vec<Option<i64>> =
        (0..32).map(|row| if row < valid { Some(row) } else { None }).collect();
    optional_i64s(&values)
}

fn run<const SHRINKS: bool>(valid: i64) -> (bool, usize) {
    let result = apply(decode_of::<SHRINKS, true>(), vec![survivors(valid)]).unwrap();
    match result.cell(0).value {
        Value::I64(code) => (code % 2 == 1, (code / 2) as usize),
        value => panic!("unexpected {value:?}"),
    }
}

#[test]
fn bulk_decode_branches_at_any_density() {
    assert_eq!(run::<false>(31), (true, 32));
    assert_eq!(run::<false>(4), (true, 32));
}

#[test]
fn per_row_decode_filters_when_sparse() {
    assert_eq!(run::<true>(30), (true, 32));
    assert_eq!(run::<true>(24), (true, 32));
    assert_eq!(run::<true>(16), (false, 16));
}

/// An all-true mask runs the plain kernel, and an all-false one runs nothing.
#[test]
fn degenerate_masks_bypass_the_selection() {
    assert_eq!(run::<true>(32), (false, 32));
    let never_runs: Row<(Selected<true, true>,), i64, ()> = Row {
        id: "vortex.test.never_runs",
        prepare: |_| panic!("nothing is decoded"),
        apply: |_, _| panic!("nothing is applied"),
        reduce: never,
    };
    let result = apply(never_runs, vec![survivors(0)]).unwrap();
    assert_arrays_eq(&result, &survivors(0));
}

/// An element that cannot decode around nulls falls back to filtering.
#[test]
fn missing_null_tolerant_decode_falls_back_to_filter() {
    let negate: Row<(Selected<false, false>,), i64, ()> = Row {
        id: "vortex.test.refusing_negate",
        prepare: |_| (),
        apply: |_, (row,)| -row.value,
        reduce: never,
    };
    let input = || optional_i64s(&[Some(3), None, Some(5)]);
    let decode = apply(decode_of::<false, false>(), vec![input()]).unwrap();
    // The plain decode, over the two survivors.
    assert_arrays_eq(&decode, &optional_i64s(&[Some(4), None, Some(4)]));
    let result = apply(negate, vec![input()]).unwrap();
    assert_arrays_eq(&result, &optional_i64s(&[Some(-3), None, Some(-5)]));
}

// Conformance of the elements.

/// An element accepts the column it is given, refuses the other type, and decodes to as many rows,
/// each readable where it is valid, or everywhere if the element says so.
fn assert_element_conforms<T: InputElement>(array: &Array, refused: &DType) {
    assert!(T::validate(array.dtype()).is_ok());
    assert!(T::validate(refused).is_err());
    let read = |column: &T::Column| {
        for row in 0..array.len() {
            if T::DENSE_SAFE || array.is_valid(row) {
                T::get(column, row);
            }
        }
    };
    let tolerant = T::decode_null_tolerant(array).unwrap().expect("decodes around nulls");
    assert_eq!(T::column_rows(&tolerant), array.len());
    for row in 0..array.len() {
        if array.is_valid(row) {
            T::get(&tolerant, row);
        }
    }
    let valid = array.filter(&array.valid_mask());
    let column = if T::DENSE_SAFE { T::decode(array).unwrap() } else { T::decode(&valid).unwrap() };
    if T::DENSE_SAFE {
        assert_eq!(T::column_rows(&column), array.len());
        read(&column);
    } else {
        assert_eq!(T::column_rows(&column), valid.len());
    }
}

#[test]
fn primitive_element_conforms() {
    let array = Array::column(
        DType::Primitive(PType::I32, NULL),
        [(false, i32::MAX), (true, 1), (false, i32::MIN), (true, 2)]
            .map(|(valid, v)| Cell { valid, value: Value::I32(v) })
            .to_vec(),
    );
    assert_element_conforms::<i32>(&array, &DType::Utf8(NON));
}

#[test]
fn bool_element_conforms() {
    let array = Array::column(
        DType::Bool(NULL),
        [(false, true), (true, true), (true, false), (false, true)]
            .map(|(valid, v)| Cell { valid, value: Value::Bool(v) })
            .to_vec(),
    );
    assert_element_conforms::<bool>(&array, &DType::Utf8(NON));
}

fn hostile_views() -> Array {
    Array::column(
        DType::Utf8(NULL),
        vec![
            Cell::valid(text_value("a longer string here")),
            Cell { valid: false, value: Value::UnresolvedBytes(64) },
        ],
    )
}

#[test]
fn bytes_len_element_conforms() {
    assert_element_conforms::<BytesLen>(&hostile_views(), &DType::Bool(NON));
    let column = BytesLen::decode(&hostile_views()).unwrap();
    assert_eq!((BytesLen::get(&column, 0), BytesLen::get(&column, 1)), (20, 64));
}

#[test]
fn bytes_element_conforms() {
    assert_element_conforms::<Bytes>(&hostile_views(), &DType::Bool(NON));
    let column = Bytes::decode_null_tolerant(&hostile_views()).unwrap().unwrap();
    assert_eq!(Bytes::get(&column, 0), b"a longer string here");
}

/// One failing row fails the batch, wherever it stands.
#[test]
fn one_failing_row_is_enough() {
    let mut errors = DeferredError::default();
    assert!(!errors.occurred());
    errors |= DeferredError::new(false);
    assert!(!errors.occurred());
    errors |= DeferredError::new(true);
    assert!(errors.occurred());
    errors |= DeferredError::new(false);
    assert!(errors.occurred());
}

/// A kernel that fails on a valid row fails alike however nulls are handled.
#[test]
fn forced_strategies_fail_alike() {
    let inputs = vec![
        i64s(&[10, 10, 12]),
        hidden_i64s(&[(true, 2), (false, 0), (true, 0)]),
    ];
    let forced = |strategy| {
        apply_forced(&checked_div(), &inputs, strategy).err().unwrap().message().to_string()
    };
    assert_eq!(forced(NullStrategy::Filter), "division by zero");
    assert_eq!(forced(NullStrategy::BranchAndSkip), "division by zero");
}

#[test]
fn only_unfailed_evidence_is_the_default() {
    assert_eq!(DeferredError::new(false), DeferredError::default());
    assert_ne!(DeferredError::new(true), DeferredError::default());
}

/// Branching over nulls needs a mask with both valid and invalid rows.
#[test]
fn branching_needs_a_mixed_mask() {
    let branch = |mask: Vec<bool>| {
        let args = ExecutionArgs::new(vec![i64s(&[10, 9]), i64s(&[2, 3])], 2);
        execute_row_loop_branch(&checked_div(), &EmptyOptions, &args, &Mask::new(mask))
    };
    for mask in [vec![true, true], vec![false, false]] {
        assert_eq!(
            branch(mask).err().unwrap().message(),
            "execute_row_loop_branch requires a mixed mask"
        );
    }
    let column = branch(vec![false, true]).unwrap().unwrap();
    assert_eq!(format!("{:?}", column.cell(1).value), format!("{:?}", Value::I64(3)));
}

/// A constant operand is decoded once, a null one too; a column without rows is decoded as it is.
#[test]
fn every_constant_operand_is_collapsed() {
    let null = |rows| Array::constant(DType::Primitive(PType::I64, NULL), Cell::null(), rows);
    let column = ArgColumn::<i64>::decode(&null(3)).unwrap();
    assert!(matches!(column.view(), ArgView::Constant(values) if values.len() == 1));
    assert_eq!(column.constant(), Some(0));
    let tolerant = ArgColumn::<i64>::decode_null_tolerant(&null(3)).unwrap().unwrap();
    assert!(matches!(tolerant.view(), ArgView::Constant(_)));
    let empty = ArgColumn::<i64>::decode(&null(0)).unwrap();
    assert!(matches!(empty.view(), ArgView::Column(values) if values.is_empty()));
    assert_eq!(empty.constant(), None);
}
