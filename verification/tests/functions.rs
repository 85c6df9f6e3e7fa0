//! Negation, byte lengths, and functions of lists.

use std::sync::Arc;

use vstd::seq::Seq;

use vortex_rows::array::{Array, ArrayV};
use vortex_rows::dtype::{DType, DecimalDType, Field, Nullability, PType};
use vortex_rows::error::VortexResult;
use vortex_rows::expr::tree::{
    binary, byte_length, get_item, list_max, list_min, list_transform, lit, not, root, Expression,
};
use vortex_rows::mask::Mask;
use vortex_rows::native::{F16, F32, F64};
use vortex_rows::scalar_fn::fns::byte_length::{ByteLength, ByteLengthExecuteAdaptor, ByteLengthKernel};
use vortex_rows::scalar_fn::fns::list_min_max::{ListMax, ListMin, NumericalAggregateOpts};
use vortex_rows::scalar_fn::fns::list_transform::{ListTransform, ListTransformOptions};
use vortex_rows::scalar_fn::fns::not::Not;
use vortex_rows::scalar_fn::fns::operators::Operator;
use vortex_rows::scalar_fn::fns::simd::CpuFeatures;
use vortex_rows::scalar_fn::options::EmptyOptions;
use vortex_rows::scalar_fn::vtable::{ExecutionArgs, ScalarFnVTable};
use vortex_rows::value::{Cell, Value};
use vortex_rows::wide::I256;

const NON: Nullability = Nullability::NonNullable;
const NULL: Nullability = Nullability::Nullable;

fn features() -> CpuFeatures {
    CpuFeatures { avx2: true, avx512f: true, avx512bw: true }
}

fn cell(value: Option<Value>) -> Cell {
    match value {
        Some(value) => Cell::valid(value),
        None => Cell::null(),
    }
}

fn column(dtype: DType, values: Vec<Option<Value>>) -> Array {
    Array::column(dtype, values.into_iter().map(cell).collect())
}

fn show(cell: &Cell) -> String {
    if !cell.valid {
        return "null".to_string();
    }
    match &cell.value {
        Value::List(cells) | Value::Struct(cells) => {
            format!("[{}]", cells.iter().map(show).collect::<Vec<_>>().join(", "))
        }
        value => format!("{value:?}"),
    }
}

fn rows(array: &Array) -> Vec<String> {
    (0..array.len()).map(|row| show(&array.cell(row))).collect()
}

fn assert_arrays_eq(actual: &Array, expected: &Array) {
    assert_eq!(format!("{:?}", actual.dtype()), format!("{:?}", expected.dtype()));
    assert_eq!(rows(actual), rows(expected));
}

fn apply(input: &Array, expr: &Expression) -> VortexResult<Array> {
    expr.apply(input, features())
}

fn bools(nullability: Nullability, values: &[Option<bool>]) -> Array {
    column(DType::Bool(nullability), values.iter().map(|v| v.map(Value::Bool)).collect())
}

// Negation.

#[test]
fn is_strict() {
    assert!(ScalarFnVTable::is_strict(&Not, &EmptyOptions));
    assert!(!ScalarFnVTable::is_fallible(&Not, &EmptyOptions));
    assert_eq!(Not.child_name(0), "input");
}

#[test]
fn preserves_nulls() {
    let input = bools(NULL, &[Some(false), None, Some(true)]);
    let result = apply(&input, &not(root())).unwrap();
    assert_arrays_eq(&result, &bools(NULL, &[Some(true), None, Some(false)]));
}

#[test]
fn invert_booleans() {
    let input = bools(NON, &[false, true, false, false, true, true].map(Some));
    let result = apply(&input, &not(root())).unwrap();
    assert_arrays_eq(&result, &bools(NON, &[true, false, true, true, false, false].map(Some)));
}

#[test]
fn test_display_order_of_operations() {
    let a = not(get_item("a", root()));
    let b = get_item("a", not(root()));
    assert_ne!(a.to_sql(), b.to_sql());
    assert_eq!(a.to_sql(), "vortex.not($.a)");
    assert_eq!(b.to_sql(), "vortex.not($).a");
}

#[test]
fn only_booleans_are_inverted() {
    let input = ints(&[Some(1)]);
    assert_eq!(
        apply(&input, &not(root())).err().unwrap().message(),
        "Not expression expects a boolean child, got: i32?"
    );
}

// Byte lengths.

fn strings(nullability: Nullability, values: &[Option<&str>]) -> Array {
    column(
        DType::Utf8(nullability),
        values
            .iter()
            .map(|v| v.map(|s| Value::Bytes(Arc::new(s.as_bytes().to_vec()))))
            .collect(),
    )
}

fn binaries(values: &[&[u8]]) -> Array {
    column(
        DType::Binary(NON),
        values.iter().map(|v| Some(Value::Bytes(Arc::new(v.to_vec())))).collect(),
    )
}

fn lengths(nullability: Nullability, values: &[Option<u64>]) -> Array {
    column(
        DType::Primitive(PType::U64, nullability),
        values.iter().map(|v| v.map(Value::U64)).collect(),
    )
}

#[test]
fn test_bytes_byte_length() {
    let expr = byte_length(root());
    let result = apply(&strings(NON, &[Some("hello"), Some("world"), Some("")]), &expr).unwrap();
    assert_arrays_eq(&result, &lengths(NON, &[Some(5), Some(5), Some(0)]));
    let result = apply(&binaries(&[b"ab", b"cde"]), &expr).unwrap();
    assert_arrays_eq(&result, &lengths(NON, &[Some(2), Some(3)]));
    let result = apply(&strings(NON, &[Some("Пуховички")]), &expr).unwrap();
    assert_arrays_eq(&result, &lengths(NON, &[Some(18)]));
    let result = apply(&binaries(&["Пуховички".as_bytes()]), &expr).unwrap();
    assert_arrays_eq(&result, &lengths(NON, &[Some(18)]));
}

#[test]
fn test_varbinview_byte_length() {
    let array = strings(NON, &[Some("short"), Some("a longer string here")]);
    let result = apply(&array, &byte_length(root())).unwrap();
    assert_arrays_eq(&result, &lengths(NON, &[Some(5), Some(20)]));
}

#[test]
fn test_nullable_string_byte_length() {
    let array = strings(NULL, &[Some("hello"), None, Some("Пуховички")]);
    let result = apply(&array, &byte_length(root())).unwrap();
    assert!(result.is_valid(0));
    assert!(!result.is_valid(1));
    assert!(result.is_valid(2));
    assert_arrays_eq(&result, &lengths(NULL, &[Some(5), None, Some(18)]));
}

#[test]
fn test_null_scalar_byte_length() {
    let array = Array::all_null(DType::Utf8(NULL), 2);
    let result = apply(&array, &byte_length(root())).unwrap();
    assert!(!result.is_valid(0));
    assert!(!result.is_valid(1));
}

#[test]
fn test_constant_byte_length() {
    let hello = Cell::valid(Value::Bytes(Arc::new(b"hello".to_vec())));
    let array = Array::constant(DType::Utf8(NON), hello, 3);
    let result = apply(&array, &byte_length(root())).unwrap();
    assert!(result.as_constant().is_some());
    assert_arrays_eq(&result, &lengths(NON, &[Some(5), Some(5), Some(5)]));
}

#[test]
fn test_byte_length_ignores_unresolvable_views_behind_nulls() {
    let array = Array::column(
        DType::Utf8(NULL),
        vec![
            Cell::valid(Value::Bytes(Arc::new(b"a longer string here".to_vec()))),
            Cell { valid: false, value: Value::UnresolvedBytes(64) },
        ],
    );
    let result = apply(&array, &byte_length(root())).unwrap();
    assert_arrays_eq(&result, &lengths(NULL, &[Some(20), None]));
}

#[test]
fn byte_length_test_display() {
    assert_eq!(byte_length(root()).to_sql(), "vortex.byte_length($)");
    assert_eq!(ByteLength.child_name(0), "input");
}

/// An encoding that stores the lengths of its rows.
struct Lengths;

impl ByteLengthKernel for Lengths {
    fn known_lengths(_array: ArrayV) -> Result<Option<ArrayV>, Seq<char>> {
        unreachable!()
    }

    fn byte_length(array: &Array) -> VortexResult<Option<Array>> {
        if array.is_empty() {
            return Ok(None);
        }
        Ok(Some(lengths(NON, &vec![Some(7); array.len()])))
    }
}

#[test]
fn encodings_answer_for_their_byte_length() {
    let adaptor = ByteLengthExecuteAdaptor(Lengths);
    let known = adaptor.execute_parent(&strings(NON, &[Some("a")]), 0).unwrap().unwrap();
    assert_arrays_eq(&known, &lengths(NON, &[Some(7)]));
    assert!(adaptor.execute_parent(&strings(NON, &[]), 0).unwrap().is_none());
    assert_eq!(
        adaptor.execute_parent(&strings(NON, &[]), 1).err().unwrap().message(),
        "child_idx == 0"
    );
}

// Extremes of lists.

fn ints(values: &[Option<i32>]) -> Array {
    column(
        DType::Primitive(PType::I32, NULL),
        values.iter().map(|v| v.map(Value::I32)).collect(),
    )
}

fn elements() -> Vec<Cell> {
    [Some(1), Some(2), Some(3), Some(4), Some(5), Some(6), None]
        .into_iter()
        .map(|v| cell(v.map(Value::I32)))
        .collect()
}

/// Lists over some elements, each from an offset up to another.
fn lists(element: DType, elements: &[Cell], ranges: &[(usize, usize)], valid: &[bool]) -> Array {
    let nullability = if valid.iter().all(|v| *v) { NON } else { NULL };
    let cells = ranges
        .iter()
        .zip(valid.iter())
        .map(|((from, to), valid)| Cell {
            valid: *valid,
            value: Value::List(Arc::new(elements[*from..*to].to_vec())),
        })
        .collect();
    Array::column(DType::List(Arc::new(element), nullability), cells)
}

const RANGES: [(usize, usize); 4] = [(0, 2), (2, 5), (5, 5), (5, 7)];
const VIEWS: [(usize, usize); 4] = [(5, 7), (0, 3), (4, 4), (1, 3)];

fn int_lists(ranges: &[(usize, usize)], valid: &[bool]) -> Array {
    lists(DType::Primitive(PType::I32, NULL), &elements(), ranges, valid)
}

fn minimum(list: &Array) -> Array {
    apply(list, &list_min(root(), NumericalAggregateOpts::default())).unwrap()
}

fn maximum(list: &Array) -> Array {
    apply(list, &list_max(root(), NumericalAggregateOpts::default())).unwrap()
}

#[test]
fn list_extrema() {
    let list = int_lists(&RANGES, &[true; 4]);
    assert_arrays_eq(&minimum(&list), &ints(&[Some(1), Some(3), None, Some(6)]));
    assert_arrays_eq(&maximum(&list), &ints(&[Some(2), Some(5), None, Some(6)]));
}

#[test]
fn nullable_lists_and_elements() {
    let list = int_lists(&RANGES, &[true, false, true, false]);
    assert_arrays_eq(&minimum(&list), &ints(&[Some(1), None, None, None]));
    assert_arrays_eq(&maximum(&list), &ints(&[Some(2), None, None, None]));
}

#[test]
fn listview_extrema() {
    let list = int_lists(&VIEWS, &[true; 4]);
    assert_arrays_eq(&minimum(&list), &ints(&[Some(6), Some(1), None, Some(2)]));
    assert_arrays_eq(&maximum(&list), &ints(&[Some(6), Some(3), None, Some(3)]));
}

#[test]
fn listview_extrema_across_validity_words() {
    let elements: Vec<Cell> = (0..160)
        .map(|index: i32| cell(if index % 7 == 0 { None } else { Some(Value::I32(index)) }))
        .collect();
    let list = lists(
        DType::Primitive(PType::I32, NULL),
        &elements,
        &[(63, 133), (1, 131), (65, 129), (126, 134), (0, 0)],
        &[true, false, true, true, true],
    );
    assert_arrays_eq(&minimum(&list), &ints(&[Some(64), None, Some(65), Some(127), None]));
    assert_arrays_eq(&maximum(&list), &ints(&[Some(132), None, Some(128), Some(132), None]));
}

/// Every primitive type, with how it holds a small number.
fn lanes() -> Vec<(PType, fn(usize) -> Value)> {
    vec![
        (PType::U8, |v| Value::U8(v as u8)),
        (PType::U16, |v| Value::U16(v as u16)),
        (PType::U32, |v| Value::U32(v as u32)),
        (PType::U64, |v| Value::U64(v as u64)),
        (PType::I8, |v| Value::I8(v as i8)),
        (PType::I16, |v| Value::I16(v as i16)),
        (PType::I32, |v| Value::I32(v as i32)),
        (PType::I64, |v| Value::I64(v as i64)),
        (PType::F32, |v| Value::F32(F32 { bits: (v as f32).to_bits() })),
        (PType::F64, |v| Value::F64(F64 { bits: (v as f64).to_bits() })),
    ]
}

fn half(value: usize) -> Value {
    Value::F16(F16 { bits: half::f16::from_f32(value as f32).to_bits() })
}

fn assert_lane(
    ptype: PType,
    value: fn(usize) -> Value,
    count: usize,
    modulus: usize,
    least: usize,
    greatest: usize,
) {
    let elements: Vec<Cell> = (0..count)
        .map(|index| cell(if index % 7 == 0 { None } else { Some(value(index % modulus)) }))
        .collect();
    let list = lists(DType::Primitive(ptype, NULL), &elements, &[(0, count)], &[true]);
    let one = |v: usize| column(DType::Primitive(ptype, NULL), vec![Some(value(v))]);
    assert_arrays_eq(&minimum(&list), &one(least));
    assert_arrays_eq(&maximum(&list), &one(greatest));
}

#[test]
fn primitive_lane_widths() {
    for (ptype, value) in lanes() {
        assert_lane(ptype, value, 70, 1000, 1, 69);
    }
}

#[test]
fn primitive_wide_lane_widths() {
    for (ptype, value) in lanes() {
        assert_lane(ptype, value, 520, 100, 0, 99);
    }
}

#[test]
fn f16_lane_width() {
    assert_lane(PType::F16, half, 70, 1000, 1, 69);
}

#[test]
fn f16_wide_lane_width() {
    assert_lane(PType::F16, half, 520, 100, 0, 99);
}

fn pairs(valid: &[bool]) -> Array {
    let cells = (0..4)
        .map(|row| Cell {
            valid: valid[row],
            value: Value::List(Arc::new(vec![
                Cell::valid(Value::I32(2 * row as i32 + 1)),
                Cell::valid(Value::I32(2 * row as i32 + 2)),
            ])),
        })
        .collect();
    let nullability = if valid.iter().all(|v| *v) { NON } else { NULL };
    Array::column(
        DType::FixedSizeList(Arc::new(DType::Primitive(PType::I32, NON)), 2, nullability),
        cells,
    )
}

#[test]
fn fixed_size_list_extrema() {
    let list = pairs(&[true, false, true, true]);
    assert_arrays_eq(&minimum(&list), &ints(&[Some(1), None, Some(5), Some(7)]));
    assert_arrays_eq(&maximum(&list), &ints(&[Some(2), None, Some(6), Some(8)]));
}

#[test]
fn zero_width_fixed_size_lists_are_null() {
    let empty = || Cell::valid(Value::List(Arc::new(Vec::new())));
    let list = Array::column(
        DType::FixedSizeList(Arc::new(DType::Primitive(PType::I32, NON)), 0, NON),
        vec![empty(), empty(), empty()],
    );
    assert_arrays_eq(&minimum(&list), &ints(&[None, None, None]));
    assert_arrays_eq(&maximum(&list), &ints(&[None, None, None]));
}

fn assert_byte_extrema(dtype: fn(Nullability) -> DType) {
    let text = |s: &str| Value::Bytes(Arc::new(s.as_bytes().to_vec()));
    let elements: Vec<Cell> = [Some("pear"), None, Some("apple"), Some("zebra")]
        .into_iter()
        .map(|s| cell(s.map(text)))
        .collect();
    let list = lists(dtype(NULL), &elements, &[(0, 3), (3, 4)], &[true, true]);
    let expected = |a: &str, b: &str| column(dtype(NULL), vec![Some(text(a)), Some(text(b))]);
    assert_arrays_eq(&minimum(&list), &expected("apple", "zebra"));
    assert_arrays_eq(&maximum(&list), &expected("pear", "zebra"));
}

#[test]
fn string_extrema() {
    assert_byte_extrema(DType::Utf8);
}

#[test]
fn binary_extrema() {
    assert_byte_extrema(DType::Binary);
}

#[test]
fn bool_extrema() {
    let elements: Vec<Cell> =
        [true, true, false, true].into_iter().map(|b| Cell::valid(Value::Bool(b))).collect();
    let list = lists(DType::Bool(NON), &elements, &[(0, 3), (3, 4)], &[true, true]);
    assert_arrays_eq(&minimum(&list), &bools(NULL, &[Some(false), Some(true)]));
    assert_arrays_eq(&maximum(&list), &bools(NULL, &[Some(true), Some(true)]));
}

#[test]
fn decimal_extrema() {
    let decimal = |n| DType::Decimal(DecimalDType { precision: 10, scale: 2 }, n);
    let elements: Vec<Cell> =
        [100, 250, 50, 999].into_iter().map(|v| Cell::valid(Value::Decimal(I256::from_i128(v)))).collect();
    let list = lists(decimal(NON), &elements, &[(0, 3), (3, 4)], &[true, true]);
    let expected =
        |a, b| column(decimal(NULL), vec![a, b].into_iter().map(|v| Some(Value::Decimal(I256::from_i128(v)))).collect());
    assert_arrays_eq(&minimum(&list), &expected(50, 999));
    assert_arrays_eq(&maximum(&list), &expected(250, 999));
}

fn float(value: f64) -> Value {
    Value::F64(F64 { bits: value.to_bits() })
}

fn floats(values: &[Option<f64>]) -> Array {
    column(DType::Primitive(PType::F64, NULL), values.iter().map(|v| v.map(float)).collect())
}

fn assert_poisoned(list: &Array) {
    for expr in [
        list_min(root(), NumericalAggregateOpts::include_nans()),
        list_max(root(), NumericalAggregateOpts::include_nans()),
    ] {
        let result = apply(list, &expr).unwrap();
        for row in 0..result.len() {
            let cell = result.cell(row);
            assert!(cell.valid);
            assert!(matches!(cell.value, Value::F64(v) if f64::from_bits(v.bits).is_nan()));
        }
    }
}

#[test]
fn nan_options() {
    let elements: Vec<Cell> = [1.0, f64::NAN, 2.0, f64::NAN, f64::NAN]
        .into_iter()
        .map(|v| Cell::valid(float(v)))
        .collect();
    let list =
        lists(DType::Primitive(PType::F64, NON), &elements, &[(0, 3), (3, 5)], &[true, true]);
    assert_arrays_eq(&minimum(&list), &floats(&[Some(1.0), None]));
    assert_arrays_eq(&maximum(&list), &floats(&[Some(2.0), None]));
    assert_poisoned(&list);
}

#[test]
fn nan_options_lane_path() {
    let elements: Vec<Cell> = (0..520)
        .map(|index| {
            if index == 411 {
                Cell::valid(float(f64::NAN))
            } else {
                cell(if index % 11 == 0 { None } else { Some(float(index as f64)) })
            }
        })
        .collect();
    let list = lists(DType::Primitive(PType::F64, NULL), &elements, &[(0, 520)], &[true]);
    assert_arrays_eq(&minimum(&list), &floats(&[Some(1.0)]));
    assert_arrays_eq(&maximum(&list), &floats(&[Some(519.0)]));
    assert_poisoned(&list);
}

#[test]
fn constant_and_null_list_extrema() {
    let list = int_lists(&RANGES, &[true; 4]);
    let constant = Array::constant(list.dtype().clone(), list.cell(1), 3);
    assert_arrays_eq(&minimum(&constant), &ints(&[Some(3), Some(3), Some(3)]));
    assert_arrays_eq(&maximum(&constant), &ints(&[Some(5), Some(5), Some(5)]));

    let dtype = DType::List(Arc::new(DType::Primitive(PType::I32, NON)), NULL);
    let nulls = Array::all_null(dtype, 2);
    for result in [minimum(&nulls), maximum(&nulls)] {
        assert_eq!(result.valid_mask().true_count(), 0);
    }
}

#[test]
fn sliced_and_taken_extrema() {
    let list = int_lists(&RANGES, &[true; 4]);
    let sliced = list.filter(&Mask::new(vec![false, true, true, true]));
    assert_arrays_eq(&minimum(&sliced), &ints(&[Some(3), None, Some(6)]));
    let taken = list.take(&vec![3, 0, 2]);
    assert_arrays_eq(&maximum(&taken), &ints(&[Some(6), Some(2), None]));
}

#[test]
fn empty_array_extrema() {
    let list = lists(DType::Primitive(PType::I32, NON), &[], &[], &[]);
    assert_eq!(minimum(&list).len(), 0);
    assert_eq!(maximum(&list).len(), 0);
}

#[test]
fn dtype_validation() {
    let opts = NumericalAggregateOpts::default();
    let non_list = DType::Primitive(PType::I32, NON);
    assert!(ListMin.return_dtype(&opts, &vec![non_list.clone()]).is_err());
    assert!(ListMax.return_dtype(&opts, &vec![non_list.clone()]).is_err());

    let nested_list = DType::List(Arc::new(DType::List(Arc::new(non_list), NON)), NON);
    assert!(ListMin.return_dtype(&opts, &vec![nested_list.clone()]).is_err());
    assert!(ListMax.return_dtype(&opts, &vec![nested_list]).is_err());

    let utf8_list = DType::List(Arc::new(DType::Utf8(NON)), NON);
    let nullable = format!("{:?}", DType::Utf8(NULL));
    for dtype in [
        ListMin.return_dtype(&opts, &vec![utf8_list.clone()]),
        ListMax.return_dtype(&opts, &vec![utf8_list.clone()]),
    ] {
        assert_eq!(format!("{:?}", dtype.unwrap()), nullable);
    }
}

#[test]
fn display() {
    let usual = NumericalAggregateOpts::default();
    let including = NumericalAggregateOpts::include_nans();
    assert_eq!(list_min(root(), usual).to_sql(), "vortex.list.min($)");
    assert_eq!(list_max(root(), usual).to_sql(), "vortex.list.max($)");
    assert_eq!(
        list_min(root(), including).to_sql(),
        "vortex.list.min($, opts=skip_nans=false)"
    );
    assert_eq!(
        list_max(root(), including).to_sql(),
        "vortex.list.max($, opts=skip_nans=false)"
    );
}

#[test]
fn extremes_are_scalar_functions() {
    let args = ExecutionArgs::new(vec![int_lists(&RANGES, &[true; 4])], 4);
    let opts = NumericalAggregateOpts::default();
    assert_eq!((ListMin.id().as_str(), ListMax.id().as_str()), ("vortex.list.min", "vortex.list.max"));
    assert_arrays_eq(
        &ListMin.execute(&opts, &args).unwrap(),
        &ints(&[Some(1), Some(3), None, Some(6)]),
    );
    assert_arrays_eq(
        &ListMax.execute(&opts, &args).unwrap(),
        &ints(&[Some(2), Some(5), None, Some(6)]),
    );
}

// Transforms of lists.

fn one(value: i32) -> Expression {
    lit(DType::Primitive(PType::I32, NON), Cell::valid(Value::I32(value)))
}

fn add(lhs: Expression, rhs: Expression) -> Expression {
    binary(Operator::Add, lhs, rhs)
}

fn increment() -> Expression {
    list_transform(root(), add(root(), one(1)))
}

fn incremented() -> Vec<Cell> {
    [Some(2), Some(3), Some(4), Some(5), Some(6), Some(7), None]
        .into_iter()
        .map(|v| cell(v.map(Value::I32)))
        .collect()
}

fn incremented_lists(ranges: &[(usize, usize)], valid: &[bool]) -> Array {
    lists(DType::Primitive(PType::I32, NULL), &incremented(), ranges, valid)
}

#[test]
fn test_list_transform() {
    let result = apply(&int_lists(&RANGES, &[true; 4]), &increment()).unwrap();
    assert_arrays_eq(&result, &incremented_lists(&RANGES, &[true; 4]));
}

#[test]
fn test_nullable_list_transform() {
    let valid = [true, false, true, false];
    let result = apply(&int_lists(&RANGES, &valid), &increment()).unwrap();
    assert_arrays_eq(&result, &incremented_lists(&RANGES, &valid));
}

#[test]
fn test_listview_transform() {
    let result = apply(&int_lists(&VIEWS, &[true; 4]), &increment()).unwrap();
    assert_arrays_eq(&result, &incremented_lists(&VIEWS, &[true; 4]));
}

#[test]
fn test_fixed_size_list_transform() {
    let result = apply(&pairs(&[true; 4]), &increment()).unwrap();
    // The fixed-size structure is preserved.
    assert!(matches!(result.dtype(), DType::FixedSizeList(_, 2, _)));
    let expected: Vec<String> = [(2, 3), (4, 5), (6, 7), (8, 9)]
        .into_iter()
        .map(|(a, b)| format!("[I32({a}), I32({b})]"))
        .collect();
    assert_eq!(rows(&result), expected);
}

#[test]
fn test_constant_list_transform() {
    let list = Value::List(Arc::new((1..4).map(|v| Cell::valid(Value::I32(v))).collect()));
    let dtype = DType::List(Arc::new(DType::Primitive(PType::I32, NON)), NON);
    let constant = Array::constant(dtype, Cell::valid(list), 4);
    let result = apply(&constant, &increment()).unwrap();
    assert_eq!(rows(&result), vec!["[I32(2), I32(3), I32(4)]".to_string(); 4]);
}

#[test]
fn test_null_constant_list_transform() {
    let dtype = DType::List(Arc::new(DType::Primitive(PType::I32, NON)), NULL);
    let constant = Array::all_null(dtype, 2);
    let result = apply(&constant, &increment()).unwrap();
    assert!(!result.is_valid(0));
    assert!(!result.is_valid(1));
}

#[test]
fn test_list_transform_take() {
    let list = int_lists(&RANGES, &[true; 4]);
    let indices = vec![3, 0, 2];
    let result = apply(&list.take(&indices), &increment()).unwrap();
    // Transform-then-take equals take-then-transform.
    let expected = apply(&list, &increment()).unwrap().take(&indices);
    assert_arrays_eq(&result, &expected);
}

#[test]
fn test_nested_list_transform() {
    // [[1, 2], [3]], [], [[4, 5]]
    let i32_type = DType::Primitive(PType::I32, NON);
    let numbers: Vec<Cell> = (1..6).map(|v| Cell::valid(Value::I32(v))).collect();
    let inner = lists(i32_type.clone(), &numbers, &[(0, 2), (2, 3), (3, 5)], &[true; 3]);
    let inner_cells: Vec<Cell> = (0..3).map(|row| inner.cell(row)).collect();
    let outer = lists(inner.dtype().clone(), &inner_cells, &[(0, 2), (2, 2), (2, 3)], &[true; 3]);

    let expr = list_transform(root(), increment());
    let result = apply(&outer, &expr).unwrap();
    assert_eq!(format!("{:?}", result.dtype()), format!("{:?}", outer.dtype()));
    assert_eq!(
        rows(&result),
        vec!["[[I32(2), I32(3)], [I32(4)]]", "[]", "[[I32(5), I32(6)]]"]
    );
}

#[test]
fn test_struct_element_transform() {
    // Transform a list of structs into a list of one of its fields: x -> x.a
    let i32_type = DType::Primitive(PType::I32, NON);
    let field = |name: &str| Field { name: name.to_string(), dtype: i32_type.clone() };
    let element = DType::Struct(Arc::new(vec![field("a"), field("b")]), NON);
    let structs: Vec<Cell> = (1..4)
        .map(|v| {
            Cell::valid(Value::Struct(Arc::new(vec![
                Cell::valid(Value::I32(v)),
                Cell::valid(Value::I32(10 * v)),
            ])))
        })
        .collect();
    let list = lists(element, &structs, &[(0, 1), (1, 3)], &[true, true]);
    let result = apply(&list, &list_transform(root(), get_item("a", root()))).unwrap();
    let numbers: Vec<Cell> = (1..4).map(|v| Cell::valid(Value::I32(v))).collect();
    assert_arrays_eq(&result, &lists(i32_type, &numbers, &[(0, 1), (1, 3)], &[true, true]));
}

fn same(actual: Option<Expression>, expected: Expression) {
    assert_eq!(format!("{actual:?}"), format!("{:?}", Some(expected)));
}

#[test]
fn test_identity_simplification() {
    let input = get_item("tags", root());
    let expr = list_transform(input.clone(), root());
    same(expr.simplify_untyped(), input);
}

#[test]
fn test_fusion_simplification() {
    let input = get_item("tags", root());
    let f = add(root(), one(1));
    let g = add(root(), one(2));
    let expr = list_transform(list_transform(input.clone(), f.clone()), g);
    same(expr.simplify_untyped(), list_transform(input, add(f, one(2))));
}

#[test]
fn test_fusion_preserves_nested_scope() {
    // The outer body contains a nested transform: its input (a child) is in the outer scope and
    // must be substituted, while its own body must be left untouched.
    let f = get_item("a", root());
    let expr = list_transform(
        list_transform(get_item("tags", root()), f.clone()),
        increment(),
    );
    let expected = list_transform(
        get_item("tags", root()),
        list_transform(f, add(root(), one(1))),
    );
    same(expr.simplify_untyped(), expected);
}

#[test]
fn transforms_fuse_without_changing_the_lists() {
    let list = int_lists(&RANGES, &[true; 4]);
    let twice = list_transform(increment(), add(root(), one(2)));
    let fused = twice.simplify_untyped().unwrap();
    assert_arrays_eq(&apply(&list, &fused).unwrap(), &apply(&list, &twice).unwrap());

    // The same holds of a constant list, and of elements that are all one constant.
    let constant = Array::constant(list.dtype().clone(), list.cell(1), 3);
    assert_arrays_eq(&apply(&constant, &fused).unwrap(), &apply(&constant, &twice).unwrap());
    let replaced = list_transform(list_transform(root(), one(5)), add(root(), one(2)));
    let fused = replaced.simplify_untyped().unwrap();
    same(Some(fused.clone()), list_transform(root(), add(one(5), one(2))));
    for input in [&list, &constant] {
        assert_eq!(rows(&apply(input, &fused).unwrap()), rows(&apply(input, &replaced).unwrap()));
    }
}

#[test]
fn rows_are_evaluated_on_their_own() {
    let list = int_lists(&RANGES, &[true; 4]);
    let expr = list_max(increment(), NumericalAggregateOpts::default());
    let whole = rows(&apply(&list, &expr).unwrap());
    for row in 0..list.len() {
        let alone = Array::column(list.dtype().clone(), vec![list.cell(row)]);
        let repeated = Array::constant(list.dtype().clone(), list.cell(row), 2);
        assert_eq!(rows(&apply(&alone, &expr).unwrap()), vec![whole[row].clone()]);
        assert_eq!(rows(&apply(&repeated, &expr).unwrap()), vec![whole[row].clone(); 2]);
        let declared = expr.return_dtype(list.dtype()).unwrap();
        assert!(apply(&alone, &expr).unwrap().dtype().eq_ignore_nullability(&declared));
    }
}

#[test]
fn mod_test_display() {
    let body = add(root(), one(1));
    let expr = list_transform(root(), body.clone());
    assert_eq!(expr.to_sql(), format!("vortex.list.transform($, -> {})", body.to_sql()));
    let options = ListTransformOptions { body: body.clone() };
    assert_eq!(options.to_text(), format!("-> {}", body.to_sql()));
}

#[test]
fn transforms_are_as_fallible_as_their_body() {
    let function = ListTransform { features: features() };
    let failing = ListTransformOptions { body: add(root(), one(1)) };
    let total = ListTransformOptions { body: not(root()) };
    assert!(function.is_fallible(&failing));
    assert!(!function.is_fallible(&total));
    assert!(!function.is_strict(&failing));
    let scope = DType::List(Arc::new(DType::Bool(NON)), NULL);
    let dtype = function.return_dtype(&total, &vec![scope.clone()]).unwrap();
    assert_eq!(format!("{dtype:?}"), format!("{scope:?}"));
    assert!(function.return_dtype(&total, &vec![DType::Bool(NON)]).is_err());
}
