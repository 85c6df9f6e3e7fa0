//! Arithmetic on decimals.

use vortex_rows::array::Array;
use vortex_rows::dtype::{DType, DecimalDType, Nullability, PType};
use vortex_rows::error::VortexResult;
use vortex_rows::native::F64;
use vortex_rows::scalar_fn::fns::binary::Binary;
use vortex_rows::scalar_fn::fns::decimal::{execute_decimal_value, execute_numeric_decimal};
use vortex_rows::scalar_fn::fns::numeric::NumericOperator;
use vortex_rows::scalar_fn::fns::operators::Operator;
use vortex_rows::scalar_fn::fns::simd::CpuFeatures;
use vortex_rows::scalar_fn::fns::zip::{operand_pairs, zip_values};
use vortex_rows::value::{Cell, Value};
use vortex_rows::wide::I256;

const NON: Nullability = Nullability::NonNullable;
const NULL: Nullability = Nullability::Nullable;

fn decimal(precision: u8, scale: i8) -> DecimalDType {
    DecimalDType { precision, scale }
}

fn units(v: i128) -> I256 {
    I256::from_i128(v)
}

fn decimals(values: &[i128], dtype: DecimalDType) -> Array {
    let cells = values.iter().map(|v| Cell::valid(Value::Decimal(units(*v)))).collect();
    Array::column(DType::Decimal(dtype, NON), cells)
}

fn optional_decimals(values: &[Option<i128>], dtype: DecimalDType) -> Array {
    let cells = values
        .iter()
        .map(|v| match v {
            Some(v) => Cell::valid(Value::Decimal(units(*v))),
            None => Cell::null(),
        })
        .collect();
    Array::column(DType::Decimal(dtype, NULL), cells)
}

fn decimal_constant(value: i128, dtype: DecimalDType, rows: usize) -> Array {
    Array::constant(DType::Decimal(dtype, NON), Cell::valid(Value::Decimal(units(value))), rows)
}

fn decimal_binary(lhs: &Array, rhs: &Array, op: Operator) -> VortexResult<Array> {
    let features = CpuFeatures { avx2: false, avx512f: false, avx512bw: false };
    Binary { features }.execute_pair(op, lhs, rhs)
}

fn rows(array: &Array) -> Vec<Option<String>> {
    (0..array.len())
        .map(|row| array.cell(row))
        .map(|cell| if cell.valid { Some(format!("{:?}", cell.value)) } else { None })
        .collect()
}

fn assert_arrays_eq(actual: &Array, expected: &Array) {
    assert_eq!(format!("{:?}", actual.dtype()), format!("{:?}", expected.dtype()));
    assert_eq!(rows(actual), rows(expected));
}

#[test]
fn test_decimal_array_array() {
    let dtype = decimal(10, 2);
    let cases = [
        (Operator::Add, [150, 225], [1050, 1225]),
        (Operator::Sub, [150, 225], [750, 775]),
        (Operator::Mul, [50, 200], [450, 2000]),
        (Operator::Div, [300, 400], [300, 250]),
    ];
    for (op, rhs, expected) in cases {
        let lhs = decimals(&[900, 1000], dtype);
        let result = decimal_binary(&lhs, &decimals(&rhs, dtype), op).unwrap();
        assert_arrays_eq(&result, &decimals(&expected, dtype));
    }
}

#[test]
fn test_decimal_mixed_storage_widths() {
    let dtype = decimal(10, 2);
    let lhs = decimals(&[100, 250], dtype);
    let rhs = decimals(&[200, 250], dtype);
    let result = decimal_binary(&lhs, &rhs, Operator::Add).unwrap();
    assert_arrays_eq(&result, &decimals(&[300, 500], dtype));
}

#[test]
fn test_decimal_nullable_lanes() {
    let dtype = decimal(10, 2);
    let lhs = optional_decimals(&[Some(100), None, Some(300)], dtype);
    let rhs = decimals(&[50, 50, 50], dtype);
    let result = decimal_binary(&lhs, &rhs, Operator::Add).unwrap();
    assert_arrays_eq(&result, &optional_decimals(&[Some(150), None, Some(350)], dtype));
}

#[test]
fn test_decimal_overflow_on_valid_lane_errors() {
    let dtype = decimal(3, 0);
    let result = decimal_binary(&decimals(&[999], dtype), &decimals(&[2], dtype), Operator::Add);
    assert_eq!(result.err().unwrap().message(), "decimal overflow in checked add");
}

#[test]
fn test_decimal_overflow_on_null_lane_ignored() {
    let dtype = decimal(3, 0);
    // The null row holds 999, and 500 more would be too much there.
    let cells = vec![
        Cell { valid: false, value: Value::Decimal(units(999)) },
        Cell::valid(Value::Decimal(units(1))),
    ];
    let lhs = Array::column(DType::Decimal(dtype, NULL), cells);
    let rhs = decimal_constant(500, dtype, 2);
    let result = decimal_binary(&lhs, &rhs, Operator::Add).unwrap();
    assert_arrays_eq(&result, &optional_decimals(&[None, Some(501)], dtype));
}

/// 60 + 60 has three digits.
#[test]
fn test_decimal_precision_stricter_than_width() {
    let dtype = decimal(2, 0);
    let values = decimals(&[60], dtype);
    assert!(decimal_binary(&values, &decimals(&[60], dtype), Operator::Add).is_err());
}

#[test]
fn test_decimal_mul_fixed_point() {
    let dtype = decimal(10, 2);
    for (lhs, rhs, expected) in [(50, 10, 5), (15, 15, 2), (-15, 15, -2)] {
        let result =
            decimal_binary(&decimals(&[lhs], dtype), &decimals(&[rhs], dtype), Operator::Mul);
        assert_arrays_eq(&result.unwrap(), &decimals(&[expected], dtype));
    }
}

#[test]
fn test_decimal_mul_wider_than_operand_storage() {
    let dtype = decimal(10, 2);
    let values = decimals(&[300_000], dtype);
    let result = decimal_binary(&values, &values, Operator::Mul).unwrap();
    assert_arrays_eq(&result, &decimals(&[900_000_000], dtype));
}

#[test]
fn test_decimal_div_fixed_point() {
    let dtype = decimal(10, 2);
    for (lhs, rhs, expected) in [(1000, 10, 10000), (1000, 300, 333), (-1000, 300, -333)] {
        let result =
            decimal_binary(&decimals(&[lhs], dtype), &decimals(&[rhs], dtype), Operator::Div);
        assert_arrays_eq(&result.unwrap(), &decimals(&[expected], dtype));
    }
}

#[test]
fn test_decimal_divide_by_zero_errors() {
    let dtype = decimal(10, 2);
    let result =
        decimal_binary(&decimals(&[100], dtype), &decimal_constant(0, dtype, 1), Operator::Div);
    assert_eq!(
        result.err().unwrap().message(),
        "decimal division by zero or overflow in checked div"
    );
}

#[test]
fn test_decimal_divide_by_zero_on_null_lane_ignored() {
    let dtype = decimal(10, 2);
    let lhs = optional_decimals(&[None, Some(1000)], dtype);
    let rhs = decimals(&[0, 500], dtype);
    let result = decimal_binary(&lhs, &rhs, Operator::Div).unwrap();
    assert_arrays_eq(&result, &optional_decimals(&[None, Some(200)], dtype));
}

#[test]
fn test_decimal_constant_lhs_non_commutative() {
    let dtype = decimal(10, 2);
    let lhs = decimal_constant(1000, dtype, 2);
    let rhs = decimals(&[250, 400], dtype);
    let result = decimal_binary(&lhs, &rhs, Operator::Sub).unwrap();
    assert_arrays_eq(&result, &decimals(&[750, 600], dtype));
}

#[test]
fn test_decimal_nullable_constant_preserves_nullable_output() {
    let dtype = decimal(10, 2);
    let values = decimals(&[100, 200], dtype);
    let constant =
        Array::constant(DType::Decimal(dtype, NULL), Cell::valid(Value::Decimal(units(50))), 2);
    let result = decimal_binary(&values, &constant, Operator::Add).unwrap();
    assert_arrays_eq(&result, &optional_decimals(&[Some(150), Some(250)], dtype));
}

#[test]
fn test_decimal_null_constant_yields_all_null() {
    let dtype = decimal(10, 2);
    let values = decimals(&[100, 200], dtype);
    let null_constant = Array::constant(DType::Decimal(dtype, NULL), Cell::null(), 2);
    let result = decimal_binary(&values, &null_constant, Operator::Add).unwrap();
    assert_arrays_eq(&result, &optional_decimals(&[None, None], dtype));
}

#[test]
fn test_decimal_constant_wider_than_array_storage() {
    let dtype = decimal(20, 0);
    let values = decimals(&[1, 2], dtype);
    let constant = decimal_constant(10_000_000_000, dtype, 2);
    let result = decimal_binary(&values, &constant, Operator::Add).unwrap();
    assert_arrays_eq(&result, &decimals(&[10_000_000_001, 10_000_000_002], dtype));
}

/// The product of two large decimals takes more than 128 bits before it is brought back to scale.
#[test]
fn test_decimal_mul_i256_working_width() {
    let dtype = decimal(38, 2);
    let big = 10_i128.pow(19);
    let values = decimals(&[big], dtype);
    let result = decimal_binary(&values, &values, Operator::Mul).unwrap();
    assert_arrays_eq(&result, &decimals(&[10_i128.pow(36)], dtype));
    let unit = 10_i128.pow(35);
    let value = |op, a, b| execute_decimal_value(op, units(a), units(b), decimal(38, 35));
    assert_eq!(value(NumericOperator::Mul, 3 * unit, -7 * unit), Some(units(-21 * unit)));
    assert_eq!(value(NumericOperator::Div, 10_i128.pow(37), -3), None);
    assert_eq!(
        value(NumericOperator::Div, -10 * unit, 3 * unit),
        Some(units(-333_333_333_333_333_333_333_333_333_333_333_333))
    );
}

/// Near the limit of 76 digits, a raw product that takes more than 256 bits is an error even if the
/// rescaled result would fit.
#[test]
fn test_decimal_mul_i256_intermediate_overflow_errors() {
    let dtype = decimal(76, 76);
    // 10^75.
    let big = I256 { high: 2938735877055718769921841343055614194, low: 186020083056226966110308775517052993536 };
    let values = Array::constant(DType::Decimal(dtype, NON), Cell::valid(Value::Decimal(big)), 1);
    assert!(decimal_binary(&values, &values, Operator::Mul).is_err());
    // The same digits in other scales are in reach: 10^37 * 10^38, and back.
    let (a, b) = (units(10_i128.pow(37)), units(10_i128.pow(38)));
    let whole = decimal(76, 0);
    assert_eq!(execute_decimal_value(NumericOperator::Mul, a, b, whole), Some(big));
    assert_eq!(execute_decimal_value(NumericOperator::Div, big, a, whole), Some(b));
}

#[test]
fn test_decimal_negative_scale() {
    let dtype = decimal(10, -2);
    let cases = [
        (Operator::Mul, 5, 3, 1500),
        (Operator::Div, 600, 3, 2),
        (Operator::Div, 5000, 3, 16),
    ];
    for (op, lhs, rhs, expected) in cases {
        let result = decimal_binary(&decimals(&[lhs], dtype), &decimals(&[rhs], dtype), op);
        assert_arrays_eq(&result.unwrap(), &decimals(&[expected], dtype));
    }
}

#[test]
fn test_decimal_empty() {
    let dtype = decimal(10, 2);
    let empty = decimals(&[], dtype);
    let result = decimal_binary(&empty, &empty, Operator::Add).unwrap();
    assert_arrays_eq(&result, &decimals(&[], dtype));
}

#[test]
fn test_decimal_constant_constant_folds() {
    let dtype = decimal(10, 2);
    let lhs = decimal_constant(150, dtype, 3);
    let rhs = decimal_constant(50, dtype, 3);
    let result = decimal_binary(&lhs, &rhs, Operator::Mul).unwrap();
    assert!(result.as_constant().is_some());
    assert_arrays_eq(&result, &decimals(&[75, 75, 75], dtype));
}

/// What does not fit is refused: too many digits, more than 256 bits, or a dividend that takes more
/// than 256 bits at the scale of the result.
#[test]
fn decimals_that_do_not_fit_are_refused() {
    let (add, sub) = (NumericOperator::Add, NumericOperator::Sub);
    let (mul, div) = (NumericOperator::Mul, NumericOperator::Div);
    let value = |op, a, b, dtype| execute_decimal_value(op, units(a), units(b), dtype);
    assert_eq!(value(add, 99, 900, decimal(3, 0)), Some(units(999)));
    assert_eq!(value(add, 100, 900, decimal(3, 0)), None);
    assert_eq!(value(sub, -99, 900, decimal(3, 0)), Some(units(-999)));
    assert_eq!(value(sub, -100, 900, decimal(3, 0)), None);
    assert_eq!(value(sub, -1, i128::MAX, decimal(39, 0)), Some(units(i128::MIN)));
    assert_eq!(value(sub, -2, i128::MAX, decimal(39, 0)), Some(I256 { high: -1, low: 170141183460469231731687303715884105727 }));
    assert_eq!(value(add, i128::MAX, 1, decimal(76, 0)), Some(I256 { high: 0, low: 170141183460469231731687303715884105728 }));
    assert_eq!(value(add, i128::MAX, i128::MIN, decimal(76, 0)), Some(units(-1)));
    assert_eq!(value(mul, i128::MIN, 1, decimal(76, 0)), Some(units(i128::MIN)));
    assert_eq!(value(mul, i128::MIN, -1, decimal(76, 0)), Some(I256 { high: 0, low: 170141183460469231731687303715884105728 }));
    assert_eq!(
        value(mul, i128::MIN, i128::MIN, decimal(76, 38)),
        Some(I256 { high: 0, low: 289480223093290488558927462521719769633 })
    );
    assert_eq!(value(mul, i128::MAX, i128::MAX, decimal(76, 76)), Some(units(2)));
    assert_eq!(value(mul, 7, 8, decimal(76, 100)), Some(units(0)));
    assert_eq!(value(div, 1, 3, decimal(76, 38)), Some(units((10_i128.pow(38) - 1) / 3)));
    assert_eq!(
        value(div, 5, i128::MAX, decimal(76, 76)),
        Some(I256 { high: 0, low: 293873587705571876992184134305561419456 })
    );
    assert_eq!(value(div, 6, i128::MAX, decimal(76, 76)), None);
    assert_eq!(value(div, 1, 1, decimal(76, 77)), None);
    assert_eq!(value(mul, 1, -1, decimal(76, -39)), Some(I256 { high: -3, low: 20847100762815390390123822295304634368 }));
    assert_eq!(value(mul, 1, 1, decimal(76, -76)), None);
    assert_eq!(value(mul, 0, 1, decimal(76, -100)), Some(units(0)));
    assert_eq!(value(div, i128::MAX, 1, decimal(76, -37)), Some(units(17)));
    assert_eq!(value(div, i128::MAX, 1, decimal(76, -77)), None);
    let largest = I256 { high: i128::MAX, low: u128::MAX };
    let least = I256 { high: i128::MIN, low: 0 };
    assert_eq!(execute_decimal_value(sub, largest, units(1), decimal(76, 0)), None);
    assert_eq!(
        execute_decimal_value(sub, largest, units(1), decimal(77, 0)),
        Some(I256 { high: i128::MAX, low: u128::MAX - 1 })
    );
    assert_eq!(execute_decimal_value(add, largest, units(1), decimal(77, 0)), None);
    assert_eq!(execute_decimal_value(add, largest, least, decimal(77, 0)), Some(units(-1)));
    assert_eq!(execute_decimal_value(add, least, least, decimal(77, 0)), None);
    assert!(least.less_than(largest) && !largest.less_than(least));
}

/// Columns that are not decimals of one precision and scale have no decimal arithmetic.
#[test]
fn other_columns_have_no_decimal_arithmetic() {
    let values = decimals(&[1], decimal(10, 2));
    let other = decimals(&[1], decimal(10, 3));
    let number = Array::constant(DType::Primitive(PType::I32, NON), Cell::valid(Value::I32(1)), 1);
    let message = |lhs: &Array, rhs: &Array| {
        execute_numeric_decimal(lhs, rhs, NumericOperator::Add).err().unwrap().message().to_string()
    };
    assert_eq!(message(&number, &values), "expected a decimal column, got i32");
    assert_eq!(
        message(&values, &other),
        "expected a matching decimal column, got decimal(10,3)"
    );
}

/// Only rows that are valid on both sides have operands, and only they get a value.
#[test]
fn values_are_zipped_where_both_sides_are_valid() {
    let real = |v: f64| Value::F64(F64 { bits: v.to_bits() });
    let dtype = |n| DType::Primitive(PType::F64, n);
    let lhs = Array::column(
        dtype(NULL),
        vec![Cell::valid(real(1.5)), Cell::null(), Cell::valid(real(4.0))],
    );
    let rhs = Array::column(
        dtype(NULL),
        vec![Cell::valid(real(2.0)), Cell::valid(real(3.0)), Cell::null()],
    );
    let pairs = operand_pairs(&lhs, &rhs);
    assert_eq!(pairs.iter().map(|p| p.is_some()).collect::<Vec<_>>(), [true, false, false]);
    let product = |pair: &(Value, Value)| match pair {
        (Value::F64(a), Value::F64(b)) => real(f64::from_bits(a.bits) * f64::from_bits(b.bits)),
        _ => Value::Null,
    };
    let values = pairs.iter().map(|p| p.as_ref().map_or(Value::Null, product)).collect();
    let result = zip_values(dtype(NULL), &lhs, &rhs, values);
    assert_arrays_eq(
        &result,
        &Array::column(dtype(NULL), vec![Cell::valid(real(3.0)), Cell::null(), Cell::null()]),
    );
    let constant = Array::constant(dtype(NON), Cell::valid(real(2.0)), 2);
    let folded = zip_values(dtype(NON), &constant, &constant, vec![real(4.0), real(4.0)]);
    assert!(folded.as_constant().is_some());
    assert_eq!(folded.len(), 2);
}
