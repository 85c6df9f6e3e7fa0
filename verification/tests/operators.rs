//! Binary operators, and the expressions they stand in.

use std::sync::Arc;

use vortex_rows::array::Array;
use vortex_rows::dtype::{DType, Field, Nullability, PType};
use vortex_rows::error::VortexResult;
use vortex_rows::expr::tree::{binary, col, is_not_null, lit, not, Expression};
use vortex_rows::native::F64;
use vortex_rows::scalar_fn::fns::binary::{operator_dtype, Binary};
use vortex_rows::scalar_fn::fns::boolean::{combine, fold_boolean_constants, BooleanFold};
use vortex_rows::scalar_fn::fns::numeric::CheckedArithmetic;
use vortex_rows::scalar_fn::fns::operators::Operator;
use vortex_rows::scalar_fn::fns::simd::CpuFeatures;
use vortex_rows::scalar_fn::vtable::{ExecutionArgs, ReduceNode, ScalarFnVTable};
use vortex_rows::value::{Cell, Value};

const NON: Nullability = Nullability::NonNullable;
const NULL: Nullability = Nullability::Nullable;

fn features() -> CpuFeatures {
    CpuFeatures { avx2: true, avx512f: false, avx512bw: false }
}

/// A column of values, nullable where one is missing.
fn column(dtype: DType, values: Vec<Option<Value>>) -> Array {
    let cells = values
        .into_iter()
        .map(|value| match value {
            Some(value) => Cell::valid(value),
            None => Cell::null(),
        })
        .collect();
    Array::column(dtype, cells)
}

fn bools(nullability: Nullability, values: &[Option<bool>]) -> Array {
    column(DType::Bool(nullability), values.iter().map(|v| v.map(Value::Bool)).collect())
}

/// What a column holds, row by row.
fn rows(array: &Array) -> Vec<String> {
    (0..array.len())
        .map(|row| {
            let cell = array.cell(row);
            if cell.valid {
                format!("{:?}", cell.value)
            } else {
                "null".to_string()
            }
        })
        .collect()
}

fn assert_arrays_eq(actual: &Array, expected: &Array) {
    assert_eq!(format!("{:?}", actual.dtype()), format!("{:?}", expected.dtype()));
    assert_eq!(rows(actual), rows(expected));
}

fn run(lhs: Array, rhs: Array, op: Operator) -> VortexResult<Array> {
    Binary { features: features() }.execute_pair(op, &lhs, &rhs)
}

fn same(a: &Expression, b: &Expression) {
    assert_eq!(format!("{a:?}"), format!("{b:?}"));
}

fn struct_dtype() -> DType {
    let field = |name: &str, dtype: DType| Field { name: name.to_string(), dtype };
    DType::Struct(
        Arc::new(vec![
            field("a", DType::Primitive(PType::I32, NON)),
            field("col1", DType::Primitive(PType::U16, NULL)),
            field("col2", DType::Primitive(PType::U16, NULL)),
            field("bool1", DType::Bool(NON)),
            field("bool2", DType::Bool(NON)),
        ]),
        NON,
    )
}

fn struct_array(names: &[&str], columns: Vec<Array>) -> Array {
    let len = columns[0].len();
    let fields = names
        .iter()
        .zip(columns.iter())
        .map(|(name, column)| Field { name: name.to_string(), dtype: column.dtype().clone() })
        .collect();
    let cells = (0..len)
        .map(|row| {
            Cell::valid(Value::Struct(Arc::new(columns.iter().map(|c| c.cell(row)).collect())))
        })
        .collect();
    Array::column(DType::Struct(Arc::new(fields), NON), cells)
}

fn i32_lit(value: i32) -> Expression {
    lit(DType::Primitive(PType::I32, NON), Cell::valid(Value::I32(value)))
}

fn bool_lit(nullability: Nullability, value: Option<bool>) -> Expression {
    let cell = match value {
        Some(value) => Cell::valid(Value::Bool(value)),
        None => Cell::null(),
    };
    lit(DType::Bool(nullability), cell)
}

#[test]
fn mod_dtype() {
    let dtype = struct_dtype();
    let returned = |e: &Expression| format!("{:?}", e.return_dtype(&dtype).unwrap());
    let non_nullable = format!("{:?}", DType::Bool(NON));
    let nullable = format!("{:?}", DType::Bool(NULL));
    assert_eq!(returned(&binary(Operator::And, col("bool1"), col("bool2"))), non_nullable);
    assert_eq!(returned(&binary(Operator::Or, col("bool1"), col("bool2"))), non_nullable);
    for op in [
        Operator::Eq,
        Operator::NotEq,
        Operator::Gt,
        Operator::Gte,
        Operator::Lt,
        Operator::Lte,
    ] {
        assert_eq!(returned(&binary(op, col("col1"), col("col2"))), nullable);
    }
    assert_eq!(
        returned(&binary(
            Operator::Or,
            binary(Operator::Lt, col("col1"), col("col2")),
            binary(Operator::NotEq, col("col1"), col("col2")),
        )),
        nullable
    );
    // Negation keeps the type of its operand.
    assert_eq!(returned(&not(col("bool1"))), non_nullable);
    let plain = DType::Bool(NON);
    assert_eq!(
        format!("{:?}", not(vortex_rows::expr::tree::root()).return_dtype(&plain).unwrap()),
        non_nullable
    );
}

#[test]
fn comparison_with_typed_null_simplifies_after_type_check() {
    let dtype = struct_dtype();
    let expr = binary(
        Operator::Eq,
        col("col1"),
        lit(DType::Primitive(PType::U16, NULL), Cell::null()),
    );
    same(&expr.optimize_recursive(&dtype).unwrap(), &lit(DType::Bool(NULL), Cell::null()));
}

#[test]
fn comparison_with_incompatible_null_still_type_checks() {
    let dtype = struct_dtype();
    let expr = binary(Operator::Eq, col("col1"), lit(DType::Utf8(NULL), Cell::null()));
    assert!(expr.optimize_recursive(&dtype).is_err());
}

#[test]
fn test_display_print() {
    let expr = binary(Operator::Gt, i32_lit(1), i32_lit(2));
    assert_eq!(expr.to_sql(), "(1i32 > 2i32)");
}

#[test]
fn test_struct_comparison() {
    let ints = |v: i32| column(DType::Primitive(PType::I32, NON), vec![Some(Value::I32(v))]);
    let lhs_struct = struct_array(&["a", "b"], vec![ints(1), ints(3)]);
    let rhs_struct_equal = struct_array(&["a", "b"], vec![ints(1), ints(3)]);
    let rhs_struct_different = struct_array(&["a", "b"], vec![ints(1), ints(4)]);

    let result_equal = run(lhs_struct.clone(), rhs_struct_equal, Operator::Eq).unwrap();
    assert_arrays_eq(&result_equal, &bools(NON, &[Some(true)]));
    let result_different = run(lhs_struct, rhs_struct_different, Operator::Eq).unwrap();
    assert_arrays_eq(&result_different, &bools(NON, &[Some(false)]));
}

fn bool_array() -> Array {
    struct_array(&["a"], vec![bools(NON, &[Some(true), Some(false), Some(true)])])
}

/// What an expression comes to once it is reduced to a fixed point.
fn reduced(expr: Expression, scope: &Array) -> Expression {
    expr.optimize_recursive(scope.dtype()).unwrap()
}

#[test]
fn boolean_reduce_drops_annihilated_operand() {
    let array = bool_array();

    // `false AND x` is `false` for every `x`, so `x` must not survive.
    let expr = reduced(binary(Operator::And, bool_lit(NON, Some(false)), col("a")), &array);
    assert!(matches!(expr, Expression::Literal(..)), "operand should have been dropped");
    let result = expr.apply(&array, features()).unwrap();
    assert_arrays_eq(&result, &bools(NON, &[Some(false), Some(false), Some(false)]));

    // `true OR x` is `true` for every `x`, from either side.
    let expr = reduced(binary(Operator::Or, col("a"), bool_lit(NON, Some(true))), &array);
    assert!(matches!(expr, Expression::Literal(..)), "operand should have been dropped");
    let result = expr.apply(&array, features()).unwrap();
    assert_arrays_eq(&result, &bools(NON, &[Some(true), Some(true), Some(true)]));

    // The identity element collapses to the other operand.
    let expr = reduced(binary(Operator::And, bool_lit(NON, Some(true)), col("a")), &array);
    same(&expr, &col("a"));
    let result = expr.apply(&array, features()).unwrap();
    assert_arrays_eq(&result, &bools(NON, &[Some(true), Some(false), Some(true)]));
}

#[test]
fn boolean_reduce_collapses_transitively() {
    let array = bool_array();
    let guarded = binary(
        Operator::And,
        binary(Operator::And, col("a"), bool_lit(NON, Some(false))),
        binary(
            Operator::Or,
            col("a"),
            binary(Operator::NotEq, col("a"), col("a")),
        ),
    );
    let expr = reduced(guarded, &array);
    assert!(matches!(expr, Expression::Literal(..)), "whole tree should have collapsed");
    let result = expr.apply(&array, features()).unwrap();
    assert_arrays_eq(&result, &bools(NON, &[Some(false), Some(false), Some(false)]));
}

#[test]
fn boolean_reduce_preserves_nullable_result_dtype() {
    let array = bool_array();
    // A nullable `true` widens the result to nullable.
    let expr = binary(Operator::And, bool_lit(NULL, Some(true)), col("a"));
    let kept = expr.reduce(array.dtype()).unwrap();
    assert!(kept.is_none(), "collapsing would narrow the type");
    let result = expr.apply(&array, features()).unwrap();
    assert_arrays_eq(&result, &bools(NULL, &[Some(true), Some(false), Some(true)]));
}

#[test]
fn boolean_reduce_folds_two_null_operands() {
    let array = bool_array();
    let expr = binary(Operator::And, bool_lit(NULL, None), bool_lit(NULL, None));
    let folded = expr.reduce(array.dtype()).unwrap().unwrap();
    assert!(matches!(folded, Expression::Literal(..)), "operands should have been dropped");
    let result = folded.apply(&array, features()).unwrap();
    assert_arrays_eq(&result, &bools(NULL, &[None, None, None]));
}

#[test]
fn boolean_reduce_keeps_value_dependent_null() {
    // `null AND x` is `false` where `x` is false and `null` elsewhere, so it cannot fold.
    let array = bool_array();
    let expr = binary(Operator::And, bool_lit(NULL, None), col("a"));
    assert!(expr.reduce(array.dtype()).unwrap().is_none());
    same(&reduced(expr.clone(), &array), &expr);
    let result = expr.apply(&array, features()).unwrap();
    assert_arrays_eq(&result, &bools(NULL, &[None, Some(false), None]));
}

#[test]
fn test_or_kleene_validity() {
    let struct_arr =
        struct_array(&["a", "b"], vec![bools(NULL, &[Some(true)]), bools(NULL, &[None])]);
    let expr = binary(Operator::Or, col("a"), col("b"));
    let result = expr.apply(&struct_arr, features()).unwrap();
    assert_arrays_eq(&result, &bools(NULL, &[Some(true)]));
}

#[test]
fn truth_is_combined_in_three_values() {
    assert_eq!(combine(Operator::And, Some(false), None), Some(false));
    assert_eq!(combine(Operator::And, Some(true), None), None);
    assert_eq!(combine(Operator::Or, None, Some(true)), Some(true));
    assert_eq!(combine(Operator::Or, None, Some(false)), None);
    assert_eq!(
        fold_boolean_constants(Operator::Or, Some(Some(false)), None),
        Some(BooleanFold::Child(1))
    );
    assert_eq!(
        fold_boolean_constants(Operator::And, None, Some(Some(false))),
        Some(BooleanFold::Constant(Some(false)))
    );
    assert_eq!(fold_boolean_constants(Operator::And, None, None), None);
}

fn u16s(nullability: Nullability, values: &[Option<u16>]) -> Array {
    column(
        DType::Primitive(PType::U16, nullability),
        values.iter().map(|v| v.map(Value::U16)).collect(),
    )
}

fn constant(dtype: DType, value: Value, len: usize) -> Array {
    Array::constant(dtype, Cell::valid(value), len)
}

fn subtract_unsigned() {
    let values = u16s(NON, &[Some(1), Some(2), Some(3)]);
    let rhs = constant(DType::Primitive(PType::U16, NON), Value::U16(1), 3);
    let result = run(values, rhs, Operator::Sub).unwrap();
    assert_arrays_eq(&result, &u16s(NON, &[Some(0), Some(1), Some(2)]));
}

fn i64s(values: &[i64]) -> Array {
    column(
        DType::Primitive(PType::I64, NON),
        values.iter().map(|v| Some(Value::I64(*v))).collect(),
    )
}

fn subtract_signed() {
    let rhs = constant(DType::Primitive(PType::I64, NON), Value::I64(-1), 3);
    let result = run(i64s(&[1, 2, 3]), rhs, Operator::Sub).unwrap();
    assert_arrays_eq(&result, &i64s(&[2, 3, 4]));
}

fn subtract_nullable() {
    let values = u16s(NULL, &[Some(1), Some(2), None, Some(3)]);
    let rhs = constant(DType::Primitive(PType::U16, NULL), Value::U16(1), 4);
    let result = run(values, rhs, Operator::Sub).unwrap();
    assert_arrays_eq(&result, &u16s(NULL, &[Some(0), Some(1), None, Some(2)]));
}

#[test]
fn mod_test_scalar_subtract_unsigned() {
    subtract_unsigned();
}

#[test]
fn tests_test_scalar_subtract_unsigned() {
    subtract_unsigned();
}

#[test]
fn mod_test_scalar_subtract_signed() {
    subtract_signed();
}

#[test]
fn tests_test_scalar_subtract_signed() {
    subtract_signed();
}

#[test]
fn mod_test_scalar_subtract_nullable() {
    subtract_nullable();
}

#[test]
fn tests_test_scalar_subtract_nullable() {
    subtract_nullable();
}

fn u8s(cells: Vec<Cell>, nullability: Nullability) -> Array {
    Array::column(DType::Primitive(PType::U8, nullability), cells)
}

fn behind_null(value: Value) -> Cell {
    Cell { valid: false, value }
}

#[test]
fn test_integer_overflow_errors() {
    let values = u8s(vec![Cell::valid(Value::U8(u8::MAX))], NON);
    let rhs = constant(DType::Primitive(PType::U8, NON), Value::U8(1), 1);
    assert!(run(values, rhs, Operator::Add).is_err());
}

#[test]
fn test_integer_divide_by_zero_errors() {
    let i32_type = DType::Primitive(PType::I32, NON);
    let values = column(i32_type.clone(), vec![Some(Value::I32(1))]);
    let rhs = constant(i32_type, Value::I32(0), 1);
    assert!(run(values, rhs, Operator::Div).is_err());
}

#[test]
fn test_integer_divide_overflow_errors() {
    let rhs = constant(DType::Primitive(PType::I64, NON), Value::I64(-1), 1);
    assert!(run(i64s(&[i64::MIN]), rhs, Operator::Div).is_err());
}

#[test]
fn test_integer_divide_errors_ignore_null_lanes() {
    let lhs = Array::column(
        DType::Primitive(PType::I32, NULL),
        vec![behind_null(Value::I32(10)), Cell::valid(Value::I32(10))],
    );
    let rhs = column(
        DType::Primitive(PType::I32, NON),
        vec![Some(Value::I32(0)), Some(Value::I32(2))],
    );
    let result = run(lhs, rhs, Operator::Div).unwrap();
    let expected =
        column(DType::Primitive(PType::I32, NULL), vec![None, Some(Value::I32(5))]);
    assert_arrays_eq(&result, &expected);
}

#[test]
fn test_integer_errors_ignore_null_lanes() {
    let values = u8s(vec![behind_null(Value::U8(u8::MAX)), Cell::valid(Value::U8(1))], NULL);
    let rhs = constant(DType::Primitive(PType::U8, NON), Value::U8(1), 2);
    let result = run(values, rhs, Operator::Add).unwrap();
    assert_arrays_eq(&result, &u8s(vec![Cell::null(), Cell::valid(Value::U8(2))], NULL));
}

#[test]
fn test_integer_array_array_errors_on_valid_lanes() {
    let lhs = u8s(
        vec![
            behind_null(Value::U8(u8::MAX)),
            Cell::valid(Value::U8(1)),
            Cell::valid(Value::U8(u8::MAX)),
        ],
        NULL,
    );
    let rhs = u8s(vec![Cell::valid(Value::U8(1)), Cell::valid(Value::U8(1)), Cell::valid(Value::U8(1))], NON);
    assert!(run(lhs, rhs, Operator::Add).is_err());
}

#[test]
fn test_present_nullable_constant_preserves_nullable_output() {
    let values = u8s(vec![Cell::valid(Value::U8(1)), Cell::valid(Value::U8(2))], NON);
    let rhs = constant(DType::Primitive(PType::U8, NULL), Value::U8(1), 2);
    let result = run(values, rhs, Operator::Add).unwrap();
    assert_arrays_eq(
        &result,
        &u8s(vec![Cell::valid(Value::U8(2)), Cell::valid(Value::U8(3))], NULL),
    );
}

#[test]
fn floats_are_left_to_float_arithmetic() {
    let one = Value::F64(F64 { bits: 1.0f64.to_bits() });
    let values = column(DType::Primitive(PType::F64, NON), vec![Some(one.clone())]);
    let rhs = constant(DType::Primitive(PType::F64, NON), one, 1);
    assert!(run(values.clone(), rhs.clone(), Operator::Add).is_err());
    // Comparisons of floats go by the total order.
    let below = run(values, rhs, Operator::Lte).unwrap();
    assert_arrays_eq(&below, &bools(NON, &[Some(true)]));
}

#[test]
fn operands_of_different_types_are_refused() {
    let error = operator_dtype(
        Operator::Add,
        &DType::Primitive(PType::U8, NON),
        &DType::Primitive(PType::U16, NON),
    );
    assert!(error.is_err());
    let error = operator_dtype(Operator::Eq, &DType::Bool(NON), &DType::Utf8(NON));
    assert!(error.is_err());
    // What a conjunction joins is checked when it runs.
    let joined = operator_dtype(Operator::And, &DType::Bool(NON), &DType::Utf8(NON)).unwrap();
    assert_eq!(joined.to_text(), "bool");
    let widened = operator_dtype(
        Operator::Mul,
        &DType::Primitive(PType::U8, NON),
        &DType::Primitive(PType::U8, NULL),
    )
    .unwrap();
    assert_eq!(format!("{widened:?}"), format!("{:?}", DType::Primitive(PType::U8, NULL)));
}

#[test]
fn binary_is_a_scalar_function() {
    let function = Binary { features: features() };
    assert_eq!(function.id(), "vortex.binary");
    assert_eq!(function.child_name(0), "lhs");
    assert_eq!(function.child_name(1), "rhs");
    assert!(function.is_fallible(&Operator::Add));
    assert!(!function.is_fallible(&Operator::Eq));
    assert!(!function.is_fallible(&Operator::Or));
    assert!(function.is_strict(&Operator::Lt));
    assert!(!function.is_strict(&Operator::And));
    let args = ExecutionArgs::new(vec![i64s(&[4, 9]), i64s(&[2, 3])], 2);
    let result = function.execute(&Operator::Div, &args).unwrap();
    assert_arrays_eq(&result, &i64s(&[2, 3]));
    assert_eq!(
        args.get(5).err().unwrap().message(),
        "row-function input index must be less than 2, got 5"
    );
}

/// Values whose pairwise products are worth probing: the boundaries, the sign-change pivots, and
/// a spread of magnitudes that straddles the 64-bit split.
const PROBES: &[i64] = &[
    0,
    1,
    -1,
    2,
    -2,
    3,
    i64::MIN,
    i64::MIN + 1,
    i64::MAX,
    i64::MAX - 1,
    1 << 31,
    1 << 32,
    1 << 62,
    -(1 << 62),
    0x7FFF_FFFF,
    -0x8000_0000,
];

#[test]
fn mul_failure_agrees_with_checked_mul_at_64_bits() {
    for &lhs in PROBES {
        for &rhs in PROBES {
            assert_eq!(lhs.mul_failure(rhs) != 0, lhs.checked_mul(rhs).is_none(), "{lhs} * {rhs}");
            assert_eq!(lhs.mul_value(rhs), lhs.wrapping_mul(rhs));

            let (lhs, rhs) = (lhs as u64, rhs as u64);
            assert_eq!(lhs.mul_failure(rhs) != 0, lhs.checked_mul(rhs).is_none(), "{lhs} * {rhs}");
            assert_eq!(lhs.mul_value(rhs), lhs.wrapping_mul(rhs));
        }
    }
}

#[test]
fn mul_failure_agrees_with_checked_mul_exhaustively_at_8_bits() {
    for lhs in u8::MIN..=u8::MAX {
        for rhs in u8::MIN..=u8::MAX {
            assert_eq!(lhs.mul_failure(rhs) != 0, lhs.checked_mul(rhs).is_none(), "{lhs} * {rhs}");
        }
    }

    for lhs in i8::MIN..=i8::MAX {
        for rhs in i8::MIN..=i8::MAX {
            assert_eq!(lhs.mul_failure(rhs), lhs.checked_mul(rhs).is_none(), "{lhs} * {rhs}");
        }
    }
}

fn column_node(nullability: Nullability) -> ReduceNode {
    ReduceNode {
        function: None,
        dtype: DType::Bool(nullability),
        constant: None,
        children: vec![],
    }
}

fn boolean_node(op: Operator, lhs: ReduceNode, rhs: ReduceNode) -> ReduceNode {
    let dtype = operator_dtype(op, &lhs.dtype, &rhs.dtype).unwrap();
    ReduceNode {
        function: Some("vortex.binary".to_string()),
        dtype,
        constant: None,
        children: vec![lhs, rhs],
    }
}

/// Constant operands fold away where the type of the result allows it.
#[test]
fn boolean_operators_reduce_over_constants() {
    let binary = Binary { features: CpuFeatures { avx2: false, avx512f: false, avx512bw: false } };
    let truth = |nullability, value: Option<bool>| {
        let cell = match value {
            Some(value) => Cell::valid(Value::Bool(value)),
            None => Cell::null(),
        };
        ReduceNode::literal(DType::Bool(nullability), cell)
    };
    let reduce = |op, lhs, rhs| {
        ScalarFnVTable::reduce(&binary, &op, &boolean_node(op, lhs, rhs))
            .unwrap()
            .map(|node| format!("{node:?}"))
    };
    let shown = |node: ReduceNode| Some(format!("{node:?}"));
    assert_eq!(
        reduce(Operator::And, column_node(NON), truth(NON, Some(false))),
        shown(truth(NON, Some(false)))
    );
    assert_eq!(
        reduce(Operator::Or, truth(NON, Some(true)), column_node(NULL)),
        shown(truth(NULL, Some(true)))
    );
    assert_eq!(
        reduce(Operator::And, column_node(NULL), truth(NON, Some(true))),
        shown(column_node(NULL))
    );
    // A nullable constant widens the result, which the column alone would not have.
    assert_eq!(reduce(Operator::And, column_node(NON), truth(NULL, Some(true))), None);
    assert_eq!(reduce(Operator::And, column_node(NON), column_node(NON)), None);
    assert_eq!(reduce(Operator::Eq, column_node(NON), truth(NON, Some(true))), None);
}

/// The validity of a strict operator is the conjunction of its operands'.
#[test]
fn strict_operators_tell_their_validity() {
    let binary = Binary { features: CpuFeatures { avx2: false, avx512f: false, avx512bw: false } };
    let args = || vec![is_not_null(col("a")), is_not_null(col("b"))];
    let validity = |op| ScalarFnVTable::validity(&binary, &op, args()).map(|e| e.to_sql());
    assert_eq!(
        validity(Operator::Add),
        Some("(vortex.is_not_null($.a) and vortex.is_not_null($.b))".to_string())
    );
    assert_eq!(validity(Operator::And), None);
    assert_eq!(validity(Operator::Or), None);
}

#[test]
fn validity_expressions_tell_the_valid_rows() {
    let scope = struct_array(
        &["a", "b"],
        vec![
            u16s(NULL, &[Some(1), None, Some(3), None]),
            u16s(NULL, &[Some(4), Some(5), None, None]),
        ],
    );
    let expected = bools(NON, &[Some(true), Some(false), Some(false), Some(false)]);
    for op in [Operator::Add, Operator::Lt, Operator::Eq] {
        let expr = binary(op, col("a"), col("b"));
        let valid = expr.validity().apply(&scope, features()).unwrap();
        assert_arrays_eq(&valid, &expected);
        let out = expr.apply(&scope, features()).unwrap();
        for row in 0..out.len() {
            assert_eq!(out.cell(row).valid, row == 0);
        }
    }
    // A Kleene operator answers from one operand, so its validity is asked of its result.
    let known = struct_array(
        &["a", "b"],
        vec![bools(NULL, &[Some(false), Some(true)]), bools(NULL, &[None, None])],
    );
    let expr = binary(Operator::And, col("a"), col("b"));
    same(&expr.validity(), &is_not_null(expr.clone()));
    let valid = expr.validity().apply(&known, features()).unwrap();
    assert_arrays_eq(&valid, &bools(NON, &[Some(true), Some(false)]));
}

#[test]
fn operands_are_brought_to_a_supertype() {
    let function = Binary { features: features() };
    let text = |dtype: &DType| dtype.to_text();
    let i32s = DType::Primitive(PType::I32, NON);
    let i64s = DType::Primitive(PType::I64, NULL);
    let both = function.coerce_args(Operator::Lt, &i32s, &i64s, Some(i64s.clone())).unwrap();
    assert_eq!((text(&both.0), text(&both.1)), (text(&i64s), text(&i64s)));
    let none = function.coerce_args(Operator::Add, &i32s, &DType::Utf8(NON), None);
    assert_eq!(none.unwrap_err().message(), "No common supertype for i32 and utf8");
    let kept = function.coerce_args(Operator::And, &i32s, &DType::Bool(NON), None).unwrap();
    assert_eq!((text(&kept.0), text(&kept.1)), ("i32".to_string(), "bool".to_string()));
}

/// A reduction has the type of the operator that it stands for.
#[test]
fn reductions_have_the_type_of_the_operator() {
    let binary = Binary { features: CpuFeatures { avx2: false, avx512f: false, avx512bw: false } };
    for op in [Operator::And, Operator::Or] {
        for lhs in [NON, NULL] {
            for rhs in [NON, NULL] {
                for value in [false, true] {
                    let literal = ReduceNode::literal(
                        DType::Bool(rhs),
                        Cell::valid(Value::Bool(value)),
                    );
                    let node = boolean_node(op, column_node(lhs), literal);
                    let expected = format!("{:?}", node.dtype);
                    if let Some(reduced) = ScalarFnVTable::reduce(&binary, &op, &node).unwrap() {
                        assert_eq!(format!("{:?}", reduced.dtype), expected);
                    }
                }
            }
        }
    }
}
