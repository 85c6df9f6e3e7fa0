//! Strict functions: one kernel over non-null values, lifted over nulls and constants.

use vstd::prelude::nat;
use vstd::seq::Seq;

use vortex_rows::array::{Array, ArrayV};
use vortex_rows::dtype::{DType, DTypeV, Nullability, PType};
use vortex_rows::error::{VortexError, VortexResult};
use vortex_rows::expr::tree::{conjoin, is_not_null, root, ExprV, Expression};
use vortex_rows::mask::Mask;
use vortex_rows::scalar_fn::options::{EmptyOptions, PersistableOptions, ScalarFnOptions};
use vortex_rows::scalar_fn::strict::{
    branch_beats_filter, execute_strict_with_strategy, scatter_valid, NullHandling, NullStrategy,
    StrictScalarFnVTable,
};
use vortex_rows::scalar_fn::vtable::{Arity, ExecutionArgs, ReduceNode, ReduceNodeV, ScalarFnVTable};
use vortex_rows::value::{Cell, Value};

const NON: Nullability = Nullability::NonNullable;
const NULL: Nullability = Nullability::Nullable;

fn i32s(nullability: Nullability, values: &[Option<i32>]) -> Array {
    Array::column(
        DType::Primitive(PType::I32, nullability),
        values
            .iter()
            .map(|v| match v {
                Some(v) => Cell::valid(Value::I32(*v)),
                None => Cell::null(),
            })
            .collect(),
    )
}

fn constant(value: i32, rows: usize) -> Array {
    Array::constant(DType::Primitive(PType::I32, NON), Cell::valid(Value::I32(value)), rows)
}

fn rows(array: &Array) -> Vec<Option<i32>> {
    (0..array.len())
        .map(|row| {
            let cell = array.cell(row);
            match (cell.valid, cell.value) {
                (false, _) => None,
                (true, Value::I32(value)) => Some(value),
                (true, value) => panic!("not an i32: {value:?}"),
            }
        })
        .collect()
}

fn dtype_text(array: &Array) -> String {
    array.dtype().to_text()
}

/// A strict addition over `i32` that exercises both ways of handling nulls.
#[derive(Clone, Copy)]
struct TestAdd {
    null_handling: NullHandling,
}

impl StrictScalarFnVTable for TestAdd {
    type Options = EmptyOptions;

    fn strict_id(&self) -> Seq<char> {
        unreachable!()
    }

    fn strict_arity(&self, _options: &EmptyOptions) -> nat {
        unreachable!()
    }

    fn element_dtype(&self, _options: &EmptyOptions, _dtypes: Seq<DTypeV>) -> Result<DTypeV, Seq<char>> {
        unreachable!()
    }

    fn handling(&self, _options: &EmptyOptions) -> NullHandling {
        unreachable!()
    }

    fn kernel_fallible(&self, _options: &EmptyOptions) -> bool {
        unreachable!()
    }

    fn kernel(&self, _options: &EmptyOptions, _args: Seq<ArrayV>, _rows: nat) -> Result<ArrayV, Seq<char>> {
        unreachable!()
    }

    fn branch_kernel(
        &self,
        _options: &EmptyOptions,
        _args: Seq<ArrayV>,
        _rows: nat,
        _valid: Seq<bool>,
    ) -> Result<Option<ArrayV>, Seq<char>> {
        unreachable!()
    }

    fn shrinks(&self, _options: &EmptyOptions) -> bool {
        unreachable!()
    }

    fn strict_validity(&self, _options: &EmptyOptions, _args: Seq<ExprV>) -> Option<ExprV> {
        unreachable!()
    }

    fn strict_reduction(
        &self,
        _options: &EmptyOptions,
        _node: ReduceNodeV,
    ) -> Result<Option<ReduceNodeV>, Seq<char>> {
        unreachable!()
    }

    fn id(&self) -> String {
        "vortex.test.strict_add".to_string()
    }

    fn arity(&self, _options: &EmptyOptions) -> Arity {
        Arity::Exact(2)
    }

    fn return_element_dtype(&self, _options: &EmptyOptions, dtypes: &Vec<DType>) -> VortexResult<DType> {
        let i32 = DType::Primitive(PType::I32, NON);
        if !dtypes.iter().all(|dtype| dtype.eq_ignore_nullability(&i32)) {
            return Err(VortexError::of("test_add requires i32 inputs"));
        }
        Ok(i32)
    }

    fn null_handling(&self, _options: &EmptyOptions) -> NullHandling {
        self.null_handling
    }

    fn is_fallible(&self, _options: &EmptyOptions) -> bool {
        false
    }

    fn execute_strict(&self, _options: &EmptyOptions, args: &ExecutionArgs) -> VortexResult<Array> {
        let value = |input: usize, row: usize| match args.inputs[input].cell(row).value {
            Value::I32(value) => value,
            _ => 0,
        };
        let sums = (0..args.row_count)
            .map(|row| Some(value(0, row).wrapping_add(value(1, row))))
            .collect::<Vec<_>>();
        Ok(i32s(NON, &sums))
    }

    fn execute_strict_branch(
        &self,
        _options: &EmptyOptions,
        _args: &ExecutionArgs,
        _valid: &Mask,
    ) -> VortexResult<Option<Array>> {
        Ok(None)
    }

    fn decode_shrinks_when_filtered(&self, _options: &EmptyOptions) -> bool {
        false
    }

    fn validity(&self, _options: &EmptyOptions, args: Vec<Expression>) -> Option<Expression> {
        conjoin(args)
    }

    fn reduce(&self, _options: &EmptyOptions, _node: &ReduceNode) -> VortexResult<Option<ReduceNode>> {
        Ok(None)
    }
}

fn add(null_handling: NullHandling) -> TestAdd {
    TestAdd { null_handling }
}

fn execute_add(null_handling: NullHandling, lhs: Array, rhs: Array) -> VortexResult<Array> {
    let rows = lhs.len();
    ScalarFnVTable::execute(
        &add(null_handling),
        &EmptyOptions,
        &ExecutionArgs::new(vec![lhs, rhs], rows),
    )
}

const BOTH: [NullHandling; 2] = [NullHandling::Filter, NullHandling::Dense];

#[test]
fn columns_without_nulls_are_added() {
    for handling in BOTH {
        let lhs = i32s(NON, &[Some(1), Some(2), Some(3)]);
        let rhs = i32s(NON, &[Some(10), Some(20), Some(30)]);
        let result = execute_add(handling, lhs, rhs).unwrap();
        assert_eq!(rows(&result), [Some(11), Some(22), Some(33)]);
        assert_eq!(dtype_text(&result), "i32");
    }
}

#[test]
fn a_null_in_either_column_is_a_null_in_the_sum() {
    for handling in BOTH {
        let lhs = i32s(NULL, &[Some(1), None, Some(3), None]);
        let rhs = i32s(NULL, &[Some(10), Some(20), None, None]);
        let result = execute_add(handling, lhs, rhs).unwrap();
        assert_eq!(rows(&result), [Some(11), None, None, None]);
        assert_eq!(dtype_text(&result), "i32?");
    }
}

#[test]
fn a_null_constant_makes_every_row_null() {
    for handling in BOTH {
        let lhs = i32s(NON, &[Some(1), Some(2), Some(3)]);
        let rhs = Array::constant(DType::Primitive(PType::I32, NULL), Cell::null(), 3);
        let result = execute_add(handling, lhs, rhs).unwrap();
        assert_eq!(rows(&result), [None, None, None]);
    }
}

#[test]
fn a_constant_meets_a_column() {
    for handling in BOTH {
        let lhs = i32s(NULL, &[Some(1), None, Some(3)]);
        let result = execute_add(handling, lhs, constant(10, 3)).unwrap();
        assert_eq!(rows(&result), [Some(11), None, Some(13)]);
    }
}

#[test]
fn all_constants_broadcast() {
    let result = execute_add(NullHandling::Filter, constant(2, 4), constant(40, 4)).unwrap();
    assert_eq!(rows(&result), [Some(42), Some(42), Some(42), Some(42)]);
    assert!(result.as_constant().is_some());
}

#[test]
fn empty_input_keeps_dtype() {
    let result = execute_add(NullHandling::Filter, i32s(NON, &[]), i32s(NON, &[])).unwrap();
    assert_eq!(result.len(), 0);
    assert!(!result.dtype().is_nullable());
}

#[test]
fn tests_return_dtype_unions_nullability() {
    let non_nullable = DType::Primitive(PType::I32, NON);
    let nullable = DType::Primitive(PType::I32, NULL);
    let vtable = add(NullHandling::Filter);
    let of = |dtypes: Vec<DType>| {
        ScalarFnVTable::return_dtype(&vtable, &EmptyOptions, &dtypes).unwrap().to_text()
    };
    assert_eq!(of(vec![non_nullable.clone(), non_nullable.clone()]), non_nullable.to_text());
    assert_eq!(of(vec![non_nullable, nullable.clone()]), nullable.to_text());
    let texts = vec![DType::Utf8(NON), DType::Utf8(NON)];
    assert_eq!(
        ScalarFnVTable::return_dtype(&vtable, &EmptyOptions, &texts).err().unwrap().message(),
        "test_add requires i32 inputs"
    );
}

#[test]
fn adapter_reports_strict() {
    assert!(ScalarFnVTable::is_strict(&add(NullHandling::Filter), &EmptyOptions));
}

/// Options persist themselves, so a strict function needs no serialization of its own.
#[test]
fn tests_options_round_trip_without_per_function_serde() {
    let vtable = add(NullHandling::Dense);
    let handle = ScalarFnOptions { inner: &vtable, options: &EmptyOptions };
    let metadata = handle.serialize().unwrap().expect("EmptyOptions is serializable");
    assert!(metadata.is_empty());
    let options = EmptyOptions::deserialize(&metadata).unwrap();
    assert_eq!(options, EmptyOptions);
    assert!(handle.same_as(&ScalarFnOptions { inner: &vtable, options: &options }));
    assert_eq!(handle.as_any(), &EmptyOptions);
}

/// A strict function that is not total: it also returns null for a valid row holding zero.
#[derive(Clone, Copy)]
struct SumOrNull {
    /// `NonNullable` is wrong of this kernel, and must be rejected.
    element_nullability: Nullability,
}

impl StrictScalarFnVTable for SumOrNull {
    type Options = EmptyOptions;

    fn strict_id(&self) -> Seq<char> {
        unreachable!()
    }

    fn strict_arity(&self, _options: &EmptyOptions) -> nat {
        unreachable!()
    }

    fn element_dtype(&self, _options: &EmptyOptions, _dtypes: Seq<DTypeV>) -> Result<DTypeV, Seq<char>> {
        unreachable!()
    }

    fn handling(&self, _options: &EmptyOptions) -> NullHandling {
        unreachable!()
    }

    fn kernel_fallible(&self, _options: &EmptyOptions) -> bool {
        unreachable!()
    }

    fn kernel(&self, _options: &EmptyOptions, _args: Seq<ArrayV>, _rows: nat) -> Result<ArrayV, Seq<char>> {
        unreachable!()
    }

    fn branch_kernel(
        &self,
        _options: &EmptyOptions,
        _args: Seq<ArrayV>,
        _rows: nat,
        _valid: Seq<bool>,
    ) -> Result<Option<ArrayV>, Seq<char>> {
        unreachable!()
    }

    fn shrinks(&self, _options: &EmptyOptions) -> bool {
        unreachable!()
    }

    fn strict_validity(&self, _options: &EmptyOptions, _args: Seq<ExprV>) -> Option<ExprV> {
        unreachable!()
    }

    fn strict_reduction(
        &self,
        _options: &EmptyOptions,
        _node: ReduceNodeV,
    ) -> Result<Option<ReduceNodeV>, Seq<char>> {
        unreachable!()
    }

    fn id(&self) -> String {
        "vortex.test.sum_or_null".to_string()
    }

    fn arity(&self, _options: &EmptyOptions) -> Arity {
        Arity::Exact(1)
    }

    fn return_element_dtype(&self, _options: &EmptyOptions, _dtypes: &Vec<DType>) -> VortexResult<DType> {
        Ok(DType::Primitive(PType::I32, self.element_nullability))
    }

    fn null_handling(&self, _options: &EmptyOptions) -> NullHandling {
        NullHandling::Dense
    }

    fn is_fallible(&self, _options: &EmptyOptions) -> bool {
        false
    }

    fn execute_strict(&self, _options: &EmptyOptions, args: &ExecutionArgs) -> VortexResult<Array> {
        let sums = (0..args.row_count)
            .map(|row| match args.inputs[0].cell(row).value {
                Value::I32(value) if value != 0 => Some(value),
                _ => None,
            })
            .collect::<Vec<_>>();
        Ok(i32s(NULL, &sums))
    }

    fn execute_strict_branch(
        &self,
        _options: &EmptyOptions,
        _args: &ExecutionArgs,
        _valid: &Mask,
    ) -> VortexResult<Option<Array>> {
        Ok(None)
    }

    fn decode_shrinks_when_filtered(&self, _options: &EmptyOptions) -> bool {
        false
    }

    fn validity(&self, _options: &EmptyOptions, _args: Vec<Expression>) -> Option<Expression> {
        None
    }

    fn reduce(&self, _options: &EmptyOptions, _node: &ReduceNode) -> VortexResult<Option<ReduceNode>> {
        Ok(None)
    }
}

fn sum_or_null() -> SumOrNull {
    SumOrNull { element_nullability: NULL }
}

/// A kernel that never turns non-null values into a null answers with the conjunction.
#[test]
fn a_total_kernel_precomputes_validity() {
    let args = vec![is_not_null(root()), is_not_null(root())];
    let validity = ScalarFnVTable::validity(&add(NullHandling::Dense), &EmptyOptions, args);
    assert_eq!(
        validity.unwrap().to_sql(),
        format!("({0} and {0})", is_not_null(root()).to_sql())
    );
}

#[test]
fn a_non_total_kernel_declines_precomputed_validity() {
    let args = vec![is_not_null(root())];
    assert!(ScalarFnVTable::validity(&sum_or_null(), &EmptyOptions, args).is_none());
}

/// Declining precomputed validity does not cost the function its strictness.
#[test]
fn a_non_total_kernel_is_still_strict() {
    assert!(ScalarFnVTable::is_strict(&sum_or_null(), &EmptyOptions));
}

/// Row 1 is valid but sums to null, and row 2 is null in the input: both stay null.
#[test]
fn a_non_total_kernel_keeps_its_own_nulls() {
    let input = i32s(NULL, &[Some(4), Some(0), None]);
    let args = ExecutionArgs::new(vec![input], 3);
    let result = ScalarFnVTable::execute(&sum_or_null(), &EmptyOptions, &args).unwrap();
    assert_eq!(rows(&result), [Some(4), None, None]);
}

/// A kernel that declares itself total must not produce nulls.
#[test]
fn nulls_under_a_non_nullable_declaration_are_rejected() {
    let function = SumOrNull { element_nullability: NON };
    let args = ExecutionArgs::new(vec![i32s(NON, &[Some(4), Some(0)])], 2);
    assert!(ScalarFnVTable::execute(&function, &EmptyOptions, &args).is_err());
}

/// An idempotent strict function that collapses `Identity(Identity(x))` to `Identity(x)`.
#[derive(Clone, Copy)]
struct Identity;

impl StrictScalarFnVTable for Identity {
    type Options = EmptyOptions;

    fn strict_id(&self) -> Seq<char> {
        unreachable!()
    }

    fn strict_arity(&self, _options: &EmptyOptions) -> nat {
        unreachable!()
    }

    fn element_dtype(&self, _options: &EmptyOptions, _dtypes: Seq<DTypeV>) -> Result<DTypeV, Seq<char>> {
        unreachable!()
    }

    fn handling(&self, _options: &EmptyOptions) -> NullHandling {
        unreachable!()
    }

    fn kernel_fallible(&self, _options: &EmptyOptions) -> bool {
        unreachable!()
    }

    fn kernel(&self, _options: &EmptyOptions, _args: Seq<ArrayV>, _rows: nat) -> Result<ArrayV, Seq<char>> {
        unreachable!()
    }

    fn branch_kernel(
        &self,
        _options: &EmptyOptions,
        _args: Seq<ArrayV>,
        _rows: nat,
        _valid: Seq<bool>,
    ) -> Result<Option<ArrayV>, Seq<char>> {
        unreachable!()
    }

    fn shrinks(&self, _options: &EmptyOptions) -> bool {
        unreachable!()
    }

    fn strict_validity(&self, _options: &EmptyOptions, _args: Seq<ExprV>) -> Option<ExprV> {
        unreachable!()
    }

    fn strict_reduction(
        &self,
        _options: &EmptyOptions,
        _node: ReduceNodeV,
    ) -> Result<Option<ReduceNodeV>, Seq<char>> {
        unreachable!()
    }

    fn id(&self) -> String {
        "vortex.test.strict_identity".to_string()
    }

    fn arity(&self, _options: &EmptyOptions) -> Arity {
        Arity::Exact(1)
    }

    fn return_element_dtype(&self, _options: &EmptyOptions, dtypes: &Vec<DType>) -> VortexResult<DType> {
        Ok(dtypes[0].with_nullability(NON))
    }

    fn null_handling(&self, _options: &EmptyOptions) -> NullHandling {
        NullHandling::Dense
    }

    fn is_fallible(&self, _options: &EmptyOptions) -> bool {
        false
    }

    fn execute_strict(&self, _options: &EmptyOptions, args: &ExecutionArgs) -> VortexResult<Array> {
        args.get(0)
    }

    fn execute_strict_branch(
        &self,
        _options: &EmptyOptions,
        _args: &ExecutionArgs,
        _valid: &Mask,
    ) -> VortexResult<Option<Array>> {
        Ok(None)
    }

    fn decode_shrinks_when_filtered(&self, _options: &EmptyOptions) -> bool {
        false
    }

    fn validity(&self, _options: &EmptyOptions, _args: Vec<Expression>) -> Option<Expression> {
        None
    }

    fn reduce(&self, _options: &EmptyOptions, node: &ReduceNode) -> VortexResult<Option<ReduceNode>> {
        let child = &node.children[0];
        let inner = child.function.as_deref() == Some("vortex.test.strict_identity");
        // Drop this layer, keeping the equivalent inner one.
        Ok(if inner { Some(child.clone()) } else { None })
    }
}

fn identity(child: ReduceNode) -> ReduceNode {
    ReduceNode {
        function: Some(StrictScalarFnVTable::id(&Identity)),
        dtype: child.dtype.clone(),
        constant: None,
        children: vec![child],
    }
}

#[test]
fn reduce_reaches_a_strict_function() {
    let leaf = ReduceNode {
        function: None,
        dtype: DType::Primitive(PType::I32, NON),
        constant: None,
        children: vec![],
    };
    let once = identity(leaf);
    let twice = identity(once.clone());
    let reduced = ScalarFnVTable::reduce(&Identity, &EmptyOptions, &twice).unwrap().unwrap();
    assert_eq!(format!("{reduced:?}"), format!("{once:?}"));
    assert!(ScalarFnVTable::reduce(&Identity, &EmptyOptions, &once).unwrap().is_none());
}

/// A bulk decode always branches; a per-row decode branches while three quarters survive.
#[test]
fn branching_is_chosen_by_the_surviving_rows() {
    let cases = [
        (false, 99, true),
        (false, 1, true),
        (true, 99, true),
        (true, 75, true),
        (true, 74, false),
        (true, 10, false),
    ];
    for (shrinks, true_count, expected) in cases {
        let valid = Mask::new((0..100).map(|row| row < true_count).collect());
        assert_eq!(branch_beats_filter(shrinks, &valid), expected);
    }
}

#[test]
fn values_scatter_to_the_valid_rows() {
    let valid = Mask::new(vec![false, true, false, true]);
    let result = scatter_valid(i32s(NON, &[Some(7), Some(9)]), &valid).unwrap();
    assert_eq!(rows(&result), [None, Some(7), None, Some(9)]);
    assert_eq!(
        scatter_valid(i32s(NON, &[Some(7)]), &valid).err().unwrap().message(),
        "strict kernel produced 1 rows for 2 filtered rows"
    );
}

/// A kernel without branch execution says so where it is forced.
#[test]
fn a_forced_branch_needs_a_branch_execution() {
    let args = ExecutionArgs::new(
        vec![i32s(NULL, &[Some(1), None]), i32s(NON, &[Some(10), Some(20)])],
        2,
    );
    let forced = |strategy| {
        execute_strict_with_strategy(&add(NullHandling::Filter), &EmptyOptions, &args, strategy)
    };
    assert_eq!(rows(&forced(NullStrategy::Filter).unwrap()), [Some(11), None]);
    assert_eq!(
        forced(NullStrategy::BranchAndSkip).err().unwrap().message(),
        "vortex.test.strict_add has no branch-and-skip execution for these inputs"
    );
}

/// Filtering takes back what scattering spread out.
#[test]
fn filtering_takes_back_what_was_scattered() {
    let valid = Mask::new(vec![false, true, false, true, true]);
    let dense = i32s(NON, &[Some(7), Some(9), Some(-1)]);
    let scattered = scatter_valid(dense, &valid).unwrap();
    assert_eq!(rows(&scattered.filter(&valid)), [Some(7), Some(9), Some(-1)]);
}

/// Scattering needs a mask with both valid and invalid rows.
#[test]
fn scattering_needs_a_mixed_mask() {
    for (values, mask) in [
        (vec![Some(1), Some(2)], vec![true, true]),
        (vec![], vec![false, false]),
        (vec![], vec![]),
    ] {
        let error = scatter_valid(i32s(NON, &values), &Mask::new(mask)).err().unwrap();
        assert_eq!(error.message(), "scatter_valid requires a mixed mask");
    }
}
