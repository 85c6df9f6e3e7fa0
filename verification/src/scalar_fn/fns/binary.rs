//! The binary operators as one scalar function.

use vstd::prelude::*;

use crate::array::{Array, ArrayV};
use crate::dtype::{DType, DTypeV, Nullability};
use crate::error::{VortexError, VortexResult};
use crate::expr::tree::{self, conjoin, ExprV, Expression};
use crate::order::{self, compare_values};
use crate::scalar_fn::fns::arithmetic::{self, execute_numeric_primitive};
use crate::scalar_fn::fns::boolean::{self, execute_boolean, fold_boolean_constants, truth_of, BooleanFold};
use crate::scalar_fn::fns::compare::{self, compare_primitive};
use crate::scalar_fn::fns::decimal::{self, execute_numeric_decimal};
use crate::scalar_fn::fns::operators::{CompareOperator, Operator};
use crate::scalar_fn::fns::simd::CpuFeatures;
use crate::scalar_fn::fns::zip;
use crate::scalar_fn::vtable::{self, Arity, ExecutionArgs, ReduceNode, ReduceNodeV, ScalarFnVTable};
use crate::text::{join2, join3};
use crate::value::{Cell, Value, ValueV};

verus! {

/// Arithmetic, comparison and boolean operators on two columns.
#[derive(Clone, Copy)]
pub struct Binary {
    /// What the processor offers to comparisons.
    pub features: CpuFeatures,
}

/// What is said of two types without common arithmetic.
pub open spec fn no_arithmetic(lhs: DTypeV, rhs: DTypeV) -> Seq<char> {
    "incompatible types for arithmetic operation: "@ + lhs.text() + " "@ + rhs.text()
}

/// What is said of two types that cannot be compared.
pub open spec fn no_comparison(lhs: DTypeV, rhs: DTypeV) -> Seq<char> {
    "Cannot compare different DTypes "@ + lhs.text() + " and "@ + rhs.text()
}

/// What is said of two types that have no type in common.
pub open spec fn no_supertype(lhs: DTypeV, rhs: DTypeV) -> Seq<char> {
    "No common supertype for "@ + lhs.text() + " and "@ + rhs.text()
}

/// The type of a binary operator. Arithmetic keeps the operands' type, and everything else is
/// boolean; the result is nullable if an operand is. Extension types compare with any type.
pub open spec fn binary_dtype(op: Operator, lhs: DTypeV, rhs: DTypeV) -> Result<DTypeV, Seq<char>> {
    if op.arithmetic() is Some {
        if (lhs is Primitive || lhs is Decimal) && lhs.eq_ignore_nullability(rhs) {
            Ok(lhs.with_nullability(lhs.nullability().union(rhs.nullability())))
        } else {
            Err(no_arithmetic(lhs, rhs))
        }
    } else if op.comparison() is Some && !lhs.eq_ignore_nullability(rhs) && !(lhs is Extension)
        && !(rhs is Extension) {
        Err(no_comparison(lhs, rhs))
    } else {
        Ok(DTypeV::Bool(Nullability::of(lhs.nullable() || rhs.nullable())))
    }
}

/// The payloads of a comparison in the order of payloads; false in rows that are not valid on both
/// sides.
pub open spec fn ordered_values(op: CompareOperator, lhs: ArrayV, rhs: ArrayV) -> Seq<ValueV> {
    Seq::new(
        lhs.len(),
        |r: int|
            ValueV::Bool(
                zip::both_valid(lhs, rhs, r) && op.holds(
                    order::order(lhs.cells[r].value, rhs.cells[r].value),
                    0,
                ),
            ),
    )
}

/// A comparison of two columns: primitives by their total order, anything else by the order of
/// payloads.
pub open spec fn compare_result(op: CompareOperator, lhs: ArrayV, rhs: ArrayV) -> ArrayV {
    let declared = compare::compared_dtype(lhs.dtype, rhs.dtype);
    match compare::comparable(lhs.dtype, rhs.dtype) {
        Ok(ptype) => zip::zipped(
            declared,
            lhs,
            rhs,
            compare::primitive_values(ptype, op, lhs, rhs),
        ),
        Err(_) => zip::zipped(declared, lhs, rhs, ordered_values(op, lhs, rhs)),
    }
}

/// The result of a binary operator.
pub open spec fn binary_result(op: Operator, lhs: ArrayV, rhs: ArrayV) -> Result<
    ArrayV,
    Seq<char>,
> {
    match binary_dtype(op, lhs.dtype, rhs.dtype) {
        Err(text) => Err(text),
        Ok(_) => match op.arithmetic() {
            Some(numeric) => if lhs.dtype is Decimal {
                decimal::decimal_result(numeric, lhs, rhs)
            } else {
                arithmetic::numeric_result(numeric, lhs, rhs)
            },
            None => match op.comparison() {
                Some(comparison) => Ok(compare_result(comparison, lhs, rhs)),
                None => boolean::boolean_result(op, lhs, rhs),
            },
        },
    }
}

fn place_holds(op: CompareOperator, place: i8) -> (out: bool)
    ensures
        out == op.holds(place as int, 0),
{
    match op {
        CompareOperator::Eq => place == 0,
        CompareOperator::NotEq => place != 0,
        CompareOperator::Gt => place > 0,
        CompareOperator::Gte => place >= 0,
        CompareOperator::Lt => place < 0,
        CompareOperator::Lte => place <= 0,
    }
}

fn ordered_value(op: CompareOperator, lhs: &Cell, rhs: &Cell) -> (out: Value)
    ensures
        out@ == ValueV::Bool(
            lhs@.valid && rhs@.valid && op.holds(order::order(lhs@.value, rhs@.value), 0),
        ),
{
    let valid = lhs.valid && rhs.valid;
    Value::Bool(valid && place_holds(op, compare_values(&lhs.value, &rhs.value)))
}

/// Compare two columns row by row in the order of payloads.
fn compare_ordered(lhs: &Array, rhs: &Array, op: CompareOperator) -> (out: Array)
    requires
        lhs@.len() == rhs@.len(),
    ensures
        out@ == zip::zipped(
            compare::compared_dtype(lhs@.dtype, rhs@.dtype),
            lhs@,
            rhs@,
            ordered_values(op, lhs@, rhs@),
        ),
{
    let declared = DType::Bool(lhs.dtype().nullability().or(rhs.dtype().nullability()));
    let rows: usize = lhs.len();
    let ghost expected = ordered_values(op, lhs@, rhs@);
    let mut values: Vec<Value> = Vec::new();
    let mut index: usize = 0;
    while index < rows
        invariant
            index <= rows == lhs@.len() == rhs@.len(),
            expected == ordered_values(op, lhs@, rhs@),
            values@.len() == index,
            forall|r: int| 0 <= r < index ==> (#[trigger] values@[r])@ == expected[r],
        decreases rows - index,
    {
        values.push(ordered_value(op, &lhs.cell(index), &rhs.cell(index)));
        index = index + 1;
    }
    assert(zip::values_model(values@) =~= expected);
    zip::zip_values(declared, lhs, rhs, values)
}

/// Compare two columns.
pub fn execute_compare(lhs: &Array, rhs: &Array, op: CompareOperator, features: CpuFeatures) -> (out:
    VortexResult<Array>)
    requires
        lhs@.len() == rhs@.len(),
    ensures
        vtable::outcome(out) == Ok::<ArrayV, Seq<char>>(compare_result(op, lhs@, rhs@)),
{
    let primitive = match (lhs.dtype(), rhs.dtype()) {
        (DType::Primitive(a, _), DType::Primitive(b, _)) => *a == *b,
        _ => false,
    };
    if primitive {
        compare_primitive(lhs, rhs, op, features)
    } else {
        Ok(compare_ordered(lhs, rhs, op))
    }
}

/// The type of an operator on two operands.
pub fn operator_dtype(op: Operator, lhs: &DType, rhs: &DType) -> (out: VortexResult<
    DType,
>)
    ensures
        vtable::dtype_outcome(out) == binary_dtype(op, lhs@, rhs@),
{
    let same = lhs.eq_ignore_nullability(rhs);
    if op.is_arithmetic() {
        let numeric = match lhs {
            DType::Primitive(_, _) => true,
            DType::Decimal(_, _) => true,
            _ => false,
        };
        if numeric && same {
            return Ok(lhs.with_nullability(lhs.nullability().or(rhs.nullability())));
        }
        let mut message = join3(
            "incompatible types for arithmetic operation: ",
            lhs.to_text().as_str(),
            " ",
        );
        message.append(rhs.to_text().as_str());
        return Err(VortexError::new(message));
    }
    let extension = match (lhs, rhs) {
        (DType::Extension(_, _), _) => true,
        (_, DType::Extension(_, _)) => true,
        _ => false,
    };
    if op.is_comparison() && !same && !extension {
        let mut message = join3(
            "Cannot compare different DTypes ",
            lhs.to_text().as_str(),
            " and ",
        );
        message.append(rhs.to_text().as_str());
        return Err(VortexError::new(message));
    }
    Ok(DType::Bool(Nullability::from_bool(lhs.is_nullable() || rhs.is_nullable())))
}

impl Binary {
    /// The name of an operand.
    pub fn child_name(&self, index: usize) -> (out: &'static str)
        requires
            index < 2,
        ensures
            out@ == (if index == 0 {
                "lhs"@
            } else {
                "rhs"@
            }),
    {
        if index == 0 {
            "lhs"
        } else {
            "rhs"
        }
    }

    /// The types that the operands are brought to before an operator runs: their least supertype,
    /// which must exist, for arithmetic and comparisons, and the types themselves for `and` and
    /// `or`.
    pub fn coerce_args(&self, op: Operator, lhs: &DType, rhs: &DType, supertype: Option<DType>) -> (out:
        VortexResult<(DType, DType)>)
        ensures
            if op.arithmetic() is None && op.comparison() is None {
                out matches Ok(pair) && pair.0@ == lhs@ && pair.1@ == rhs@
            } else {
                match supertype {
                    Some(dtype) => out matches Ok(pair) && pair.0@ == dtype@ && pair.1@ == dtype@,
                    None => out matches Err(error) && error@ == no_supertype(lhs@, rhs@),
                }
            },
    {
        if op.is_arithmetic() || op.is_comparison() {
            match supertype {
                Some(dtype) => Ok((dtype.clone(), dtype)),
                None => {
                    let mut message = join3(
                        "No common supertype for ",
                        lhs.to_text().as_str(),
                        " and ",
                    );
                    message.append(rhs.to_text().as_str());
                    Err(VortexError::new(message))
                },
            }
        } else {
            Ok((lhs.clone(), rhs.clone()))
        }
    }

    /// Execute an operator over two columns.
    pub fn execute_pair(&self, op: Operator, lhs: &Array, rhs: &Array) -> (out: VortexResult<Array>)
        requires
            lhs@.len() == rhs@.len(),
        ensures
            vtable::outcome(out) == binary_result(op, lhs@, rhs@),
    {
        if let Err(error) = operator_dtype(op, lhs.dtype(), rhs.dtype()) {
            return Err(error);
        }
        match op.to_arithmetic() {
            Some(numeric) => match lhs.dtype() {
                DType::Decimal(_, _) => execute_numeric_decimal(lhs, rhs, numeric),
                _ => execute_numeric_primitive(lhs, rhs, numeric),
            },
            None => match op.to_comparison() {
                Some(comparison) => execute_compare(lhs, rhs, comparison, self.features),
                None => execute_boolean(lhs, rhs, op),
            },
        }
    }
}

/// The truth value that a node gives in every row.
pub open spec fn node_truth(node: ReduceNodeV) -> Option<Option<bool>> {
    match node.constant {
        Some(cell) => if node.dtype is Bool {
            Some(boolean::truth(cell))
        } else {
            None
        },
        None => None,
    }
}

fn truth_of_node(node: &ReduceNode) -> (out: Option<Option<bool>>)
    ensures
        out == node_truth(node@),
{
    match &node.constant {
        Some(cell) => match &node.dtype {
            DType::Bool(_) => Some(truth_of(cell)),
            _ => None,
        },
        None => None,
    }
}

/// What a boolean operator over constants reduces to, keeping its type: a folded constant takes
/// the operator's type, and an operand replaces the operator only if it has that type.
pub open spec fn boolean_reduction(op: Operator, node: ReduceNodeV) -> Result<
    Option<ReduceNodeV>,
    Seq<char>,
> {
    match boolean::folded(op, node_truth(node.children[0]), node_truth(node.children[1])) {
        None => Ok(None),
        Some(BooleanFold::Constant(truth)) => if truth is None && !node.dtype.nullable() {
            Err(null_constant_in(node.dtype))
        } else {
            Ok(Some(vtable::literal_node(node.dtype, boolean::truth_cell(truth))))
        },
        Some(BooleanFold::Child(index)) => {
            let child = node.children[if index == 0 {
                0
            } else {
                1
            }];
            Ok(
                if child.dtype == node.dtype {
                    Some(child)
                } else {
                    None
                },
            )
        },
    }
}

/// What is said of a null constant of a type that admits none.
pub open spec fn null_constant_in(dtype: DTypeV) -> Seq<char> {
    "a null constant cannot have the type "@ + dtype.text()
}

/// Reduce a boolean operator over constants.
fn reduce_boolean(op: Operator, node: &ReduceNode) -> (out: VortexResult<Option<ReduceNode>>)
    requires
        node.children@.len() == 2,
    ensures
        vtable::reduce_outcome(out) == boolean_reduction(op, node@),
{
    proof {
        vtable::child_models(*node);
    }
    match fold_boolean_constants(
        op,
        truth_of_node(&node.children[0]),
        truth_of_node(&node.children[1]),
    ) {
        None => Ok(None),
        Some(BooleanFold::Constant(truth)) => {
            if truth.is_none() && !node.dtype.is_nullable() {
                return Err(
                    VortexError::new(
                        join2(
                            "a null constant cannot have the type ",
                            node.dtype.to_text().as_str(),
                        ),
                    ),
                );
            }
            Ok(Some(ReduceNode::literal(node.dtype.clone(), boolean::cell_of(truth))))
        },
        Some(BooleanFold::Child(index)) => {
            let child = if index == 0 {
                &node.children[0]
            } else {
                &node.children[1]
            };
            // A nullable constant widens the result; dropping the operator would narrow it back.
            if child.dtype.same_as(&node.dtype) {
                Ok(Some(child.clone()))
            } else {
                Ok(None)
            }
        },
    }
}

/// What is said of another number of operands.
pub open spec fn two_operands() -> Seq<char> {
    "a binary operator takes two operands"@
}

impl ScalarFnVTable for Binary {
    type Options = Operator;

    open spec fn id_text(&self) -> Seq<char> {
        "vortex.binary"@
    }

    open spec fn arity_of(&self, options: &Operator) -> nat {
        2
    }

    open spec fn result_dtype(&self, options: &Operator, dtypes: Seq<DTypeV>) -> Result<
        DTypeV,
        Seq<char>,
    > {
        if dtypes.len() != 2 {
            Err(two_operands())
        } else {
            binary_dtype(*options, dtypes[0], dtypes[1])
        }
    }

    open spec fn result(&self, options: &Operator, args: Seq<ArrayV>, rows: nat) -> Result<
        ArrayV,
        Seq<char>,
    > {
        binary_result(*options, args[0], args[1])
    }

    open spec fn strict(&self, options: &Operator) -> bool {
        *options != Operator::And && *options != Operator::Or
    }

    open spec fn fallible(&self, options: &Operator) -> bool {
        options.arithmetic() is Some
    }

    open spec fn result_validity(&self, options: &Operator, args: Seq<ExprV>) -> Option<ExprV> {
        if *options == Operator::And || *options == Operator::Or {
            None
        } else {
            tree::conjunction(args)
        }
    }

    open spec fn reduction(&self, options: &Operator, node: ReduceNodeV) -> Result<
        Option<ReduceNodeV>,
        Seq<char>,
    > {
        boolean_reduction(*options, node)
    }

    fn id(&self) -> (out: String) {
        String::from_str("vortex.binary")
    }

    fn arity(&self, options: &Operator) -> (out: Arity) {
        Arity::Exact(2)
    }

    fn return_dtype(&self, options: &Operator, dtypes: &Vec<DType>) -> (out: VortexResult<DType>) {
        if dtypes.len() != 2 {
            return Err(VortexError::of("a binary operator takes two operands"));
        }
        operator_dtype(*options, &dtypes[0], &dtypes[1])
    }

    fn execute(&self, options: &Operator, args: &ExecutionArgs) -> (out: VortexResult<Array>) {
        assert(args@[0].len() == args@[1].len());
        self.execute_pair(*options, &args.inputs[0], &args.inputs[1])
    }

    fn is_strict(&self, options: &Operator) -> (out: bool) {
        *options != Operator::And && *options != Operator::Or
    }

    fn is_fallible(&self, options: &Operator) -> (out: bool) {
        options.is_arithmetic()
    }

    fn validity(&self, options: &Operator, args: Vec<Expression>) -> (out: Option<Expression>) {
        // Conjunction and disjunction know their result from one operand alone.
        if *options == Operator::And || *options == Operator::Or {
            None
        } else {
            conjoin(args)
        }
    }

    fn reduce(&self, options: &Operator, node: &ReduceNode) -> (out: VortexResult<Option<ReduceNode>>) {
        reduce_boolean(*options, node)
    }
}

/// Where a binary operator succeeds, its column has as many rows as its operands.
pub proof fn binary_keeps_rows(op: Operator, lhs: ArrayV, rhs: ArrayV)
    requires
        lhs.len() == rhs.len(),
    ensures
        binary_result(op, lhs, rhs) matches Ok(out) ==> out.len() == lhs.len() && out.uniform(),
{
}

/// A binary operator other than conjunction and disjunction is strict: where it succeeds, a row is
/// valid exactly where both operands are.
pub proof fn strict_operators_propagate_nulls(op: Operator, lhs: ArrayV, rhs: ArrayV, r: int)
    requires
        lhs.len() == rhs.len(),
        lhs.uniform(),
        rhs.uniform(),
        op != Operator::And,
        op != Operator::Or,
        binary_result(op, lhs, rhs) is Ok,
        0 <= r < lhs.len(),
    ensures
        (binary_result(op, lhs, rhs)->Ok_0.row(r) is Some) == zip::both_valid(lhs, rhs, r),
{
    match op.arithmetic() {
        Some(numeric) => {
            if lhs.dtype is Decimal {
                decimal::decimal_arithmetic_is_exact_on_valid_rows(numeric, lhs, rhs, r);
            } else {
                arithmetic::arithmetic_is_exact_on_valid_rows(numeric, lhs, rhs, r);
            }
        },
        None => {
            let comparison = op.comparison()->Some_0;
            let declared = compare::compared_dtype(lhs.dtype, rhs.dtype);
            assert(lhs.constant matches Some(cell) ==> lhs.cells[r] == cell && lhs.cells[0] == cell);
            assert(rhs.constant matches Some(cell) ==> rhs.cells[r] == cell && rhs.cells[0] == cell);
            match compare::comparable(lhs.dtype, rhs.dtype) {
                Ok(ptype) => {
                    let values = compare::primitive_values(ptype, comparison, lhs, rhs);
                    zip::zipped_rows(declared, lhs, rhs, values, r);
                },
                Err(_) => {
                    let values = ordered_values(comparison, lhs, rhs);
                    zip::zipped_rows(declared, lhs, rhs, values, r);
                },
            }
        },
    }
}

/// A comparison holds of `(a, b)` exactly where the swapped comparison holds of `(b, a)`: swapping
/// operands and operator shows the same rows.
pub proof fn swapped_comparisons_agree(op: CompareOperator, lhs: ArrayV, rhs: ArrayV, r: int)
    requires
        lhs.len() == rhs.len(),
        lhs.uniform(),
        rhs.uniform(),
        compare::comparable(lhs.dtype, rhs.dtype) is Ok,
        0 <= r < lhs.len(),
    ensures
        compare_result(op, lhs, rhs).row(r) == compare_result(op.swapped(), rhs, lhs).row(r),
{
    let ptype = compare::comparable(lhs.dtype, rhs.dtype)->Ok_0;
    let a = compare::primitive_values(ptype, op, lhs, rhs);
    let b = compare::primitive_values(ptype, op.swapped(), rhs, lhs);
    assert(lhs.constant matches Some(cell) ==> lhs.cells[r] == cell && lhs.cells[0] == cell);
    assert(rhs.constant matches Some(cell) ==> rhs.cells[r] == cell && rhs.cells[0] == cell);
    zip::zipped_rows(compare::compared_dtype(lhs.dtype, rhs.dtype), lhs, rhs, a, r);
    zip::zipped_rows(compare::compared_dtype(rhs.dtype, lhs.dtype), rhs, lhs, b, r);
    assert(a[r] == b[r]);
}

/// Reducing a boolean operator keeps what it gives: the type, nullability included, and in every
/// row the truth value, whatever the operands that are not constant hold there. What it reduces to
/// is a constant without operands, or one of its operands.
pub proof fn reductions_keep_the_operator(
    op: Operator,
    node: ReduceNodeV,
    a: Option<bool>,
    b: Option<bool>,
)
    requires
        node.children.len() == 2,
        boolean::may_hold(node_truth(node.children[0]), a),
        boolean::may_hold(node_truth(node.children[1]), b),
        boolean_reduction(op, node) matches Ok(Some(_)),
    ensures
        ({
            let reduced = boolean_reduction(op, node)->Ok_0->Some_0;
            &&& reduced.dtype == node.dtype
            &&& {
                ||| {
                    &&& reduced.children.len() == 0
                    &&& reduced.constant matches Some(cell) && boolean::truth(cell)
                        == boolean::kleene(op, a, b)
                }
                ||| reduced == node.children[0] && boolean::kleene(op, a, b) == a
                ||| reduced == node.children[1] && boolean::kleene(op, a, b) == b
            }
        }),
{
    boolean::folding_keeps_the_operator(
        op,
        node_truth(node.children[0]),
        node_truth(node.children[1]),
        a,
        b,
    );
}

} // verus!
