//! Boolean operators in three-valued logic.

use vstd::prelude::*;

use crate::array::{self, Array, ArrayV};
use crate::dtype::{DType, DTypeV};
use crate::error::VortexResult;
use crate::scalar_fn::fns::operators::Operator;
use crate::scalar_fn::row::primitive::{self, wrong_column_error};
use crate::scalar_fn::vtable;
use crate::value::{self, Cell, CellV, Value, ValueV};

verus! {

/// `and` or `or` of two truth values, of which `None` is unknown: false decides an `and`, true an
/// `or`, and otherwise an unknown side makes the result unknown.
pub open spec fn kleene(op: Operator, a: Option<bool>, b: Option<bool>) -> Option<bool> {
    let decider = op == Operator::Or;
    if a == Some(decider) || b == Some(decider) {
        Some(decider)
    } else if a is None || b is None {
        None
    } else {
        Some(!decider)
    }
}

/// Combine two truth values.
pub fn combine(op: Operator, a: Option<bool>, b: Option<bool>) -> (out: Option<bool>)
    ensures
        out == kleene(op, a, b),
{
    let decider = op == Operator::Or;
    match (a, b) {
        (Some(x), Some(y)) => if x == decider || y == decider {
            Some(decider)
        } else {
            Some(!decider)
        },
        (Some(x), None) => if x == decider {
            Some(decider)
        } else {
            None
        },
        (None, Some(y)) => if y == decider {
            Some(decider)
        } else {
            None
        },
        (None, None) => None,
    }
}

/// What a boolean row says.
pub open spec fn truth(cell: CellV) -> Option<bool> {
    if cell.valid && cell.value is Bool {
        Some(cell.value->Bool_0)
    } else {
        None
    }
}

/// The row that says this.
pub open spec fn truth_cell(truth: Option<bool>) -> CellV {
    match truth {
        Some(b) => CellV { valid: true, value: ValueV::Bool(b) },
        None => value::null_cell(),
    }
}

/// What a boolean row says.
pub fn truth_of(cell: &Cell) -> (out: Option<bool>)
    ensures
        out == truth(cell@),
{
    if !cell.valid {
        return None;
    }
    match &cell.value {
        Value::Bool(b) => Some(*b),
        _ => None,
    }
}

/// The row that says this.
pub fn cell_of(truth: Option<bool>) -> (out: Cell)
    ensures
        out@ == truth_cell(truth),
{
    match truth {
        Some(b) => Cell::valid(Value::Bool(b)),
        None => Cell::null(),
    }
}

/// The rows of a boolean operator.
pub open spec fn kleene_cells(op: Operator, lhs: ArrayV, rhs: ArrayV) -> Seq<CellV> {
    Seq::new(
        lhs.len(),
        |r: int| truth_cell(kleene(op, truth(lhs.cells[r]), truth(rhs.cells[r]))),
    )
}

/// A boolean operator on two columns. Two constants give a constant.
pub open spec fn boolean_result(op: Operator, lhs: ArrayV, rhs: ArrayV) -> Result<
    ArrayV,
    Seq<char>,
> {
    if !(lhs.dtype is Bool) {
        Err(primitive::wrong_column("bool"@, lhs.dtype))
    } else if !(rhs.dtype is Bool) {
        Err(primitive::wrong_column("bool"@, rhs.dtype))
    } else {
        let declared = DTypeV::Bool(lhs.dtype.nullability().union(rhs.dtype.nullability()));
        let cells = kleene_cells(op, lhs, rhs);
        if lhs.len() > 0 && lhs.constant is Some && rhs.constant is Some {
            Ok(array::constant(declared, cells[0], lhs.len()))
        } else {
            Ok(array::column(declared, cells))
        }
    }
}

/// Execute `and` or `or` over two boolean columns.
pub fn execute_boolean(lhs: &Array, rhs: &Array, op: Operator) -> (out: VortexResult<Array>)
    requires
        lhs@.len() == rhs@.len(),
    ensures
        vtable::outcome(out) == boolean_result(op, lhs@, rhs@),
{
    match lhs.dtype() {
        DType::Bool(_) => {},
        _ => return Err(wrong_column_error("bool", lhs.dtype())),
    }
    match rhs.dtype() {
        DType::Bool(_) => {},
        _ => return Err(wrong_column_error("bool", rhs.dtype())),
    }
    let declared = DType::Bool(lhs.dtype().nullability().or(rhs.dtype().nullability()));
    let rows: usize = lhs.len();
    if rows > 0 && lhs.as_constant().is_some() && rhs.as_constant().is_some() {
        let cell = cell_of(combine(op, truth_of(&lhs.cell(0)), truth_of(&rhs.cell(0))));
        return Ok(Array::constant(declared, cell, rows));
    }
    let ghost expected = kleene_cells(op, lhs@, rhs@);
    let mut cells: Vec<Cell> = Vec::new();
    let mut index: usize = 0;
    while index < rows
        invariant
            index <= rows == lhs@.len() == rhs@.len(),
            expected == kleene_cells(op, lhs@, rhs@),
            array::cells_model(cells@) == expected.take(index as int),
        decreases rows - index,
    {
        let ghost before = cells@;
        let cell = cell_of(combine(op, truth_of(&lhs.cell(index)), truth_of(&rhs.cell(index))));
        cells.push(cell);
        proof {
            assert(array::cells_model(cells@) =~= array::cells_model(before).push(cell@));
            assert(expected.take(index + 1) =~= expected.take(index as int).push(
                expected[index as int],
            ));
        }
        index = index + 1;
    }
    assert(expected.take(rows as int) =~= expected);
    Ok(Array::column(declared, cells))
}

/// What a boolean operator with constant operands folds to.
#[derive(Clone, Copy, PartialEq, Eq, Structural, Debug)]
pub enum BooleanFold {
    /// One truth value, whatever the operands hold.
    Constant(Option<bool>),
    /// The operand of this index.
    Child(usize),
}

/// The fold of a boolean operator whose operands may be constants.
pub open spec fn folded(
    op: Operator,
    lhs: Option<Option<bool>>,
    rhs: Option<Option<bool>>,
) -> Option<BooleanFold> {
    let decider = op == Operator::Or;
    if op != Operator::And && op != Operator::Or {
        None
    } else if lhs == Some(Some(decider)) || rhs == Some(Some(decider)) {
        Some(BooleanFold::Constant(Some(decider)))
    } else if lhs == Some(Some(!decider)) {
        Some(BooleanFold::Child(1))
    } else if rhs == Some(Some(!decider)) {
        Some(BooleanFold::Child(0))
    } else if lhs is Some && rhs is Some {
        Some(BooleanFold::Constant(None))
    } else {
        None
    }
}

/// Fold a boolean operator over the operands that are constant. `None` stands for an operand that
/// is not a boolean constant.
pub fn fold_boolean_constants(
    op: Operator,
    lhs: Option<Option<bool>>,
    rhs: Option<Option<bool>>,
) -> (out: Option<BooleanFold>)
    ensures
        out == folded(op, lhs, rhs),
{
    let decider = match op {
        Operator::And => false,
        Operator::Or => true,
        _ => return None,
    };
    let mut unknown: usize = 0;
    if let Some(side) = lhs {
        match side {
            Some(b) => if b == decider {
                return Some(BooleanFold::Constant(Some(decider)));
            },
            None => {
                unknown = unknown + 1;
            },
        }
    }
    if let Some(side) = rhs {
        match side {
            Some(b) => if b == decider {
                return Some(BooleanFold::Constant(Some(decider)));
            },
            None => {
                unknown = unknown + 1;
            },
        }
    }
    if let Some(Some(_)) = lhs {
        return Some(BooleanFold::Child(1));
    }
    if let Some(Some(_)) = rhs {
        return Some(BooleanFold::Child(0));
    }
    if unknown == 2 {
        Some(BooleanFold::Constant(None))
    } else {
        None
    }
}

/// `side` can hold `value`: it is not constant, or it is that constant.
pub open spec fn may_hold(side: Option<Option<bool>>, value: Option<bool>) -> bool {
    side matches Some(constant) ==> constant == value
}

/// A fold gives what the operator gives, for every value that the operands can hold.
pub proof fn folding_keeps_the_operator(
    op: Operator,
    lhs: Option<Option<bool>>,
    rhs: Option<Option<bool>>,
    a: Option<bool>,
    b: Option<bool>,
)
    requires
        may_hold(lhs, a),
        may_hold(rhs, b),
    ensures
        match folded(op, lhs, rhs) {
            Some(BooleanFold::Constant(value)) => kleene(op, a, b) == value,
            Some(BooleanFold::Child(index)) => (index == 0 && kleene(op, a, b) == a) || (index == 1
                && kleene(op, a, b) == b),
            None => true,
        },
{
    let decider = op == Operator::Or;
    known_side(lhs, decider);
    known_side(rhs, decider);
    known_side(Some(a), decider);
    known_side(Some(b), decider);
}

/// A constant is unknown, the decider or its opposite.
proof fn known_side(side: Option<Option<bool>>, decider: bool)
    ensures
        side is None || side == Some(None::<bool>) || side == Some(Some(decider)) || side == Some(
            Some(!decider),
        ),
{
    match side {
        Some(Some(x)) => {
            assert(x == decider || x == !decider);
        },
        _ => {},
    }
}

/// Without a fold, the operator depends on both operands or on an unknown one: no constant and no
/// operand stands for it.
pub proof fn unfolded_operators_depend_on_values(
    op: Operator,
    lhs: Option<Option<bool>>,
    rhs: Option<Option<bool>>,
    value: Option<bool>,
)
    requires
        op == Operator::And || op == Operator::Or,
        folded(op, lhs, rhs) is None,
    ensures
        exists|a: Option<bool>, b: Option<bool>|
            may_hold(lhs, a) && may_hold(rhs, b) && #[trigger] kleene(op, a, b) != value,
        exists|a: Option<bool>, b: Option<bool>|
            may_hold(lhs, a) && may_hold(rhs, b) && #[trigger] kleene(op, a, b) != a,
        exists|a: Option<bool>, b: Option<bool>|
            may_hold(lhs, a) && may_hold(rhs, b) && #[trigger] kleene(op, a, b) != b,
{
    let decider = op == Operator::Or;
    let a: Option<bool> = match lhs {
        Some(constant) => constant,
        None => Some(!decider),
    };
    let b: Option<bool> = match rhs {
        Some(constant) => constant,
        None => Some(!decider),
    };
    let d = Some(decider);
    known_side(lhs, decider);
    known_side(rhs, decider);
    assert(may_hold(lhs, a) && may_hold(rhs, b));
    if lhs is None {
        assert(may_hold(lhs, d));
        assert(kleene(op, d, b) == d);
        assert(kleene(op, a, b) != d);
    } else {
        assert(may_hold(rhs, d));
        assert(kleene(op, a, d) == d);
        assert(kleene(op, a, b) != d);
    }
    if lhs is None && rhs is None {
        assert(kleene(op, Some(!decider), d) == d);
        assert(kleene(op, d, Some(!decider)) == d);
        assert(may_hold(lhs, Some(!decider)) && may_hold(rhs, Some(!decider)));
    } else if lhs is None {
        assert(kleene(op, Some(!decider), b) == None::<bool>);
    } else {
        assert(kleene(op, a, Some(!decider)) == None::<bool>);
    }
}

} // verus!
