//! Comparison and binary operators.

use vstd::prelude::*;

use crate::scalar_fn::fns::numeric::NumericOperator;

verus! {

/// A comparison between two ordered values.
#[derive(Clone, Copy, PartialEq, Eq, Structural, Debug, Hash)]
pub enum CompareOperator {
    Eq,
    NotEq,
    Gt,
    Gte,
    Lt,
    Lte,
}

impl CompareOperator {
    /// Whether the comparison holds between two places in an order.
    pub open spec fn holds(self, lhs: int, rhs: int) -> bool {
        match self {
            CompareOperator::Eq => lhs == rhs,
            CompareOperator::NotEq => lhs != rhs,
            CompareOperator::Gt => lhs > rhs,
            CompareOperator::Gte => lhs >= rhs,
            CompareOperator::Lt => lhs < rhs,
            CompareOperator::Lte => lhs <= rhs,
        }
    }

    /// The comparison that holds of `(b, a)` exactly when `self` holds of `(a, b)`.
    pub open spec fn swapped(self) -> CompareOperator {
        match self {
            CompareOperator::Eq => CompareOperator::Eq,
            CompareOperator::NotEq => CompareOperator::NotEq,
            CompareOperator::Gt => CompareOperator::Lt,
            CompareOperator::Gte => CompareOperator::Lte,
            CompareOperator::Lt => CompareOperator::Gt,
            CompareOperator::Lte => CompareOperator::Gte,
        }
    }

    /// Exchange the operands.
    pub fn swap(self) -> (out: CompareOperator)
        ensures
            out == self.swapped(),
            forall|a: int, b: int| #[trigger] out.holds(b, a) == self.holds(a, b),
    {
        match self {
            CompareOperator::Eq => CompareOperator::Eq,
            CompareOperator::NotEq => CompareOperator::NotEq,
            CompareOperator::Gt => CompareOperator::Lt,
            CompareOperator::Gte => CompareOperator::Lte,
            CompareOperator::Lt => CompareOperator::Gt,
            CompareOperator::Lte => CompareOperator::Gte,
        }
    }
}

/// A binary operator.
#[derive(Clone, Copy, PartialEq, Eq, Structural, Debug, Hash)]
pub enum Operator {
    Eq,
    NotEq,
    Gt,
    Gte,
    Lt,
    Lte,
    And,
    Or,
    Add,
    Sub,
    Mul,
    Div,
}

impl Operator {
    /// The comparison that this operator is.
    pub open spec fn comparison(self) -> Option<CompareOperator> {
        match self {
            Operator::Eq => Some(CompareOperator::Eq),
            Operator::NotEq => Some(CompareOperator::NotEq),
            Operator::Gt => Some(CompareOperator::Gt),
            Operator::Gte => Some(CompareOperator::Gte),
            Operator::Lt => Some(CompareOperator::Lt),
            Operator::Lte => Some(CompareOperator::Lte),
            _ => None,
        }
    }

    /// The arithmetic operator that this operator is.
    pub open spec fn arithmetic(self) -> Option<NumericOperator> {
        match self {
            Operator::Add => Some(NumericOperator::Add),
            Operator::Sub => Some(NumericOperator::Sub),
            Operator::Mul => Some(NumericOperator::Mul),
            Operator::Div => Some(NumericOperator::Div),
            _ => None,
        }
    }

    /// How the operator is written.
    pub open spec fn symbol(self) -> Seq<char> {
        match self {
            Operator::Eq => "="@,
            Operator::NotEq => "!="@,
            Operator::Gt => ">"@,
            Operator::Gte => ">="@,
            Operator::Lt => "<"@,
            Operator::Lte => "<="@,
            Operator::And => "and"@,
            Operator::Or => "or"@,
            Operator::Add => "+"@,
            Operator::Sub => "-"@,
            Operator::Mul => "*"@,
            Operator::Div => "/"@,
        }
    }

    pub fn to_comparison(self) -> (out: Option<CompareOperator>)
        ensures
            out == self.comparison(),
    {
        match self {
            Operator::Eq => Some(CompareOperator::Eq),
            Operator::NotEq => Some(CompareOperator::NotEq),
            Operator::Gt => Some(CompareOperator::Gt),
            Operator::Gte => Some(CompareOperator::Gte),
            Operator::Lt => Some(CompareOperator::Lt),
            Operator::Lte => Some(CompareOperator::Lte),
            _ => None,
        }
    }

    pub fn to_arithmetic(self) -> (out: Option<NumericOperator>)
        ensures
            out == self.arithmetic(),
    {
        match self {
            Operator::Add => Some(NumericOperator::Add),
            Operator::Sub => Some(NumericOperator::Sub),
            Operator::Mul => Some(NumericOperator::Mul),
            Operator::Div => Some(NumericOperator::Div),
            _ => None,
        }
    }

    pub fn is_comparison(self) -> (out: bool)
        ensures
            out == (self.comparison() is Some),
    {
        self.to_comparison().is_some()
    }

    pub fn is_arithmetic(self) -> (out: bool)
        ensures
            out == (self.arithmetic() is Some),
    {
        self.to_arithmetic().is_some()
    }

    /// How the operator is written.
    pub fn text(self) -> (out: &'static str)
        ensures
            out@ == self.symbol(),
    {
        match self {
            Operator::Eq => "=",
            Operator::NotEq => "!=",
            Operator::Gt => ">",
            Operator::Gte => ">=",
            Operator::Lt => "<",
            Operator::Lte => "<=",
            Operator::And => "and",
            Operator::Or => "or",
            Operator::Add => "+",
            Operator::Sub => "-",
            Operator::Mul => "*",
            Operator::Div => "/",
        }
    }
}

} // verus!
