//! Rewriting expressions into simpler ones.

use std::sync::Arc;

use vstd::prelude::*;

use crate::dtype::{DType, DTypeV, Nullability};
use crate::error::{VortexError, VortexResult};
use crate::expr::tree::{ExprV, Expression};
use crate::scalar_fn::fns::binary;
use crate::scalar_fn::fns::boolean::{self, fold_boolean_constants, truth_of, BooleanFold};
use crate::scalar_fn::fns::list_transform::ListTransformOptions;
use crate::scalar_fn::fns::operators::Operator;
use crate::value::{self, Cell, CellV, Value, ValueV};

verus! {

impl ExprV {
    /// The truth value of a boolean literal.
    pub open spec fn literal_truth(self) -> Option<Option<bool>> {
        match self {
            ExprV::Literal(DTypeV::Bool(_), cell) => Some(boolean::truth(cell)),
            _ => None,
        }
    }

    /// The expression is a null literal.
    pub open spec fn is_null_literal(self) -> bool {
        self matches ExprV::Literal(_, cell) && !cell.valid
    }

    /// The expression with its scope replaced by what another expression gives. The bodies of list
    /// transforms have a scope of their own and stay as they are.
    pub open spec fn substituted(self, scope: ExprV) -> ExprV
        decreases self,
    {
        match self {
            ExprV::Root => scope,
            ExprV::Literal(_, _) => self,
            ExprV::GetItem(name, child) => ExprV::GetItem(name, Box::new(child.substituted(scope))),
            ExprV::Binary(op, lhs, rhs) => ExprV::Binary(
                op,
                Box::new(lhs.substituted(scope)),
                Box::new(rhs.substituted(scope)),
            ),
            ExprV::Not(child) => ExprV::Not(Box::new(child.substituted(scope))),
            ExprV::ByteLength(child) => ExprV::ByteLength(Box::new(child.substituted(scope))),
            ExprV::ListExtreme(greatest, options, child) => ExprV::ListExtreme(
                greatest,
                options,
                Box::new(child.substituted(scope)),
            ),
            ExprV::ListTransform(body, child) => ExprV::ListTransform(
                body,
                Box::new(child.substituted(scope)),
            ),
            ExprV::IsNotNull(child) => ExprV::IsNotNull(Box::new(child.substituted(scope))),
        }
    }

    /// What the expression simplifies to without type information: boolean operators fold over
    /// constants, a list transform by the identity is its input, and a transform of a transform is
    /// one transform.
    pub open spec fn simplified_untyped(self) -> Option<ExprV> {
        match self {
            ExprV::Binary(op, lhs, rhs) => match boolean::folded(
                op,
                lhs.literal_truth(),
                rhs.literal_truth(),
            ) {
                None => None,
                Some(BooleanFold::Constant(Some(b))) => Some(
                    ExprV::Literal(
                        DTypeV::Bool(Nullability::NonNullable),
                        CellV { valid: true, value: ValueV::Bool(b) },
                    ),
                ),
                Some(BooleanFold::Constant(None)) => Some(null_boolean()),
                Some(BooleanFold::Child(index)) => Some(
                    if index == 0 {
                        *lhs
                    } else {
                        *rhs
                    },
                ),
            },
            ExprV::ListTransform(body, input) => if *body is Root {
                Some(*input)
            } else {
                match *input {
                    ExprV::ListTransform(inner, deeper) => Some(
                        ExprV::ListTransform(Box::new(body.substituted(*inner)), deeper),
                    ),
                    _ => None,
                }
            },
            _ => None,
        }
    }

    /// What the expression simplifies to in a scope of this type: a comparison with a null literal
    /// is null, once its types are checked.
    pub open spec fn simplified(self, scope: DTypeV) -> Result<Option<ExprV>, Seq<char>> {
        match self {
            ExprV::Binary(op, lhs, rhs) => if op.comparison() is Some && (lhs.is_null_literal()
                || rhs.is_null_literal()) {
                match self.dtype(scope) {
                    Err(error) => Err(error),
                    Ok(_) => Ok(Some(null_boolean())),
                }
            } else {
                Ok(None)
            },
            _ => Ok(None),
        }
    }

    /// What a boolean operator reduces to, keeping its type: a folded constant takes the
    /// operator's type, and an operand replaces the operator only if it has that type.
    pub open spec fn reduced(self, scope: DTypeV) -> Result<Option<ExprV>, Seq<char>> {
        match self {
            ExprV::Binary(op, lhs, rhs) => match boolean::folded(
                op,
                lhs.literal_truth(),
                rhs.literal_truth(),
            ) {
                None => Ok(None),
                Some(fold) => match self.dtype(scope) {
                    Err(error) => Err(error),
                    Ok(dtype) => match fold {
                        BooleanFold::Constant(truth) => if truth is None && !dtype.nullable() {
                            Err(binary::null_constant_in(dtype))
                        } else {
                            Ok(Some(ExprV::Literal(dtype, boolean::truth_cell(truth))))
                        },
                        BooleanFold::Child(index) => {
                            let child = if index == 0 {
                                *lhs
                            } else {
                                *rhs
                            };
                            match child.dtype(scope) {
                                Err(error) => Err(error),
                                Ok(kept) => Ok(
                                    if kept == dtype {
                                        Some(child)
                                    } else {
                                        None
                                    },
                                ),
                            }
                        },
                    },
                },
            },
            _ => Ok(None),
        }
    }

    /// One step of simplification, untyped rules first.
    pub open spec fn stepped(self, scope: DTypeV) -> Result<ExprV, Seq<char>> {
        match self.simplified_untyped() {
            Some(simpler) => Ok(simpler),
            None => match self.simplified(scope) {
                Err(error) => Err(error),
                Ok(Some(simpler)) => Ok(simpler),
                Ok(None) => Ok(self),
            },
        }
    }

    /// The expression simplified from its operands up.
    pub open spec fn optimized(self, scope: DTypeV) -> Result<ExprV, Seq<char>>
        decreases self,
    {
        match self {
            ExprV::Root => Ok(self),
            ExprV::Literal(_, _) => Ok(self),
            ExprV::GetItem(name, child) => match child.optimized(scope) {
                Err(error) => Err(error),
                Ok(child) => ExprV::GetItem(name, Box::new(child)).stepped(scope),
            },
            ExprV::Binary(op, lhs, rhs) => match lhs.optimized(scope) {
                Err(error) => Err(error),
                Ok(lhs) => match rhs.optimized(scope) {
                    Err(error) => Err(error),
                    Ok(rhs) => ExprV::Binary(op, Box::new(lhs), Box::new(rhs)).stepped(scope),
                },
            },
            ExprV::Not(child) => match child.optimized(scope) {
                Err(error) => Err(error),
                Ok(child) => ExprV::Not(Box::new(child)).stepped(scope),
            },
            ExprV::ByteLength(child) => match child.optimized(scope) {
                Err(error) => Err(error),
                Ok(child) => ExprV::ByteLength(Box::new(child)).stepped(scope),
            },
            ExprV::ListExtreme(greatest, options, child) => match child.optimized(scope) {
                Err(error) => Err(error),
                Ok(child) => ExprV::ListExtreme(greatest, options, Box::new(child)).stepped(scope),
            },
            ExprV::ListTransform(body, child) => match child.optimized(scope) {
                Err(error) => Err(error),
                Ok(child) => ExprV::ListTransform(body, Box::new(child)).stepped(scope),
            },
            ExprV::IsNotNull(child) => match child.optimized(scope) {
                Err(error) => Err(error),
                Ok(child) => ExprV::IsNotNull(Box::new(child)).stepped(scope),
            },
        }
    }

    /// Whether legal values can make the expression fail: some operator in it, or in the body of a
    /// list transform, can.
    pub open spec fn fallible(self) -> bool
        decreases self,
    {
        match self {
            ExprV::Root => false,
            ExprV::Literal(_, _) => false,
            ExprV::GetItem(_, child) => child.fallible(),
            ExprV::Binary(op, lhs, rhs) => op.arithmetic() is Some || lhs.fallible()
                || rhs.fallible(),
            ExprV::Not(child) => child.fallible(),
            ExprV::ByteLength(child) => child.fallible(),
            ExprV::ListExtreme(_, _, child) => child.fallible(),
            ExprV::ListTransform(body, child) => body.fallible() || child.fallible(),
            ExprV::IsNotNull(child) => child.fallible(),
        }
    }

    /// The expression that tells which rows are valid: a strict operator's operands must all be, as
    /// must a list transform's input or a string that is measured, and anything else is asked itself.
    pub open spec fn validity(self) -> ExprV
        decreases self,
    {
        match self {
            ExprV::Binary(op, lhs, rhs) => if op == Operator::And || op == Operator::Or {
                ExprV::IsNotNull(Box::new(self))
            } else {
                ExprV::Binary(Operator::And, Box::new(lhs.validity()), Box::new(rhs.validity()))
            },
            ExprV::ByteLength(child) => child.validity(),
            ExprV::ListTransform(_, child) => child.validity(),
            _ => ExprV::IsNotNull(Box::new(self)),
        }
    }
}

/// The null boolean literal.
pub open spec fn null_boolean() -> ExprV {
    ExprV::Literal(DTypeV::Bool(Nullability::Nullable), value::null_cell())
}

/// An optional rewrite as what it is.
pub open spec fn rewrite(result: Option<Expression>) -> Option<ExprV> {
    match result {
        Some(expr) => Some(expr@),
        None => None,
    }
}

/// A fallible rewrite as what it is.
pub open spec fn rewrite_outcome(result: VortexResult<Option<Expression>>) -> Result<
    Option<ExprV>,
    Seq<char>,
> {
    match result {
        Ok(rewritten) => Ok(rewrite(rewritten)),
        Err(error) => Err(error@),
    }
}

/// A fallible expression as what it is.
pub open spec fn expr_outcome(result: VortexResult<Expression>) -> Result<ExprV, Seq<char>> {
    match result {
        Ok(expr) => Ok(expr@),
        Err(error) => Err(error@),
    }
}

fn null_boolean_literal() -> (out: Expression)
    ensures
        out@ == null_boolean(),
{
    Expression::Literal(DType::Bool(Nullability::Nullable), Cell::null())
}

impl Expression {
    /// The truth value of a boolean literal.
    pub fn bool_literal(&self) -> (out: Option<Option<bool>>)
        ensures
            out == self@.literal_truth(),
    {
        match self {
            Expression::Literal(DType::Bool(_), cell) => Some(truth_of(cell)),
            _ => None,
        }
    }

    /// Whether the expression is a null literal.
    pub fn is_literal_null(&self) -> (out: bool)
        ensures
            out == self@.is_null_literal(),
    {
        match self {
            Expression::Literal(_, cell) => !cell.valid,
            _ => false,
        }
    }

    /// Replace the scope of the expression.
    pub fn replace_root(&self, scope: &Expression) -> (out: Expression)
        ensures
            out@ == self@.substituted(scope@),
        decreases self,
    {
        match self {
            Expression::Root => scope.clone(),
            Expression::Literal(_, _) => self.clone(),
            Expression::GetItem(name, child) => Expression::GetItem(
                name.clone(),
                Arc::new(child.replace_root(scope)),
            ),
            Expression::Binary(op, lhs, rhs) => Expression::Binary(
                *op,
                Arc::new(lhs.replace_root(scope)),
                Arc::new(rhs.replace_root(scope)),
            ),
            Expression::Not(child) => Expression::Not(Arc::new(child.replace_root(scope))),
            Expression::ByteLength(child) => Expression::ByteLength(
                Arc::new(child.replace_root(scope)),
            ),
            Expression::ListExtreme(greatest, options, child) => Expression::ListExtreme(
                *greatest,
                *options,
                Arc::new(child.replace_root(scope)),
            ),
            Expression::ListTransform(options, child) => Expression::ListTransform(
                Arc::clone(options),
                Arc::new(child.replace_root(scope)),
            ),
            Expression::IsNotNull(child) => Expression::IsNotNull(
                Arc::new(child.replace_root(scope)),
            ),
        }
    }

    /// Simplify without type information.
    pub fn simplify_untyped(&self) -> (out: Option<Expression>)
        ensures
            rewrite(out) == self@.simplified_untyped(),
    {
        match self {
            Expression::Binary(op, lhs, rhs) => match fold_boolean_constants(
                *op,
                lhs.bool_literal(),
                rhs.bool_literal(),
            ) {
                None => None,
                Some(BooleanFold::Constant(Some(b))) => Some(
                    Expression::Literal(
                        DType::Bool(Nullability::NonNullable),
                        Cell::valid(Value::Bool(b)),
                    ),
                ),
                Some(BooleanFold::Constant(None)) => Some(null_boolean_literal()),
                Some(BooleanFold::Child(index)) => if index == 0 {
                    Some((**lhs).clone())
                } else {
                    Some((**rhs).clone())
                },
            },
            Expression::ListTransform(options, input) => {
                assert(self@ == ExprV::ListTransform(Box::new(options.body@), Box::new(input@)));
                if let Expression::Root = &options.body {
                    assert(options.body@ is Root);
                    return Some((**input).clone());
                }
                assert(!(options.body@ is Root));
                match &**input {
                    Expression::ListTransform(inner, deeper) => {
                        assert(input@ == ExprV::ListTransform(
                            Box::new(inner.body@),
                            Box::new(deeper@),
                        ));
                        let fused = Expression::ListTransform(
                            Arc::new(
                                ListTransformOptions {
                                    body: options.body.replace_root(&inner.body),
                                },
                            ),
                            Arc::clone(deeper),
                        );
                        assert(fused@ == ExprV::ListTransform(
                            Box::new(options.body@.substituted(inner.body@)),
                            Box::new(deeper@),
                        ));
                        Some(fused)
                    },
                    _ => {
                        assert(!(input@ is ListTransform));
                        None
                    },
                }
            },
            _ => None,
        }
    }

    /// Simplify in a scope of this type.
    pub fn simplify(&self, scope: &DType) -> (out: VortexResult<Option<Expression>>)
        ensures
            rewrite_outcome(out) == self@.simplified(scope@),
    {
        match self {
            Expression::Binary(op, lhs, rhs) => if op.is_comparison() && (lhs.is_literal_null()
                || rhs.is_literal_null()) {
                match self.return_dtype(scope) {
                    Err(error) => Err(error),
                    Ok(_) => Ok(Some(null_boolean_literal())),
                }
            } else {
                Ok(None)
            },
            _ => Ok(None),
        }
    }

    /// Reduce a boolean operator over constants, keeping its type.
    pub fn reduce(&self, scope: &DType) -> (out: VortexResult<Option<Expression>>)
        ensures
            rewrite_outcome(out) == self@.reduced(scope@),
    {
        let (op, lhs, rhs) = match self {
            Expression::Binary(op, lhs, rhs) => (*op, lhs, rhs),
            _ => return Ok(None),
        };
        let fold = match fold_boolean_constants(op, lhs.bool_literal(), rhs.bool_literal()) {
            Some(fold) => fold,
            None => return Ok(None),
        };
        let dtype = match self.return_dtype(scope) {
            Ok(dtype) => dtype,
            Err(error) => return Err(error),
        };
        match fold {
            BooleanFold::Constant(truth) => {
                if truth.is_none() && !dtype.is_nullable() {
                    return Err(
                        VortexError::new(
                            crate::text::join2(
                                "a null constant cannot have the type ",
                                dtype.to_text().as_str(),
                            ),
                        ),
                    );
                }
                Ok(Some(Expression::Literal(dtype, boolean::cell_of(truth))))
            },
            BooleanFold::Child(index) => {
                let child = if index == 0 {
                    lhs
                } else {
                    rhs
                };
                match child.return_dtype(scope) {
                    Err(error) => Err(error),
                    Ok(kept) => if kept.same_as(&dtype) {
                        Ok(Some((**child).clone()))
                    } else {
                        Ok(None)
                    },
                }
            },
        }
    }

    /// One step of simplification.
    fn step(self, scope: &DType) -> (out: VortexResult<Expression>)
        ensures
            expr_outcome(out) == self@.stepped(scope@),
    {
        match self.simplify_untyped() {
            Some(simpler) => Ok(simpler),
            None => match self.simplify(scope) {
                Err(error) => Err(error),
                Ok(Some(simpler)) => Ok(simpler),
                Ok(None) => Ok(self),
            },
        }
    }

    /// Simplify from the operands up.
    pub fn optimize_recursive(&self, scope: &DType) -> (out: VortexResult<Expression>)
        ensures
            expr_outcome(out) == self@.optimized(scope@),
        decreases self,
    {
        match self {
            Expression::Root => Ok(self.clone()),
            Expression::Literal(_, _) => Ok(self.clone()),
            Expression::GetItem(name, child) => match child.optimize_recursive(scope) {
                Err(error) => Err(error),
                Ok(child) => Expression::GetItem(name.clone(), Arc::new(child)).step(scope),
            },
            Expression::Binary(op, lhs, rhs) => match lhs.optimize_recursive(scope) {
                Err(error) => Err(error),
                Ok(lhs) => match rhs.optimize_recursive(scope) {
                    Err(error) => Err(error),
                    Ok(rhs) => Expression::Binary(*op, Arc::new(lhs), Arc::new(rhs)).step(scope),
                },
            },
            Expression::Not(child) => match child.optimize_recursive(scope) {
                Err(error) => Err(error),
                Ok(child) => Expression::Not(Arc::new(child)).step(scope),
            },
            Expression::ByteLength(child) => match child.optimize_recursive(scope) {
                Err(error) => Err(error),
                Ok(child) => Expression::ByteLength(Arc::new(child)).step(scope),
            },
            Expression::ListExtreme(greatest, options, child) => match child.optimize_recursive(
                scope,
            ) {
                Err(error) => Err(error),
                Ok(child) => Expression::ListExtreme(*greatest, *options, Arc::new(child)).step(
                    scope,
                ),
            },
            Expression::ListTransform(options, child) => match child.optimize_recursive(scope) {
                Err(error) => Err(error),
                Ok(child) => Expression::ListTransform(Arc::clone(options), Arc::new(child)).step(
                    scope,
                ),
            },
            Expression::IsNotNull(child) => match child.optimize_recursive(scope) {
                Err(error) => Err(error),
                Ok(child) => Expression::IsNotNull(Arc::new(child)).step(scope),
            },
        }
    }

    /// Whether legal values can make the expression fail.
    pub fn is_fallible(&self) -> (out: bool)
        ensures
            out == self@.fallible(),
        decreases self,
    {
        match self {
            Expression::Root => false,
            Expression::Literal(_, _) => false,
            Expression::GetItem(_, child) => child.is_fallible(),
            Expression::Binary(op, lhs, rhs) => op.is_arithmetic() || lhs.is_fallible()
                || rhs.is_fallible(),
            Expression::Not(child) => child.is_fallible(),
            Expression::ByteLength(child) => child.is_fallible(),
            Expression::ListExtreme(_, _, child) => child.is_fallible(),
            Expression::ListTransform(options, child) => options.body.is_fallible()
                || child.is_fallible(),
            Expression::IsNotNull(child) => child.is_fallible(),
        }
    }

    /// The expression that tells which rows are valid.
    pub fn validity(&self) -> (out: Expression)
        ensures
            out@ == self@.validity(),
        decreases self,
    {
        match self {
            Expression::Binary(op, lhs, rhs) => if *op == Operator::And || *op == Operator::Or {
                Expression::IsNotNull(Arc::new(self.clone()))
            } else {
                Expression::Binary(
                    Operator::And,
                    Arc::new(lhs.validity()),
                    Arc::new(rhs.validity()),
                )
            },
            Expression::ByteLength(child) => child.validity(),
            Expression::ListTransform(_, child) => child.validity(),
            _ => Expression::IsNotNull(Arc::new(self.clone())),
        }
    }
}

} // verus!
