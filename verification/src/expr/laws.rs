//! What rewriting expressions keeps.

use vstd::prelude::*;

use crate::array::ArrayV;
use crate::dtype::{DTypeV, Nullability};
use crate::expr::eval;
use crate::expr::tree::ExprV;
use crate::scalar_fn::fns::binary;
use crate::scalar_fn::fns::boolean;
use crate::scalar_fn::fns::byte_length;
use crate::scalar_fn::fns::operators::Operator;
use crate::scalar_fn::fns::zip;
use crate::value::{CellV, ValueV};

verus! {

/// Two columns say the same truth in every row.
pub open spec fn same_truth(a: ArrayV, b: ArrayV) -> bool {
    &&& a.len() == b.len()
    &&& forall|r: int|
        0 <= r < a.len() ==> #[trigger] boolean::truth(a.cells[r]) == boolean::truth(b.cells[r])
}

/// Folding a boolean operator over constants keeps its truth in every row: wherever the operator
/// evaluates, so does what it folds to.
pub proof fn folding_keeps_truth(expr: ExprV, scope: ArrayV)
    requires
        scope.uniform(),
        expr is Binary,
        expr.simplified_untyped() is Some,
        expr.evaluated(scope) is Ok,
    ensures
        expr.simplified_untyped()->Some_0.evaluated(scope) matches Ok(folded) && same_truth(
            expr.evaluated(scope)->Ok_0,
            folded,
        ),
{
    match expr {
        ExprV::Binary(op, lhs, rhs) => {
            let a = lhs.evaluated(scope)->Ok_0;
            let b = rhs.evaluated(scope)->Ok_0;
            eval::evaluation_keeps_rows(*lhs, scope);
            eval::evaluation_keeps_rows(*rhs, scope);
            assert(op == Operator::And || op == Operator::Or);
            let out = expr.evaluated(scope)->Ok_0;
            assert(out == boolean::boolean_result(op, a, b)->Ok_0);
            let folded = expr.simplified_untyped()->Some_0.evaluated(scope)->Ok_0;
            assert forall|r: int| 0 <= r < out.len() implies #[trigger] boolean::truth(out.cells[r])
                == boolean::truth(folded.cells[r]) by {
                let p = boolean::truth(a.cells[r]);
                let q = boolean::truth(b.cells[r]);
                assert(a.constant matches Some(cell) ==> a.cells[r] == cell && a.cells[0] == cell);
                assert(b.constant matches Some(cell) ==> b.cells[r] == cell && b.cells[0] == cell);
                assert(boolean::truth(out.cells[r]) == boolean::kleene(op, p, q));
                boolean::folding_keeps_the_operator(
                    op,
                    lhs.literal_truth(),
                    rhs.literal_truth(),
                    p,
                    q,
                );
            }
        },
        _ => {},
    }
}

/// A comparison with a null literal that evaluates is null in every row, as is what it simplifies
/// to.
pub proof fn null_comparisons_are_null(expr: ExprV, scope: ArrayV, r: int)
    requires
        scope.uniform(),
        expr.simplified(scope.dtype) matches Ok(Some(_)),
        expr.evaluated(scope) is Ok,
        0 <= r < scope.len(),
    ensures
        expr.evaluated(scope)->Ok_0.row(r) is None,
        expr.simplified(scope.dtype)->Ok_0->Some_0.evaluated(scope) matches Ok(simpler)
            && simpler.row(r) is None,
{
    match expr {
        ExprV::Binary(op, lhs, rhs) => {
            let a = lhs.evaluated(scope)->Ok_0;
            let b = rhs.evaluated(scope)->Ok_0;
            eval::evaluation_keeps_rows(*lhs, scope);
            eval::evaluation_keeps_rows(*rhs, scope);
            assert(zip::null_side(a, b));
        },
        _ => {},
    }
}

/// The elements of row `r` lie between those of the rows before and after it.
pub proof fn flattened_holds_items(cells: Seq<CellV>, n: nat, r: int)
    requires
        0 <= r < n <= cells.len(),
    ensures
        eval::flattened(cells, (r + 1) as nat).len() <= eval::flattened(cells, n).len(),
        eval::flattened(cells, n).subrange(
            eval::flattened(cells, r as nat).len() as int,
            eval::flattened(cells, (r + 1) as nat).len() as int,
        ) == eval::items_of(cells[r]),
    decreases n,
{
    let all = eval::flattened(cells, n);
    let from = eval::flattened(cells, r as nat).len() as int;
    let to = eval::flattened(cells, (r + 1) as nat).len() as int;
    if r + 1 == n {
        assert(all.subrange(from, to) =~= eval::items_of(cells[r]));
    } else {
        flattened_holds_items(cells, (n - 1) as nat, r);
        let before = eval::flattened(cells, (n - 1) as nat);
        assert(all.subrange(from, to) =~= before.subrange(from, to));
    }
}

/// Putting the elements of lists back gives the lists.
proof fn regrouping_undoes_flattening(cells: Seq<CellV>, r: int)
    requires
        0 <= r < cells.len(),
    ensures
        eval::regrouped(cells, eval::flattened(cells, cells.len()), r) == cells[r],
{
    flattened_holds_items(cells, cells.len(), r);
}

/// A list transform by the identity shows what its input shows.
pub proof fn identity_transforms_keep_rows(input: ExprV, scope: ArrayV, r: int)
    requires
        scope.uniform(),
        0 <= r < scope.len(),
        ExprV::ListTransform(Box::new(ExprV::Root), Box::new(input)).evaluated(scope) is Ok,
    ensures
        ({
            let transform = ExprV::ListTransform(Box::new(ExprV::Root), Box::new(input));
            let out = transform.evaluated(scope)->Ok_0;
            &&& transform.simplified_untyped() == Some(input)
            &&& input.evaluated(scope) matches Ok(kept) && out.dtype == kept.dtype && out.len()
                == kept.len() && out.row(r) == kept.row(r)
        }),
{
    let transform = ExprV::ListTransform(Box::new(ExprV::Root), Box::new(input));
    eval::evaluation_keeps_rows(input, scope);
    let kept = input.evaluated(scope)->Ok_0;
    let element = eval::element_of(kept.dtype)->Some_0;
    match kept.constant {
        None => {
            regrouping_undoes_flattening(kept.cells, r);
            let elements = eval::elements_of(kept, element);
            assert(ExprV::Root.evaluated(elements) == Ok::<ArrayV, Seq<char>>(elements));
        },
        Some(cell) => {
            assert(kept.cells[r] == cell);
            if cell.valid {
                let one = eval::one_row(kept.dtype, cell);
                let elements = eval::elements_of(one, element);
                assert(ExprV::Root.evaluated(elements) == Ok::<ArrayV, Seq<char>>(elements));
                regrouping_undoes_flattening(one.cells, 0);
            } else {
                assert(ExprV::Root.dtype(element) == Ok::<DTypeV, Seq<char>>(element));
            }
        },
    }
}

/// Replacing the scope of an expression evaluates it over what the replacement gives.
pub proof fn substitution_evaluates_in_turn(outer: ExprV, inner: ExprV, scope: ArrayV)
    requires
        scope.uniform(),
        inner.evaluated(scope) is Ok,
    ensures
        outer.substituted(inner).evaluated(scope) == outer.evaluated(
            inner.evaluated(scope)->Ok_0,
        ),
    decreases outer,
{
    eval::evaluation_keeps_rows(inner, scope);
    match outer {
        ExprV::Root => {},
        ExprV::Literal(_, _) => {},
        ExprV::GetItem(_, child) => {
            substitution_evaluates_in_turn(*child, inner, scope);
        },
        ExprV::Binary(_, lhs, rhs) => {
            substitution_evaluates_in_turn(*lhs, inner, scope);
            substitution_evaluates_in_turn(*rhs, inner, scope);
        },
        ExprV::Not(child) => {
            substitution_evaluates_in_turn(*child, inner, scope);
        },
        ExprV::ByteLength(child) => {
            substitution_evaluates_in_turn(*child, inner, scope);
        },
        ExprV::ListExtreme(_, _, child) => {
            substitution_evaluates_in_turn(*child, inner, scope);
        },
        ExprV::ListTransform(_, child) => {
            substitution_evaluates_in_turn(*child, inner, scope);
        },
        ExprV::IsNotNull(child) => {
            substitution_evaluates_in_turn(*child, inner, scope);
        },
    }
}

/// Replacing the scope of an expression gives it the type it has over the replacement's.
pub proof fn substitution_types_in_turn(outer: ExprV, inner: ExprV, scope: DTypeV)
    requires
        inner.dtype(scope) is Ok,
    ensures
        outer.substituted(inner).dtype(scope) == outer.dtype(inner.dtype(scope)->Ok_0),
    decreases outer,
{
    match outer {
        ExprV::Root => {},
        ExprV::Literal(_, _) => {},
        ExprV::GetItem(_, child) => {
            substitution_types_in_turn(*child, inner, scope);
        },
        ExprV::Binary(_, lhs, rhs) => {
            substitution_types_in_turn(*lhs, inner, scope);
            substitution_types_in_turn(*rhs, inner, scope);
        },
        ExprV::Not(child) => {
            substitution_types_in_turn(*child, inner, scope);
        },
        ExprV::ByteLength(child) => {
            substitution_types_in_turn(*child, inner, scope);
        },
        ExprV::ListExtreme(_, _, child) => {
            substitution_types_in_turn(*child, inner, scope);
        },
        ExprV::ListTransform(_, child) => {
            substitution_types_in_turn(*child, inner, scope);
        },
        ExprV::IsNotNull(child) => {
            substitution_types_in_turn(*child, inner, scope);
        },
    }
}

/// `valid` tells of every row of `out` whether it is valid.
pub open spec fn tells_validity(valid: ArrayV, out: ArrayV) -> bool {
    &&& valid.dtype == DTypeV::Bool(Nullability::NonNullable)
    &&& valid.len() == out.len()
    &&& forall|r: int|
        0 <= r < out.len() ==> #[trigger] valid.row(r) == Some(
            ValueV::Bool(out.row(r) is Some),
        )
}

/// The conjunction of what tells the validity of two columns tells where both are valid.
proof fn conjunction_tells_both(va: ArrayV, a: ArrayV, vb: ArrayV, b: ArrayV)
    requires
        a.len() == b.len(),
        va.uniform(),
        vb.uniform(),
        tells_validity(va, a),
        tells_validity(vb, b),
    ensures
        binary::binary_result(Operator::And, va, vb) matches Ok(both) && both.dtype
            == DTypeV::Bool(Nullability::NonNullable) && both.len() == a.len() && (forall|r: int|
            0 <= r < a.len() ==> #[trigger] both.row(r) == Some(
                ValueV::Bool(zip::both_valid(a, b, r)),
            )),
{
    let both = boolean::boolean_result(Operator::And, va, vb)->Ok_0;
    assert forall|r: int| 0 <= r < a.len() implies #[trigger] both.row(r) == Some(
        ValueV::Bool(zip::both_valid(a, b, r)),
    ) by {
        assert(va.row(r) == Some(ValueV::Bool(a.row(r) is Some)));
        assert(vb.row(r) == Some(ValueV::Bool(b.row(r) is Some)));
        if va.constant is Some && vb.constant is Some {
            assert(va.cells[r] == va.cells[0]) by {
                assert(va.cells[r] == va.constant->Some_0);
                assert(va.cells[0] == va.constant->Some_0);
            }
            assert(vb.cells[r] == vb.cells[0]) by {
                assert(vb.cells[r] == vb.constant->Some_0);
                assert(vb.cells[0] == vb.constant->Some_0);
            }
        }
    }
}

/// The validity expression of an expression tells, wherever the expression evaluates, which of its
/// rows are valid, so that they are known without evaluating it.
pub proof fn validity_tells_the_valid_rows(expr: ExprV, scope: ArrayV)
    requires
        scope.uniform(),
        expr.evaluated(scope) is Ok,
    ensures
        expr.validity().evaluated(scope) matches Ok(valid) && tells_validity(
            valid,
            expr.evaluated(scope)->Ok_0,
        ),
    decreases expr,
{
    let out = expr.evaluated(scope)->Ok_0;
    match expr {
        ExprV::Binary(op, lhs, rhs) => {
            if op != Operator::And && op != Operator::Or {
                let a = lhs.evaluated(scope)->Ok_0;
                let b = rhs.evaluated(scope)->Ok_0;
                validity_tells_the_valid_rows(*lhs, scope);
                validity_tells_the_valid_rows(*rhs, scope);
                eval::evaluation_keeps_rows(*lhs, scope);
                eval::evaluation_keeps_rows(*rhs, scope);
                eval::evaluation_keeps_rows(lhs.validity(), scope);
                eval::evaluation_keeps_rows(rhs.validity(), scope);
                let va = lhs.validity().evaluated(scope)->Ok_0;
                let vb = rhs.validity().evaluated(scope)->Ok_0;
                conjunction_tells_both(va, a, vb, b);
                binary::binary_keeps_rows(op, a, b);
                let valid = binary::binary_result(Operator::And, va, vb)->Ok_0;
                assert forall|r: int| 0 <= r < out.len() implies #[trigger] valid.row(r) == Some(
                    ValueV::Bool(out.row(r) is Some),
                ) by {
                    binary::strict_operators_propagate_nulls(op, a, b, r);
                }
            }
        },
        ExprV::ByteLength(child) => {
            let input = child.evaluated(scope)->Ok_0;
            validity_tells_the_valid_rows(*child, scope);
            eval::evaluation_keeps_rows(*child, scope);
            byte_length::byte_length_keeps_rows(input);
            let valid = child.validity().evaluated(scope)->Ok_0;
            assert forall|r: int| 0 <= r < out.len() implies #[trigger] valid.row(r) == Some(
                ValueV::Bool(out.row(r) is Some),
            ) by {
                byte_length::byte_length_shows_lengths(input, r);
                assert(valid.row(r) == Some(ValueV::Bool(input.row(r) is Some)));
            }
        },
        ExprV::ListTransform(body, child) => {
            let input = child.evaluated(scope)->Ok_0;
            validity_tells_the_valid_rows(*child, scope);
            eval::evaluation_keeps_rows(*child, scope);
            let valid = child.validity().evaluated(scope)->Ok_0;
            assert forall|r: int| 0 <= r < out.len() implies #[trigger] valid.row(r) == Some(
                ValueV::Bool(out.row(r) is Some),
            ) by {
                assert(valid.row(r) == Some(ValueV::Bool(input.row(r) is Some)));
                assert(input.constant matches Some(cell) ==> input.cells[r] == cell);
            }
        },
        _ => {},
    }
}

} // verus!
