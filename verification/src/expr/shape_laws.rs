//! What expressions give, said of the rows of their scope and of their parts.

use vstd::prelude::*;

use crate::array::{self, ArrayV};
use crate::chars;
use crate::dtype::DTypeV;
use crate::expr::eval;
use crate::expr::laws;
use crate::expr::locality::{self, bare_cell};
use crate::expr::tree::{self, ExprV};
use crate::scalar_fn::fns::binary::Binary;
use crate::scalar_fn::fns::boolean;
use crate::scalar_fn::fns::byte_length::ByteLength;
use crate::scalar_fn::fns::list_min_max::{ListMax, ListMin, NumericalAggregateOpts};
use crate::scalar_fn::fns::not::Not;
use crate::scalar_fn::fns::operators::Operator;
use crate::scalar_fn::vtable::ScalarFnVTable;
use crate::value::{CellV, ValueV};

verus! {

/// An expression is a part of another: the whole of it, or a part of an operand or of a list
/// transform's body.
pub open spec fn is_part(part: ExprV, whole: ExprV) -> bool
    decreases whole,
{
    part == whole || match whole {
        ExprV::Root => false,
        ExprV::Literal(_, _) => false,
        ExprV::GetItem(_, child) => is_part(part, *child),
        ExprV::Binary(_, lhs, rhs) => is_part(part, *lhs) || is_part(part, *rhs),
        ExprV::Not(child) => is_part(part, *child),
        ExprV::ByteLength(child) => is_part(part, *child),
        ExprV::ListExtreme(_, _, child) => is_part(part, *child),
        ExprV::ListTransform(body, child) => is_part(part, *body) || is_part(part, *child),
        ExprV::IsNotNull(child) => is_part(part, *child),
    }
}

/// The expression is an arithmetic operator on its operands.
pub open spec fn is_arithmetic(expr: ExprV) -> bool {
    expr matches ExprV::Binary(op, _, _) && (op is Add || op is Sub || op is Mul || op is Div)
}

/// An expression can fail on legal values exactly where arithmetic is a part of it.
pub proof fn only_arithmetic_can_fail(expr: ExprV)
    ensures
        expr.fallible() <==> exists|part: ExprV| #[trigger] is_part(part, expr) && is_arithmetic(
            part,
        ),
    decreases expr,
{
    match expr {
        ExprV::Root => {
            assert forall|part: ExprV| #[trigger] is_part(part, expr) implies part == expr by {}
        },
        ExprV::Literal(_, _) => {
            assert forall|part: ExprV| #[trigger] is_part(part, expr) implies part == expr by {}
        },
        ExprV::GetItem(_, child) => one_operand(expr, *child),
        ExprV::Not(child) => one_operand(expr, *child),
        ExprV::ByteLength(child) => one_operand(expr, *child),
        ExprV::ListExtreme(_, _, child) => one_operand(expr, *child),
        ExprV::IsNotNull(child) => one_operand(expr, *child),
        ExprV::Binary(op, lhs, rhs) => {
            two_operands(expr, *lhs, *rhs);
        },
        ExprV::ListTransform(body, child) => {
            two_operands(expr, *body, *child);
        },
    }
}

proof fn one_operand(expr: ExprV, child: ExprV)
    requires
        match expr {
            ExprV::GetItem(_, c) => *c == child,
            ExprV::Not(c) => *c == child,
            ExprV::ByteLength(c) => *c == child,
            ExprV::ListExtreme(_, _, c) => *c == child,
            ExprV::IsNotNull(c) => *c == child,
            _ => false,
        },
    ensures
        expr.fallible() <==> exists|part: ExprV| #[trigger] is_part(part, expr) && is_arithmetic(
            part,
        ),
    decreases expr, 0nat,
{
    only_arithmetic_can_fail(child);
    if expr.fallible() {
        let part = choose|part: ExprV| #[trigger] is_part(part, child) && is_arithmetic(part);
        assert(is_part(part, expr));
    }
    if exists|part: ExprV| #[trigger] is_part(part, expr) && is_arithmetic(part) {
        let part = choose|part: ExprV| #[trigger] is_part(part, expr) && is_arithmetic(part);
        assert(is_part(part, child));
    }
}

proof fn two_operands(expr: ExprV, a: ExprV, b: ExprV)
    requires
        match expr {
            ExprV::Binary(_, x, y) => *x == a && *y == b,
            ExprV::ListTransform(x, y) => *x == a && *y == b,
            _ => false,
        },
    ensures
        expr.fallible() <==> exists|part: ExprV| #[trigger] is_part(part, expr) && is_arithmetic(
            part,
        ),
    decreases expr, 0nat,
{
    only_arithmetic_can_fail(a);
    only_arithmetic_can_fail(b);
    if expr.fallible() {
        if is_arithmetic(expr) {
            assert(is_part(expr, expr));
        } else if a.fallible() {
            let part = choose|part: ExprV| #[trigger] is_part(part, a) && is_arithmetic(part);
            assert(is_part(part, expr));
        } else {
            let part = choose|part: ExprV| #[trigger] is_part(part, b) && is_arithmetic(part);
            assert(is_part(part, expr));
        }
    }
    if exists|part: ExprV| #[trigger] is_part(part, expr) && is_arithmetic(part) {
        let part = choose|part: ExprV| #[trigger] is_part(part, expr) && is_arithmetic(part);
        assert(part == expr || is_part(part, a) || is_part(part, b));
    }
}

/// Nothing in the expression can be simplified: it holds no literal and no list transform.
pub open spec fn plain(expr: ExprV) -> bool {
    forall|part: ExprV| #[trigger]
        is_part(part, expr) ==> !(part is Literal) && !(part is ListTransform)
}

proof fn part_of_operand(part: ExprV, expr: ExprV)
    ensures
        match expr {
            ExprV::GetItem(_, child) => is_part(part, *child) ==> is_part(part, expr),
            ExprV::Binary(_, lhs, rhs) => is_part(part, *lhs) || is_part(part, *rhs) ==> is_part(
                part,
                expr,
            ),
            ExprV::Not(child) => is_part(part, *child) ==> is_part(part, expr),
            ExprV::ByteLength(child) => is_part(part, *child) ==> is_part(part, expr),
            ExprV::ListExtreme(_, _, child) => is_part(part, *child) ==> is_part(part, expr),
            ExprV::IsNotNull(child) => is_part(part, *child) ==> is_part(part, expr),
            _ => true,
        },
{
}

/// An expression in which nothing can be simplified stays as it is.
pub proof fn plain_expressions_stay(expr: ExprV, scope: DTypeV)
    requires
        plain(expr),
    ensures
        expr.optimized(scope) == Ok::<ExprV, Seq<char>>(expr),
    decreases expr,
{
    assert(is_part(expr, expr));
    match expr {
        ExprV::Root => {},
        ExprV::Literal(_, _) => {},
        ExprV::GetItem(_, child) => operand_stays(expr, *child, scope),
        ExprV::Binary(op, lhs, rhs) => {
            operand_stays(expr, *lhs, scope);
            operand_stays(expr, *rhs, scope);
            assert(!(*lhs is Literal)) by {
                part_of_operand(*lhs, expr);
                assert(is_part(*lhs, *lhs));
            }
            assert(!(*rhs is Literal)) by {
                part_of_operand(*rhs, expr);
                assert(is_part(*rhs, *rhs));
            }
            assert(expr.simplified_untyped() is None);
        },
        ExprV::Not(child) => operand_stays(expr, *child, scope),
        ExprV::ByteLength(child) => operand_stays(expr, *child, scope),
        ExprV::ListExtreme(_, _, child) => operand_stays(expr, *child, scope),
        ExprV::ListTransform(_, _) => {},
        ExprV::IsNotNull(child) => operand_stays(expr, *child, scope),
    }
}

proof fn operand_stays(expr: ExprV, child: ExprV, scope: DTypeV)
    requires
        plain(expr),
        match expr {
            ExprV::GetItem(_, c) => *c == child,
            ExprV::Binary(_, x, y) => *x == child || *y == child,
            ExprV::Not(c) => *c == child,
            ExprV::ByteLength(c) => *c == child,
            ExprV::ListExtreme(_, _, c) => *c == child,
            ExprV::IsNotNull(c) => *c == child,
            _ => false,
        },
    ensures
        child.optimized(scope) == Ok::<ExprV, Seq<char>>(child),
    decreases expr, 0nat,
{
    assert forall|part: ExprV| #[trigger] is_part(part, child) implies !(part is Literal) && !(part
        is ListTransform) by {
        part_of_operand(part, expr);
        assert(is_part(part, expr));
    }
    plain_expressions_stay(child, scope);
}

/// A name stands for the first field of that name. The field can be null where it can in itself, or
/// where the struct can.
pub proof fn names_stand_for_first_fields(dtype: DTypeV, name: Seq<char>)
    requires
        dtype is Struct,
    ensures
        match tree::field_of(dtype, name) {
            Ok((i, field)) => {
                let fields = dtype->Struct_0;
                &&& 0 <= i < fields.len()
                &&& fields[i].0 == name
                &&& forall|j: int| 0 <= j < i ==> (#[trigger] fields[j]).0 != name
                &&& field.eq_ignore_nullability(fields[i].1)
                &&& field.nullable() <==> fields[i].1.nullable() || dtype.nullable()
            },
            Err(_) => forall|j: int|
                0 <= j < dtype->Struct_0.len() ==> (#[trigger] dtype->Struct_0[j]).0 != name,
        },
{
    let fields = dtype->Struct_0;
    first_field(fields, name, 0);
    match tree::field_of(dtype, name) {
        Ok((i, field)) => {
            let n = fields[i].1.nullability().union(dtype.nullability());
            crate::dtype::eq_ignore_nullability_is_an_equivalence(
                fields[i].1,
                field,
                fields[i].1,
                n,
            );
            crate::dtype::with_nullability_sets_nullability(fields[i].1, n);
            if !fields[i].1.nullable() {
                crate::dtype::non_nullable_types_admit_both(fields[i].1, n);
            }
        },
        Err(_) => {},
    }
}

proof fn first_field(fields: Seq<(Seq<char>, DTypeV)>, name: Seq<char>, from: int)
    requires
        0 <= from,
    ensures
        match tree::field_index(fields, name, from) {
            Some(i) => from <= i < fields.len() && fields[i].0 == name && forall|j: int|
                from <= j < i ==> (#[trigger] fields[j]).0 != name,
            None => forall|j: int| from <= j < fields.len() ==> (#[trigger] fields[j]).0 != name,
        },
    decreases fields.len() - from,
{
    if from < fields.len() && fields[from].0 != name {
        first_field(fields, name, from + 1);
    }
}

/// A field of a struct row is valid exactly where the row is and the field is in it, and then shows
/// what the field holds.
pub proof fn fields_are_read_off_the_rows(
    name: Seq<char>,
    scope: ArrayV,
    r: int,
    items: Seq<CellV>,
    i: int,
    field: DTypeV,
)
    requires
        scope.uniform(),
        0 <= r < scope.len(),
        scope.cells[r].value == ValueV::Struct(items),
        tree::field_of(scope.dtype, name) == Ok::<(int, DTypeV), Seq<char>>((i, field)),
        0 <= i < items.len(),
    ensures
        ExprV::GetItem(name, Box::new(ExprV::Root)).evaluated(scope) matches Ok(out) && out.dtype
            == field && out.len() == scope.len() && (out.cells[r].valid <==> scope.cells[r].valid
            && items[i].valid) && (out.cells[r].valid ==> out.cells[r].value == items[i].value),
{
    reveal_with_fuel(ExprV::evaluated, 2);
    assert(scope.constant matches Some(cell) ==> scope.cells[r] == cell);
}

/// The root gives the scope, and a literal its value in every row. Asking for validity gives a truth
/// value in every row, which says whether the operand is valid there.
pub proof fn leaves_give_their_rows(
    literal_type: DTypeV,
    literal: CellV,
    expr: ExprV,
    scope: ArrayV,
    r: int,
)
    requires
        scope.uniform(),
        0 <= r < scope.len(),
    ensures
        ExprV::Root.evaluated(scope) == Ok::<ArrayV, Seq<char>>(scope),
        ExprV::Literal(literal_type, literal).evaluated(scope) matches Ok(out) && out.dtype
            == literal_type && out.len() == scope.len() && out.cells[r] == literal,
        expr.evaluated(scope) matches Ok(operand) ==> (ExprV::IsNotNull(Box::new(expr)).evaluated(
            scope,
        ) matches Ok(out) && out.len() == operand.len() && out.cells[r].valid
            && out.cells[r].value == ValueV::Bool(operand.cells[r].valid)),
{
    eval::evaluation_keeps_rows(expr, scope);
    reveal_with_fuel(ExprV::evaluated, 2);
}

/// Operators and extremes give what their functions make of what their operands give, in the
/// operands' order.
pub proof fn operators_apply_to_what_their_operands_give(
    function: Binary,
    op: Operator,
    lhs: ExprV,
    rhs: ExprV,
    options: NumericalAggregateOpts,
    scope: ArrayV,
)
    requires
        lhs.evaluated(scope) is Ok,
        rhs.evaluated(scope) is Ok,
    ensures
        ({
            let a = lhs.evaluated(scope)->Ok_0;
            let b = rhs.evaluated(scope)->Ok_0;
            &&& ExprV::Binary(op, Box::new(lhs), Box::new(rhs)).evaluated(scope) == function.result(
                &op,
                seq![a, b],
                scope.len(),
            )
            &&& ExprV::ListExtreme(true, options, Box::new(lhs)).evaluated(scope)
                == ListMax.result(&options, seq![a], scope.len())
            &&& ExprV::ListExtreme(false, options, Box::new(lhs)).evaluated(scope)
                == ListMin.result(&options, seq![a], scope.len())
        }),
{
    let a = lhs.evaluated(scope)->Ok_0;
    let b = rhs.evaluated(scope)->Ok_0;
    assert(seq![a, b][0] == a && seq![a, b][1] == b);
    assert(seq![a][0] == a);
}

/// A list transform keeps which lists are valid and how long they are, and puts in place of each
/// element what the body gives for that element alone.
pub proof fn transforms_go_element_by_element(
    body: ExprV,
    child: ExprV,
    scope: ArrayV,
    p: int,
    items: Seq<CellV>,
    k: int,
)
    requires
        scope.uniform(),
        0 <= p < scope.len(),
        ExprV::ListTransform(Box::new(body), Box::new(child)).evaluated(scope) is Ok,
        child.evaluated(scope)->Ok_0.cells[p].value == ValueV::List(items),
        child.evaluated(scope)->Ok_0.cells[p].valid,
        0 <= k < items.len(),
    ensures
        ({
            let input = child.evaluated(scope)->Ok_0;
            let out = ExprV::ListTransform(Box::new(body), Box::new(child)).evaluated(scope)->Ok_0;
            let element = eval::element_of(input.dtype)->Some_0;
            let alone = body.evaluated(array::column(element, seq![items[k]]));
            &&& out.cells[p].valid
            &&& out.cells[p].value matches ValueV::List(given) && given.len() == items.len() && (
            alone is Ok ==> bare_cell(given[k]) == bare_cell(alone->Ok_0.cells[0]))
        }),
{
    let input = child.evaluated(scope)->Ok_0;
    eval::evaluation_keeps_rows(child, scope);
    assert(input.constant matches Some(cell) ==> input.cells[p] == cell);
    locality::transformed_row(body, child, scope, p);
    let whole = locality::transformed_whole(input);
    let row = locality::place_in_whole(input, p);
    let element = eval::element_of(input.dtype)->Some_0;
    let elements = eval::elements_of(whole, element);
    laws::flattened_holds_items(whole.cells, whole.len(), row);
    let from = eval::flattened(whole.cells, row as nat).len() as int;
    let to = eval::flattened(whole.cells, (row + 1) as nat).len() as int;
    assert(elements.cells.subrange(from, to) == items);
    assert(elements.cells.subrange(from, to)[k] == elements.cells[from + k]);
    let one = array::column(element, seq![items[k]]);
    if body.evaluated(one) is Ok {
        assert(one.cells[0] == items[k]);
        crate::dtype::eq_ignore_nullability_is_an_equivalence(
            element,
            element,
            element,
            crate::dtype::Nullability::Nullable,
        );
        locality::evaluation_is_row_local(body, elements, from + k, one, 0);
        assert(body.evaluated(elements)->Ok_0.cells.subrange(from, to)[k] == body.evaluated(
            elements,
        )->Ok_0.cells[from + k]);
    }
}

/// The expression compares its operands.
pub open spec fn is_comparison(expr: ExprV) -> bool {
    expr matches ExprV::Binary(op, _, _) && (op is Eq || op is NotEq || op is Lt || op is Lte || op
        is Gt || op is Gte)
}

/// The expression is a literal that is null.
pub open spec fn is_null(expr: ExprV) -> bool {
    expr matches ExprV::Literal(_, cell) && !cell.valid
}

/// Going by types, exactly the comparisons with a null literal are simplified, once their types are
/// checked: to a null of the type that they have.
pub proof fn comparisons_with_null_are_simplified(expr: ExprV, scope: DTypeV)
    ensures
        ({
            let compares_null = is_comparison(expr) && (expr matches ExprV::Binary(_, lhs, rhs) && (
            is_null(*lhs) || is_null(*rhs)));
            match expr.simplified(scope) {
                Ok(Some(simpler)) => compares_null && expr.dtype(scope) is Ok && is_null(simpler)
                    && (simpler.dtype(scope) matches Ok(dtype) && dtype.nullable()
                    && dtype.eq_ignore_nullability(expr.dtype(scope)->Ok_0)),
                Ok(None) => !compares_null,
                Err(_) => compares_null && expr.dtype(scope) is Err,
            }
        }),
{
    reveal_with_fuel(ExprV::dtype, 2);
    if let Ok(Some(simpler)) = expr.simplified(scope) {
        let dtype = expr.dtype(scope)->Ok_0;
        assert(dtype is Bool);
        assert(simpler.dtype(scope)->Ok_0.erased() == dtype.erased());
    }
}

/// A call is written as its function's name and its arguments in brackets, with a comma and a blank
/// between them.
pub proof fn arguments_are_written_in_turn(id: Seq<char>, args: Seq<ExprV>, n: nat)
    requires
        n <= args.len(),
    ensures
        tree::args_text(args, n) == chars::joined(
            Seq::new(args.len(), |i: int| args[i].text()),
            ", "@,
            n,
        ),
        tree::call_text(id, args) == id + "("@ + tree::args_text(args, args.len()) + ")"@,
    decreases n,
{
    if n > 0 {
        arguments_are_written_in_turn(id, args, (n - 1) as nat);
    }
}

/// The conjunction of some terms holds each of them.
pub proof fn conjunctions_hold_their_terms(terms: Seq<ExprV>, i: int)
    requires
        0 <= i < terms.len(),
    ensures
        tree::conjunction(terms) matches Some(whole) && is_part(terms[i], whole),
    decreases terms.len(),
{
    if terms.len() > 1 {
        let init = terms.drop_last();
        if i < init.len() {
            conjunctions_hold_their_terms(init, i);
            assert(init[i] == terms[i]);
        } else {
            conjunctions_hold_their_terms(init, 0);
        }
    } else {
        assert(terms.drop_last().len() == 0);
    }
    assert(is_part(terms.last(), terms.last()));
    let whole = tree::conjunction(terms)->Some_0;
    if i == terms.len() - 1 {
        assert(is_part(terms[i], whole));
    }
}

/// A transformed list has the kind, the size where it is fixed, and the nullability of the list, and
/// elements of the body's type. Only lists are transformed.
pub proof fn transformed_types_keep_their_kind(dtype: DTypeV, element: DTypeV)
    ensures
        match tree::transformed_dtype(dtype, Ok(element)) {
            Ok(out) => {
                &&& out.nullability() == dtype.nullability()
                &&& match (dtype, out) {
                    (DTypeV::List(_, _), DTypeV::List(e, _)) => *e == element,
                    (
                        DTypeV::FixedSizeList(_, m, _),
                        DTypeV::FixedSizeList(e, n, _),
                    ) => *e == element && m == n,
                    _ => false,
                }
            },
            Err(_) => !(dtype is List) && !(dtype is FixedSizeList),
        },
{
}

/// An operand of a comparison in a condition: a literal, or nothing that can be simplified.
pub open spec fn plain_operand(expr: ExprV) -> bool {
    expr is Literal || plain(expr)
}

/// A condition: conjunctions and disjunctions of boolean literals, of comparisons with literals, and
/// of expressions in which nothing can be simplified.
pub open spec fn condition(expr: ExprV) -> bool
    decreases expr,
{
    match expr {
        ExprV::Literal(dtype, _) => dtype is Bool,
        ExprV::Binary(op, lhs, rhs) => if op is And || op is Or {
            condition(*lhs) && condition(*rhs)
        } else {
            plain(expr) || is_comparison(expr) && plain_operand(*lhs) && plain_operand(*rhs)
        },
        _ => plain(expr),
    }
}

proof fn operands_stay(expr: ExprV, scope: DTypeV)
    requires
        plain_operand(expr),
    ensures
        expr.optimized(scope) == Ok::<ExprV, Seq<char>>(expr),
{
    if plain(expr) {
        plain_expressions_stay(expr, scope);
    }
}

proof fn comparisons_keep_their_truth(expr: ExprV, scope: ArrayV)
    requires
        scope.uniform(),
        is_comparison(expr),
        expr matches ExprV::Binary(_, lhs, rhs) && plain_operand(*lhs) && plain_operand(*rhs),
        expr.evaluated(scope) is Ok,
    ensures
        expr.optimized(scope.dtype) matches Ok(simpler) && (simpler.evaluated(scope) matches Ok(out)
            && laws::same_truth(expr.evaluated(scope)->Ok_0, out) && (expr.evaluated(
            scope,
        )->Ok_0.dtype is Bool ==> out.dtype is Bool)),
{
    if let ExprV::Binary(op, lhs, rhs) = expr {
        operands_stay(*lhs, scope.dtype);
        operands_stay(*rhs, scope.dtype);
        assert(ExprV::Binary(op, Box::new(*lhs), Box::new(*rhs)) == expr);
        assert(expr.simplified_untyped() is None);
        locality::evaluation_has_the_declared_type(expr, scope);
        comparisons_with_null_are_simplified(expr, scope.dtype);
        eval::evaluation_keeps_rows(expr, scope);
        if let Ok(Some(simpler)) = expr.simplified(scope.dtype) {
            let before = expr.evaluated(scope)->Ok_0;
            let after = simpler.evaluated(scope)->Ok_0;
            eval::evaluation_keeps_rows(simpler, scope);
            assert forall|r: int| 0 <= r < before.len() implies #[trigger] boolean::truth(
                before.cells[r],
            ) == boolean::truth(after.cells[r]) by {
                laws::null_comparisons_are_null(expr, scope, r);
            }
        }
    }
}

/// Simplifying a condition keeps it true where it is, false where it is, and null where it is: it
/// can be simplified wherever it evaluates, and what it is simplified to evaluates too.
pub proof fn conditions_keep_their_truth(expr: ExprV, scope: ArrayV)
    requires
        scope.uniform(),
        condition(expr),
        expr.evaluated(scope) is Ok,
    ensures
        expr.optimized(scope.dtype) matches Ok(simpler) && (simpler.evaluated(scope) matches Ok(out)
            && laws::same_truth(expr.evaluated(scope)->Ok_0, out) && (expr.evaluated(
            scope,
        )->Ok_0.dtype is Bool ==> out.dtype is Bool)),
    decreases expr,
{
    if plain(expr) {
        plain_expressions_stay(expr, scope.dtype);
    } else {
        match expr {
            ExprV::Literal(_, _) => {},
            ExprV::Binary(op, lhs, rhs) => {
                if op is And || op is Or {
                    conditions_keep_their_truth(*lhs, scope);
                    conditions_keep_their_truth(*rhs, scope);
                    let l = lhs.optimized(scope.dtype)->Ok_0;
                    let r = rhs.optimized(scope.dtype)->Ok_0;
                    combined_truth(op, *lhs, *rhs, l, r, scope);
                    let mid = ExprV::Binary(op, Box::new(l), Box::new(r));
                    assert(mid.evaluated(scope) is Ok);
                    assert(mid.simplified(scope.dtype) == Ok::<Option<ExprV>, Seq<char>>(None));
                    if mid.simplified_untyped() is Some {
                        laws::folding_keeps_truth(mid, scope);
                        let folded = mid.simplified_untyped()->Some_0;
                        let a = expr.evaluated(scope)->Ok_0;
                        let b = mid.evaluated(scope)->Ok_0;
                        let c = folded.evaluated(scope)->Ok_0;
                        assert forall|i: int| 0 <= i < a.len() implies #[trigger] boolean::truth(
                            a.cells[i],
                        ) == boolean::truth(c.cells[i]) by {
                            assert(boolean::truth(a.cells[i]) == boolean::truth(b.cells[i]));
                            assert(boolean::truth(b.cells[i]) == boolean::truth(c.cells[i]));
                        }
                    }
                } else {
                    comparisons_keep_their_truth(expr, scope);
                }
            },
            _ => {},
        }
    }
}

proof fn combined_truth(
    op: Operator,
    lhs: ExprV,
    rhs: ExprV,
    l: ExprV,
    r: ExprV,
    scope: ArrayV,
)
    requires
        scope.uniform(),
        op is And || op is Or,
        ExprV::Binary(op, Box::new(lhs), Box::new(rhs)).evaluated(scope) is Ok,
        l.evaluated(scope) is Ok,
        r.evaluated(scope) is Ok,
        laws::same_truth(lhs.evaluated(scope)->Ok_0, l.evaluated(scope)->Ok_0),
        laws::same_truth(rhs.evaluated(scope)->Ok_0, r.evaluated(scope)->Ok_0),
        lhs.evaluated(scope)->Ok_0.dtype is Bool ==> l.evaluated(scope)->Ok_0.dtype is Bool,
        rhs.evaluated(scope)->Ok_0.dtype is Bool ==> r.evaluated(scope)->Ok_0.dtype is Bool,
    ensures
        ExprV::Binary(op, Box::new(l), Box::new(r)).evaluated(scope) matches Ok(out) && out.dtype
            is Bool && laws::same_truth(
            ExprV::Binary(op, Box::new(lhs), Box::new(rhs)).evaluated(scope)->Ok_0,
            out,
        ),
        l.evaluated(scope)->Ok_0.dtype is Bool,
        r.evaluated(scope)->Ok_0.dtype is Bool,
{
    let a = lhs.evaluated(scope)->Ok_0;
    let b = rhs.evaluated(scope)->Ok_0;
    let c = l.evaluated(scope)->Ok_0;
    let d = r.evaluated(scope)->Ok_0;
    eval::evaluation_keeps_rows(lhs, scope);
    eval::evaluation_keeps_rows(rhs, scope);
    eval::evaluation_keeps_rows(l, scope);
    eval::evaluation_keeps_rows(r, scope);
    let before = ExprV::Binary(op, Box::new(lhs), Box::new(rhs)).evaluated(scope)->Ok_0;
    let after = ExprV::Binary(op, Box::new(l), Box::new(r)).evaluated(scope)->Ok_0;
    assert(before == boolean::boolean_result(op, a, b)->Ok_0);
    assert(after == boolean::boolean_result(op, c, d)->Ok_0);
    assert forall|i: int| 0 <= i < before.len() implies #[trigger] boolean::truth(before.cells[i])
        == boolean::truth(after.cells[i]) by {
        assert(boolean::truth(a.cells[i]) == boolean::truth(c.cells[i]));
        assert(boolean::truth(b.cells[i]) == boolean::truth(d.cells[i]));
        assert(boolean::truth(a.cells[0]) == boolean::truth(c.cells[0]));
        assert(boolean::truth(b.cells[0]) == boolean::truth(d.cells[0]));
        assert(a.constant matches Some(cell) ==> a.cells[i] == cell && a.cells[0] == cell);
        assert(b.constant matches Some(cell) ==> b.cells[i] == cell && b.cells[0] == cell);
        assert(c.constant matches Some(cell) ==> c.cells[i] == cell && c.cells[0] == cell);
        assert(d.constant matches Some(cell) ==> d.cells[i] == cell && d.cells[0] == cell);
    }
}

/// An expression that applies a function is written as the call of that function, by its id.
pub proof fn applications_are_written_as_calls(expr: ExprV)
    ensures
        ExprV::Not(Box::new(expr)).text() == tree::call_text(Not.id_text(), seq![expr]),
        ExprV::ByteLength(Box::new(expr)).text() == tree::call_text(
            ByteLength.id_text(),
            seq![expr],
        ),
        ExprV::ListExtreme(
            true,
            NumericalAggregateOpts { skip_nans: true },
            Box::new(expr),
        ).text() == tree::call_text(ListMax.id_text(), seq![expr]),
        ExprV::ListExtreme(
            false,
            NumericalAggregateOpts { skip_nans: true },
            Box::new(expr),
        ).text() == tree::call_text(ListMin.id_text(), seq![expr]),
{
    reveal_strlit("vortex.not");
    reveal_strlit("vortex.not(");
    reveal_strlit("vortex.byte_length");
    reveal_strlit("vortex.byte_length(");
    reveal_strlit("vortex.list.max");
    reveal_strlit("vortex.list.max(");
    reveal_strlit("vortex.list.min");
    reveal_strlit("vortex.list.min(");
    reveal_strlit("(");
    let args = seq![expr];
    assert(args[0] == expr);
    assert(tree::args_text(args, 1) == expr.text());
    assert("vortex.not"@ + "("@ =~= "vortex.not("@);
    assert("vortex.byte_length"@ + "("@ =~= "vortex.byte_length("@);
    assert("vortex.list.max"@ + "("@ =~= "vortex.list.max("@);
    assert("vortex.list.min"@ + "("@ =~= "vortex.list.min("@);
}

} // verus!
