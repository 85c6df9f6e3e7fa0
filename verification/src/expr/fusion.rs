//! Fusing list transforms.

use vstd::prelude::*;

use crate::array::ArrayV;
use crate::dtype::{DTypeV, Nullability};
use crate::expr::eval;
use crate::expr::laws;
use crate::expr::locality;
use crate::expr::tree::ExprV;
use crate::value::{CellV, ValueV};

verus! {

/// A transform of a transform.
pub open spec fn nested_transform(outer: ExprV, inner: ExprV, input: ExprV) -> ExprV {
    ExprV::ListTransform(
        Box::new(outer),
        Box::new(ExprV::ListTransform(Box::new(inner), Box::new(input))),
    )
}

/// One transform by the substituted body.
pub open spec fn fused_transform(outer: ExprV, inner: ExprV, input: ExprV) -> ExprV {
    ExprV::ListTransform(Box::new(outer.substituted(inner)), Box::new(input))
}

/// Flattening regrouped lists gives the elements that were put back.
proof fn flattening_undoes_regrouping(cells: Seq<CellV>, elements: Seq<CellV>, n: nat)
    requires
        n <= cells.len(),
        elements.len() >= eval::flattened(cells, n).len(),
    ensures
        eval::flattened(
            Seq::new(cells.len(), |r: int| eval::regrouped(cells, elements, r)),
            n,
        ) == elements.take(eval::flattened(cells, n).len() as int),
    decreases n,
{
    let lists = Seq::new(cells.len(), |r: int| eval::regrouped(cells, elements, r));
    if n == 0 {
        assert(elements.take(0) =~= Seq::empty());
    } else {
        let m = (n - 1) as nat;
        flattening_undoes_regrouping(cells, elements, m);
        let from = eval::flattened(cells, m).len() as int;
        let to = eval::flattened(cells, n).len() as int;
        assert(lists[n - 1] == eval::regrouped(cells, elements, n - 1));
        assert(eval::items_of(lists[n - 1]) =~= elements.subrange(from, to));
        assert(elements.take(from) + elements.subrange(from, to) =~= elements.take(to));
    }
}

/// The rows of a column are stored one by one.
pub open spec fn stored_row_by_row(array: ArrayV) -> bool {
    array.constant is None && array.shared is None
}

/// A transform of a transform is one transform by the substituted body: it gives the same column
/// wherever the elements of the inner transform are stored row by row.
pub proof fn fused_transforms_agree(outer: ExprV, inner: ExprV, input: ExprV, scope: ArrayV)
    requires
        scope.uniform(),
        input.evaluated(scope) matches Ok(lists) && lists.constant is None && eval::element_of(
            lists.dtype,
        ) is Some && (inner.evaluated(
            eval::elements_of(lists, eval::element_of(lists.dtype)->Some_0),
        ) matches Ok(elements) && stored_row_by_row(elements)),
    ensures
        nested_transform(outer, inner, input).evaluated(scope) == fused_transform(
            outer,
            inner,
            input,
        ).evaluated(scope),
{
    let lists = input.evaluated(scope)->Ok_0;
    let element = eval::element_of(lists.dtype)->Some_0;
    let scope1 = eval::elements_of(lists, element);
    let elements = inner.evaluated(scope1)->Ok_0;
    assert(scope1.uniform());
    eval::evaluation_keeps_rows(inner, scope1);
    laws::substitution_evaluates_in_turn(outer, inner, scope1);
    let once = eval::regrouped_column(lists, elements)->Ok_0;
    let inner_transform = ExprV::ListTransform(Box::new(inner), Box::new(input));
    assert(inner_transform.evaluated(scope) == Ok::<ArrayV, Seq<char>>(once));
    flattening_undoes_regrouping(lists.cells, elements.cells, lists.len());
    let scope2 = eval::elements_of(once, elements.dtype);
    assert(elements.cells.take(elements.len() as int) =~= elements.cells);
    assert(scope2 == elements);
    match outer.evaluated(elements) {
        Err(_) => {},
        Ok(last) => {
            eval::evaluation_keeps_rows(outer, elements);
            let twice = eval::regrouped_column(once, last)->Ok_0;
            let direct = eval::regrouped_column(lists, last)->Ok_0;
            assert forall|r: int| 0 <= r < lists.len() implies #[trigger] twice.cells[r]
                == direct.cells[r] by {
                same_offsets(lists.cells, elements.cells, r as nat);
                same_offsets(lists.cells, elements.cells, (r + 1) as nat);
            }
            assert(twice.cells =~= direct.cells);
        },
    }
}

/// Regrouped lists are as long as the lists they came from.
proof fn same_offsets(cells: Seq<CellV>, elements: Seq<CellV>, n: nat)
    requires
        n <= cells.len(),
        elements.len() == eval::flattened(cells, cells.len()).len(),
    ensures
        eval::flattened(
            Seq::new(cells.len(), |r: int| eval::regrouped(cells, elements, r)),
            n,
        ).len() == eval::flattened(cells, n).len(),
{
    grows(cells, n, cells.len());
    flattening_undoes_regrouping(cells, elements, n);
}

proof fn grows(cells: Seq<CellV>, m: nat, n: nat)
    requires
        m <= n,
    ensures
        eval::flattened(cells, m).len() <= eval::flattened(cells, n).len(),
    decreases n - m,
{
    if m < n {
        grows(cells, m, (n - 1) as nat);
    }
}

/// A transform of a transform shows what the transform by the substituted body shows, in every row
/// and however the lists and their elements are stored, wherever both evaluate; their types differ
/// in nullability at most.
pub proof fn fused_transforms_show_the_same(
    outer: ExprV,
    inner: ExprV,
    input: ExprV,
    scope: ArrayV,
    r: int,
)
    requires
        scope.uniform(),
        0 <= r < scope.len(),
        nested_transform(outer, inner, input).evaluated(scope) is Ok,
        fused_transform(outer, inner, input).evaluated(scope) is Ok,
    ensures
        nested_transform(outer, inner, input).simplified_untyped() == Some(
            fused_transform(outer, inner, input),
        ) || outer is Root,
        locality::rows_look_alike(
            nested_transform(outer, inner, input).evaluated(scope)->Ok_0,
            r,
            fused_transform(outer, inner, input).evaluated(scope)->Ok_0,
            r,
        ),
        nested_transform(outer, inner, input).evaluated(scope)->Ok_0.dtype.eq_ignore_nullability(
            fused_transform(outer, inner, input).evaluated(scope)->Ok_0.dtype,
        ),
{
    let once = ExprV::ListTransform(Box::new(inner), Box::new(input));
    types_agree(outer, inner, input, scope);
    eval::evaluation_keeps_rows(input, scope);
    eval::evaluation_keeps_rows(once, scope);
    let lists = input.evaluated(scope)->Ok_0;
    let first = once.evaluated(scope)->Ok_0;
    if !(lists.constant matches Some(cell) && !cell.valid) {
        locality::transformed_row(inner, input, scope, r);
        locality::transformed_row(outer.substituted(inner), input, scope, r);
        locality::transformed_row(outer, once, scope, r);
        let row = locality::place_in_whole(lists, r);
        let a = locality::transformed_whole(lists);
        let b = locality::transformed_whole(first);
        let element = eval::element_of(lists.dtype)->Some_0;
        let c = eval::elements_of(a, element);
        let e = inner.evaluated(c)->Ok_0;
        substituted(outer, inner, c);
        assert(eval::element_of(first.dtype) == Some(e.dtype));
        let regrouped = Seq::new(a.cells.len(), |i: int| eval::regrouped(a.cells, e.cells, i));
        assert(b.cells =~= regrouped);
        flattening_undoes_regrouping(a.cells, e.cells, a.len());
        let d = eval::elements_of(b, e.dtype);
        assert(e.cells.take(e.len() as int) =~= e.cells);
        assert(d.cells == e.cells);
        same_offsets(a.cells, e.cells, row as nat);
        same_offsets(a.cells, e.cells, (row + 1) as nat);
        let x = outer.evaluated(d)->Ok_0;
        let y = outer.evaluated(e)->Ok_0;
        locality::alike_types_chain(e.dtype, e.dtype, e.dtype, Nullability::Nullable);
        if let ValueV::List(items) = a.cells[row].value {
            let from = eval::flattened(a.cells, row as nat).len() as int;
            let to = eval::flattened(a.cells, (row + 1) as nat).len() as int;
            laws::flattened_holds_items(a.cells, a.len(), row);
            let m = x.cells.subrange(from, to);
            let n = y.cells.subrange(from, to);
            assert forall|k: int| 0 <= k < m.len() implies locality::bare_cell(#[trigger] m[k])
                == locality::bare_cell(n[k]) by {
                locality::evaluation_is_row_local(outer, d, from + k, e, from + k);
            }
            locality::lists_look_alike(m, n);
        }
    }
}

/// What the substituted body gives over the elements.
proof fn substituted(outer: ExprV, inner: ExprV, elements: ArrayV)
    requires
        elements.uniform(),
        inner.evaluated(elements) is Ok,
    ensures
        inner.evaluated(elements)->Ok_0.uniform(),
        inner.evaluated(elements)->Ok_0.len() == elements.len(),
        outer.substituted(inner).evaluated(elements) == outer.evaluated(
            inner.evaluated(elements)->Ok_0,
        ),
{
    eval::evaluation_keeps_rows(inner, elements);
    laws::substitution_evaluates_in_turn(outer, inner, elements);
}

/// Fusing transforms keeps their type.
pub proof fn fused_transforms_have_the_same_type(
    outer: ExprV,
    inner: ExprV,
    input: ExprV,
    scope: DTypeV,
)
    requires
        nested_transform(outer, inner, input).dtype(scope) is Ok,
    ensures
        fused_transform(outer, inner, input).dtype(scope) == nested_transform(
            outer,
            inner,
            input,
        ).dtype(scope),
{
    let once = ExprV::ListTransform(Box::new(inner), Box::new(input));
    assert(once.dtype(scope) is Ok);
    assert(input.dtype(scope) is Ok);
    let lists = input.dtype(scope)->Ok_0;
    assert(eval::element_of(lists) is Some);
    let element = eval::element_of(lists)->Some_0;
    assert(inner.dtype(element) is Ok);
    laws::substitution_types_in_turn(outer, inner, element);
}

/// The two transforms have one type, but for nullability.
proof fn types_agree(outer: ExprV, inner: ExprV, input: ExprV, scope: ArrayV)
    requires
        scope.uniform(),
        nested_transform(outer, inner, input).evaluated(scope) is Ok,
        fused_transform(outer, inner, input).evaluated(scope) is Ok,
    ensures
        nested_transform(outer, inner, input).evaluated(scope)->Ok_0.dtype.eq_ignore_nullability(
            fused_transform(outer, inner, input).evaluated(scope)->Ok_0.dtype,
        ),
{
    let nested = nested_transform(outer, inner, input);
    let fused = fused_transform(outer, inner, input);
    let x = nested.evaluated(scope)->Ok_0.dtype;
    let y = fused.evaluated(scope)->Ok_0.dtype;
    assert(nested.dtype(scope.dtype) is Ok && nested.dtype(scope.dtype)->Ok_0.eq_ignore_nullability(
        x,
    )) by {
        locality::evaluation_has_the_declared_type(nested, scope);
    }
    assert(fused.dtype(scope.dtype)->Ok_0.eq_ignore_nullability(y)) by {
        locality::evaluation_has_the_declared_type(fused, scope);
    }
    let t = nested.dtype(scope.dtype)->Ok_0;
    assert(fused.dtype(scope.dtype) == nested.dtype(scope.dtype)) by {
        fused_transforms_have_the_same_type(outer, inner, input, scope.dtype);
    }
    locality::alike_types_chain(t, x, t, Nullability::Nullable);
    locality::alike_types_chain(x, t, y, Nullability::Nullable);
}

} // verus!
