//! What the extremes of lists are, said of the elements.

use vstd::prelude::*;

use crate::array::ArrayV;
use crate::dtype::{DTypeV, PType};
use crate::order;
use crate::order_laws::{self, before, exponent_full};
use crate::scalar_fn::fns::list_min_max::{self, extreme_result, ListMax, ListMin, NumericalAggregateOpts};
use crate::scalar_fn::fns::operator_laws::of_type;
use crate::scalar_fn::vtable::ScalarFnVTable;
use crate::value::{CellV, ValueV};

verus! {

/// A float whose exponent has all bits set and whose mantissa is not zero.
pub open spec fn nan(value: ValueV) -> bool {
    match value {
        ValueV::Primitive(PType::F16, bits) => exponent_full(bits, 0x400, 0x20),
        ValueV::Primitive(PType::F32, bits) => exponent_full(bits, 0x80_0000, 0x100),
        ValueV::Primitive(PType::F64, bits) => exponent_full(bits, 0x10_0000_0000_0000, 0x800),
        _ => false,
    }
}

/// The element counts: it is valid, and no NaN where those are skipped.
pub open spec fn counts(cell: CellV, skip_nans: bool) -> bool {
    cell.valid && (skip_nans ==> !nan(cell.value))
}

/// Some element counts.
pub open spec fn any_counts(items: Seq<CellV>, skip_nans: bool) -> bool {
    exists|i: int| 0 <= i < items.len() && counts(#[trigger] items[i], skip_nans)
}

/// Some element that counts is a NaN.
pub open spec fn nan_counts(items: Seq<CellV>, skip_nans: bool) -> bool {
    exists|i: int|
        0 <= i < items.len() && counts(#[trigger] items[i], skip_nans) && nan(items[i].value)
}

/// A value is the extreme of a list: an element that counts; a NaN where one counts; otherwise no
/// element that counts comes after it, or before it for a minimum.
pub open spec fn is_extreme(items: Seq<CellV>, greatest: bool, skip_nans: bool, value: ValueV) -> bool {
    &&& exists|i: int|
        0 <= i < items.len() && counts(#[trigger] items[i], skip_nans) && items[i].value == value
    &&& nan_counts(items, skip_nans) ==> nan(value)
    &&& !nan_counts(items, skip_nans) ==> forall|i: int|
        0 <= i < items.len() && counts(#[trigger] items[i], skip_nans) ==> if greatest {
            !before(value, items[i].value)
        } else {
            !before(items[i].value, value)
        }
}

/// The elements of a column of lists have a scalar type.
pub open spec fn element_type(dtype: DTypeV) -> Option<DTypeV> {
    match dtype {
        DTypeV::List(element, _) => Some(*element),
        DTypeV::FixedSizeList(element, _, _) => Some(*element),
        _ => None,
    }
}

/// A scalar type.
pub open spec fn scalar_type(dtype: DTypeV) -> bool {
    dtype is Bool || dtype is Primitive || dtype is Decimal || dtype is Utf8 || dtype is Binary
}

/// The elements that are valid have payloads of a scalar type.
pub open spec fn elements_of(items: Seq<CellV>, element: DTypeV) -> bool {
    &&& scalar_type(element)
    &&& forall|i: int|
        0 <= i < items.len() && (#[trigger] items[i]).valid ==> of_type(element, items[i].value)
}

proof fn nans_agree(element: DTypeV, value: ValueV)
    requires
        scalar_type(element),
        of_type(element, value),
    ensures
        nan(value) == order::not_a_number(value),
{
    match value {
        ValueV::Primitive(p, bits) => {
            if p is F16 || p is F32 || p is F64 {
                order_laws::nans_follow_the_layout(bits);
            }
        },
        _ => {},
    }
}

proof fn list_extreme_is_extreme(
    items: Seq<CellV>,
    element: DTypeV,
    greatest: bool,
    skip_nans: bool,
)
    requires
        elements_of(items, element),
    ensures
        match list_min_max::extreme(items, greatest, skip_nans, items.len()) {
            Some(value) => is_extreme(items, greatest, skip_nans, value),
            None => !any_counts(items, skip_nans),
        },
{
    assert forall|i: int|
        0 <= i < items.len() && (#[trigger] items[i]).valid implies nan(items[i].value)
        == order::not_a_number(items[i].value) by {
        nans_agree(element, items[i].value);
    }
    assert forall|i: int| 0 <= i < items.len() implies list_min_max::participates(
        #[trigger] items[i],
        skip_nans,
    ) == counts(items[i], skip_nans) by {}
    assert(list_min_max::scalars(items, skip_nans)) by {
        assert forall|i: int, j: int|
            #![trigger items[i], items[j]]
            0 <= i < items.len() && 0 <= j < items.len() && list_min_max::participates(
                items[i],
                skip_nans,
            ) && list_min_max::participates(items[j], skip_nans) implies order::alike(
            items[i].value,
            items[j].value,
        ) by {
            assert(of_type(element, items[i].value) && of_type(element, items[j].value));
        }
    }
    list_min_max::extremes_are_extreme(items, greatest, skip_nans, items.len());
    match list_min_max::extreme(items, greatest, skip_nans, items.len()) {
        Some(value) => {
            let k = choose|k: int|
                0 <= k < items.len() && list_min_max::participates(#[trigger] items[k], skip_nans)
                    && items[k].value == value;
            assert(counts(items[k], skip_nans) && items[k].value == value);
            assert forall|i: int|
                0 <= i < items.len() && counts(#[trigger] items[i], skip_nans) implies (nan(
                items[i].value,
            ) ==> nan(value)) && (!nan_counts(items, skip_nans) ==> if greatest {
                !before(value, items[i].value)
            } else {
                !before(items[i].value, value)
            }) by {
                assert(list_min_max::participates(items[i], skip_nans));
                assert(of_type(element, items[i].value) && of_type(element, items[k].value));
                order_laws::scalars_are_in_order(items[i].value, value);
                order_laws::scalars_are_in_order(value, items[i].value);
                if !nan_counts(items, skip_nans) {
                    assert(!nan(items[k].value));
                }
            }
        },
        None => {},
    }
}

/// The extremes of a column of lists: a row is valid exactly where the list is and some element
/// counts, and then holds the extreme of the list's elements.
proof fn column_extremes(
    greatest: bool,
    skip_nans: bool,
    input: ArrayV,
    r: int,
    items: Seq<CellV>,
)
    requires
        input.uniform(),
        0 <= r < input.len(),
        element_type(input.dtype) matches Some(element) && elements_of(items, element),
        input.cells[r].value == ValueV::List(items),
    ensures
        extreme_result(greatest, skip_nans, input) matches Ok(out) && out.len() == input.len() && (
        out.cells[r].valid <==> input.cells[r].valid && any_counts(items, skip_nans)) && (
        out.cells[r].valid ==> is_extreme(items, greatest, skip_nans, out.cells[r].value)),
{
    assert(input.constant matches Some(cell) ==> input.cells[r] == cell);
    let element = element_type(input.dtype)->Some_0;
    list_extreme_is_extreme(items, element, greatest, skip_nans);
    assert(list_min_max::has_extremes(element));
}

/// The least element of each list in a column: null for a null list and for one without an element
/// that counts, and otherwise an element that no other one comes before.
pub proof fn list_min_is_least(
    function: ListMin,
    options: NumericalAggregateOpts,
    input: ArrayV,
    r: int,
    items: Seq<CellV>,
)
    requires
        input.uniform(),
        0 <= r < input.len(),
        element_type(input.dtype) matches Some(element) && elements_of(items, element),
        input.cells[r].value == ValueV::List(items),
    ensures
        function.result(&options, seq![input], input.len()) matches Ok(out) && out.len()
            == input.len() && (out.cells[r].valid <==> input.cells[r].valid && any_counts(
            items,
            options.skip_nans,
        )) && (out.cells[r].valid ==> is_extreme(
            items,
            false,
            options.skip_nans,
            out.cells[r].value,
        )),
{
    column_extremes(false, options.skip_nans, input, r, items);
    assert(seq![input][0] == input);
}

/// The greatest element of each list in a column: null for a null list and for one without an
/// element that counts, and otherwise an element that comes before no other one.
pub proof fn list_max_is_greatest(
    function: ListMax,
    options: NumericalAggregateOpts,
    input: ArrayV,
    r: int,
    items: Seq<CellV>,
)
    requires
        input.uniform(),
        0 <= r < input.len(),
        element_type(input.dtype) matches Some(element) && elements_of(items, element),
        input.cells[r].value == ValueV::List(items),
    ensures
        function.result(&options, seq![input], input.len()) matches Ok(out) && out.len()
            == input.len() && (out.cells[r].valid <==> input.cells[r].valid && any_counts(
            items,
            options.skip_nans,
        )) && (out.cells[r].valid ==> is_extreme(items, true, options.skip_nans, out.cells[r].value)),
{
    column_extremes(true, options.skip_nans, input, r, items);
    assert(seq![input][0] == input);
}

/// The decimals of a list lie between its extremes, as numbers.
pub proof fn decimals_lie_between_the_extremes(
    least: ListMin,
    greatest: ListMax,
    options: NumericalAggregateOpts,
    input: ArrayV,
    r: int,
    items: Seq<CellV>,
    i: int,
    x: int,
)
    requires
        input.uniform(),
        0 <= r < input.len(),
        input.cells[r].valid,
        element_type(input.dtype) matches Some(element) && element is Decimal && elements_of(
            items,
            element,
        ),
        input.cells[r].value == ValueV::List(items),
        0 <= i < items.len(),
        items[i].valid,
        items[i].value == ValueV::Decimal(x),
    ensures
        least.result(&options, seq![input], input.len()) matches Ok(low) && low.cells[r].valid && (
        low.cells[r].value matches ValueV::Decimal(m) && m <= x),
        greatest.result(&options, seq![input], input.len()) matches Ok(high) && high.cells[r].valid
            && (high.cells[r].value matches ValueV::Decimal(m) && x <= m),
{
    list_min_is_least(least, options, input, r, items);
    list_max_is_greatest(greatest, options, input, r, items);
    let element = element_type(input.dtype)->Some_0;
    assert(counts(items[i], options.skip_nans));
    assert forall|k: int| 0 <= k < items.len() && (#[trigger] items[k]).valid implies !nan(
        items[k].value,
    ) && items[k].value is Decimal by {
        assert(of_type(element, items[k].value));
    }
    assert(!nan_counts(items, options.skip_nans));
}

/// The integers of a list lie between its extremes, as numbers.
pub proof fn integers_lie_between_the_extremes(
    least: ListMin,
    greatest: ListMax,
    options: NumericalAggregateOpts,
    input: ArrayV,
    r: int,
    items: Seq<CellV>,
    ptype: PType,
    i: int,
    x: int,
)
    requires
        input.uniform(),
        0 <= r < input.len(),
        input.cells[r].valid,
        !(ptype is F16) && !(ptype is F32) && !(ptype is F64),
        element_type(input.dtype) matches Some(element) && (element matches DTypeV::Primitive(p, _)
            && p == ptype) && elements_of(items, element),
        input.cells[r].value == ValueV::List(items),
        0 <= i < items.len(),
        items[i].valid,
        items[i].value == ValueV::Primitive(ptype, x),
    ensures
        least.result(&options, seq![input], input.len()) matches Ok(low) && low.cells[r].valid && (
        low.cells[r].value matches ValueV::Primitive(p, m) && p == ptype && m <= x),
        greatest.result(&options, seq![input], input.len()) matches Ok(high) && high.cells[r].valid
            && (high.cells[r].value matches ValueV::Primitive(p, m) && p == ptype && x <= m),
{
    list_min_is_least(least, options, input, r, items);
    list_max_is_greatest(greatest, options, input, r, items);
    let element = element_type(input.dtype)->Some_0;
    assert(counts(items[i], options.skip_nans));
    assert forall|k: int| 0 <= k < items.len() && (#[trigger] items[k]).valid implies !nan(
        items[k].value,
    ) && (items[k].value matches ValueV::Primitive(p, _) && p == ptype) by {
        assert(of_type(element, items[k].value));
    }
    assert(!nan_counts(items, options.skip_nans));
}

/// Extremes exist exactly for lists of scalars, and have the type of the elements, made nullable.
pub proof fn only_lists_of_scalars_have_extremes(
    least: ListMin,
    greatest: ListMax,
    options: NumericalAggregateOpts,
    input: ArrayV,
)
    ensures
        least.result(&options, seq![input], input.len()) is Ok <==> (element_type(
            input.dtype,
        ) matches Some(element) && scalar_type(element)),
        greatest.result(&options, seq![input], input.len()) is Ok <==> (element_type(
            input.dtype,
        ) matches Some(element) && scalar_type(element)),
        least.result(&options, seq![input], input.len()) matches Ok(out) ==> out.dtype.nullable()
            && out.dtype.eq_ignore_nullability(element_type(input.dtype)->Some_0),
        greatest.result(&options, seq![input], input.len()) matches Ok(out) ==> out.dtype.nullable()
            && out.dtype.eq_ignore_nullability(element_type(input.dtype)->Some_0),
{
    assert(seq![input][0] == input);
    if let Some(element) = element_type(input.dtype) {
        crate::dtype::with_nullability_sets_nullability(
            element,
            crate::dtype::Nullability::Nullable,
        );
        crate::dtype::eq_ignore_nullability_is_an_equivalence(
            element,
            element.with_nullability(crate::dtype::Nullability::Nullable),
            element,
            crate::dtype::Nullability::Nullable,
        );
    }
}

} // verus!
