//! What evaluation depends on: the types and the rows that a reader sees.

use vstd::prelude::*;

use crate::array::ArrayV;
use crate::dtype::{self, DTypeV, Nullability, PType};
use crate::expr::eval;
use crate::expr::laws;
use crate::expr::tree::{self, ExprV};
use crate::native::{F16, F32, F64};
use crate::order;
use crate::scalar_fn::fns::arithmetic;
use crate::scalar_fn::fns::binary;
use crate::scalar_fn::fns::boolean;
use crate::scalar_fn::fns::byte_length::{self, ByteLength};
use crate::scalar_fn::fns::compare;
use crate::scalar_fn::fns::decimal;
use crate::scalar_fn::fns::list_min_max;
use crate::scalar_fn::fns::not::{self, Not};
use crate::scalar_fn::fns::numeric::NumericOperator;
use crate::scalar_fn::fns::operators::{CompareOperator, Operator};
use crate::scalar_fn::fns::zip;
use crate::scalar_fn::options::EmptyOptions;
use crate::scalar_fn::row::primitive::PrimitiveElement;
use crate::scalar_fn::strict_laws;
use crate::scalar_fn::vtable;
use crate::value::{self, CellV, ValueV};

verus! {

/// A payload with nothing behind its nested nulls.
pub open spec fn bare(value: ValueV) -> ValueV
    decreases value,
{
    match value {
        ValueV::List(items) => ValueV::List(
            Seq::new(
                items.len(),
                |i: int|
                    if 0 <= i < items.len() {
                        bare_cell(items[i])
                    } else {
                        arbitrary()
                    },
            ),
        ),
        ValueV::Struct(items) => ValueV::Struct(
            Seq::new(
                items.len(),
                |i: int|
                    if 0 <= i < items.len() {
                        bare_cell(items[i])
                    } else {
                        arbitrary()
                    },
            ),
        ),
        other => other,
    }
}

/// A row with nothing behind its nulls: all that a reader sees of it.
pub open spec fn bare_cell(cell: CellV) -> CellV
    decreases cell,
{
    if cell.valid {
        CellV { valid: true, value: bare(cell.value) }
    } else {
        value::null_cell()
    }
}

/// Two rows of elements look the same.
pub open spec fn look_alike(a: Seq<CellV>, b: Seq<CellV>) -> bool {
    a.len() == b.len() && forall|i: int|
        0 <= i < a.len() ==> bare_cell(#[trigger] a[i]) == bare_cell(b[i])
}

proof fn list_looks(items: Seq<CellV>)
    ensures
        bare(ValueV::List(items)) is List,
        bare(ValueV::List(items))->List_0.len() == items.len(),
        forall|i: int|
            0 <= i < items.len() ==> #[trigger] bare(ValueV::List(items))->List_0[i] == bare_cell(
                items[i],
            ),
{
}

proof fn struct_looks(items: Seq<CellV>)
    ensures
        bare(ValueV::Struct(items)) is Struct,
        bare(ValueV::Struct(items))->Struct_0.len() == items.len(),
        forall|i: int|
            0 <= i < items.len() ==> #[trigger] bare(ValueV::Struct(items))->Struct_0[i]
                == bare_cell(items[i]),
{
}

/// Payloads that look the same are of one kind; lists and structs have elements that look the same,
/// and anything else is equal.
proof fn bare_kinds(a: ValueV, b: ValueV)
    requires
        bare(a) == bare(b),
    ensures
        match a {
            ValueV::List(x) => b matches ValueV::List(y) && look_alike(x, y),
            ValueV::Struct(x) => b matches ValueV::Struct(y) && look_alike(x, y),
            _ => a == b,
        },
{
    match (a, b) {
        (ValueV::List(x), ValueV::List(y)) => {
            list_looks(x);
            list_looks(y);
            assert forall|i: int| 0 <= i < x.len() implies bare_cell(#[trigger] x[i]) == bare_cell(
                y[i],
            ) by {
                assert(bare(ValueV::List(x))->List_0[i] == bare_cell(x[i]));
                assert(bare(ValueV::List(y))->List_0[i] == bare_cell(y[i]));
            }
        },
        (ValueV::Struct(x), ValueV::Struct(y)) => {
            struct_looks(x);
            struct_looks(y);
            assert forall|i: int| 0 <= i < x.len() implies bare_cell(#[trigger] x[i]) == bare_cell(
                y[i],
            ) by {
                assert(bare(ValueV::Struct(x))->Struct_0[i] == bare_cell(x[i]));
                assert(bare(ValueV::Struct(y))->Struct_0[i] == bare_cell(y[i]));
            }
        },
        _ => {},
    }
}

/// Lists whose elements look the same look the same.
pub proof fn lists_look_alike(x: Seq<CellV>, y: Seq<CellV>)
    requires
        look_alike(x, y),
    ensures
        bare(ValueV::List(x)) == bare(ValueV::List(y)),
{
    list_looks(x);
    list_looks(y);
    assert(bare(ValueV::List(x))->List_0 =~= bare(ValueV::List(y))->List_0);
}

/// The order of payloads goes by what a reader sees of them.
proof fn order_goes_by_looks(a: ValueV, b: ValueV, c: ValueV, d: ValueV)
    requires
        bare(a) == bare(c),
        bare(b) == bare(d),
    ensures
        order::order(a, b) == order::order(c, d),
    decreases a, 0nat,
{
    bare_kinds(a, c);
    bare_kinds(b, d);
    match (a, b, c, d) {
        (ValueV::List(x), ValueV::List(y), ValueV::List(z), ValueV::List(w)) => {
            cells_order_goes_by_looks(x, y, z, w, 0);
        },
        (ValueV::Struct(x), ValueV::Struct(y), ValueV::Struct(z), ValueV::Struct(w)) => {
            cells_order_goes_by_looks(x, y, z, w, 0);
        },
        _ => {},
    }
}

proof fn cells_order_goes_by_looks(
    a: Seq<CellV>,
    b: Seq<CellV>,
    c: Seq<CellV>,
    d: Seq<CellV>,
    from: nat,
)
    requires
        look_alike(a, c),
        look_alike(b, d),
    ensures
        order::cells_order(a, b, from) == order::cells_order(c, d, from),
    decreases a, (a.len() - from) as nat,
{
    if from < a.len() && from < b.len() {
        assert(bare_cell(a[from as int]) == bare_cell(c[from as int]));
        assert(bare_cell(b[from as int]) == bare_cell(d[from as int]));
        cells_order_goes_by_looks(a, b, c, d, from + 1);
        if a[from as int].valid && b[from as int].valid {
            order_goes_by_looks(
                a[from as int].value,
                b[from as int].value,
                c[from as int].value,
                d[from as int].value,
            );
        }
    }
}

/// Two extremes look the same, or neither exists.
pub open spec fn same_extreme(a: Option<ValueV>, b: Option<ValueV>) -> bool {
    match (a, b) {
        (Some(x), Some(y)) => bare(x) == bare(y),
        (None, None) => true,
        _ => false,
    }
}

/// The extreme of a list goes by what a reader sees of its elements.
proof fn extremes_go_by_looks(
    a: Seq<CellV>,
    b: Seq<CellV>,
    greatest: bool,
    skip_nans: bool,
    n: nat,
)
    requires
        look_alike(a, b),
        n <= a.len(),
    ensures
        same_extreme(
            list_min_max::extreme(a, greatest, skip_nans, n),
            list_min_max::extreme(b, greatest, skip_nans, n),
        ),
    decreases n,
{
    if n > 0 {
        let m = (n - 1) as nat;
        extremes_go_by_looks(a, b, greatest, skip_nans, m);
        let x = a[n - 1];
        let y = b[n - 1];
        assert(bare_cell(x) == bare_cell(y));
        if x.valid {
            bare_kinds(x.value, y.value);
            if let (Some(v), Some(w)) = (
                list_min_max::extreme(a, greatest, skip_nans, m),
                list_min_max::extreme(b, greatest, skip_nans, m),
            ) {
                bare_kinds(v, w);
                order_goes_by_looks(x.value, v, y.value, w);
            }
        }
    }
}

/// Row `p` of one column and row `q` of another look the same.
pub open spec fn rows_look_alike(a: ArrayV, p: int, b: ArrayV, q: int) -> bool {
    bare_cell(a.cells[p]) == bare_cell(b.cells[q])
}

/// Primitive payloads go by their looks.
proof fn payloads_go_by_looks(a: ValueV, b: ValueV)
    requires
        bare(a) == bare(b),
    ensures
        <u8 as PrimitiveElement>::of_payload(a) == <u8 as PrimitiveElement>::of_payload(b),
        <u16 as PrimitiveElement>::of_payload(a) == <u16 as PrimitiveElement>::of_payload(b),
        <u32 as PrimitiveElement>::of_payload(a) == <u32 as PrimitiveElement>::of_payload(b),
        <u64 as PrimitiveElement>::of_payload(a) == <u64 as PrimitiveElement>::of_payload(b),
        <i8 as PrimitiveElement>::of_payload(a) == <i8 as PrimitiveElement>::of_payload(b),
        <i16 as PrimitiveElement>::of_payload(a) == <i16 as PrimitiveElement>::of_payload(b),
        <i32 as PrimitiveElement>::of_payload(a) == <i32 as PrimitiveElement>::of_payload(b),
        <i64 as PrimitiveElement>::of_payload(a) == <i64 as PrimitiveElement>::of_payload(b),
        <F16 as PrimitiveElement>::of_payload(a) == <F16 as PrimitiveElement>::of_payload(b),
        <F32 as PrimitiveElement>::of_payload(a) == <F32 as PrimitiveElement>::of_payload(b),
        <F64 as PrimitiveElement>::of_payload(a) == <F64 as PrimitiveElement>::of_payload(b),
{
    bare_kinds(a, b);
}

/// Types that differ in nullability at most are of one kind.
proof fn kinds_agree(a: DTypeV, b: DTypeV)
    requires
        a.eq_ignore_nullability(b),
    ensures
        a is Bool == b is Bool,
        a is Utf8 == b is Utf8,
        a is Binary == b is Binary,
        a is Decimal == b is Decimal,
        a is Extension == b is Extension,
        a is Struct == b is Struct,
        match a {
            DTypeV::Primitive(p, _) => b matches DTypeV::Primitive(q, _) && p == q,
            _ => !(b is Primitive),
        },
        match a {
            DTypeV::List(x, _) => b matches DTypeV::List(y, _) && x.eq_ignore_nullability(*y),
            _ => !(b is List),
        },
        match a {
            DTypeV::FixedSizeList(x, n, _) => b matches DTypeV::FixedSizeList(y, m, _) && n == m
                && x.eq_ignore_nullability(*y),
            _ => !(b is FixedSizeList),
        },
{
}

proof fn arithmetic_goes_by_looks(
    op: NumericOperator,
    a: ArrayV,
    b: ArrayV,
    p: int,
    c: ArrayV,
    d: ArrayV,
    q: int,
)
    requires
        a.uniform() && b.uniform() && c.uniform() && d.uniform(),
        a.len() == b.len(),
        c.len() == d.len(),
        0 <= p < a.len(),
        0 <= q < c.len(),
        a.dtype.eq_ignore_nullability(c.dtype),
        b.dtype.eq_ignore_nullability(d.dtype),
        rows_look_alike(a, p, c, q),
        rows_look_alike(b, p, d, q),
        arithmetic::numeric_result(op, a, b) is Ok,
        arithmetic::numeric_result(op, c, d) is Ok,
    ensures
        rows_look_alike(
            arithmetic::numeric_result(op, a, b)->Ok_0,
            p,
            arithmetic::numeric_result(op, c, d)->Ok_0,
            q,
        ),
{
    kinds_agree(a.dtype, c.dtype);
    kinds_agree(b.dtype, d.dtype);
    arithmetic::arithmetic_is_exact_on_valid_rows(op, a, b, p);
    arithmetic::arithmetic_is_exact_on_valid_rows(op, c, d, q);
    let ptype = arithmetic::operand_ptype(a.dtype, b.dtype)->Ok_0;
    assert(arithmetic::operand_ptype(c.dtype, d.dtype) == Ok::<PType, Seq<char>>(ptype));
    assert(zip::both_valid(a, b, p) == zip::both_valid(c, d, q));
    if zip::both_valid(a, b, p) {
        payloads_go_by_looks(a.cells[p].value, c.cells[q].value);
        payloads_go_by_looks(b.cells[p].value, d.cells[q].value);
        assert(arithmetic::integer_operands(ptype, a, b)[p] == arithmetic::integer_operands(
            ptype,
            c,
            d,
        )[q]);
    }
}

proof fn decimals_go_by_looks(
    op: NumericOperator,
    a: ArrayV,
    b: ArrayV,
    p: int,
    c: ArrayV,
    d: ArrayV,
    q: int,
)
    requires
        a.uniform() && b.uniform() && c.uniform() && d.uniform(),
        a.len() == b.len(),
        c.len() == d.len(),
        0 <= p < a.len(),
        0 <= q < c.len(),
        a.dtype.eq_ignore_nullability(c.dtype),
        b.dtype.eq_ignore_nullability(d.dtype),
        rows_look_alike(a, p, c, q),
        rows_look_alike(b, p, d, q),
        decimal::decimal_result(op, a, b) is Ok,
        decimal::decimal_result(op, c, d) is Ok,
    ensures
        rows_look_alike(
            decimal::decimal_result(op, a, b)->Ok_0,
            p,
            decimal::decimal_result(op, c, d)->Ok_0,
            q,
        ),
{
    kinds_agree(a.dtype, c.dtype);
    kinds_agree(b.dtype, d.dtype);
    decimal::decimal_arithmetic_is_exact_on_valid_rows(op, a, b, p);
    decimal::decimal_arithmetic_is_exact_on_valid_rows(op, c, d, q);
    assert(zip::both_valid(a, b, p) == zip::both_valid(c, d, q));
    if zip::both_valid(a, b, p) {
        payloads_go_by_looks(a.cells[p].value, c.cells[q].value);
        payloads_go_by_looks(b.cells[p].value, d.cells[q].value);
    }
}

/// What a reader sees of one row of a comparison.
proof fn compared_row(op: CompareOperator, a: ArrayV, b: ArrayV, p: int)
    requires
        a.uniform() && b.uniform(),
        a.len() == b.len(),
        0 <= p < a.len(),
    ensures
        binary::compare_result(op, a, b).row(p) == (if zip::both_valid(a, b, p) {
            Some(
                ValueV::Bool(
                    match compare::comparable(a.dtype, b.dtype) {
                        Ok(ptype) => compare::compare_payloads(
                            ptype,
                            op,
                            a.cells[p].value,
                            b.cells[p].value,
                        ),
                        Err(_) => op.holds(order::order(a.cells[p].value, b.cells[p].value), 0),
                    },
                ),
            )
        } else {
            None
        }),
{
    let declared = compare::compared_dtype(a.dtype, b.dtype);
    assert(a.constant matches Some(cell) ==> a.cells[p] == cell && a.cells[0] == cell);
    assert(b.constant matches Some(cell) ==> b.cells[p] == cell && b.cells[0] == cell);
    match compare::comparable(a.dtype, b.dtype) {
        Ok(ptype) => {
            zip::zipped_rows(declared, a, b, compare::primitive_values(ptype, op, a, b), p);
        },
        Err(_) => {
            zip::zipped_rows(declared, a, b, binary::ordered_values(op, a, b), p);
        },
    }
}

proof fn comparisons_go_by_looks(
    op: CompareOperator,
    a: ArrayV,
    b: ArrayV,
    p: int,
    c: ArrayV,
    d: ArrayV,
    q: int,
)
    requires
        a.uniform() && b.uniform() && c.uniform() && d.uniform(),
        a.len() == b.len(),
        c.len() == d.len(),
        0 <= p < a.len(),
        0 <= q < c.len(),
        a.dtype.eq_ignore_nullability(c.dtype),
        b.dtype.eq_ignore_nullability(d.dtype),
        rows_look_alike(a, p, c, q),
        rows_look_alike(b, p, d, q),
    ensures
        rows_look_alike(binary::compare_result(op, a, b), p, binary::compare_result(op, c, d), q),
{
    kinds_agree(a.dtype, c.dtype);
    kinds_agree(b.dtype, d.dtype);
    compared_row(op, a, b, p);
    compared_row(op, c, d, q);
    if zip::both_valid(a, b, p) {
        payloads_go_by_looks(a.cells[p].value, c.cells[q].value);
        payloads_go_by_looks(b.cells[p].value, d.cells[q].value);
        order_goes_by_looks(
            a.cells[p].value,
            b.cells[p].value,
            c.cells[q].value,
            d.cells[q].value,
        );
    }
}

/// The truth of a row goes by its looks.
proof fn truth_goes_by_looks(a: CellV, b: CellV)
    requires
        bare_cell(a) == bare_cell(b),
    ensures
        boolean::truth(a) == boolean::truth(b),
{
    if a.valid {
        bare_kinds(a.value, b.value);
    }
}

/// What a row of a boolean operator says.
proof fn combined_row(op: Operator, a: ArrayV, b: ArrayV, p: int)
    requires
        a.uniform() && b.uniform(),
        a.len() == b.len(),
        0 <= p < a.len(),
        boolean::boolean_result(op, a, b) is Ok,
    ensures
        boolean::boolean_result(op, a, b)->Ok_0.cells[p] == boolean::truth_cell(
            boolean::kleene(op, boolean::truth(a.cells[p]), boolean::truth(b.cells[p])),
        ),
{
    assert(a.constant matches Some(cell) ==> a.cells[p] == cell && a.cells[0] == cell);
    assert(b.constant matches Some(cell) ==> b.cells[p] == cell && b.cells[0] == cell);
}

/// A row of a binary operator goes by the looks of its operands.
proof fn operators_go_by_looks(
    op: Operator,
    a: ArrayV,
    b: ArrayV,
    p: int,
    c: ArrayV,
    d: ArrayV,
    q: int,
)
    requires
        a.uniform() && b.uniform() && c.uniform() && d.uniform(),
        a.len() == b.len(),
        c.len() == d.len(),
        0 <= p < a.len(),
        0 <= q < c.len(),
        a.dtype.eq_ignore_nullability(c.dtype),
        b.dtype.eq_ignore_nullability(d.dtype),
        rows_look_alike(a, p, c, q),
        rows_look_alike(b, p, d, q),
        binary::binary_result(op, a, b) is Ok,
        binary::binary_result(op, c, d) is Ok,
    ensures
        rows_look_alike(
            binary::binary_result(op, a, b)->Ok_0,
            p,
            binary::binary_result(op, c, d)->Ok_0,
            q,
        ),
{
    match op.arithmetic() {
        Some(numeric) => {
            kinds_agree(a.dtype, c.dtype);
            if a.dtype is Decimal {
                decimals_go_by_looks(numeric, a, b, p, c, d, q);
            } else {
                arithmetic_goes_by_looks(numeric, a, b, p, c, d, q);
            }
        },
        None => match op.comparison() {
            Some(comparison) => comparisons_go_by_looks(comparison, a, b, p, c, d, q),
            None => {
                combined_row(op, a, b, p);
                combined_row(op, c, d, q);
                truth_goes_by_looks(a.cells[p], c.cells[q]);
                truth_goes_by_looks(b.cells[p], d.cells[q]);
            },
        },
    }
}

pub proof fn alike_types_chain(a: DTypeV, b: DTypeV, c: DTypeV, n: Nullability)
    ensures
        a.eq_ignore_nullability(a),
        a.eq_ignore_nullability(b) ==> b.eq_ignore_nullability(a),
        a.eq_ignore_nullability(b) && b.eq_ignore_nullability(c) ==> a.eq_ignore_nullability(c),
        a.eq_ignore_nullability(a.with_nullability(n)),
        a.with_nullability(n).eq_ignore_nullability(a),
{
    dtype::eq_ignore_nullability_is_an_equivalence(a, b, c, n);
    dtype::eq_ignore_nullability_is_an_equivalence(a, a.with_nullability(n), a, n);
}

/// Fields of the same names are found at the same place.
proof fn fields_are_found_alike(
    a: Seq<(Seq<char>, DTypeV)>,
    b: Seq<(Seq<char>, DTypeV)>,
    name: Seq<char>,
    from: int,
)
    requires
        a.len() == b.len(),
        forall|i: int| 0 <= i < a.len() ==> (#[trigger] a[i]).0 == b[i].0,
        0 <= from,
    ensures
        tree::field_index(a, name, from) == tree::field_index(b, name, from),
        tree::field_index(a, name, from) matches Some(i) ==> from <= i < a.len(),
    decreases a.len() - from,
{
    if from < a.len() {
        assert(a[from].0 == b[from].0);
        fields_are_found_alike(a, b, name, from + 1);
    }
}

/// Struct types that differ in nullability at most have the same fields.
proof fn fields_agree(a: DTypeV, b: DTypeV, name: Seq<char>)
    requires
        a.eq_ignore_nullability(b),
        tree::field_of(a, name) is Ok,
    ensures
        tree::field_of(b, name) is Ok,
        tree::field_of(a, name)->Ok_0.0 == tree::field_of(b, name)->Ok_0.0,
        tree::field_of(a, name)->Ok_0.1.eq_ignore_nullability(tree::field_of(b, name)->Ok_0.1),
{
    kinds_agree(a, b);
    let x = a->Struct_0;
    let y = b->Struct_0;
    let ex = a.erased()->Struct_0;
    let ey = b.erased()->Struct_0;
    assert(ex.len() == x.len() && ey.len() == y.len());
    assert forall|i: int| 0 <= i < x.len() implies (#[trigger] x[i]).0 == y[i].0
        && x[i].1.eq_ignore_nullability(y[i].1) by {
        assert(ex[i] == (x[i].0, x[i].1.erased()));
        assert(ey[i] == (y[i].0, y[i].1.erased()));
    }
    fields_are_found_alike(x, y, name, 0);
    let i = tree::field_index(x, name, 0)->Some_0;
    let f = tree::field_of(a, name)->Ok_0.1;
    let g = tree::field_of(b, name)->Ok_0.1;
    assert(x[i].0 == y[i].0);
    alike_types_chain(x[i].1, y[i].1, y[i].1, x[i].1.nullability().union(a->Struct_1));
    alike_types_chain(y[i].1, y[i].1, y[i].1, y[i].1.nullability().union(b->Struct_1));
    alike_types_chain(f, x[i].1, y[i].1, Nullability::Nullable);
    alike_types_chain(f, y[i].1, g, Nullability::Nullable);
}

/// The type of a binary operator ignores nullability.
proof fn operator_types_agree(op: Operator, a: DTypeV, b: DTypeV, c: DTypeV, d: DTypeV)
    requires
        a.eq_ignore_nullability(c),
        b.eq_ignore_nullability(d),
        binary::binary_dtype(op, a, b) is Ok,
    ensures
        binary::binary_dtype(op, c, d) is Ok,
        binary::binary_dtype(op, a, b)->Ok_0.eq_ignore_nullability(
            binary::binary_dtype(op, c, d)->Ok_0,
        ),
{
    kinds_agree(a, c);
    kinds_agree(b, d);
    alike_types_chain(a, c, c, a.nullability().union(b.nullability()));
    alike_types_chain(c, a, b, c.nullability().union(d.nullability()));
    alike_types_chain(c, b, d, Nullability::Nullable);
    if op.arithmetic() is Some {
        let x = a.with_nullability(a.nullability().union(b.nullability()));
        let y = c.with_nullability(c.nullability().union(d.nullability()));
        alike_types_chain(x, a, c, Nullability::Nullable);
        alike_types_chain(x, c, y, Nullability::Nullable);
    }
}

/// Nullability decides no type but for nullability: an expression that has a type in a scope has
/// one in any scope whose type differs in nullability at most, and so does the type itself.
pub proof fn types_ignore_nullability(expr: ExprV, a: DTypeV, b: DTypeV)
    requires
        a.eq_ignore_nullability(b),
        expr.dtype(a) is Ok,
    ensures
        expr.dtype(b) is Ok,
        expr.dtype(a)->Ok_0.eq_ignore_nullability(expr.dtype(b)->Ok_0),
    decreases expr,
{
    match expr {
        ExprV::Root => {},
        ExprV::Literal(_, _) => {},
        ExprV::GetItem(name, child) => {
            types_ignore_nullability(*child, a, b);
            fields_agree(child.dtype(a)->Ok_0, child.dtype(b)->Ok_0, name);
        },
        ExprV::Binary(op, lhs, rhs) => {
            types_ignore_nullability(*lhs, a, b);
            types_ignore_nullability(*rhs, a, b);
            operator_types_agree(
                op,
                lhs.dtype(a)->Ok_0,
                rhs.dtype(a)->Ok_0,
                lhs.dtype(b)->Ok_0,
                rhs.dtype(b)->Ok_0,
            );
        },
        ExprV::Not(child) => {
            types_ignore_nullability(*child, a, b);
            kinds_agree(child.dtype(a)->Ok_0, child.dtype(b)->Ok_0);
        },
        ExprV::ByteLength(child) => {
            types_ignore_nullability(*child, a, b);
            kinds_agree(child.dtype(a)->Ok_0, child.dtype(b)->Ok_0);
        },
        ExprV::ListExtreme(greatest, _, child) => {
            types_ignore_nullability(*child, a, b);
            extreme_types_agree(greatest, child.dtype(a)->Ok_0, child.dtype(b)->Ok_0);
        },
        ExprV::ListTransform(body, child) => {
            types_ignore_nullability(*child, a, b);
            let x = child.dtype(a)->Ok_0;
            let y = child.dtype(b)->Ok_0;
            kinds_agree(x, y);
            types_ignore_nullability(
                *body,
                eval::element_of(x)->Some_0,
                eval::element_of(y)->Some_0,
            );
        },
        ExprV::IsNotNull(child) => {
            types_ignore_nullability(*child, a, b);
        },
    }
}

proof fn extreme_types_agree(greatest: bool, a: DTypeV, b: DTypeV)
    requires
        a.eq_ignore_nullability(b),
        list_min_max::extreme_dtype(greatest, a) is Ok,
    ensures
        list_min_max::extreme_dtype(greatest, b) is Ok,
        list_min_max::extreme_dtype(greatest, a)->Ok_0.eq_ignore_nullability(
            list_min_max::extreme_dtype(greatest, b)->Ok_0,
        ),
{
    kinds_agree(a, b);
    let x = list_min_max::element_dtype(greatest, a)->Ok_0;
    let y = eval::element_of(b)->Some_0;
    kinds_agree(x, y);
    alike_types_chain(x, y, y, Nullability::Nullable);
    alike_types_chain(y, y, y, Nullability::Nullable);
    alike_types_chain(x.with_nullability(Nullability::Nullable), x, y, Nullability::Nullable);
    alike_types_chain(
        x.with_nullability(Nullability::Nullable),
        y,
        y.with_nullability(Nullability::Nullable),
        Nullability::Nullable,
    );
}

/// A column of a binary operator has the operator's type, but for nullability.
proof fn operators_have_their_type(op: Operator, a: ArrayV, b: ArrayV)
    requires
        binary::binary_result(op, a, b) is Ok,
    ensures
        binary::binary_dtype(op, a.dtype, b.dtype) is Ok,
        binary::binary_dtype(op, a.dtype, b.dtype)->Ok_0.eq_ignore_nullability(
            binary::binary_result(op, a, b)->Ok_0.dtype,
        ),
{
    let declared = binary::binary_dtype(op, a.dtype, b.dtype)->Ok_0;
    let out = binary::binary_result(op, a, b)->Ok_0;
    match op.arithmetic() {
        Some(_) => if a.dtype is Decimal {
            let decimal = decimal::operand_decimal(a.dtype, b.dtype)->Ok_0;
            assert(declared.erased() == DTypeV::Decimal(decimal, Nullability::NonNullable));
            assert(out.dtype is Decimal && out.dtype->Decimal_0 == decimal);
        } else {
            let ptype = arithmetic::operand_ptype(a.dtype, b.dtype)->Ok_0;
            assert(declared.erased() == DTypeV::Primitive(ptype, Nullability::NonNullable));
            assert(out.dtype is Primitive && out.dtype->Primitive_0 == ptype);
        },
        None => {
            assert(declared is Bool);
            assert(out.dtype is Bool);
        },
    }
}

/// An expression that evaluates has a type, and its column has that type, but for nullability.
pub proof fn evaluation_has_the_declared_type(expr: ExprV, scope: ArrayV)
    requires
        scope.uniform(),
        expr.evaluated(scope) is Ok,
    ensures
        expr.dtype(scope.dtype) is Ok,
        expr.dtype(scope.dtype)->Ok_0.eq_ignore_nullability(expr.evaluated(scope)->Ok_0.dtype),
    decreases expr,
{
    let out = expr.evaluated(scope)->Ok_0;
    match expr {
        ExprV::Root => {},
        ExprV::Literal(_, _) => {},
        ExprV::GetItem(name, child) => {
            evaluation_has_the_declared_type(*child, scope);
            let input = child.evaluated(scope)->Ok_0;
            let t = child.dtype(scope.dtype)->Ok_0;
            alike_types_chain(t, input.dtype, t, Nullability::Nullable);
            fields_agree(input.dtype, t, name);
            let f = tree::field_of(input.dtype, name)->Ok_0.1;
            let g = tree::field_of(t, name)->Ok_0.1;
            alike_types_chain(f, g, f, Nullability::Nullable);
        },
        ExprV::Binary(op, lhs, rhs) => {
            evaluation_has_the_declared_type(*lhs, scope);
            evaluation_has_the_declared_type(*rhs, scope);
            let a = lhs.evaluated(scope)->Ok_0;
            let b = rhs.evaluated(scope)->Ok_0;
            let s = lhs.dtype(scope.dtype)->Ok_0;
            let t = rhs.dtype(scope.dtype)->Ok_0;
            operators_have_their_type(op, a, b);
            alike_types_chain(s, a.dtype, s, Nullability::Nullable);
            alike_types_chain(t, b.dtype, t, Nullability::Nullable);
            operator_types_agree(op, a.dtype, b.dtype, s, t);
            let x = binary::binary_dtype(op, a.dtype, b.dtype)->Ok_0;
            let y = binary::binary_dtype(op, s, t)->Ok_0;
            alike_types_chain(x, y, x, Nullability::Nullable);
            alike_types_chain(y, x, out.dtype, Nullability::Nullable);
        },
        ExprV::Not(child) => {
            evaluation_has_the_declared_type(*child, scope);
            let input = child.evaluated(scope)->Ok_0;
            kinds_agree(child.dtype(scope.dtype)->Ok_0, input.dtype);
            let args = seq![input];
            assert(vtable::dtypes_of(args) =~= seq![input.dtype]);
            strict_laws::strict_functions_return_the_declared_type(
                &Not,
                &EmptyOptions,
                args,
                input.len(),
            );
        },
        ExprV::ByteLength(child) => {
            evaluation_has_the_declared_type(*child, scope);
            let input = child.evaluated(scope)->Ok_0;
            kinds_agree(child.dtype(scope.dtype)->Ok_0, input.dtype);
            let args = seq![input];
            assert(vtable::dtypes_of(args) =~= seq![input.dtype]);
            strict_laws::strict_functions_return_the_declared_type(
                &ByteLength,
                &EmptyOptions,
                args,
                input.len(),
            );
        },
        ExprV::ListExtreme(greatest, _, child) => {
            evaluation_has_the_declared_type(*child, scope);
            let input = child.evaluated(scope)->Ok_0;
            let t = child.dtype(scope.dtype)->Ok_0;
            alike_types_chain(t, input.dtype, t, Nullability::Nullable);
            extreme_types_agree(greatest, input.dtype, t);
            let x = list_min_max::extreme_dtype(greatest, input.dtype)->Ok_0;
            let y = list_min_max::extreme_dtype(greatest, t)->Ok_0;
            alike_types_chain(x, y, x, Nullability::Nullable);
        },
        ExprV::ListTransform(body, child) => {
            evaluation_has_the_declared_type(*child, scope);
            let input = child.evaluated(scope)->Ok_0;
            let t = child.dtype(scope.dtype)->Ok_0;
            alike_types_chain(t, input.dtype, t, Nullability::Nullable);
            kinds_agree(t, input.dtype);
            let element = eval::element_of(input.dtype)->Some_0;
            let declared = eval::element_of(t)->Some_0;
            alike_types_chain(declared, element, declared, Nullability::Nullable);
            let whole = match input.constant {
                Some(cell) => eval::one_row(input.dtype, cell),
                None => input,
            };
            let elements = eval::elements_of(whole, element);
            if !(input.constant matches Some(cell) && !cell.valid) {
                evaluation_has_the_declared_type(*body, elements);
            }
            types_ignore_nullability(*body, element, declared);
            let x = body.dtype(element)->Ok_0;
            let y = body.dtype(declared)->Ok_0;
            alike_types_chain(x, y, x, Nullability::Nullable);
            if !(input.constant matches Some(cell) && !cell.valid) {
                alike_types_chain(
                    y,
                    x,
                    body.evaluated(elements)->Ok_0.dtype,
                    Nullability::Nullable,
                );
            }
        },
        ExprV::IsNotNull(child) => {
            evaluation_has_the_declared_type(*child, scope);
        },
    }
}

/// Over scopes whose types differ in nullability at most, an expression gives columns whose types
/// do.
proof fn evaluated_types_agree(expr: ExprV, a: ArrayV, b: ArrayV)
    requires
        a.uniform(),
        b.uniform(),
        a.dtype.eq_ignore_nullability(b.dtype),
        expr.evaluated(a) is Ok,
        expr.evaluated(b) is Ok,
    ensures
        expr.evaluated(a)->Ok_0.dtype.eq_ignore_nullability(expr.evaluated(b)->Ok_0.dtype),
{
    evaluation_has_the_declared_type(expr, a);
    evaluation_has_the_declared_type(expr, b);
    types_ignore_nullability(expr, a.dtype, b.dtype);
    let x = expr.evaluated(a)->Ok_0.dtype;
    let y = expr.evaluated(b)->Ok_0.dtype;
    let s = expr.dtype(a.dtype)->Ok_0;
    let t = expr.dtype(b.dtype)->Ok_0;
    alike_types_chain(s, x, s, Nullability::Nullable);
    alike_types_chain(x, s, t, Nullability::Nullable);
    alike_types_chain(x, t, y, Nullability::Nullable);
}

proof fn fields_go_by_looks(a: CellV, b: CellV, index: int)
    requires
        bare_cell(a) == bare_cell(b),
    ensures
        bare_cell(eval::field_cell(a, index)) == bare_cell(eval::field_cell(b, index)),
{
    if a.valid {
        bare_kinds(a.value, b.value);
        if let (ValueV::Struct(x), ValueV::Struct(y)) = (a.value, b.value) {
            if 0 <= index < x.len() {
                assert(bare_cell(x[index]) == bare_cell(y[index]));
            }
        }
    }
}

/// The column whose elements a list transform transforms: a constant as one row, or the column.
pub open spec fn transformed_whole(input: ArrayV) -> ArrayV {
    match input.constant {
        Some(cell) => eval::one_row(input.dtype, cell),
        None => input,
    }
}

/// Where row `p` stands in that column.
pub open spec fn place_in_whole(input: ArrayV, p: int) -> int {
    if input.constant is Some {
        0
    } else {
        p
    }
}

/// Row `p` of a list transform that is not over a null constant: the row with its elements
/// replaced by what the body gives at their places.
pub proof fn transformed_row(body: ExprV, child: ExprV, scope: ArrayV, p: int)
    requires
        scope.uniform(),
        0 <= p < scope.len(),
        ExprV::ListTransform(Box::new(body), Box::new(child)).evaluated(scope) is Ok,
        !(child.evaluated(scope)->Ok_0.constant matches Some(cell) && !cell.valid),
    ensures
        ({
            let input = child.evaluated(scope)->Ok_0;
            let whole = transformed_whole(input);
            let row = place_in_whole(input, p);
            let element = eval::element_of(input.dtype)->Some_0;
            let elements = eval::elements_of(whole, element);
            let out = ExprV::ListTransform(Box::new(body), Box::new(child)).evaluated(scope)->Ok_0;
            &&& 0 <= row < whole.len()
            &&& whole.cells[row] == input.cells[p]
            &&& eval::element_of(input.dtype) is Some
            &&& body.evaluated(elements) is Ok
            &&& body.evaluated(elements)->Ok_0.len() == elements.len()
            &&& out.cells[p] == eval::regrouped(
                whole.cells,
                body.evaluated(elements)->Ok_0.cells,
                row,
            )
        }),
{
    eval::evaluation_keeps_rows(child, scope);
    let input = child.evaluated(scope)->Ok_0;
    let whole = transformed_whole(input);
    let element = eval::element_of(input.dtype)->Some_0;
    let elements = eval::elements_of(whole, element);
    assert(elements.uniform());
    eval::evaluation_keeps_rows(body, elements);
}

/// Evaluation is row-local: what a reader sees in a row depends on nothing but the type of the
/// scope, its nullability aside, and what a reader sees in that row of it. It depends neither on
/// other rows nor on how many there are, nor on how they are stored, nor on what lies behind nulls.
pub proof fn evaluation_is_row_local(expr: ExprV, a: ArrayV, p: int, b: ArrayV, q: int)
    requires
        a.uniform(),
        b.uniform(),
        a.dtype.eq_ignore_nullability(b.dtype),
        0 <= p < a.len(),
        0 <= q < b.len(),
        rows_look_alike(a, p, b, q),
        expr.evaluated(a) is Ok,
        expr.evaluated(b) is Ok,
    ensures
        rows_look_alike(expr.evaluated(a)->Ok_0, p, expr.evaluated(b)->Ok_0, q),
    decreases expr,
{
    match expr {
        ExprV::Root => {},
        ExprV::Literal(_, _) => {},
        ExprV::GetItem(name, child) => {
            evaluation_is_row_local(*child, a, p, b, q);
            evaluated_types_agree(*child, a, b);
            eval::evaluation_keeps_rows(*child, a);
            eval::evaluation_keeps_rows(*child, b);
            let x = child.evaluated(a)->Ok_0;
            let y = child.evaluated(b)->Ok_0;
            fields_agree(x.dtype, y.dtype, name);
            let index = tree::field_of(x.dtype, name)->Ok_0.0;
            fields_go_by_looks(x.cells[p], y.cells[q], index);
            assert(x.constant matches Some(cell) ==> x.cells[p] == cell);
            assert(y.constant matches Some(cell) ==> y.cells[q] == cell);
        },
        ExprV::Binary(op, lhs, rhs) => {
            evaluation_is_row_local(*lhs, a, p, b, q);
            evaluation_is_row_local(*rhs, a, p, b, q);
            evaluated_types_agree(*lhs, a, b);
            evaluated_types_agree(*rhs, a, b);
            eval::evaluation_keeps_rows(*lhs, a);
            eval::evaluation_keeps_rows(*rhs, a);
            eval::evaluation_keeps_rows(*lhs, b);
            eval::evaluation_keeps_rows(*rhs, b);
            operators_go_by_looks(
                op,
                lhs.evaluated(a)->Ok_0,
                rhs.evaluated(a)->Ok_0,
                p,
                lhs.evaluated(b)->Ok_0,
                rhs.evaluated(b)->Ok_0,
                q,
            );
        },
        ExprV::Not(child) => {
            evaluation_is_row_local(*child, a, p, b, q);
            eval::evaluation_keeps_rows(*child, a);
            eval::evaluation_keeps_rows(*child, b);
            let x = child.evaluated(a)->Ok_0;
            let y = child.evaluated(b)->Ok_0;
            not::not_shows_inverses(x, p);
            not::not_shows_inverses(y, q);
            if x.cells[p].valid {
                bare_kinds(x.cells[p].value, y.cells[q].value);
            }
        },
        ExprV::ByteLength(child) => {
            evaluation_is_row_local(*child, a, p, b, q);
            eval::evaluation_keeps_rows(*child, a);
            eval::evaluation_keeps_rows(*child, b);
            let x = child.evaluated(a)->Ok_0;
            let y = child.evaluated(b)->Ok_0;
            byte_length::byte_length_shows_lengths(x, p);
            byte_length::byte_length_shows_lengths(y, q);
            if x.cells[p].valid {
                bare_kinds(x.cells[p].value, y.cells[q].value);
            }
        },
        ExprV::ListExtreme(greatest, options, child) => {
            evaluation_is_row_local(*child, a, p, b, q);
            eval::evaluation_keeps_rows(*child, a);
            eval::evaluation_keeps_rows(*child, b);
            let x = child.evaluated(a)->Ok_0;
            let y = child.evaluated(b)->Ok_0;
            assert(x.constant matches Some(cell) ==> x.cells[p] == cell);
            assert(y.constant matches Some(cell) ==> y.cells[q] == cell);
            if x.cells[p].valid {
                bare_kinds(x.cells[p].value, y.cells[q].value);
                if let (ValueV::List(v), ValueV::List(w)) = (x.cells[p].value, y.cells[q].value) {
                    extremes_go_by_looks(v, w, greatest, options.skip_nans, v.len());
                }
            }
        },
        ExprV::ListTransform(body, child) => {
            evaluation_is_row_local(*child, a, p, b, q);
            evaluated_types_agree(*child, a, b);
            eval::evaluation_keeps_rows(*child, a);
            eval::evaluation_keeps_rows(*child, b);
            let x = child.evaluated(a)->Ok_0;
            let y = child.evaluated(b)->Ok_0;
            assert(x.constant matches Some(cell) ==> x.cells[p] == cell);
            assert(y.constant matches Some(cell) ==> y.cells[q] == cell);
            if !(x.constant matches Some(cell) && !cell.valid) {
                transformed_row(*body, *child, a, p);
            }
            if !(y.constant matches Some(cell) && !cell.valid) {
                transformed_row(*body, *child, b, q);
            }
            if x.cells[p].valid {
                bare_kinds(x.cells[p].value, y.cells[q].value);
                if let (ValueV::List(v), ValueV::List(w)) = (x.cells[p].value, y.cells[q].value) {
                    kinds_agree(x.dtype, y.dtype);
                    let s = transformed_whole(x);
                    let t = transformed_whole(y);
                    let i = place_in_whole(x, p);
                    let j = place_in_whole(y, q);
                    let c = eval::elements_of(s, eval::element_of(x.dtype)->Some_0);
                    let d = eval::elements_of(t, eval::element_of(y.dtype)->Some_0);
                    laws::flattened_holds_items(s.cells, s.len(), i);
                    laws::flattened_holds_items(t.cells, t.len(), j);
                    let f = eval::flattened(s.cells, i as nat).len() as int;
                    let g = eval::flattened(t.cells, j as nat).len() as int;
                    let m = body.evaluated(c)->Ok_0.cells.subrange(f, f + v.len());
                    let n = body.evaluated(d)->Ok_0.cells.subrange(g, g + w.len());
                    assert forall|k: int| 0 <= k < m.len() implies bare_cell(#[trigger] m[k])
                        == bare_cell(n[k]) by {
                        assert(c.cells.subrange(f, f + v.len())[k] == v[k]);
                        assert(d.cells.subrange(g, g + w.len())[k] == w[k]);
                        assert(bare_cell(v[k]) == bare_cell(w[k]));
                        evaluation_is_row_local(*body, c, f + k, d, g + k);
                    }
                    lists_look_alike(m, n);
                }
            }
        },
        ExprV::IsNotNull(child) => {
            evaluation_is_row_local(*child, a, p, b, q);
            eval::evaluation_keeps_rows(*child, a);
            eval::evaluation_keeps_rows(*child, b);
        },
    }
}

} // verus!
