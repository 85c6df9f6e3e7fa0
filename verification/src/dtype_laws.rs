//! When types agree, said of their parts.

use vstd::prelude::*;

use crate::dtype::{DTypeV, Nullability, PType};

verus! {

/// Types agree in their parts: primitives of one type, decimals of one precision and scale, lists of
/// agreeing elements and of one size where it is fixed, structs with the same names and agreeing
/// types, and extensions of one name over agreeing types.
pub open spec fn agree(a: DTypeV, b: DTypeV) -> bool {
    match (a, b) {
        (DTypeV::Null, DTypeV::Null) => true,
        (DTypeV::Bool(_), DTypeV::Bool(_)) => true,
        (DTypeV::Primitive(p, _), DTypeV::Primitive(q, _)) => p == q,
        (DTypeV::Decimal(d, _), DTypeV::Decimal(e, _)) => d == e,
        (DTypeV::Utf8(_), DTypeV::Utf8(_)) => true,
        (DTypeV::Binary(_), DTypeV::Binary(_)) => true,
        (DTypeV::List(x, _), DTypeV::List(y, _)) => x.eq_ignore_nullability(*y),
        (DTypeV::FixedSizeList(x, m, _), DTypeV::FixedSizeList(y, n, _)) => m == n
            && x.eq_ignore_nullability(*y),
        (DTypeV::Struct(f, _), DTypeV::Struct(g, _)) => f.len() == g.len() && forall|i: int|
            0 <= i < f.len() ==> (#[trigger] f[i]).0 == g[i].0 && f[i].1.eq_ignore_nullability(
                g[i].1,
            ),
        (DTypeV::Extension(x, s), DTypeV::Extension(y, t)) => x == y && s.eq_ignore_nullability(*t),
        _ => false,
    }
}

/// Two types differ in nullability at most exactly where their parts agree.
pub proof fn types_agree_by_their_parts(a: DTypeV, b: DTypeV)
    ensures
        a.eq_ignore_nullability(b) <==> agree(a, b),
{
    match (a, b) {
        (DTypeV::Struct(f, m), DTypeV::Struct(g, n)) => {
            let x = a.erased()->Struct_0;
            let y = b.erased()->Struct_0;
            assert(x.len() == f.len() && y.len() == g.len());
            assert forall|i: int| 0 <= i < f.len() implies #[trigger] x[i] == (
                f[i].0,
                f[i].1.erased(),
            ) by {}
            assert forall|i: int| 0 <= i < g.len() implies #[trigger] y[i] == (
                g[i].0,
                g[i].1.erased(),
            ) by {}
            if a.eq_ignore_nullability(b) {
                assert(x == y);
                assert forall|i: int| 0 <= i < f.len() implies (#[trigger] f[i]).0 == g[i].0
                    && f[i].1.eq_ignore_nullability(g[i].1) by {
                    assert(x[i] == y[i]);
                }
            }
            if agree(a, b) {
                assert forall|i: int| 0 <= i < f.len() implies #[trigger] x[i] == y[i] by {
                    assert(f[i].0 == g[i].0);
                }
                assert(x =~= y);
            }
        },
        _ => {},
    }
}

/// The mark of nullability is a question mark at the end: the text of a nullable type is that of the
/// type that is not, and the mark. A type that holds only nulls and an extension have none.
pub proof fn nullable_types_are_marked(a: DTypeV)
    requires
        !(a is Null),
        !(a is Extension),
    ensures
        a.with_nullability(Nullability::Nullable).text() == a.with_nullability(
            Nullability::NonNullable,
        ).text().push('?'),
{
    reveal_strlit("?");
    reveal_strlit("");
    let plain = a.with_nullability(Nullability::NonNullable);
    let marked = a.with_nullability(Nullability::Nullable);
    reveal_with_fuel(DTypeV::text, 2);
    assert(marked.text() =~= plain.text().push('?'));
}

/// A type is nullable together with another exactly where either is.
pub proof fn nullable_where_either_is(a: Nullability, b: Nullability, x: bool)
    ensures
        a.union(b) is NonNullable <==> a is NonNullable && b is NonNullable,
        Nullability::of(x) is Nullable <==> x,
{
}

/// How many bits a primitive type takes.
pub open spec fn width(ptype: PType) -> nat {
    match ptype {
        PType::U8 => 8,
        PType::I8 => 8,
        PType::U16 => 16,
        PType::I16 => 16,
        PType::F16 => 16,
        PType::U32 => 32,
        PType::I32 => 32,
        PType::F32 => 32,
        PType::U64 => 64,
        PType::I64 => 64,
        PType::F64 => 64,
    }
}

/// A primitive type is named by a letter for its kind, unsigned, signed or floating, and its width.
pub proof fn primitive_types_are_named_by_kind_and_width(ptype: PType)
    ensures
        ptype.text() == seq![
            if ptype is F16 || ptype is F32 || ptype is F64 {
                'f'
            } else if ptype is I8 || ptype is I16 || ptype is I32 || ptype is I64 {
                'i'
            } else {
                'u'
            },
        ] + crate::text::decimal_text(width(ptype)),
        ptype.float() <==> ptype.text()[0] == 'f',
{
    reveal_strlit("u8");
    reveal_strlit("u16");
    reveal_strlit("u32");
    reveal_strlit("u64");
    reveal_strlit("i8");
    reveal_strlit("i16");
    reveal_strlit("i32");
    reveal_strlit("i64");
    reveal_strlit("f16");
    reveal_strlit("f32");
    reveal_strlit("f64");
    reveal_with_fuel(crate::text::decimal_text, 3);
    assert(crate::text::decimal_text(8) =~= seq!['8']);
    assert(crate::text::decimal_text(16) =~= seq!['1', '6']);
    assert(crate::text::decimal_text(32) =~= seq!['3', '2']);
    assert(crate::text::decimal_text(64) =~= seq!['6', '4']);
    let written = seq![ptype.text()[0]] + crate::text::decimal_text(width(ptype));
    assert(ptype.text() =~= written);
}

} // verus!
