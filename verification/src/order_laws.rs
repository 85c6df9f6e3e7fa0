//! The order of payloads, said of the numbers, bytes and elements in them.

use vstd::prelude::*;

use crate::dtype::PType;
use crate::order::{alike, order};
use crate::value::{CellV, ValueV};

verus! {

/// Byte strings part at index `i`, and `a` comes first there: it ends, or has the smaller byte.
pub open spec fn parts_at(a: Seq<u8>, b: Seq<u8>, i: int) -> bool {
    &&& 0 <= i <= a.len()
    &&& i < b.len()
    &&& forall|j: int| 0 <= j < i ==> #[trigger] a[j] == b[j]
    &&& i == a.len() || a[i] < b[i]
}

/// The byte string `a` comes before `b`.
pub open spec fn bytes_before(a: Seq<u8>, b: Seq<u8>) -> bool {
    exists|i: int| #[trigger] parts_at(a, b, i)
}

/// Floats by their bits: those with the sign bit `half` come first, the larger magnitude first
/// among them; the others follow by their magnitude.
pub open spec fn float_before(x: int, y: int, half: int) -> bool {
    if x >= half {
        y < half || y < x
    } else {
        x < y < half
    }
}

/// The bits of a float lie in its type's range, whose upper half has the sign bit.
pub open spec fn bits_in_range(value: ValueV) -> bool {
    match value {
        ValueV::Primitive(PType::F16, x) => 0 <= x <= 0xffff,
        ValueV::Primitive(PType::F32, x) => 0 <= x <= 0xffff_ffff,
        ValueV::Primitive(PType::F64, x) => 0 <= x <= 0xffff_ffff_ffff_ffff,
        _ => true,
    }
}

/// The scalar `a` comes before `b`: false before true, numbers by their size, floats by sign and
/// magnitude, byte strings as in a dictionary.
pub open spec fn before(a: ValueV, b: ValueV) -> bool {
    match (a, b) {
        (ValueV::Bool(x), ValueV::Bool(y)) => !x && y,
        (ValueV::Primitive(PType::F16, x), ValueV::Primitive(PType::F16, y)) => float_before(
            x,
            y,
            0x8000,
        ),
        (ValueV::Primitive(PType::F32, x), ValueV::Primitive(PType::F32, y)) => float_before(
            x,
            y,
            0x8000_0000,
        ),
        (ValueV::Primitive(PType::F64, x), ValueV::Primitive(PType::F64, y)) => float_before(
            x,
            y,
            0x8000_0000_0000_0000,
        ),
        (ValueV::Primitive(p, x), ValueV::Primitive(q, y)) => p == q && x < y,
        (ValueV::Decimal(x), ValueV::Decimal(y)) => x < y,
        (ValueV::Bytes(x), ValueV::Bytes(y)) => bytes_before(x, y),
        _ => false,
    }
}

proof fn bytes_from(a: Seq<u8>, b: Seq<u8>, from: nat, i: nat)
    requires
        from <= i <= a.len(),
        i <= b.len(),
        forall|j: int| from <= j < i ==> #[trigger] a[j] == b[j],
    ensures
        crate::order::bytes_order(a, b, from) == crate::order::bytes_order(a, b, i),
    decreases i - from,
{
    if from < i {
        assert(a[from as int] == b[from as int]);
        bytes_from(a, b, from + 1, i);
    }
}

/// Where two byte strings agree before an index: if one ends there and the other goes on, the one
/// that ends comes first; if both go on and differ, the smaller byte comes first; if both end, they
/// are equal and tie.
pub proof fn first_differences_decide(a: Seq<u8>, b: Seq<u8>, i: int)
    requires
        0 <= i <= a.len(),
        i <= b.len(),
        forall|j: int| 0 <= j < i ==> #[trigger] a[j] == b[j],
    ensures
        i == a.len() && i < b.len() ==> order(ValueV::Bytes(a), ValueV::Bytes(b)) == -1,
        i < a.len() && i == b.len() ==> order(ValueV::Bytes(a), ValueV::Bytes(b)) == 1,
        i < a.len() && i < b.len() && a[i] < b[i] ==> order(ValueV::Bytes(a), ValueV::Bytes(b))
            == -1,
        i < a.len() && i < b.len() && a[i] > b[i] ==> order(ValueV::Bytes(a), ValueV::Bytes(b))
            == 1,
        i == a.len() && i == b.len() ==> order(ValueV::Bytes(a), ValueV::Bytes(b)) == 0,
{
    bytes_from(a, b, 0, i as nat);
}

/// The first index at which two byte strings do not agree, or at which one ends.
proof fn first_difference(a: Seq<u8>, b: Seq<u8>, from: nat) -> (i: int)
    requires
        from <= a.len(),
        from <= b.len(),
        forall|j: int| 0 <= j < from ==> #[trigger] a[j] == b[j],
    ensures
        from <= i <= a.len(),
        i <= b.len(),
        forall|j: int| 0 <= j < i ==> #[trigger] a[j] == b[j],
        i < a.len() && i < b.len() ==> a[i] != b[i],
    decreases a.len() - from,
{
    if from < a.len() && from < b.len() && a[from as int] == b[from as int] {
        first_difference(a, b, from + 1)
    } else {
        from as int
    }
}

/// Byte strings are ordered as in a dictionary, and only equal ones tie.
pub proof fn bytes_are_lexicographic(a: Seq<u8>, b: Seq<u8>)
    ensures
        order(ValueV::Bytes(a), ValueV::Bytes(b)) < 0 <==> bytes_before(a, b),
        order(ValueV::Bytes(a), ValueV::Bytes(b)) > 0 <==> bytes_before(b, a),
        order(ValueV::Bytes(a), ValueV::Bytes(b)) == 0 <==> a == b,
{
    let i = first_difference(a, b, 0);
    first_differences_decide(a, b, i);
    if i < b.len() && (i == a.len() || a[i] < b[i]) {
        assert(parts_at(a, b, i));
    } else if i < a.len() {
        assert(parts_at(b, a, i));
    } else {
        assert(a =~= b);
    }
    if bytes_before(a, b) {
        let k = choose|k: int| #[trigger] parts_at(a, b, k);
        first_differences_decide(a, b, k);
    }
    if bytes_before(b, a) {
        let k = choose|k: int| #[trigger] parts_at(b, a, k);
        first_differences_decide(a, b, k);
    }
    if a == b {
        first_differences_decide(a, b, a.len() as int);
    }
}

/// A byte string comes before every byte string that it is a proper prefix of.
pub proof fn prefixes_come_first(a: Seq<u8>, more: Seq<u8>)
    requires
        more.len() > 0,
    ensures
        order(ValueV::Bytes(a), ValueV::Bytes(a + more)) < 0,
        order(ValueV::Bytes(a + more), ValueV::Bytes(a)) > 0,
{
    first_differences_decide(a, a + more, a.len() as int);
    first_differences_decide(a + more, a, a.len() as int);
}

/// Decimals are ordered as numbers, whatever their signs.
pub proof fn decimals_are_ordered_as_numbers(x: int, y: int)
    ensures
        order(ValueV::Decimal(x), ValueV::Decimal(y)) <= 0 <==> x <= y,
        order(ValueV::Decimal(x), ValueV::Decimal(y)) >= 0 <==> x >= y,
{
}

/// Integers of one type are ordered as numbers.
pub proof fn integers_are_ordered_as_numbers(ptype: PType, x: int, y: int)
    requires
        !(ptype is F16) && !(ptype is F32) && !(ptype is F64),
    ensures
        order(ValueV::Primitive(ptype, x), ValueV::Primitive(ptype, y)) <= 0 <==> x <= y,
        order(ValueV::Primitive(ptype, x), ValueV::Primitive(ptype, y)) >= 0 <==> x >= y,
{
}

/// The order of two scalars of one type says which of them comes before the other, and only equal
/// ones tie.
pub proof fn scalars_are_in_order(a: ValueV, b: ValueV)
    requires
        alike(a, b),
        bits_in_range(a),
        bits_in_range(b),
    ensures
        order(a, b) < 0 <==> before(a, b),
        order(a, b) > 0 <==> before(b, a),
        order(a, b) == 0 <==> a == b,
        -1 <= order(a, b) <= 1,
{
    match (a, b) {
        (ValueV::Bytes(x), ValueV::Bytes(y)) => {
            bytes_are_lexicographic(x, y);
            let i = first_difference(x, y, 0);
            first_differences_decide(x, y, i);
        },
        _ => {},
    }
}

/// Two elements tie: both are null, or both are valid and their payloads tie.
pub open spec fn tie(a: CellV, b: CellV) -> bool {
    a.valid == b.valid && (a.valid ==> order(a.value, b.value) == 0)
}

proof fn elements_from(a: Seq<CellV>, b: Seq<CellV>, from: nat, i: nat)
    requires
        from <= i <= a.len(),
        i <= b.len(),
        forall|j: int| from <= j < i ==> tie(#[trigger] a[j], b[j]),
    ensures
        crate::order::cells_order(a, b, from) == crate::order::cells_order(a, b, i),
    decreases i - from,
{
    if from < i {
        assert(tie(a[from as int], b[from as int]));
        elements_from(a, b, from + 1, i);
    }
}

/// Lists, and structs, whose elements tie before an index: if one ends there and the other goes on,
/// the one that ends comes first; a null element comes before a valid one; of two valid elements
/// that do not tie, the lesser comes first.
pub proof fn first_elements_decide(a: Seq<CellV>, b: Seq<CellV>, i: int)
    requires
        0 <= i <= a.len(),
        i <= b.len(),
        forall|j: int| 0 <= j < i ==> tie(#[trigger] a[j], b[j]),
    ensures
        order(ValueV::List(a), ValueV::List(b)) == order(ValueV::Struct(a), ValueV::Struct(b)),
        i == a.len() && i < b.len() ==> order(ValueV::List(a), ValueV::List(b)) == -1,
        i < a.len() && i == b.len() ==> order(ValueV::List(a), ValueV::List(b)) == 1,
        i == a.len() && i == b.len() ==> order(ValueV::List(a), ValueV::List(b)) == 0,
        i < a.len() && i < b.len() && !a[i].valid && b[i].valid ==> order(
            ValueV::List(a),
            ValueV::List(b),
        ) == -1,
        i < a.len() && i < b.len() && a[i].valid && !b[i].valid ==> order(
            ValueV::List(a),
            ValueV::List(b),
        ) == 1,
        i < a.len() && i < b.len() && a[i].valid && b[i].valid && order(a[i].value, b[i].value)
            != 0 ==> order(ValueV::List(a), ValueV::List(b)) == order(a[i].value, b[i].value),
{
    elements_from(a, b, 0, i as nat);
    reveal_with_fuel(order, 2);
    reveal_with_fuel(crate::order::cells_order, 2);
}

/// Every payload ties with itself.
pub proof fn payloads_tie_with_themselves(a: ValueV)
    ensures
        order(a, a) == 0,
    decreases a,
{
    match a {
        ValueV::Bytes(x) => bytes_are_lexicographic(x, x),
        ValueV::List(x) => elements_tie(a, x),
        ValueV::Struct(x) => elements_tie(a, x),
        _ => {},
    }
}

proof fn elements_tie(a: ValueV, x: Seq<CellV>)
    requires
        a == ValueV::List(x) || a == ValueV::Struct(x),
    ensures
        order(a, a) == 0,
    decreases x,
{
    assert forall|j: int| 0 <= j < x.len() implies tie(#[trigger] x[j], x[j]) by {
        assert(decreases_to!(x => x[j]));
        payloads_tie_with_themselves(x[j].value);
    }
    first_elements_decide(x, x, x.len() as int);
}

/// A float is not a number exactly where its exponent has all bits set and its mantissa is not
/// zero.
pub open spec fn exponent_full(bits: int, mantissa: int, exponents: int) -> bool {
    (bits / mantissa) % exponents == exponents - 1 && bits % mantissa != 0
}

/// What counts as not a number follows the layout of the float types: five, eight and eleven bits
/// of exponent over ten, twenty-three and fifty-two bits of mantissa.
pub proof fn nans_follow_the_layout(bits: int)
    requires
        bits >= 0,
    ensures
        crate::order::not_a_number(ValueV::Primitive(PType::F16, bits)) <==> exponent_full(
            bits,
            0x400,
            0x20,
        ),
        crate::order::not_a_number(ValueV::Primitive(PType::F32, bits)) <==> exponent_full(
            bits,
            0x80_0000,
            0x100,
        ),
        crate::order::not_a_number(ValueV::Primitive(PType::F64, bits)) <==> exponent_full(
            bits,
            0x10_0000_0000_0000,
            0x800,
        ),
        forall|value: ValueV|
            !(value is Primitive) || !(value->Primitive_0 is F16 || value->Primitive_0 is F32
                || value->Primitive_0 is F64) ==> !#[trigger] crate::order::not_a_number(value),
{
}

/// Payloads of different kinds are not told apart, nor are primitives of different types.
pub proof fn unlike_payloads_tie(a: ValueV, b: ValueV)
    requires
        !alike(a, b),
        !(a is List && b is List),
        !(a is Struct && b is Struct),
    ensures
        order(a, b) == 0,
{
}

} // verus!
