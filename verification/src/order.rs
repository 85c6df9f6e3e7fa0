//! The order of row payloads.

use vstd::prelude::*;

use crate::dtype::PType;
use crate::native::{self, NativePType, F16, F32, F64};
use crate::order_laws;
use crate::value::{Cell, CellV, Value, ValueV};

verus! {

/// Minus one, zero or one, as `a` is less than, equal to or greater than `b`.
pub open spec fn sign(a: int, b: int) -> int {
    if a < b {
        -1
    } else if a > b {
        1
    } else {
        0
    }
}

/// The place of a primitive payload in the order of its type.
pub open spec fn primitive_rank(ptype: PType, payload: int) -> int {
    match ptype {
        PType::F16 => native::float_rank(payload, 0x8000),
        PType::F32 => native::float_rank(payload, 0x8000_0000),
        PType::F64 => native::float_rank(payload, 0x8000_0000_0000_0000),
        _ => payload,
    }
}

/// The lexicographic order of byte strings, from byte `from` on.
pub open spec fn bytes_order(a: Seq<u8>, b: Seq<u8>, from: nat) -> int
    decreases a.len() - from,
{
    if from >= a.len() || from >= b.len() {
        sign(a.len() as int, b.len() as int)
    } else if a[from as int] != b[from as int] {
        sign(a[from as int] as int, b[from as int] as int)
    } else {
        bytes_order(a, b, from + 1)
    }
}

/// The order of two payloads of one type. Booleans put false first, floats follow their total
/// order, byte strings, lists and structs are lexicographic, and a null element comes before
/// any other. Payloads of different types are not told apart.
pub open spec fn order(a: ValueV, b: ValueV) -> int
    decreases a, 0nat,
{
    match (a, b) {
        (ValueV::Bool(x), ValueV::Bool(y)) => sign(
            if x {
                1int
            } else {
                0
            },
            if y {
                1int
            } else {
                0
            },
        ),
        (ValueV::Primitive(p, x), ValueV::Primitive(q, y)) => if p == q {
            sign(primitive_rank(p, x), primitive_rank(p, y))
        } else {
            0
        },
        (ValueV::Decimal(x), ValueV::Decimal(y)) => sign(x, y),
        (ValueV::Bytes(x), ValueV::Bytes(y)) => bytes_order(x, y, 0),
        (ValueV::List(x), ValueV::List(y)) => cells_order(x, y, 0),
        (ValueV::Struct(x), ValueV::Struct(y)) => cells_order(x, y, 0),
        _ => 0,
    }
}

/// The lexicographic order of elements, from element `from` on.
pub open spec fn cells_order(a: Seq<CellV>, b: Seq<CellV>, from: nat) -> int
    decreases a, (a.len() - from) as nat,
{
    if from >= a.len() || from >= b.len() {
        sign(a.len() as int, b.len() as int)
    } else if a[from as int].valid != b[from as int].valid {
        if a[from as int].valid {
            1
        } else {
            -1
        }
    } else if !a[from as int].valid {
        cells_order(a, b, from + 1)
    } else {
        let first = order(a[from as int].value, b[from as int].value);
        if first != 0 {
            first
        } else {
            cells_order(a, b, from + 1)
        }
    }
}

fn compare_native<T: NativePType>(a: T, b: T) -> (out: i8)
    ensures
        out == sign(a.rank(), b.rank()),
{
    if a.is_lt(b) {
        -1
    } else if a.is_gt(b) {
        1
    } else {
        0
    }
}

/// Compare two byte strings.
pub fn compare_bytes(a: &Vec<u8>, b: &Vec<u8>) -> (out: i8)
    ensures
        out == bytes_order(a@, b@, 0),
        out < 0 <==> order_laws::bytes_before(a@, b@),
        out > 0 <==> order_laws::bytes_before(b@, a@),
        out == 0 <==> a@ == b@,
{
    proof {
        order_laws::bytes_are_lexicographic(a@, b@);
    }
    let mut index: usize = 0;
    while index < a.len() && index < b.len()
        invariant
            index <= a@.len(),
            index <= b@.len(),
            bytes_order(a@, b@, 0) == bytes_order(a@, b@, index as nat),
        decreases a@.len() - index,
    {
        proof {
            order_laws::bytes_are_lexicographic(a@, b@);
        }
        if a[index] < b[index] {
            return -1;
        }
        if a[index] > b[index] {
            return 1;
        }
        index = index + 1;
    }
    if a.len() < b.len() {
        -1
    } else if a.len() > b.len() {
        1
    } else {
        0
    }
}

/// Compare two payloads of one type.
pub fn compare_values(a: &Value, b: &Value) -> (out: i8)
    ensures
        out == order(a@, b@),
    decreases a, 0nat,
{
    match (a, b) {
        (Value::Bool(x), Value::Bool(y)) => if *x == *y {
            0
        } else if *x {
            1
        } else {
            -1
        },
        (Value::U8(x), Value::U8(y)) => compare_native(*x, *y),
        (Value::U16(x), Value::U16(y)) => compare_native(*x, *y),
        (Value::U32(x), Value::U32(y)) => compare_native(*x, *y),
        (Value::U64(x), Value::U64(y)) => compare_native(*x, *y),
        (Value::I8(x), Value::I8(y)) => compare_native(*x, *y),
        (Value::I16(x), Value::I16(y)) => compare_native(*x, *y),
        (Value::I32(x), Value::I32(y)) => compare_native(*x, *y),
        (Value::I64(x), Value::I64(y)) => compare_native(*x, *y),
        (Value::F16(x), Value::F16(y)) => compare_native(*x, *y),
        (Value::F32(x), Value::F32(y)) => compare_native(*x, *y),
        (Value::F64(x), Value::F64(y)) => compare_native(*x, *y),
        (Value::Decimal(x), Value::Decimal(y)) => if x.less_than(*y) {
            -1
        } else if y.less_than(*x) {
            1
        } else {
            0
        },
        (Value::Bytes(x), Value::Bytes(y)) => compare_bytes(x, y),
        (Value::List(x), Value::List(y)) => {
            let out = compare_cells(x, y);
            assert(a@->List_0 =~= cells_of(x@) && b@->List_0 =~= cells_of(y@));
            out
        },
        (Value::Struct(x), Value::Struct(y)) => {
            let out = compare_cells(x, y);
            assert(a@->Struct_0 =~= cells_of(x@) && b@->Struct_0 =~= cells_of(y@));
            out
        },
        _ => 0,
    }
}

/// Cells as rows.
pub open spec fn cells_of(cells: Seq<Cell>) -> Seq<CellV> {
    Seq::new(cells.len(), |i: int| cells[i]@)
}

fn compare_cells(a: &Vec<Cell>, b: &Vec<Cell>) -> (out: i8)
    ensures
        out == cells_order(cells_of(a@), cells_of(b@), 0),
    decreases a, 1nat,
{
    let ghost x = cells_of(a@);
    let ghost y = cells_of(b@);
    let mut index: usize = 0;
    while index < a.len() && index < b.len()
        invariant
            index <= a@.len(),
            index <= b@.len(),
            x == cells_of(a@),
            y == cells_of(b@),
            cells_order(x, y, 0) == cells_order(x, y, index as nat),
        decreases a@.len() - index,
    {
        if a[index].valid != b[index].valid {
            return if a[index].valid {
                1
            } else {
                -1
            };
        }
        if a[index].valid {
            let first: i8 = compare_values(&a[index].value, &b[index].value);
            if first != 0 {
                return first;
            }
        }
        index = index + 1;
    }
    if a.len() < b.len() {
        -1
    } else if a.len() > b.len() {
        1
    } else {
        0
    }
}

/// The payloads are scalars of one type.
pub open spec fn alike(a: ValueV, b: ValueV) -> bool {
    match (a, b) {
        (ValueV::Bool(_), ValueV::Bool(_)) => true,
        (ValueV::Primitive(p, _), ValueV::Primitive(q, _)) => p == q,
        (ValueV::Decimal(_), ValueV::Decimal(_)) => true,
        (ValueV::Bytes(_), ValueV::Bytes(_)) => true,
        _ => false,
    }
}

proof fn bytes_order_reverses(a: Seq<u8>, b: Seq<u8>, from: nat)
    ensures
        bytes_order(a, b, from) == -bytes_order(b, a, from),
    decreases a.len() - from,
{
    if from < a.len() && from < b.len() && a[from as int] == b[from as int] {
        bytes_order_reverses(a, b, from + 1);
    }
}

proof fn bytes_order_chains(a: Seq<u8>, b: Seq<u8>, c: Seq<u8>, from: nat)
    requires
        from <= a.len(),
        from <= b.len(),
        from <= c.len(),
        bytes_order(a, b, from) <= 0,
        bytes_order(b, c, from) <= 0,
    ensures
        bytes_order(a, c, from) <= 0,
    decreases a.len() - from,
{
    if from < a.len() && from < b.len() && from < c.len() && a[from as int] == b[from as int]
        && b[from as int] == c[from as int] {
        bytes_order_chains(a, b, c, from + 1);
    }
}

/// Scalars of one type are ordered: exchanging two of them reverses their order, and the order
/// chains.
pub proof fn scalars_are_ordered(a: ValueV, b: ValueV, c: ValueV)
    requires
        alike(a, b),
        alike(b, c),
    ensures
        order(a, b) == -order(b, a),
        order(a, b) <= 0 && order(b, c) <= 0 ==> order(a, c) <= 0,
{
    match (a, b, c) {
        (ValueV::Bytes(x), ValueV::Bytes(y), ValueV::Bytes(z)) => {
            bytes_order_reverses(x, y, 0);
            if order(a, b) <= 0 && order(b, c) <= 0 {
                bytes_order_chains(x, y, z, 0);
            }
        },
        _ => {},
    }
}

/// A floating-point payload that is not a number: an exponent of ones and a mantissa that is not
/// zero.
pub open spec fn not_a_number(value: ValueV) -> bool {
    match value {
        ValueV::Primitive(PType::F16, bits) => bits % 0x8000 > 0x7c00,
        ValueV::Primitive(PType::F32, bits) => bits % 0x8000_0000 > 0x7f80_0000,
        ValueV::Primitive(PType::F64, bits) => bits % 0x8000_0000_0000_0000
            > 0x7ff0_0000_0000_0000,
        _ => false,
    }
}

/// Whether a payload is a float that is not a number.
pub fn is_nan(value: &Value) -> (out: bool)
    ensures
        out == not_a_number(value@),
{
    match value {
        Value::F16(x) => x.bits % 0x8000 > 0x7c00,
        Value::F32(x) => x.bits % 0x8000_0000 > 0x7f80_0000,
        Value::F64(x) => x.bits % 0x8000_0000_0000_0000 > 0x7ff0_0000_0000_0000,
        _ => false,
    }
}

} // verus!
