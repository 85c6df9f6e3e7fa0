//! The flat element families: primitives and booleans.

use vstd::prelude::*;

use crate::array::{self, Array, ArrayV};
use crate::dtype::{DType, DTypeV, Nullability, PType};
use crate::error::{VortexError, VortexResult};
use crate::native::{NativePType, F16, F32, F64};
use crate::scalar_fn::row::element::{self, InputElement, OutputElement};
use crate::text::join3;
use crate::value::{Cell, CellV, Value, ValueV};

verus! {

/// A primitive as a row payload.
pub trait PrimitiveElement: NativePType {
    /// The primitive type.
    const PTYPE: PType;

    /// What [`PTYPE`](Self::PTYPE) is.
    spec fn ptype() -> PType;

    /// The constant is what it is said to be.
    proof fn ptype_holds()
        ensures
            Self::PTYPE == Self::ptype(),
    ;

    /// The payload of a value.
    spec fn to_payload(self) -> ValueV;

    /// The value of a payload; zero where the payload is not of this type.
    spec fn of_payload(value: ValueV) -> Self;

    fn zero() -> (out: Self)
        ensures
            out == Self::of_payload(ValueV::Null),
    ;

    fn to_value(self) -> (out: Value)
        ensures
            out@ == self.to_payload(),
    ;

    fn of_value(value: &Value) -> (out: Self)
        ensures
            out == Self::of_payload(value@),
    ;
}

/// What is said of a column of another type.
pub open spec fn wrong_column(expected: Seq<char>, dtype: DTypeV) -> Seq<char> {
    "expected a "@ + expected + " column, got "@ + dtype.text()
}

/// Say that a column has another type.
pub fn wrong_column_error(expected: &str, dtype: &DType) -> (out: VortexError)
    ensures
        out@ == wrong_column(expected@, dtype@),
{
    let mut message = join3("expected a ", expected, " column, got ");
    message.append(dtype.to_text().as_str());
    VortexError::new(message)
}

impl<T: PrimitiveElement> InputElement for T {
    type Column = Vec<T>;

    type Elem<'a> = T;

    type V = T;

    const DENSE_SAFE: bool = true;

    const DECODE_FALLIBLE: bool = false;

    const DECODE_SHRINKS_WHEN_FILTERED: bool = false;

    open spec fn dense_safe() -> bool {
        true
    }

    open spec fn decode_fallible() -> bool {
        false
    }

    open spec fn decode_shrinks() -> bool {
        false
    }

    proof fn constants_hold() {
    }

    open spec fn accepts(dtype: DTypeV) -> Result<(), Seq<char>> {
        if dtype matches DTypeV::Primitive(ptype, _) && ptype == T::ptype() {
            Ok(())
        } else {
            Err(wrong_column(T::ptype().text(), dtype))
        }
    }

    open spec fn reads(value: ValueV) -> Option<T> {
        Some(T::of_payload(value))
    }

    open spec fn decodes(array: ArrayV) -> Result<(), Seq<char>> {
        Ok(())
    }

    open spec fn decodes_tolerant(array: ArrayV) -> Result<bool, Seq<char>> {
        Ok(true)
    }

    open spec fn column_len(column: &Vec<T>) -> nat {
        column@.len()
    }

    open spec fn column_at(column: &Vec<T>, i: int) -> Option<T> {
        Some(column@[i])
    }

    open spec fn meaning(elem: T) -> T {
        elem
    }

    fn validate(dtype: &DType) -> (out: VortexResult<()>) {
        proof {
            T::ptype_holds();
        }
        if let DType::Primitive(ptype, _) = dtype {
            if *ptype == T::PTYPE {
                return Ok(());
            }
        }
        Err(wrong_column_error(T::PTYPE.name(), dtype))
    }

    fn decode(array: &Array) -> (out: VortexResult<Vec<T>>) {
        let rows: usize = array.len();
        let mut column: Vec<T> = Vec::new();
        let mut index: usize = 0;
        while index < rows
            invariant
                index <= rows == array@.len(),
                column@.len() == index,
                forall|i: int|
                    0 <= i < index ==> #[trigger] column@[i] == T::of_payload(
                        array@.cells[i].value,
                    ),
            decreases rows - index,
        {
            let cell = array.cell(index);
            column.push(T::of_value(&cell.value));
            index = index + 1;
        }
        Ok(column)
    }

    fn decode_null_tolerant(array: &Array) -> (out: VortexResult<Option<Vec<T>>>) {
        match Self::decode(array) {
            Ok(column) => Ok(Some(column)),
            Err(error) => Err(error),
        }
    }

    fn column_rows(column: &Vec<T>) -> (out: usize) {
        column.len()
    }

    fn get<'a>(column: &'a Vec<T>, index: usize) -> (out: T) {
        column[index]
    }
}

impl InputElement for bool {
    type Column = Vec<bool>;

    type Elem<'a> = bool;

    type V = bool;

    const DENSE_SAFE: bool = true;

    const DECODE_FALLIBLE: bool = false;

    const DECODE_SHRINKS_WHEN_FILTERED: bool = false;

    open spec fn dense_safe() -> bool {
        true
    }

    open spec fn decode_fallible() -> bool {
        false
    }

    open spec fn decode_shrinks() -> bool {
        false
    }

    proof fn constants_hold() {
    }

    open spec fn accepts(dtype: DTypeV) -> Result<(), Seq<char>> {
        if dtype is Bool {
            Ok(())
        } else {
            Err(wrong_column("Bool"@, dtype))
        }
    }

    open spec fn reads(value: ValueV) -> Option<bool> {
        Some(value == ValueV::Bool(true))
    }

    open spec fn decodes(array: ArrayV) -> Result<(), Seq<char>> {
        Ok(())
    }

    open spec fn decodes_tolerant(array: ArrayV) -> Result<bool, Seq<char>> {
        Ok(true)
    }

    open spec fn column_len(column: &Vec<bool>) -> nat {
        column@.len()
    }

    open spec fn column_at(column: &Vec<bool>, i: int) -> Option<bool> {
        Some(column@[i])
    }

    open spec fn meaning(elem: bool) -> bool {
        elem
    }

    fn validate(dtype: &DType) -> (out: VortexResult<()>) {
        if let DType::Bool(_) = dtype {
            return Ok(());
        }
        Err(wrong_column_error("Bool", dtype))
    }

    fn decode(array: &Array) -> (out: VortexResult<Vec<bool>>) {
        let rows: usize = array.len();
        let mut column: Vec<bool> = Vec::new();
        let mut index: usize = 0;
        while index < rows
            invariant
                index <= rows == array@.len(),
                column@.len() == index,
                forall|i: int|
                    0 <= i < index ==> #[trigger] column@[i] == (array@.cells[i].value
                        == ValueV::Bool(true)),
            decreases rows - index,
        {
            let cell = array.cell(index);
            column.push(matches!(cell.value, Value::Bool(true)));
            index = index + 1;
        }
        Ok(column)
    }

    fn decode_null_tolerant(array: &Array) -> (out: VortexResult<Option<Vec<bool>>>) {
        match Self::decode(array) {
            Ok(column) => Ok(Some(column)),
            Err(error) => Err(error),
        }
    }

    fn column_rows(column: &Vec<bool>) -> (out: usize) {
        column.len()
    }

    fn get<'a>(column: &'a Vec<bool>, index: usize) -> (out: bool) {
        column[index]
    }
}

impl<T: PrimitiveElement> OutputElement for T {
    open spec fn element_type() -> DTypeV {
        DTypeV::Primitive(T::ptype(), Nullability::NonNullable)
    }

    open spec fn payload(self) -> ValueV {
        self.to_payload()
    }

    open spec fn placeholder_payload() -> ValueV {
        T::of_payload(ValueV::Null).to_payload()
    }

    open spec fn built(payloads: Seq<ValueV>) -> ArrayV {
        element::valid_column(Self::element_type(), payloads)
    }

    proof fn built_in_order(payloads: Seq<ValueV>) {
    }

    fn element_dtype() -> (out: DType) {
        proof {
            T::ptype_holds();
        }
        DType::Primitive(T::PTYPE, Nullability::NonNullable)
    }

    fn build(values: Vec<T>) -> (out: Array) {
        let mut cells: Vec<Cell> = Vec::new();
        let mut index: usize = 0;
        while index < values.len()
            invariant
                index <= values@.len(),
                cells@.len() == index,
                forall|i: int|
                    0 <= i < index ==> (#[trigger] cells@[i])@ == (CellV {
                        valid: true,
                        value: values@[i].to_payload(),
                    }),
            decreases values@.len() - index,
        {
            cells.push(Cell::valid(values[index].to_value()));
            index = index + 1;
        }
        let out = Array::column(Self::element_dtype(), cells);
        assert(out@.cells =~= Self::built(Seq::new(values@.len(), |i: int| values@[i].payload())).cells);
        out
    }

    fn placeholder() -> (out: T) {
        T::zero()
    }
}

impl OutputElement for bool {
    open spec fn element_type() -> DTypeV {
        DTypeV::Bool(Nullability::NonNullable)
    }

    open spec fn payload(self) -> ValueV {
        ValueV::Bool(self)
    }

    open spec fn placeholder_payload() -> ValueV {
        ValueV::Bool(false)
    }

    open spec fn built(payloads: Seq<ValueV>) -> ArrayV {
        element::valid_column(Self::element_type(), payloads)
    }

    proof fn built_in_order(payloads: Seq<ValueV>) {
    }

    fn element_dtype() -> (out: DType) {
        DType::Bool(Nullability::NonNullable)
    }

    fn build(values: Vec<bool>) -> (out: Array) {
        let mut cells: Vec<Cell> = Vec::new();
        let mut index: usize = 0;
        while index < values.len()
            invariant
                index <= values@.len(),
                cells@.len() == index,
                forall|i: int|
                    0 <= i < index ==> (#[trigger] cells@[i])@ == (CellV {
                        valid: true,
                        value: ValueV::Bool(values@[i]),
                    }),
            decreases values@.len() - index,
        {
            cells.push(Cell::valid(Value::Bool(values[index])));
            index = index + 1;
        }
        let out = Array::column(Self::element_dtype(), cells);
        assert(out@.cells =~= Self::built(Seq::new(values@.len(), |i: int| values@[i].payload())).cells);
        out
    }

    fn placeholder() -> (out: bool) {
        false
    }
}

impl PrimitiveElement for u8 {
    const PTYPE: PType = PType::U8;

    open spec fn ptype() -> PType {
        PType::U8
    }

    proof fn ptype_holds() {
    }

    open spec fn to_payload(self) -> ValueV {
        ValueV::Primitive(PType::U8, self as int)
    }

    open spec fn of_payload(value: ValueV) -> u8 {
        match value {
            ValueV::Primitive(ptype, v) => if ptype == PType::U8 {
                v as u8
            } else {
                0
            },
            _ => 0,
        }
    }

    fn zero() -> (out: u8) {
        0
    }

    fn to_value(self) -> (out: Value) {
        Value::U8(self)
    }

    fn of_value(value: &Value) -> (out: u8) {
        match value {
            Value::U8(v) => *v,
            _ => 0,
        }
    }
}

impl PrimitiveElement for u16 {
    const PTYPE: PType = PType::U16;

    open spec fn ptype() -> PType {
        PType::U16
    }

    proof fn ptype_holds() {
    }

    open spec fn to_payload(self) -> ValueV {
        ValueV::Primitive(PType::U16, self as int)
    }

    open spec fn of_payload(value: ValueV) -> u16 {
        match value {
            ValueV::Primitive(ptype, v) => if ptype == PType::U16 {
                v as u16
            } else {
                0
            },
            _ => 0,
        }
    }

    fn zero() -> (out: u16) {
        0
    }

    fn to_value(self) -> (out: Value) {
        Value::U16(self)
    }

    fn of_value(value: &Value) -> (out: u16) {
        match value {
            Value::U16(v) => *v,
            _ => 0,
        }
    }
}

impl PrimitiveElement for u32 {
    const PTYPE: PType = PType::U32;

    open spec fn ptype() -> PType {
        PType::U32
    }

    proof fn ptype_holds() {
    }

    open spec fn to_payload(self) -> ValueV {
        ValueV::Primitive(PType::U32, self as int)
    }

    open spec fn of_payload(value: ValueV) -> u32 {
        match value {
            ValueV::Primitive(ptype, v) => if ptype == PType::U32 {
                v as u32
            } else {
                0
            },
            _ => 0,
        }
    }

    fn zero() -> (out: u32) {
        0
    }

    fn to_value(self) -> (out: Value) {
        Value::U32(self)
    }

    fn of_value(value: &Value) -> (out: u32) {
        match value {
            Value::U32(v) => *v,
            _ => 0,
        }
    }
}

impl PrimitiveElement for u64 {
    const PTYPE: PType = PType::U64;

    open spec fn ptype() -> PType {
        PType::U64
    }

    proof fn ptype_holds() {
    }

    open spec fn to_payload(self) -> ValueV {
        ValueV::Primitive(PType::U64, self as int)
    }

    open spec fn of_payload(value: ValueV) -> u64 {
        match value {
            ValueV::Primitive(ptype, v) => if ptype == PType::U64 {
                v as u64
            } else {
                0
            },
            _ => 0,
        }
    }

    fn zero() -> (out: u64) {
        0
    }

    fn to_value(self) -> (out: Value) {
        Value::U64(self)
    }

    fn of_value(value: &Value) -> (out: u64) {
        match value {
            Value::U64(v) => *v,
            _ => 0,
        }
    }
}

impl PrimitiveElement for i8 {
    const PTYPE: PType = PType::I8;

    open spec fn ptype() -> PType {
        PType::I8
    }

    proof fn ptype_holds() {
    }

    open spec fn to_payload(self) -> ValueV {
        ValueV::Primitive(PType::I8, self as int)
    }

    open spec fn of_payload(value: ValueV) -> i8 {
        match value {
            ValueV::Primitive(ptype, v) => if ptype == PType::I8 {
                v as i8
            } else {
                0
            },
            _ => 0,
        }
    }

    fn zero() -> (out: i8) {
        0
    }

    fn to_value(self) -> (out: Value) {
        Value::I8(self)
    }

    fn of_value(value: &Value) -> (out: i8) {
        match value {
            Value::I8(v) => *v,
            _ => 0,
        }
    }
}

impl PrimitiveElement for i16 {
    const PTYPE: PType = PType::I16;

    open spec fn ptype() -> PType {
        PType::I16
    }

    proof fn ptype_holds() {
    }

    open spec fn to_payload(self) -> ValueV {
        ValueV::Primitive(PType::I16, self as int)
    }

    open spec fn of_payload(value: ValueV) -> i16 {
        match value {
            ValueV::Primitive(ptype, v) => if ptype == PType::I16 {
                v as i16
            } else {
                0
            },
            _ => 0,
        }
    }

    fn zero() -> (out: i16) {
        0
    }

    fn to_value(self) -> (out: Value) {
        Value::I16(self)
    }

    fn of_value(value: &Value) -> (out: i16) {
        match value {
            Value::I16(v) => *v,
            _ => 0,
        }
    }
}

impl PrimitiveElement for i32 {
    const PTYPE: PType = PType::I32;

    open spec fn ptype() -> PType {
        PType::I32
    }

    proof fn ptype_holds() {
    }

    open spec fn to_payload(self) -> ValueV {
        ValueV::Primitive(PType::I32, self as int)
    }

    open spec fn of_payload(value: ValueV) -> i32 {
        match value {
            ValueV::Primitive(ptype, v) => if ptype == PType::I32 {
                v as i32
            } else {
                0
            },
            _ => 0,
        }
    }

    fn zero() -> (out: i32) {
        0
    }

    fn to_value(self) -> (out: Value) {
        Value::I32(self)
    }

    fn of_value(value: &Value) -> (out: i32) {
        match value {
            Value::I32(v) => *v,
            _ => 0,
        }
    }
}

impl PrimitiveElement for i64 {
    const PTYPE: PType = PType::I64;

    open spec fn ptype() -> PType {
        PType::I64
    }

    proof fn ptype_holds() {
    }

    open spec fn to_payload(self) -> ValueV {
        ValueV::Primitive(PType::I64, self as int)
    }

    open spec fn of_payload(value: ValueV) -> i64 {
        match value {
            ValueV::Primitive(ptype, v) => if ptype == PType::I64 {
                v as i64
            } else {
                0
            },
            _ => 0,
        }
    }

    fn zero() -> (out: i64) {
        0
    }

    fn to_value(self) -> (out: Value) {
        Value::I64(self)
    }

    fn of_value(value: &Value) -> (out: i64) {
        match value {
            Value::I64(v) => *v,
            _ => 0,
        }
    }
}

impl PrimitiveElement for F16 {
    const PTYPE: PType = PType::F16;

    open spec fn ptype() -> PType {
        PType::F16
    }

    proof fn ptype_holds() {
    }

    open spec fn to_payload(self) -> ValueV {
        ValueV::Primitive(PType::F16, self.bits as int)
    }

    open spec fn of_payload(value: ValueV) -> F16 {
        match value {
            ValueV::Primitive(ptype, v) => if ptype == PType::F16 {
                F16 { bits: v as u16 }
            } else {
                F16 { bits: 0 }
            },
            _ => F16 { bits: 0 },
        }
    }

    fn zero() -> (out: F16) {
        F16 { bits: 0 }
    }

    fn to_value(self) -> (out: Value) {
        Value::F16(self)
    }

    fn of_value(value: &Value) -> (out: F16) {
        match value {
            Value::F16(v) => *v,
            _ => F16 { bits: 0 },
        }
    }
}

impl PrimitiveElement for F32 {
    const PTYPE: PType = PType::F32;

    open spec fn ptype() -> PType {
        PType::F32
    }

    proof fn ptype_holds() {
    }

    open spec fn to_payload(self) -> ValueV {
        ValueV::Primitive(PType::F32, self.bits as int)
    }

    open spec fn of_payload(value: ValueV) -> F32 {
        match value {
            ValueV::Primitive(ptype, v) => if ptype == PType::F32 {
                F32 { bits: v as u32 }
            } else {
                F32 { bits: 0 }
            },
            _ => F32 { bits: 0 },
        }
    }

    fn zero() -> (out: F32) {
        F32 { bits: 0 }
    }

    fn to_value(self) -> (out: Value) {
        Value::F32(self)
    }

    fn of_value(value: &Value) -> (out: F32) {
        match value {
            Value::F32(v) => *v,
            _ => F32 { bits: 0 },
        }
    }
}

impl PrimitiveElement for F64 {
    const PTYPE: PType = PType::F64;

    open spec fn ptype() -> PType {
        PType::F64
    }

    proof fn ptype_holds() {
    }

    open spec fn to_payload(self) -> ValueV {
        ValueV::Primitive(PType::F64, self.bits as int)
    }

    open spec fn of_payload(value: ValueV) -> F64 {
        match value {
            ValueV::Primitive(ptype, v) => if ptype == PType::F64 {
                F64 { bits: v as u64 }
            } else {
                F64 { bits: 0 }
            },
            _ => F64 { bits: 0 },
        }
    }

    fn zero() -> (out: F64) {
        F64 { bits: 0 }
    }

    fn to_value(self) -> (out: Value) {
        Value::F64(self)
    }

    fn of_value(value: &Value) -> (out: F64) {
        match value {
            Value::F64(v) => *v,
            _ => F64 { bits: 0 },
        }
    }
}

} // verus!
