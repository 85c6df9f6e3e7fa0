//! Row payloads.

use std::sync::Arc;

use vstd::prelude::*;

use crate::dtype::PType;
use crate::native::{F16, F32, F64};
use crate::wide::I256;

verus! {

/// What a row holds, whether or not the row is valid.
///
/// Behind a null the payload is arbitrary: `Null` where none was stored, and `UnresolvedBytes` for
/// a byte-string whose length is readable while its bytes are not.
#[derive(Debug)]
pub enum Value {
    Null,
    Bool(bool),
    U8(u8),
    U16(u16),
    U32(u32),
    U64(u64),
    I8(i8),
    I16(i16),
    I32(i32),
    I64(i64),
    F16(F16),
    F32(F32),
    F64(F64),
    Decimal(I256),
    Bytes(Arc<Vec<u8>>),
    UnresolvedBytes(u32),
    List(Arc<Vec<Cell>>),
    Struct(Arc<Vec<Cell>>),
}

/// One row: its payload, and whether it is valid.
#[derive(Debug)]
pub struct Cell {
    pub valid: bool,
    pub value: Value,
}

/// The meaning of a [`Value`]. A primitive is its type with its integer value, or with its bit
/// pattern for a float.
pub enum ValueV {
    Null,
    Bool(bool),
    Primitive(PType, int),
    Decimal(int),
    Bytes(Seq<u8>),
    UnresolvedBytes(nat),
    List(Seq<CellV>),
    Struct(Seq<CellV>),
}

/// The meaning of a [`Cell`].
pub struct CellV {
    pub valid: bool,
    pub value: ValueV,
}

impl Value {
    /// What this payload is.
    pub open spec fn model(&self) -> ValueV
        decreases self,
    {
        match self {
            Value::Null => ValueV::Null,
            Value::Bool(v) => ValueV::Bool(*v),
            Value::U8(v) => ValueV::Primitive(PType::U8, *v as int),
            Value::U16(v) => ValueV::Primitive(PType::U16, *v as int),
            Value::U32(v) => ValueV::Primitive(PType::U32, *v as int),
            Value::U64(v) => ValueV::Primitive(PType::U64, *v as int),
            Value::I8(v) => ValueV::Primitive(PType::I8, *v as int),
            Value::I16(v) => ValueV::Primitive(PType::I16, *v as int),
            Value::I32(v) => ValueV::Primitive(PType::I32, *v as int),
            Value::I64(v) => ValueV::Primitive(PType::I64, *v as int),
            Value::F16(v) => ValueV::Primitive(PType::F16, v.bits as int),
            Value::F32(v) => ValueV::Primitive(PType::F32, v.bits as int),
            Value::F64(v) => ValueV::Primitive(PType::F64, v.bits as int),
            Value::Decimal(v) => ValueV::Decimal(v@),
            Value::Bytes(v) => ValueV::Bytes(v@),
            Value::UnresolvedBytes(len) => ValueV::UnresolvedBytes(*len as nat),
            Value::List(items) => ValueV::List(
                Seq::new(
                    items@.len(),
                    |i: int|
                        if 0 <= i < items@.len() {
                            items@[i].model()
                        } else {
                            arbitrary()
                        },
                ),
            ),
            Value::Struct(items) => ValueV::Struct(
                Seq::new(
                    items@.len(),
                    |i: int|
                        if 0 <= i < items@.len() {
                            items@[i].model()
                        } else {
                            arbitrary()
                        },
                ),
            ),
        }
    }
}

impl Cell {
    /// What this row is.
    pub open spec fn model(&self) -> CellV
        decreases self,
    {
        CellV { valid: self.valid, value: self.value.model() }
    }
}

impl View for Value {
    type V = ValueV;

    open spec fn view(&self) -> ValueV {
        self.model()
    }
}

impl View for Cell {
    type V = CellV;

    open spec fn view(&self) -> CellV {
        self.model()
    }
}

impl Clone for Value {
    fn clone(&self) -> (out: Self)
        ensures
            out == *self,
    {
        match self {
            Value::Null => Value::Null,
            Value::Bool(v) => Value::Bool(*v),
            Value::U8(v) => Value::U8(*v),
            Value::U16(v) => Value::U16(*v),
            Value::U32(v) => Value::U32(*v),
            Value::U64(v) => Value::U64(*v),
            Value::I8(v) => Value::I8(*v),
            Value::I16(v) => Value::I16(*v),
            Value::I32(v) => Value::I32(*v),
            Value::I64(v) => Value::I64(*v),
            Value::F16(v) => Value::F16(*v),
            Value::F32(v) => Value::F32(*v),
            Value::F64(v) => Value::F64(*v),
            Value::Decimal(v) => Value::Decimal(*v),
            Value::Bytes(v) => Value::Bytes(Arc::clone(v)),
            Value::UnresolvedBytes(len) => Value::UnresolvedBytes(*len),
            Value::List(items) => Value::List(Arc::clone(items)),
            Value::Struct(items) => Value::Struct(Arc::clone(items)),
        }
    }
}

impl Clone for Cell {
    fn clone(&self) -> (out: Self)
        ensures
            out == *self,
    {
        Cell { valid: self.valid, value: self.value.clone() }
    }
}

impl Cell {
    /// A valid row.
    pub fn valid(value: Value) -> (out: Self)
        ensures
            out@ == (CellV { valid: true, value: value@ }),
    {
        Cell { valid: true, value }
    }

    /// A null row with nothing behind it.
    pub fn null() -> (out: Self)
        ensures
            out@ == null_cell(),
    {
        Cell { valid: false, value: Value::Null }
    }
}

/// A null row with nothing behind it.
pub open spec fn null_cell() -> CellV {
    CellV { valid: false, value: ValueV::Null }
}

impl CellV {
    /// What a reader sees of a row.
    pub open spec fn logical(self) -> Option<ValueV> {
        if self.valid {
            Some(self.value)
        } else {
            None
        }
    }

    /// The row with further rows masked away.
    pub open spec fn masked(self, keep: bool) -> CellV {
        CellV { valid: self.valid && keep, value: self.value }
    }
}

} // verus!
