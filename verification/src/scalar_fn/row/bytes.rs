//! The byte-string element family: `Utf8` and `Binary` columns, read as bytes or as lengths.

use std::sync::Arc;

use vstd::prelude::*;

use crate::array::{self, Array, ArrayV};
use crate::dtype::{DType, DTypeV, Nullability};
use crate::error::{VortexError, VortexResult};
use crate::scalar_fn::row::element::{self, InputElement, OutputElement};
use crate::scalar_fn::row::primitive::{self, wrong_column_error};
use crate::value::{Cell, CellV, Value, ValueV};

verus! {

/// Byte-string input elements: accepts `Utf8` or `Binary` columns and presents each row as
/// `&[u8]`. The bytes behind a null row may not resolve, so only valid rows may be read.
pub struct Bytes;

/// The byte length of a `Utf8` or `Binary` row. A length is readable where the bytes are not.
pub struct BytesLen;

/// The decoded form of a [`Bytes`] column: the bytes of each row that resolves.
pub struct BytesColumn {
    pub rows: Vec<Option<Arc<Vec<u8>>>>,
}

/// Whether a column holds byte-strings.
pub open spec fn accepts_bytes(dtype: DTypeV) -> Result<(), Seq<char>> {
    if dtype is Utf8 || dtype is Binary {
        Ok(())
    } else {
        Err(primitive::wrong_column("Utf8 or Binary"@, dtype))
    }
}

/// The bytes of a payload, where they resolve.
pub open spec fn bytes_of(value: ValueV) -> Option<Seq<u8>> {
    match value {
        ValueV::Bytes(bytes) => Some(bytes),
        _ => None,
    }
}

/// Every valid row resolves.
pub open spec fn resolves(array: ArrayV) -> bool {
    forall|i: int|
        0 <= i < array.len() && (#[trigger] array.cells[i]).valid ==> bytes_of(
            array.cells[i].value,
        ) is Some
}

/// What is said of a valid row without bytes.
pub open spec fn unresolved_text() -> Seq<char> {
    "a valid row does not resolve to bytes"@
}

fn validate_byte_column(dtype: &DType) -> (out: VortexResult<()>)
    ensures
        crate::scalar_fn::vtable::unit_outcome(out) == accepts_bytes(dtype@),
{
    match dtype {
        DType::Utf8(_) => Ok(()),
        DType::Binary(_) => Ok(()),
        _ => Err(wrong_column_error("Utf8 or Binary", dtype)),
    }
}

impl InputElement for Bytes {
    type Column = BytesColumn;

    type Elem<'a> = &'a [u8];

    type V = Seq<u8>;

    const DENSE_SAFE: bool = false;

    const DECODE_FALLIBLE: bool = false;

    const DECODE_SHRINKS_WHEN_FILTERED: bool = false;

    open spec fn dense_safe() -> bool {
        false
    }

    open spec fn decode_fallible() -> bool {
        false
    }

    open spec fn decode_shrinks() -> bool {
        false
    }

    proof fn constants_hold() {
    }

    open spec fn accepts(dtype: DTypeV) -> Result<(), Seq<char>> {
        accepts_bytes(dtype)
    }

    open spec fn reads(value: ValueV) -> Option<Seq<u8>> {
        bytes_of(value)
    }

    open spec fn decodes(array: ArrayV) -> Result<(), Seq<char>> {
        if resolves(array) {
            Ok(())
        } else {
            Err(unresolved_text())
        }
    }

    open spec fn decodes_tolerant(array: ArrayV) -> Result<bool, Seq<char>> {
        if resolves(array) {
            Ok(true)
        } else {
            Err(unresolved_text())
        }
    }

    open spec fn column_len(column: &BytesColumn) -> nat {
        column.rows@.len()
    }

    open spec fn column_at(column: &BytesColumn, i: int) -> Option<Seq<u8>> {
        match column.rows@[i] {
            Some(bytes) => Some(bytes@),
            None => None,
        }
    }

    open spec fn meaning(elem: &[u8]) -> Seq<u8> {
        elem@
    }

    fn validate(dtype: &DType) -> (out: VortexResult<()>) {
        validate_byte_column(dtype)
    }

    fn decode(array: &Array) -> (out: VortexResult<BytesColumn>) {
        let count: usize = array.len();
        let mut rows: Vec<Option<Arc<Vec<u8>>>> = Vec::new();
        let mut index: usize = 0;
        while index < count
            invariant
                index <= count == array@.len(),
                rows@.len() == index,
                forall|i: int|
                    0 <= i < index ==> (match #[trigger] rows@[i] {
                        Some(bytes) => bytes_of(array@.cells[i].value) == Some(bytes@),
                        None => bytes_of(array@.cells[i].value) is None && !array@.cells[i].valid,
                    }),
            decreases count - index,
        {
            let cell = array.cell(index);
            if let Value::Bytes(bytes) = &cell.value {
                rows.push(Some(Arc::clone(bytes)));
            } else if cell.valid {
                assert(bytes_of(array@.cells[index as int].value) is None);
                return Err(VortexError::of("a valid row does not resolve to bytes"));
            } else {
                rows.push(None);
            }
            index = index + 1;
        }
        assert(resolves(array@)) by {
            assert forall|i: int| 0 <= i < array@.len() && (#[trigger] array@.cells[i]).valid
                implies bytes_of(array@.cells[i].value) is Some by {
                assert(match rows@[i] {
                    Some(bytes) => bytes_of(array@.cells[i].value) == Some(bytes@),
                    None => bytes_of(array@.cells[i].value) is None && !array@.cells[i].valid,
                });
            }
        }
        Ok(BytesColumn { rows })
    }

    fn decode_null_tolerant(array: &Array) -> (out: VortexResult<Option<BytesColumn>>) {
        match Self::decode(array) {
            Ok(column) => Ok(Some(column)),
            Err(error) => Err(error),
        }
    }

    fn column_rows(column: &BytesColumn) -> (out: usize) {
        column.rows.len()
    }

    fn get<'a>(column: &'a BytesColumn, index: usize) -> (out: &'a [u8]) {
        match &column.rows[index] {
            Some(bytes) => bytes.as_slice(),
            None => {
                assert(false);
                &[]
            },
        }
    }
}

/// The length of a payload, which a payload that does not resolve still has.
pub open spec fn length_of(value: ValueV) -> nat {
    match value {
        ValueV::Bytes(bytes) => bytes.len(),
        ValueV::UnresolvedBytes(len) => len,
        _ => 0,
    }
}

impl InputElement for BytesLen {
    type Column = Vec<usize>;

    type Elem<'a> = usize;

    type V = nat;

    const DENSE_SAFE: bool = true;

    const DECODE_FALLIBLE: bool = false;

    const DECODE_SHRINKS_WHEN_FILTERED: bool = false;

    open spec fn dense_safe() -> bool {
        true
    }

    open spec fn decode_fallible() -> bool {
        false
    }

    open spec fn decode_shrinks() -> bool {
        false
    }

    proof fn constants_hold() {
    }

    open spec fn accepts(dtype: DTypeV) -> Result<(), Seq<char>> {
        accepts_bytes(dtype)
    }

    open spec fn reads(value: ValueV) -> Option<nat> {
        Some(length_of(value))
    }

    open spec fn decodes(array: ArrayV) -> Result<(), Seq<char>> {
        Ok(())
    }

    open spec fn decodes_tolerant(array: ArrayV) -> Result<bool, Seq<char>> {
        Ok(true)
    }

    open spec fn column_len(column: &Vec<usize>) -> nat {
        column@.len()
    }

    open spec fn column_at(column: &Vec<usize>, i: int) -> Option<nat> {
        Some(column@[i] as nat)
    }

    open spec fn meaning(elem: usize) -> nat {
        elem as nat
    }

    fn validate(dtype: &DType) -> (out: VortexResult<()>) {
        validate_byte_column(dtype)
    }

    fn decode(array: &Array) -> (out: VortexResult<Vec<usize>>) {
        let rows: usize = array.len();
        let mut column: Vec<usize> = Vec::new();
        let mut index: usize = 0;
        while index < rows
            invariant
                index <= rows == array@.len(),
                column@.len() == index,
                forall|i: int|
                    0 <= i < index ==> #[trigger] column@[i] == length_of(array@.cells[i].value),
            decreases rows - index,
        {
            let cell = array.cell(index);
            let length: usize = match &cell.value {
                Value::Bytes(bytes) => bytes.len(),
                Value::UnresolvedBytes(len) => *len as usize,
                _ => 0,
            };
            column.push(length);
            index = index + 1;
        }
        Ok(column)
    }

    fn decode_null_tolerant(array: &Array) -> (out: VortexResult<Option<Vec<usize>>>) {
        match Self::decode(array) {
            Ok(column) => Ok(Some(column)),
            Err(error) => Err(error),
        }
    }

    fn column_rows(column: &Vec<usize>) -> (out: usize) {
        column.len()
    }

    fn get<'a>(column: &'a Vec<usize>, index: usize) -> (out: usize) {
        column[index]
    }
}

impl OutputElement for String {
    open spec fn element_type() -> DTypeV {
        DTypeV::Utf8(Nullability::NonNullable)
    }

    open spec fn payload(self) -> ValueV {
        ValueV::Bytes(vstd::utf8::encode_utf8(self@))
    }

    open spec fn placeholder_payload() -> ValueV {
        ValueV::Bytes(vstd::utf8::encode_utf8(Seq::empty()))
    }

    open spec fn built(payloads: Seq<ValueV>) -> ArrayV {
        element::valid_column(Self::element_type(), payloads)
    }

    proof fn built_in_order(payloads: Seq<ValueV>) {
    }

    fn element_dtype() -> (out: DType) {
        DType::Utf8(Nullability::NonNullable)
    }

    fn build(values: Vec<String>) -> (out: Array) {
        let mut cells: Vec<Cell> = Vec::new();
        let mut index: usize = 0;
        while index < values.len()
            invariant
                index <= values@.len(),
                cells@.len() == index,
                forall|i: int|
                    0 <= i < index ==> (#[trigger] cells@[i])@ == (CellV {
                        valid: true,
                        value: values@[i].payload(),
                    }),
            decreases values@.len() - index,
        {
            let bytes = values[index].as_str().as_bytes_vec();
            cells.push(Cell::valid(Value::Bytes(Arc::new(bytes))));
            index = index + 1;
        }
        let out = Array::column(Self::element_dtype(), cells);
        assert(out@.cells =~= Self::built(Seq::new(values@.len(), |i: int| values@[i].payload())).cells);
        out
    }

    fn placeholder() -> (out: String) {
        String::new()
    }
}

} // verus!
