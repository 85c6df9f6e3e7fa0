//! The element types that a row function can read and produce.

use vstd::prelude::*;

use crate::array::{self, Array, ArrayV};
use crate::dtype::{DType, DTypeV};
use crate::error::{VortexError, VortexResult};
use crate::scalar_fn::vtable;
use crate::value::{CellV, ValueV};

verus! {

/// An element type that can be read row by row out of an input column.
pub trait InputElement {
    /// The decoded column.
    type Column;

    /// The element handed to a row computation.
    type Elem<'a>;

    /// The meaning of an element.
    type V;

    /// Whether [`get`](Self::get) may be called for a row that is null in the input.
    const DENSE_SAFE: bool;

    /// Whether decoding can fail on legal input data.
    const DECODE_FALLIBLE: bool;

    /// Whether decoding does per-row work that shrinks when the input is filtered first.
    const DECODE_SHRINKS_WHEN_FILTERED: bool;

    /// What [`DENSE_SAFE`](Self::DENSE_SAFE) is.
    spec fn dense_safe() -> bool;

    /// What [`DECODE_FALLIBLE`](Self::DECODE_FALLIBLE) is.
    spec fn decode_fallible() -> bool;

    /// What [`DECODE_SHRINKS_WHEN_FILTERED`](Self::DECODE_SHRINKS_WHEN_FILTERED) is.
    spec fn decode_shrinks() -> bool;

    /// The constants are what they are said to be.
    proof fn constants_hold()
        ensures
            Self::DENSE_SAFE == Self::dense_safe(),
            Self::DECODE_FALLIBLE == Self::decode_fallible(),
            Self::DECODE_SHRINKS_WHEN_FILTERED == Self::decode_shrinks(),
    ;

    /// Whether columns of a type are accepted, or what is said of one that is not.
    spec fn accepts(dtype: DTypeV) -> Result<(), Seq<char>>;

    /// The element of a payload, where it has one.
    spec fn reads(value: ValueV) -> Option<Self::V>;

    /// Whether a column decodes, or what is said of one that does not.
    spec fn decodes(array: ArrayV) -> Result<(), Seq<char>>;

    /// Whether a column decodes without looking behind its nulls; `false` if the element has no
    /// such decoding.
    spec fn decodes_tolerant(array: ArrayV) -> Result<bool, Seq<char>>;

    /// The number of decoded rows.
    spec fn column_len(column: &Self::Column) -> nat;

    /// The element at a decoded row, where it may be read.
    spec fn column_at(column: &Self::Column, i: int) -> Option<Self::V>;

    /// The meaning of an element.
    spec fn meaning(elem: Self::Elem<'_>) -> Self::V;

    /// Check that a column type is acceptable.
    fn validate(dtype: &DType) -> (out: VortexResult<()>)
        ensures
            vtable::unit_outcome(out) == Self::accepts(dtype@),
    ;

    /// Decode a column.
    fn decode(array: &Array) -> (out: VortexResult<Self::Column>)
        ensures
            match out {
                Ok(column) => Self::decodes(array@) is Ok && Self::column_len(&column)
                    == array@.len() && (forall|i: int|
                    0 <= i < array@.len() && (Self::dense_safe() || array@.cells[i].valid) ==> (
                    #[trigger] Self::column_at(&column, i)) is Some && Self::column_at(&column, i)
                        == Self::reads(array@.cells[i].value)),
                Err(error) => Self::decodes(array@) == Err::<(), Seq<char>>(error@),
            },
    ;

    /// Decode a column without looking behind its nulls.
    fn decode_null_tolerant(array: &Array) -> (out: VortexResult<Option<Self::Column>>)
        ensures
            match out {
                Ok(Some(column)) => Self::decodes_tolerant(array@) == Ok::<bool, Seq<char>>(true)
                    && Self::column_len(&column) == array@.len() && (forall|i: int|
                    0 <= i < array@.len() && array@.cells[i].valid ==> (#[trigger] Self::column_at(
                        &column,
                        i,
                    )) is Some && Self::column_at(&column, i) == Self::reads(
                        array@.cells[i].value,
                    )),
                Ok(None) => Self::decodes_tolerant(array@) == Ok::<bool, Seq<char>>(false),
                Err(error) => Self::decodes_tolerant(array@) == Err::<bool, Seq<char>>(error@),
            },
    ;

    /// The number of decoded rows.
    fn column_rows(column: &Self::Column) -> (out: usize)
        ensures
            out == Self::column_len(column),
    ;

    /// Read the element at `index`.
    fn get<'a>(column: &'a Self::Column, index: usize) -> (out: Self::Elem<'a>)
        requires
            index < Self::column_len(column),
            Self::column_at(column, index as int) is Some,
        ensures
            Self::column_at(column, index as int) == Some(Self::meaning(out)),
    ;
}

/// The payloads of produced values.
pub open spec fn payloads_of<T: OutputElement>(values: Seq<T>) -> Seq<ValueV> {
    Seq::new(values.len(), |i: int| values[i].payload())
}

/// A column of valid rows.
pub open spec fn valid_column(dtype: DTypeV, payloads: Seq<ValueV>) -> ArrayV {
    array::column(
        dtype,
        Seq::new(payloads.len(), |i: int| CellV { valid: true, value: payloads[i] }),
    )
}

/// A column holds one valid row for each payload, in order.
pub open spec fn in_order(array: ArrayV, payloads: Seq<ValueV>) -> bool {
    array.len() == payloads.len() && forall|i: int|
        0 <= i < payloads.len() ==> #[trigger] array.cells[i] == (CellV {
            valid: true,
            value: payloads[i],
        })
}

/// An element type that a row computation can produce.
pub trait OutputElement: Sized {
    /// The type of columns built from this element, which must not be nullable.
    spec fn element_type() -> DTypeV;

    /// The payload of a value.
    spec fn payload(self) -> ValueV;

    /// The payload of the value that stands in a masked row.
    spec fn placeholder_payload() -> ValueV;

    /// The column built from one payload per row.
    spec fn built(payloads: Seq<ValueV>) -> ArrayV;

    /// A built column has the element's type, and one valid row for each payload, in order.
    proof fn built_in_order(payloads: Seq<ValueV>)
        ensures
            Self::built(payloads).dtype == Self::element_type(),
            in_order(Self::built(payloads), payloads),
    ;

    /// The type of columns built from this element.
    fn element_dtype() -> (out: DType)
        ensures
            out@ == Self::element_type(),
    ;

    /// Build a column from one value per row.
    fn build(values: Vec<Self>) -> (out: Array)
        ensures
            out@ == Self::built(Seq::new(values@.len(), |i: int| values@[i].payload())),
    ;

    /// A value for a row that is masked away.
    fn placeholder() -> (out: Self)
        ensures
            out.payload() == Self::placeholder_payload(),
    ;
}

/// What a row computation may return: an element, or a result of one.
pub trait ApplyResult: Sized {
    /// The element this computation produces.
    type Out: OutputElement;

    /// Whether this return type can carry an error.
    const FALLIBLE: bool;

    /// What [`FALLIBLE`](Self::FALLIBLE) is.
    spec fn fallible() -> bool;

    /// The constant is what it is said to be.
    proof fn constant_holds()
        ensures
            Self::FALLIBLE == Self::fallible(),
    ;

    /// The payload, or what is said where there is none.
    spec fn applied(self) -> Result<ValueV, Seq<char>>;

    fn into_result(self) -> (out: VortexResult<Self::Out>)
        ensures
            match out {
                Ok(value) => self.applied() == Ok::<ValueV, Seq<char>>(value.payload()),
                Err(error) => self.applied() == Err::<ValueV, Seq<char>>(error@),
            },
    ;
}

impl<T: OutputElement> ApplyResult for T {
    type Out = T;

    const FALLIBLE: bool = false;

    open spec fn fallible() -> bool {
        false
    }

    proof fn constant_holds() {
    }

    open spec fn applied(self) -> Result<ValueV, Seq<char>> {
        Ok(self.payload())
    }

    fn into_result(self) -> (out: VortexResult<T>) {
        Ok(self)
    }
}

impl<T: OutputElement> ApplyResult for Result<T, VortexError> {
    type Out = T;

    const FALLIBLE: bool = true;

    open spec fn fallible() -> bool {
        true
    }

    proof fn constant_holds() {
    }

    open spec fn applied(self) -> Result<ValueV, Seq<char>> {
        match self {
            Ok(value) => Ok(value.payload()),
            Err(error) => Err(error@),
        }
    }

    fn into_result(self) -> (out: VortexResult<T>) {
        self
    }
}

} // verus!
