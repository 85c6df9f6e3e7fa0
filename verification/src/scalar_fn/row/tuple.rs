//! Argument lists built from input elements, and the per-argument decode behind them.

use vstd::prelude::*;

use crate::array::{self, Array, ArrayV, Repr};
use crate::dtype::{DType, DTypeV, Nullability};
use crate::error::{VortexError, VortexResult};
use crate::scalar_fn::row::element::InputElement;
use crate::scalar_fn::vtable::{self, ExecutionArgs};
use crate::text::{self, decimal, join2};
use crate::value::{Cell, CellV};

verus! {

/// One decoded input column, together with the stride used to read it.
///
/// A constant operand holds the same value in every row, so it is decoded once as a single row and
/// read at index 0 forever.
pub struct ArgColumn<T: InputElement> {
    /// The decoded column: every row, or the single row of a constant operand.
    pub column: T::Column,
    /// One for a column, zero for a constant operand.
    pub stride: usize,
}

/// The rows that are decoded of an argument: the one row of a constant, the payload under a masked
/// constant, and otherwise the whole column.
pub open spec fn collapsed(array: ArrayV) -> ArrayV {
    if array.len() > 0 && array.constant is Some {
        array.first()
    } else if array.len() > 0 && array.constant is None && array.shared is Some {
        array::constant(
            array.dtype.with_nullability(Nullability::NonNullable),
            CellV { valid: true, value: array.shared->Some_0 },
            1,
        )
    } else {
        array
    }
}

/// Whether an argument is read at its single row.
pub open spec fn batch_constant(array: ArrayV) -> bool {
    array.len() > 0 && (array.constant is Some || array.shared is Some)
}

/// An argument is a null constant.
pub open spec fn null_constant(array: ArrayV) -> bool {
    array.constant matches Some(cell) && !cell.valid
}

/// Some argument is read at the single row of a null constant.
pub open spec fn some_null_constant(args: Seq<ArrayV>) -> bool {
    exists|i: int|
        0 <= i < args.len() && (#[trigger] args[i]).len() > 0 && null_constant(args[i])
}

/// Columns with a row that is valid in all of them hold no null constant.
pub proof fn valid_rows_have_no_null_constant(args: Seq<ArrayV>, rows: nat, r: int)
    requires
        vtable::aligned(args, rows),
        rows == 0 || (0 <= r < rows && vtable::valid_at(args, r)),
    ensures
        !some_null_constant(args),
{
    if some_null_constant(args) {
        let i = choose|i: int|
            0 <= i < args.len() && (#[trigger] args[i]).len() > 0 && null_constant(args[i]);
        assert(args[i].len() == rows && args[i].uniform());
        assert(args[i].cells[r].valid);
    }
}

/// An argument read by row, alike for a column and for a constant.
pub enum ArgView<'a, C> {
    Column(&'a C),
    Constant(&'a C),
}

impl<T: InputElement> ArgColumn<T> {
    /// The row of the decoded column that logical row `i` reads.
    pub open spec fn slot(&self, i: int) -> int {
        if self.stride == 0 {
            0
        } else {
            i
        }
    }

    /// Row `i` may be read.
    pub open spec fn can_get(&self, i: int) -> bool {
        &&& self.stride <= 1
        &&& 0 <= self.slot(i) < T::column_len(&self.column)
        &&& T::column_at(&self.column, self.slot(i)) is Some
    }

    /// The element at row `i`.
    pub open spec fn at(&self, i: int) -> T::V {
        T::column_at(&self.column, self.slot(i))->Some_0
    }

    /// The element that every row reads, for a constant operand.
    pub open spec fn shared_element(&self) -> Option<T::V> {
        if self.stride == 0 {
            T::column_at(&self.column, 0)
        } else {
            None
        }
    }

    /// The decoded column stands for `rows` rows.
    pub open spec fn addresses(&self, rows: nat) -> bool {
        if self.stride == 0 {
            T::column_len(&self.column) == 1
        } else {
            T::column_len(&self.column) == rows
        }
    }

    /// The decoded column stands for `array`.
    pub open spec fn represents(&self, array: ArrayV, dense: bool) -> bool {
        &&& self.stride <= 1
        &&& (self.stride == 0) == batch_constant(array)
        &&& self.addresses(array.len())
        &&& self.stride == 0 && ((dense && T::dense_safe()) || !null_constant(array))
            ==> T::column_at(&self.column, 0) is Some
        &&& forall|i: int|
            0 <= i < array.len() && ((dense && T::dense_safe()) || array.cells[i].valid) ==> (
            #[trigger] self.can_get(i)) && T::reads(array.cells[i].value) == Some(self.at(i))
    }

    /// The rows to decode, where they are not the whole column.
    fn collapse(array: &Array) -> (out: Option<Array>)
        ensures
            match out {
                Some(one) => batch_constant(array@) && one@ == collapsed(array@),
                None => !batch_constant(array@) && collapsed(array@) == array@,
            },
    {
        if array.is_empty() {
            return None;
        }
        match &array.repr {
            Repr::Constant(_, _) => Some(array.first()),
            Repr::MaskedConstant(value, _) => Some(
                Array::constant(
                    array.dtype().with_nullability(Nullability::NonNullable),
                    Cell::valid(value.clone()),
                    1,
                ),
            ),
            Repr::Column(_) => None,
        }
    }

    /// Decode one input column, collapsing a constant operand to its single distinct row.
    pub fn decode(array: &Array) -> (out: VortexResult<Self>)
        ensures
            match out {
                Ok(column) => T::decodes(collapsed(array@)) is Ok && column.represents(
                    array@,
                    true,
                ),
                Err(error) => T::decodes(collapsed(array@)) == Err::<(), Seq<char>>(error@),
            },
    {
        proof {
            array::array_is_uniform(array);
        }
        match Self::collapse(array) {
            Some(one) => match T::decode(&one) {
                Ok(column) => {
                    let out = ArgColumn { column, stride: 0 };
                    assert(one@.len() == 1 && one@.cells[0].valid == !null_constant(array@));
                    assert(T::dense_safe() || !null_constant(array@) ==> T::column_at(&out.column, 0)
                        == T::reads(one@.cells[0].value));
                    Ok(out)
                },
                Err(error) => Err(error),
            },
            None => match T::decode(array) {
                Ok(column) => {
                    let out = ArgColumn { column, stride: 1 };
                    assert forall|i: int|
                        0 <= i < array@.len() && (T::dense_safe() || array@.cells[i].valid) implies (
                    #[trigger] out.can_get(i)) && T::reads(array@.cells[i].value) == Some(
                        out.at(i),
                    ) by {
                        assert(T::column_at(&out.column, i) is Some);
                    }
                    Ok(out)
                },
                Err(error) => Err(error),
            },
        }
    }

    /// Decode one input column without looking behind its nulls.
    pub fn decode_null_tolerant(array: &Array) -> (out: VortexResult<Option<Self>>)
        ensures
            match out {
                Ok(Some(column)) => T::decodes_tolerant(collapsed(array@)) == Ok::<bool, Seq<char>>(
                    true,
                ) && column.represents(array@, false),
                Ok(None) => T::decodes_tolerant(collapsed(array@)) == Ok::<bool, Seq<char>>(false),
                Err(error) => T::decodes_tolerant(collapsed(array@)) == Err::<bool, Seq<char>>(
                    error@,
                ),
            },
    {
        proof {
            array::array_is_uniform(array);
        }
        match Self::collapse(array) {
            Some(one) => match T::decode_null_tolerant(&one) {
                Ok(Some(column)) => {
                    let out = ArgColumn { column, stride: 0 };
                    assert(one@.len() == 1 && one@.cells[0].valid == !null_constant(array@));
                    assert(!null_constant(array@) ==> T::column_at(&out.column, 0) == T::reads(
                        one@.cells[0].value,
                    ));
                    Ok(Some(out))
                },
                Ok(None) => Ok(None),
                Err(error) => Err(error),
            },
            None => match T::decode_null_tolerant(array) {
                Ok(Some(column)) => {
                    let out = ArgColumn { column, stride: 1 };
                    assert forall|i: int| 0 <= i < array@.len() && array@.cells[i].valid implies (
                    #[trigger] out.can_get(i)) && T::reads(array@.cells[i].value) == Some(
                        out.at(i),
                    ) by {
                        assert(T::column_at(&out.column, i) is Some);
                    }
                    Ok(Some(out))
                },
                Ok(None) => Ok(None),
                Err(error) => Err(error),
            },
        }
    }

    /// Read the element at `index`, which for a constant operand is always its single row.
    pub fn get<'a>(&'a self, index: usize) -> (out: T::Elem<'a>)
        requires
            self.can_get(index as int),
        ensures
            T::meaning(out) == self.at(index as int),
    {
        if self.stride == 0 {
            T::get(&self.column, 0)
        } else {
            T::get(&self.column, index)
        }
    }

    /// The single element of a constant operand.
    pub fn constant<'a>(&'a self) -> (out: Option<T::Elem<'a>>)
        requires
            self.stride == 0 ==> self.can_get(0),
        ensures
            match out {
                Some(elem) => self.shared_element() == Some(T::meaning(elem)),
                None => self.stride != 0,
            },
    {
        if self.stride == 0 {
            Some(T::get(&self.column, 0))
        } else {
            None
        }
    }

    /// The decoded column, told apart from a constant's single row.
    pub fn view<'a>(&'a self) -> (out: ArgView<'a, T::Column>)
        ensures
            match out {
                ArgView::Column(column) => self.stride != 0 && *column == self.column,
                ArgView::Constant(column) => self.stride == 0 && *column == self.column,
            },
    {
        if self.stride == 0 {
            ArgView::Constant(&self.column)
        } else {
            ArgView::Column(&self.column)
        }
    }

    /// Whether the decoded column stands for `rows` rows.
    pub fn rows_match(&self, rows: usize) -> (out: bool)
        ensures
            out == self.addresses(rows as nat),
    {
        if self.stride == 0 {
            T::column_rows(&self.column) == 1
        } else {
            T::column_rows(&self.column) == rows
        }
    }
}

/// What is said of another number of arguments.
pub open spec fn wrong_count(expected: nat, given: nat) -> Seq<char> {
    "expected "@ + text::decimal_text(expected) + " argument dtypes, got "@ + text::decimal_text(
        given,
    )
}

pub fn wrong_count_error(expected: usize, given: usize) -> (out: VortexError)
    ensures
        out@ == wrong_count(expected as nat, given as nat),
{
    let mut message = join2("expected ", decimal(expected as u64).as_str());
    message.append(" argument dtypes, got ");
    message.append(decimal(given as u64).as_str());
    VortexError::new(message)
}

/// A check that follows another.
pub open spec fn also(first: Result<(), Seq<char>>, second: Result<(), Seq<char>>) -> Result<
    (),
    Seq<char>,
> {
    match first {
        Ok(()) => second,
        Err(error) => Err(error),
    }
}

/// A tolerant decode that follows another.
pub open spec fn also_tolerant(
    first: Result<bool, Seq<char>>,
    second: Result<bool, Seq<char>>,
) -> Result<bool, Seq<char>> {
    match first {
        Ok(true) => second,
        Ok(false) => Ok(false),
        Err(error) => Err(error),
    }
}

/// Tuples of input elements forming the typed argument list of a row function.
pub trait ElementTuple {
    /// The decoded columns.
    type Columns;

    /// A row of elements.
    type Elems<'a>;

    /// The elements of constant operands.
    type ConstElems<'a>;

    /// The meaning of a row.
    type V;

    /// The meaning of the constant elements.
    type ConstV;

    /// The number of arguments.
    const ARITY: usize;

    /// Whether every argument may be read behind nulls.
    const DENSE_SAFE: bool;

    /// Whether any argument's decode can fail on legal data.
    const DECODE_FALLIBLE: bool;

    /// How many arguments' decodes shrink when the inputs are filtered first.
    const FILTERED_DECODE_COST: usize;

    /// What [`ARITY`](Self::ARITY) is.
    spec fn arity() -> usize;

    /// What [`DENSE_SAFE`](Self::DENSE_SAFE) is.
    spec fn dense_safe() -> bool;

    /// What [`DECODE_FALLIBLE`](Self::DECODE_FALLIBLE) is.
    spec fn decode_fallible() -> bool;

    /// What [`FILTERED_DECODE_COST`](Self::FILTERED_DECODE_COST) is.
    spec fn decode_cost() -> usize;

    /// The constants are what they are said to be.
    proof fn constants_hold()
        ensures
            Self::ARITY == Self::arity(),
            Self::DENSE_SAFE == Self::dense_safe(),
            Self::DECODE_FALLIBLE == Self::decode_fallible(),
            Self::FILTERED_DECODE_COST == Self::decode_cost(),
    ;

    /// Whether columns of these types are accepted.
    spec fn accepts(dtypes: Seq<DTypeV>) -> Result<(), Seq<char>>;

    /// Whether these columns decode.
    spec fn decodes(args: Seq<ArrayV>) -> Result<(), Seq<char>>;

    /// Whether these columns decode without looking behind nulls.
    spec fn decodes_tolerant(args: Seq<ArrayV>) -> Result<bool, Seq<char>>;

    /// The row of elements at row `r` of the columns.
    spec fn row_at(args: Seq<ArrayV>, r: int) -> Self::V;

    /// Row `i` of the decoded columns may be read.
    spec fn can_get(columns: &Self::Columns, i: int) -> bool;

    /// Row `i` of the decoded columns.
    spec fn at(columns: &Self::Columns, i: int) -> Self::V;

    /// The constant elements may be read.
    spec fn can_get_constants(columns: &Self::Columns) -> bool;

    /// The constant elements of the decoded columns.
    spec fn constants_of(columns: &Self::Columns) -> Self::ConstV;

    /// The constant elements agree with a row.
    spec fn agree(constants: Self::ConstV, row: Self::V) -> bool;

    /// The decoded columns stand for `rows` rows each.
    spec fn addresses(columns: &Self::Columns, rows: nat) -> bool;

    /// The meaning of a row.
    spec fn meaning(elems: Self::Elems<'_>) -> Self::V;

    /// The meaning of the constant elements.
    spec fn const_meaning(elems: Self::ConstElems<'_>) -> Self::ConstV;

    /// Constant elements are what every row reads.
    proof fn constants_agree(columns: &Self::Columns, i: int)
        requires
            Self::can_get(columns, i),
            Self::can_get_constants(columns),
        ensures
            Self::agree(Self::constants_of(columns), Self::at(columns, i)),
    ;

    /// Accepted columns are as many as there are arguments.
    proof fn accepts_arity(dtypes: Seq<DTypeV>)
        ensures
            Self::accepts(dtypes) is Ok ==> dtypes.len() == Self::arity(),
    ;

    /// A row is read from its own payloads alone.
    proof fn rows_are_local(a: Seq<ArrayV>, i: int, b: Seq<ArrayV>, j: int)
        requires
            a.len() == Self::arity(),
            b.len() == Self::arity(),
            forall|k: int|
                0 <= k < a.len() ==> (#[trigger] a[k]).cells[i].value == b[k].cells[j].value,
        ensures
            Self::row_at(a, i) == Self::row_at(b, j),
    ;

    /// Check the input types, including their number.
    fn validate(dtypes: &Vec<DType>) -> (out: VortexResult<()>)
        ensures
            vtable::unit_outcome(out) == Self::accepts(vtable::dtypes_model(dtypes@)),
    ;

    /// Decode every input column.
    fn decode(args: &ExecutionArgs) -> (out: VortexResult<Self::Columns>)
        requires
            args.well_formed(),
            args@.len() == Self::arity(),
        ensures
            match out {
                Ok(columns) => Self::decodes(args@) is Ok && (Self::dense_safe()
                    || !some_null_constant(args@) ==> Self::can_get_constants(&columns))
                    && Self::addresses(&columns, args.row_count as nat) && (forall|r: int|
                    0 <= r < args.row_count && (Self::dense_safe() || vtable::valid_at(args@, r)) ==> (
                    #[trigger] Self::can_get(&columns, r)) && Self::at(&columns, r) == Self::row_at(
                        args@,
                        r,
                    )),
                Err(error) => Self::decodes(args@) == Err::<(), Seq<char>>(error@),
            },
    ;

    /// Decode every input column without looking behind nulls.
    fn decode_null_tolerant(args: &ExecutionArgs) -> (out: VortexResult<Option<Self::Columns>>)
        requires
            args.well_formed(),
            args@.len() == Self::arity(),
        ensures
            match out {
                Ok(Some(columns)) => Self::decodes_tolerant(args@) == Ok::<bool, Seq<char>>(true)
                    && (!some_null_constant(args@) ==> Self::can_get_constants(&columns))
                    && Self::addresses(&columns, args.row_count as nat) && (forall|r: int|
                    0 <= r < args.row_count && vtable::valid_at(args@, r) ==> (#[trigger] Self::can_get(
                        &columns,
                        r,
                    )) && Self::at(&columns, r) == Self::row_at(args@, r)),
                Ok(None) => Self::decodes_tolerant(args@) == Ok::<bool, Seq<char>>(false),
                Err(error) => Self::decodes_tolerant(args@) == Err::<bool, Seq<char>>(error@),
            },
    ;

    /// Read the row of elements at `index`.
    fn get<'a>(columns: &'a Self::Columns, index: usize) -> (out: Self::Elems<'a>)
        requires
            Self::can_get(columns, index as int),
        ensures
            Self::meaning(out) == Self::at(columns, index as int),
    ;

    /// Read the elements of constant operands.
    fn constants<'a>(columns: &'a Self::Columns) -> (out: Self::ConstElems<'a>)
        requires
            Self::can_get_constants(columns),
        ensures
            Self::const_meaning(out) == Self::constants_of(columns),
    ;

    /// Whether the decoded columns stand for `rows` rows each.
    fn rows_match(columns: &Self::Columns, rows: usize) -> (out: bool)
        ensures
            out == Self::addresses(columns, rows as nat),
    ;
}

} // verus!
