//! Columns.

use vstd::prelude::*;

use crate::dtype::{DType, DTypeV, Nullability};
use crate::error::{VortexError, VortexResult};
use crate::mask::{self, Mask, Validity, ValidityV};
use crate::text::join2;
use crate::value::{self, Cell, CellV, Value, ValueV};

verus! {

/// How the rows of a column are stored.
#[derive(Debug)]
pub enum Repr {
    /// One cell per row.
    Column(Vec<Cell>),
    /// One cell for every row.
    Constant(Cell, usize),
    /// One payload for every row, valid where the bit is set.
    MaskedConstant(Value, Vec<bool>),
}

/// A column of one data type.
#[derive(Debug)]
pub struct Array {
    pub dtype: DType,
    pub repr: Repr,
}

/// The meaning of an [`Array`]: its type, its rows, the row that a constant repeats, and the
/// payload that a masked constant repeats.
pub struct ArrayV {
    pub dtype: DTypeV,
    pub cells: Seq<CellV>,
    pub constant: Option<CellV>,
    pub shared: Option<ValueV>,
}

/// `rows` copies of a cell.
pub open spec fn repeat(cell: CellV, rows: nat) -> Seq<CellV> {
    Seq::new(rows, |i: int| cell)
}

/// Cells as rows.
pub open spec fn cells_model(cells: Seq<Cell>) -> Seq<CellV> {
    Seq::new(cells.len(), |i: int| cells[i]@)
}

impl View for Array {
    type V = ArrayV;

    open spec fn view(&self) -> ArrayV {
        match self.repr {
            Repr::Column(cells) => ArrayV {
                dtype: self.dtype@,
                cells: cells_model(cells@),
                constant: None,
                shared: None,
            },
            Repr::Constant(cell, rows) => ArrayV {
                dtype: self.dtype@,
                cells: repeat(cell@, rows as nat),
                constant: Some(cell@),
                shared: None,
            },
            Repr::MaskedConstant(value, valid) => ArrayV {
                dtype: self.dtype@,
                cells: Seq::new(valid@.len(), |i: int| CellV { valid: valid@[i], value: value@ }),
                constant: None,
                shared: Some(value@),
            },
        }
    }
}

impl ArrayV {
    /// The number of rows.
    pub open spec fn len(self) -> nat {
        self.cells.len()
    }

    /// What a reader sees at row `i`.
    pub open spec fn row(self, i: int) -> Option<ValueV> {
        self.cells[i].logical()
    }

    /// A constant holds its cell in every row, a masked constant its payload.
    pub open spec fn uniform(self) -> bool {
        &&& self.constant matches Some(cell) ==> forall|i: int|
            0 <= i < self.len() ==> #[trigger] self.cells[i] == cell
        &&& self.shared matches Some(value) ==> forall|i: int|
            0 <= i < self.len() ==> (#[trigger] self.cells[i]).value == value
    }

    /// The valid rows.
    pub open spec fn valid_bits(self) -> Seq<bool> {
        Seq::new(self.cells.len(), |i: int| self.cells[i].valid)
    }

    /// Which rows are valid.
    pub open spec fn validity(self) -> ValidityV {
        let bits = self.valid_bits();
        if self.dtype.nullability() is NonNullable && mask::all_true(bits) {
            ValidityV::NonNullable
        } else if mask::all_true(bits) {
            ValidityV::AllValid
        } else if mask::all_false(bits) {
            ValidityV::AllInvalid
        } else {
            ValidityV::Array(bits)
        }
    }

    /// The chosen rows. A constant stays constant.
    pub open spec fn filter(self, bits: Seq<bool>) -> ArrayV {
        ArrayV {
            dtype: self.dtype,
            cells: mask::select(self.cells, bits),
            constant: self.constant,
            shared: self.shared,
        }
    }

    /// The column with every row outside the mask made null.
    pub open spec fn mask(self, bits: Seq<bool>) -> ArrayV {
        ArrayV {
            dtype: self.dtype.with_nullability(Nullability::Nullable),
            cells: Seq::new(self.cells.len(), |i: int| self.cells[i].masked(bits[i])),
            constant: None,
            shared: match self.constant {
                Some(cell) => Some(cell.value),
                None => self.shared,
            },
        }
    }

    /// The first row.
    pub open spec fn first(self) -> ArrayV {
        ArrayV {
            dtype: self.dtype,
            cells: self.cells.take(1),
            constant: self.constant,
            shared: None,
        }
    }

    /// The rows at `indices`.
    pub open spec fn take(self, indices: Seq<u64>) -> ArrayV {
        ArrayV {
            dtype: self.dtype,
            cells: Seq::new(indices.len(), |i: int| self.cells[indices[i] as int]),
            constant: None,
            shared: None,
        }
    }
}

/// A column of one cell per row.
pub open spec fn column(dtype: DTypeV, cells: Seq<CellV>) -> ArrayV {
    ArrayV { dtype, cells, constant: None, shared: None }
}

/// A column that holds `cell` in every row.
pub open spec fn constant(dtype: DTypeV, cell: CellV, rows: nat) -> ArrayV {
    ArrayV { dtype, cells: repeat(cell, rows), constant: Some(cell), shared: None }
}

/// A column of nulls.
pub open spec fn all_null(dtype: DTypeV, rows: nat) -> ArrayV {
    constant(dtype, value::null_cell(), rows)
}

/// What is said of nulls in a column whose type admits none.
pub open spec fn nulls_text(dtype: DTypeV) -> Seq<char> {
    "cannot cast an array with nulls to "@ + dtype.text()
}

impl ArrayV {
    /// The column under another type, which must admit its nulls.
    pub open spec fn cast(self, dtype: DTypeV) -> Result<ArrayV, Seq<char>> {
        if dtype.nullability() is NonNullable && !mask::all_true(self.valid_bits()) {
            Err(nulls_text(dtype))
        } else {
            Ok(ArrayV { dtype, ..self })
        }
    }
}

fn clone_cells(cells: &Vec<Cell>) -> (out: Vec<Cell>)
    ensures
        out@ == cells@,
{
    let mut out: Vec<Cell> = Vec::new();
    let mut index: usize = 0;
    while index < cells.len()
        invariant
            index <= cells@.len(),
            out@ == cells@.take(index as int),
        decreases cells@.len() - index,
    {
        out.push(cells[index].clone());
        index = index + 1;
        assert(out@ =~= cells@.take(index as int));
    }
    assert(out@ =~= cells@);
    out
}

fn clone_bits(bits: &Vec<bool>) -> (out: Vec<bool>)
    ensures
        out@ == bits@,
{
    let mut out: Vec<bool> = Vec::new();
    let mut index: usize = 0;
    while index < bits.len()
        invariant
            index <= bits@.len(),
            out@ == bits@.take(index as int),
        decreases bits@.len() - index,
    {
        out.push(bits[index]);
        index = index + 1;
        assert(out@ =~= bits@.take(index as int));
    }
    assert(out@ =~= bits@);
    out
}

fn select_bits(bits: &Vec<bool>, chosen: &Mask) -> (out: Vec<bool>)
    requires
        bits@.len() == chosen@.len(),
    ensures
        out@ == mask::select(bits@, chosen@),
{
    let mut out: Vec<bool> = Vec::new();
    let mut index: usize = 0;
    assert(chosen@.take(0) =~= Seq::empty());
    while index < bits.len()
        invariant
            index <= bits@.len() == chosen@.len(),
            out@ == mask::select(bits@, chosen@.take(index as int)),
        decreases bits@.len() - index,
    {
        if chosen.value(index) {
            out.push(bits[index]);
        }
        assert(chosen@.take(index + 1).drop_last() =~= chosen@.take(index as int));
        index = index + 1;
    }
    assert(chosen@.take(bits@.len() as int) =~= chosen@);
    out
}

/// Choosing rows of one payload chooses their validity bits.
proof fn select_maps(cells: Seq<CellV>, valid: Seq<bool>, bits: Seq<bool>, value: ValueV)
    requires
        bits.len() <= cells.len() == valid.len(),
        forall|i: int| 0 <= i < cells.len() ==> #[trigger] cells[i] == (CellV { valid: valid[i], value }),
    ensures
        mask::select(cells, bits).len() == mask::select(valid, bits).len(),
        forall|i: int|
            0 <= i < mask::select(valid, bits).len() ==> #[trigger] mask::select(cells, bits)[i]
                == (CellV { valid: mask::select(valid, bits)[i], value }),
    decreases bits.len(),
{
    if bits.len() > 0 {
        select_maps(cells, valid, bits.drop_last(), value);
        assert(cells[bits.len() - 1] == CellV { valid: valid[bits.len() - 1], value });
    }
}

impl Clone for Array {
    fn clone(&self) -> (out: Self)
        ensures
            out@ == self@,
    {
        let out = match &self.repr {
            Repr::Column(cells) => Array {
                dtype: self.dtype.clone(),
                repr: Repr::Column(clone_cells(cells)),
            },
            Repr::Constant(cell, rows) => Array {
                dtype: self.dtype.clone(),
                repr: Repr::Constant(cell.clone(), *rows),
            },
            Repr::MaskedConstant(value, valid) => Array {
                dtype: self.dtype.clone(),
                repr: Repr::MaskedConstant(value.clone(), clone_bits(valid)),
            },
        };
        assert(out@.cells =~= self@.cells);
        out
    }
}

impl Array {
    /// A column of one cell per row.
    pub fn column(dtype: DType, cells: Vec<Cell>) -> (out: Self)
        ensures
            out@ == column(dtype@, cells_model(cells@)),
    {
        Array { dtype, repr: Repr::Column(cells) }
    }

    /// A column that holds one cell in every row.
    pub fn constant(dtype: DType, cell: Cell, rows: usize) -> (out: Self)
        ensures
            out@ == constant(dtype@, cell@, rows as nat),
    {
        Array { dtype, repr: Repr::Constant(cell, rows) }
    }

    /// A column of nulls.
    pub fn all_null(dtype: DType, rows: usize) -> (out: Self)
        ensures
            out@ == all_null(dtype@, rows as nat),
    {
        Array { dtype, repr: Repr::Constant(Cell::null(), rows) }
    }

    /// The number of rows.
    pub fn len(&self) -> (out: usize)
        ensures
            out == self@.len(),
    {
        match &self.repr {
            Repr::Column(cells) => cells.len(),
            Repr::Constant(_, rows) => *rows,
            Repr::MaskedConstant(_, valid) => valid.len(),
        }
    }

    pub fn is_empty(&self) -> (out: bool)
        ensures
            out == (self@.len() == 0),
    {
        self.len() == 0
    }

    pub fn dtype(&self) -> (out: &DType)
        ensures
            out@ == self@.dtype,
    {
        &self.dtype
    }

    /// The cell that a constant repeats.
    pub fn as_constant(&self) -> (out: Option<&Cell>)
        ensures
            match out {
                Some(cell) => self@.constant == Some(cell@),
                None => self@.constant is None,
            },
    {
        match &self.repr {
            Repr::Constant(cell, _) => Some(cell),
            _ => None,
        }
    }

    /// The cell at row `index`.
    pub fn cell(&self, index: usize) -> (out: Cell)
        requires
            index < self@.len(),
        ensures
            out@ == self@.cells[index as int],
    {
        match &self.repr {
            Repr::Column(cells) => cells[index].clone(),
            Repr::Constant(cell, _) => cell.clone(),
            Repr::MaskedConstant(value, valid) => Cell {
                valid: valid[index],
                value: value.clone(),
            },
        }
    }

    /// Whether row `index` is valid.
    pub fn is_valid(&self, index: usize) -> (out: bool)
        requires
            index < self@.len(),
        ensures
            out == self@.cells[index as int].valid,
    {
        match &self.repr {
            Repr::Column(cells) => cells[index].valid,
            Repr::Constant(cell, _) => cell.valid,
            Repr::MaskedConstant(_, valid) => valid[index],
        }
    }

    /// One bit per row, set where the row is valid.
    pub fn valid_mask(&self) -> (out: Mask)
        ensures
            out@ == self@.valid_bits(),
    {
        let rows: usize = self.len();
        let mut bits: Vec<bool> = Vec::new();
        let mut index: usize = 0;
        while index < rows
            invariant
                index <= rows == self@.len(),
                bits@ == self@.valid_bits().take(index as int),
            decreases rows - index,
        {
            bits.push(self.is_valid(index));
            index = index + 1;
            assert(bits@ =~= self@.valid_bits().take(index as int));
        }
        assert(bits@ =~= self@.valid_bits());
        Mask::new(bits)
    }

    /// Which rows are valid.
    pub fn validity(&self) -> (out: Validity)
        ensures
            out@ == self@.validity(),
            out@.fits(self@.len()),
            out@.bits(self@.len()) == self@.valid_bits(),
    {
        let mask = self.valid_mask();
        let out = if mask.all_true() {
            if self.dtype.is_nullable() {
                Validity::AllValid
            } else {
                Validity::NonNullable
            }
        } else if mask.all_false() {
            Validity::AllInvalid
        } else {
            Validity::Array(mask.bits)
        };
        assert(out@.bits(self@.len()) =~= self@.valid_bits());
        out
    }

    /// The chosen rows.
    pub fn filter(&self, chosen: &Mask) -> (out: Array)
        requires
            chosen@.len() == self@.len(),
        ensures
            out@ == self@.filter(chosen@),
    {
        if let Repr::Constant(cell, _) = &self.repr {
            let count: usize = chosen.true_count();
            let out = Array::constant(self.dtype.clone(), cell.clone(), count);
            proof {
                mask::select_at_rank(self@.cells, chosen@);
                select_of_uniform(self@.cells, chosen@, cell@);
                assert(out@.cells =~= self@.filter(chosen@).cells);
            }
            return out;
        }
        if let Repr::MaskedConstant(value, valid) = &self.repr {
            let kept = select_bits(valid, chosen);
            let out = Array {
                dtype: self.dtype.clone(),
                repr: Repr::MaskedConstant(value.clone(), kept),
            };
            proof {
                select_maps(self@.cells, valid@, chosen@, value@);
                assert(out@.cells =~= self@.filter(chosen@).cells);
            }
            return out;
        }
        let rows: usize = self.len();
        let mut cells: Vec<Cell> = Vec::new();
        let mut index: usize = 0;
        assert(chosen@.take(0) =~= Seq::empty());
        assert(cells_model(cells@) =~= mask::select(self@.cells, chosen@.take(0)));
        while index < rows
            invariant
                index <= rows == self@.len() == chosen@.len(),
                cells_model(cells@) == mask::select(self@.cells, chosen@.take(index as int)),
            decreases rows - index,
        {
            let ghost before = cells@;
            if chosen.value(index) {
                cells.push(self.cell(index));
            }
            proof {
                assert(chosen@.take(index + 1).drop_last() =~= chosen@.take(index as int));
                if chosen@[index as int] {
                    assert(cells_model(cells@) =~= cells_model(before).push(
                        self@.cells[index as int],
                    ));
                }
            }
            index = index + 1;
        }
        assert(chosen@.take(rows as int) =~= chosen@);
        Array::column(self.dtype.clone(), cells)
    }

    /// The column with every row outside the mask made null.
    pub fn mask(&self, keep: &Mask) -> (out: Array)
        requires
            keep@.len() == self@.len(),
        ensures
            out@ == self@.mask(keep@),
    {
        let rows: usize = self.len();
        let ghost expected = self@.mask(keep@);
        if let Repr::Constant(cell, _) = &self.repr {
            let mut valid: Vec<bool> = Vec::new();
            let mut index: usize = 0;
            while index < rows
                invariant
                    index <= rows == keep@.len(),
                    valid@ == Seq::new(index as nat, |i: int| cell.valid && keep@[i]),
                decreases rows - index,
            {
                valid.push(cell.valid && keep.value(index));
                index = index + 1;
                assert(valid@ =~= Seq::new(index as nat, |i: int| cell.valid && keep@[i]));
            }
            let out = Array {
                dtype: self.dtype.as_nullable(),
                repr: Repr::MaskedConstant(cell.value.clone(), valid),
            };
            assert(out@.cells =~= expected.cells);
            return out;
        }
        if let Repr::MaskedConstant(value, bits) = &self.repr {
            let mut valid: Vec<bool> = Vec::new();
            let mut index: usize = 0;
            while index < rows
                invariant
                    index <= rows == keep@.len() == bits@.len(),
                    valid@ == Seq::new(index as nat, |i: int| bits@[i] && keep@[i]),
                decreases rows - index,
            {
                valid.push(bits[index] && keep.value(index));
                index = index + 1;
                assert(valid@ =~= Seq::new(index as nat, |i: int| bits@[i] && keep@[i]));
            }
            let out = Array {
                dtype: self.dtype.as_nullable(),
                repr: Repr::MaskedConstant(value.clone(), valid),
            };
            assert(out@.cells =~= expected.cells);
            return out;
        }
        let mut cells: Vec<Cell> = Vec::new();
        let mut index: usize = 0;
        while index < rows
            invariant
                index <= rows == self@.len() == keep@.len(),
                expected == self@.mask(keep@),
                cells_model(cells@) == expected.cells.take(index as int),
            decreases rows - index,
        {
            let cell = self.cell(index);
            let kept = Cell { valid: cell.valid && keep.value(index), value: cell.value };
            let ghost before = cells@;
            cells.push(kept);
            proof {
                assert(cells_model(cells@) =~= cells_model(before).push(kept@));
                assert(expected.cells.take(index + 1) =~= expected.cells.take(index as int).push(
                    expected.cells[index as int],
                ));
            }
            index = index + 1;
        }
        assert(cells_model(cells@) =~= expected.cells);
        Array::column(self.dtype.as_nullable(), cells)
    }

    /// The first row.
    pub fn first(&self) -> (out: Array)
        requires
            self@.len() > 0,
        ensures
            out@ == self@.first(),
    {
        if let Repr::Constant(cell, _) = &self.repr {
            let out = Array::constant(self.dtype.clone(), cell.clone(), 1);
            assert(out@.cells =~= self@.cells.take(1));
            return out;
        }
        let mut cells: Vec<Cell> = Vec::new();
        cells.push(self.cell(0));
        assert(cells_model(cells@) =~= self@.cells.take(1));
        Array::column(self.dtype.clone(), cells)
    }

    /// The rows at `indices`.
    pub fn take(&self, indices: &Vec<u64>) -> (out: Array)
        requires
            forall|i: int| 0 <= i < indices@.len() ==> (#[trigger] indices@[i]) < self@.len(),
        ensures
            out@ == self@.take(indices@),
    {
        let rows: usize = self.len();
        let mut cells: Vec<Cell> = Vec::new();
        let mut index: usize = 0;
        let ghost expected = self@.take(indices@).cells;
        while index < indices.len()
            invariant
                index <= indices@.len(),
                expected == self@.take(indices@).cells,
                forall|i: int|
                    0 <= i < indices@.len() ==> (#[trigger] indices@[i]) < self@.len(),
                cells_model(cells@) == expected.take(index as int),
                rows == self@.len(),
            decreases indices@.len() - index,
        {
            let ghost before = cells@;
            let cell = self.cell(indices[index] as usize);
            cells.push(cell);
            proof {
                assert(cells_model(cells@) =~= cells_model(before).push(cell@));
                assert(expected.take(index + 1) =~= expected.take(index as int).push(
                    expected[index as int],
                ));
            }
            index = index + 1;
        }
        assert(cells_model(cells@) =~= expected);
        Array::column(self.dtype.clone(), cells)
    }

    /// The column under another type, which must admit its nulls.
    pub fn cast(self, dtype: &DType) -> (out: VortexResult<Array>)
        ensures
            match out {
                Ok(array) => self@.cast(dtype@) == Ok::<ArrayV, Seq<char>>(array@),
                Err(error) => self@.cast(dtype@) == Err::<ArrayV, Seq<char>>(error@),
            },
    {
        if !dtype.is_nullable() && !self.valid_mask().all_true() {
            return Err(
                VortexError::new(
                    join2("cannot cast an array with nulls to ", dtype.to_text().as_str()),
                ),
            );
        }
        Ok(Array { dtype: dtype.clone(), repr: self.repr })
    }
}

/// Choosing from rows of one payload gives rows of that payload.
pub proof fn select_of_shared(cells: Seq<CellV>, bits: Seq<bool>, value: ValueV)
    requires
        bits.len() <= cells.len(),
        forall|i: int| 0 <= i < cells.len() ==> (#[trigger] cells[i]).value == value,
    ensures
        forall|i: int|
            0 <= i < mask::select(cells, bits).len() ==> (#[trigger] mask::select(cells, bits)[i]).value
                == value,
    decreases bits.len(),
{
    if bits.len() > 0 {
        select_of_shared(cells, bits.drop_last(), value);
    }
}

/// Choosing from equal rows gives equal rows.
pub proof fn select_of_uniform(cells: Seq<CellV>, bits: Seq<bool>, cell: CellV)
    requires
        bits.len() <= cells.len(),
        forall|i: int| 0 <= i < cells.len() ==> #[trigger] cells[i] == cell,
    ensures
        forall|i: int|
            0 <= i < mask::select(cells, bits).len() ==> #[trigger] mask::select(cells, bits)[i]
                == cell,
    decreases bits.len(),
{
    if bits.len() > 0 {
        select_of_uniform(cells, bits.drop_last(), cell);
    }
}

/// A stored constant holds its cell in every row.
pub proof fn array_is_uniform(array: &Array)
    ensures
        array@.uniform(),
{
}

} // verus!
