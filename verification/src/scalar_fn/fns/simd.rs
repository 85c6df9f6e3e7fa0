//! Primitive comparison kernels that write bitmap words directly.

use vstd::prelude::*;

use crate::bits::{self, low_bits, push_bit};
use crate::native::{float_key_16, float_key_32, float_key_64, NativePType, F16, F32, F64};
use crate::scalar_fn::fns::operators::CompareOperator;

verus! {

/// One side of a comparison: a column, or one value for every row.
#[derive(Clone, Copy)]
pub enum PrimitiveInput<'a, T> {
    Slice(&'a [T]),
    Constant(T),
}

impl<'a, T: NativePType> PrimitiveInput<'a, T> {
    /// Whether the input has a value for each of the first `rows` rows.
    pub open spec fn covers(self, rows: int) -> bool {
        match self {
            PrimitiveInput::Slice(values) => values@.len() >= rows,
            PrimitiveInput::Constant(_) => true,
        }
    }

    /// The value at logical row `i`.
    pub open spec fn row(self, i: int) -> T {
        match self {
            PrimitiveInput::Slice(values) => values@[i],
            PrimitiveInput::Constant(value) => value,
        }
    }

    /// Read one logical input row. A constant accepts every row index.
    pub fn get(self, index: usize) -> (value: T)
        requires
            self.covers(index + 1),
        ensures
            value == self.row(index as int),
    {
        match self {
            PrimitiveInput::Slice(values) => values[index],
            PrimitiveInput::Constant(value) => value,
        }
    }
}

/// The outcome of `op` on two values of a totally ordered type.
pub open spec fn op_holds<T: NativePType>(op: CompareOperator, lhs: T, rhs: T) -> bool {
    op.holds(lhs.rank(), rhs.rank())
}

/// Compare one pair of values.
pub fn apply_op<T: NativePType>(lhs: T, rhs: T, op: CompareOperator) -> (r: bool)
    ensures
        r == op_holds(op, lhs, rhs),
{
    match op {
        CompareOperator::Eq => lhs.is_eq(rhs),
        CompareOperator::NotEq => !lhs.is_eq(rhs),
        CompareOperator::Gt => lhs.is_gt(rhs),
        CompareOperator::Gte => lhs.is_ge(rhs),
        CompareOperator::Lt => lhs.is_lt(rhs),
        CompareOperator::Lte => lhs.is_le(rhs),
    }
}

/// Pack `count` comparisons that start at row `base` into the low bits of a word.
fn compare_rows<T: NativePType>(
    lhs: PrimitiveInput<'_, T>,
    rhs: PrimitiveInput<'_, T>,
    op: CompareOperator,
    base: usize,
    count: u64,
) -> (word: u64)
    requires
        count <= 64,
        base + count <= usize::MAX,
        lhs.covers(base + count),
        rhs.covers(base + count),
    ensures
        forall|j: int|
            0 <= j < 64 ==> #[trigger] bits::bit_at(word, j) == (j < count && op_holds(
                op,
                lhs.row(base + j),
                rhs.row(base + j),
            )),
{
    let mut word: u64 = 0;
    let mut bit: u64 = 0;
    proof {
        bits::zero_has_no_bits();
    }
    while bit < count
        invariant
            bit <= count <= 64,
            base + count <= usize::MAX,
            lhs.covers(base + count),
            rhs.covers(base + count),
            forall|j: int|
                0 <= j < 64 ==> #[trigger] bits::bit_at(word, j) == (j < bit && op_holds(
                    op,
                    lhs.row(base + j),
                    rhs.row(base + j),
                )),
        decreases count - bit,
    {
        let index: usize = base + bit as usize;
        let value = apply_op(lhs.get(index), rhs.get(index), op);
        word = push_bit(word, bit, value);
        bit = bit + 1;
    }
    word
}

/// Compare complete 64-row chunks one row at a time.
pub fn compare_words_scalar<T: NativePType>(
    lhs: PrimitiveInput<'_, T>,
    rhs: PrimitiveInput<'_, T>,
    op: CompareOperator,
    words: &mut [u64],
)
    requires
        64 * old(words)@.len() <= usize::MAX,
        lhs.covers(64 * old(words)@.len() as int),
        rhs.covers(64 * old(words)@.len() as int),
    ensures
        final(words)@.len() == old(words)@.len(),
        forall|i: int|
            0 <= i < 64 * old(words)@.len() ==> #[trigger] bits::row_bit(final(words)@, i) == op_holds(
                op,
                lhs.row(i),
                rhs.row(i),
            ),
{
    let count: usize = words.len();
    let mut word_index: usize = 0;
    while word_index < count
        invariant
            word_index <= count == words@.len(),
            words@.len() == old(words)@.len(),
            64 * count <= usize::MAX,
            lhs.covers(64 * count),
            rhs.covers(64 * count),
            forall|i: int|
                0 <= i < 64 * word_index ==> #[trigger] bits::row_bit(words@, i) == op_holds(
                    op,
                    lhs.row(i),
                    rhs.row(i),
                ),
        decreases count - word_index,
    {
        let word = compare_rows(lhs, rhs, op, word_index * 64, 64);
        let ghost before = words@;
        words[word_index] = word;
        proof {
            assert forall|i: int| 0 <= i < 64 * (word_index + 1) implies #[trigger] bits::row_bit(
                words@,
                i,
            ) == op_holds(op, lhs.row(i), rhs.row(i)) by {
                if i < 64 * word_index {
                    assert(bits::row_bit(before, i) == bits::row_bit(words@, i));
                } else {
                    assert(i / 64 == word_index);
                    assert(bits::bit_at(word, i % 64) == op_holds(op, lhs.row(i), rhs.row(i))) by {
                        assert(word_index * 64 + i % 64 == i);
                    }
                }
            }
        }
        word_index = word_index + 1;
    }
}

/// A comparison reduced to lane equality or signed lane greater-than. `invert` is all zeros, or
/// all ones where the reduced comparison is the negation of the requested one.
#[derive(Clone, Copy)]
pub enum DenseComparison<'a, T> {
    EqualArrays { lhs: &'a [T], rhs: &'a [T], invert: u64 },
    GreaterArrays { lhs: &'a [T], rhs: &'a [T], invert: u64 },
    EqualArrayConstant { values: &'a [T], constant: T, invert: u64 },
    GreaterArrayConstant { values: &'a [T], constant: T, invert: u64 },
    GreaterConstantArray { constant: T, values: &'a [T], invert: u64 },
}

impl<'a, T: NativePType> DenseComparison<'a, T> {
    /// The word that every result word is combined with by exclusive or.
    pub open spec fn inversion(self) -> u64 {
        match self {
            DenseComparison::EqualArrays { invert, .. } => invert,
            DenseComparison::GreaterArrays { invert, .. } => invert,
            DenseComparison::EqualArrayConstant { invert, .. } => invert,
            DenseComparison::GreaterArrayConstant { invert, .. } => invert,
            DenseComparison::GreaterConstantArray { invert, .. } => invert,
        }
    }

    /// The inversion word is uniform.
    pub open spec fn well_formed(self) -> bool {
        self.inversion() == 0 || self.inversion() == u64::MAX
    }

    /// Whether every column has a value for each of the first `rows` rows.
    pub open spec fn covers(self, rows: int) -> bool {
        match self {
            DenseComparison::EqualArrays { lhs, rhs, .. } => lhs@.len() >= rows && rhs@.len()
                >= rows,
            DenseComparison::GreaterArrays { lhs, rhs, .. } => lhs@.len() >= rows && rhs@.len()
                >= rows,
            DenseComparison::EqualArrayConstant { values, .. } => values@.len() >= rows,
            DenseComparison::GreaterArrayConstant { values, .. } => values@.len() >= rows,
            DenseComparison::GreaterConstantArray { values, .. } => values@.len() >= rows,
        }
    }

    /// The lane comparison at row `i`, before inversion.
    pub open spec fn lane(self, i: int) -> bool {
        match self {
            DenseComparison::EqualArrays { lhs, rhs, .. } => lhs@[i].rank() == rhs@[i].rank(),
            DenseComparison::GreaterArrays { lhs, rhs, .. } => lhs@[i].rank() > rhs@[i].rank(),
            DenseComparison::EqualArrayConstant { values, constant, .. } => values@[i].rank()
                == constant.rank(),
            DenseComparison::GreaterArrayConstant { values, constant, .. } => values@[i].rank()
                > constant.rank(),
            DenseComparison::GreaterConstantArray { constant, values, .. } => constant.rank()
                > values@[i].rank(),
        }
    }

    /// The result at row `i`.
    pub open spec fn row(self, i: int) -> bool {
        self.lane(i) != (self.inversion() != 0)
    }

    /// A comparison of two columns as equality or as greater-than. What is neither is the negation
    /// of one, and less-than exchanges the sides.
    pub open spec fn of_columns(op: CompareOperator, lhs: &'a [T], rhs: &'a [T]) -> Self {
        match op {
            CompareOperator::Eq => DenseComparison::EqualArrays { lhs, rhs, invert: 0 },
            CompareOperator::NotEq => DenseComparison::EqualArrays { lhs, rhs, invert: u64::MAX },
            CompareOperator::Gt => DenseComparison::GreaterArrays { lhs, rhs, invert: 0 },
            CompareOperator::Gte => DenseComparison::GreaterArrays {
                lhs: rhs,
                rhs: lhs,
                invert: u64::MAX,
            },
            CompareOperator::Lt => DenseComparison::GreaterArrays { lhs: rhs, rhs: lhs, invert: 0 },
            CompareOperator::Lte => DenseComparison::GreaterArrays { lhs, rhs, invert: u64::MAX },
        }
    }

    /// A comparison of a column with a constant on its right.
    pub open spec fn of_column_and_constant(
        op: CompareOperator,
        values: &'a [T],
        constant: T,
    ) -> Self {
        match op {
            CompareOperator::Eq => DenseComparison::EqualArrayConstant {
                values,
                constant,
                invert: 0,
            },
            CompareOperator::NotEq => DenseComparison::EqualArrayConstant {
                values,
                constant,
                invert: u64::MAX,
            },
            CompareOperator::Gt => DenseComparison::GreaterArrayConstant {
                values,
                constant,
                invert: 0,
            },
            CompareOperator::Gte => DenseComparison::GreaterConstantArray {
                constant,
                values,
                invert: u64::MAX,
            },
            CompareOperator::Lt => DenseComparison::GreaterConstantArray {
                constant,
                values,
                invert: 0,
            },
            CompareOperator::Lte => DenseComparison::GreaterArrayConstant {
                values,
                constant,
                invert: u64::MAX,
            },
        }
    }

    /// What a comparison in which at least one side is a column is reduced to. A constant on the
    /// left is compared as one on the right, with the operator swapped.
    pub open spec fn reduced(
        lhs: PrimitiveInput<'a, T>,
        rhs: PrimitiveInput<'a, T>,
        op: CompareOperator,
    ) -> Self {
        match (lhs, rhs) {
            (PrimitiveInput::Slice(a), PrimitiveInput::Slice(b)) => Self::of_columns(op, a, b),
            (PrimitiveInput::Slice(values), PrimitiveInput::Constant(constant)) => {
                Self::of_column_and_constant(op, values, constant)
            },
            (PrimitiveInput::Constant(constant), PrimitiveInput::Slice(values)) => {
                Self::of_column_and_constant(op.swapped(), values, constant)
            },
            (PrimitiveInput::Constant(_), PrimitiveInput::Constant(_)) => arbitrary(),
        }
    }

    /// Reduce a comparison in which at least one side is a column.
    pub fn new(
        lhs: PrimitiveInput<'a, T>,
        rhs: PrimitiveInput<'a, T>,
        op: CompareOperator,
    ) -> (out: Self)
        requires
            !(lhs is Constant && rhs is Constant),
        ensures
            out == Self::reduced(lhs, rhs, op),
            out.well_formed(),
            forall|rows: int|
                #[trigger] out.covers(rows) == (lhs.covers(rows) && rhs.covers(rows)),
            forall|i: int|
                #[trigger] out.row(i) == op_holds(op, lhs.row(i), rhs.row(i)),
    {
        match (lhs, rhs) {
            (PrimitiveInput::Slice(lhs), PrimitiveInput::Slice(rhs)) => match op {
                CompareOperator::Eq => DenseComparison::EqualArrays { lhs, rhs, invert: 0 },
                CompareOperator::NotEq => DenseComparison::EqualArrays {
                    lhs,
                    rhs,
                    invert: u64::MAX,
                },
                CompareOperator::Gt => DenseComparison::GreaterArrays { lhs, rhs, invert: 0 },
                CompareOperator::Gte => DenseComparison::GreaterArrays {
                    lhs: rhs,
                    rhs: lhs,
                    invert: u64::MAX,
                },
                CompareOperator::Lt => DenseComparison::GreaterArrays {
                    lhs: rhs,
                    rhs: lhs,
                    invert: 0,
                },
                CompareOperator::Lte => DenseComparison::GreaterArrays {
                    lhs,
                    rhs,
                    invert: u64::MAX,
                },
            },
            (PrimitiveInput::Slice(values), PrimitiveInput::Constant(constant)) => {
                Self::column_against_constant(values, constant, op)
            },
            (PrimitiveInput::Constant(constant), PrimitiveInput::Slice(values)) => {
                let out = Self::column_against_constant(values, constant, op.swap());
                proof {
                    assert forall|i: int| #[trigger] out.row(i) == op_holds(
                        op,
                        lhs.row(i),
                        rhs.row(i),
                    ) by {
                        assert(op.swapped().holds(values@[i].rank(), constant.rank()) == op.holds(
                            constant.rank(),
                            values@[i].rank(),
                        ));
                    }
                }
                out
            },
            (PrimitiveInput::Constant(constant), PrimitiveInput::Constant(_)) => {
                assert(false);
                DenseComparison::EqualArrayConstant { values: &[], constant, invert: 0 }
            },
        }
    }

    fn column_against_constant(values: &'a [T], constant: T, op: CompareOperator) -> (out: Self)
        ensures
            out == Self::of_column_and_constant(op, values, constant),
            out.well_formed(),
            forall|rows: int| #[trigger] out.covers(rows) == (values@.len() >= rows),
            forall|i: int| #[trigger] out.row(i) == op_holds(op, values@[i], constant),
    {
        match op {
            CompareOperator::Eq => DenseComparison::EqualArrayConstant {
                values,
                constant,
                invert: 0,
            },
            CompareOperator::NotEq => DenseComparison::EqualArrayConstant {
                values,
                constant,
                invert: u64::MAX,
            },
            CompareOperator::Gt => DenseComparison::GreaterArrayConstant {
                values,
                constant,
                invert: 0,
            },
            CompareOperator::Gte => DenseComparison::GreaterConstantArray {
                constant,
                values,
                invert: u64::MAX,
            },
            CompareOperator::Lt => DenseComparison::GreaterConstantArray {
                constant,
                values,
                invert: 0,
            },
            CompareOperator::Lte => DenseComparison::GreaterArrayConstant {
                values,
                constant,
                invert: u64::MAX,
            },
        }
    }

    fn invert(self) -> (out: u64)
        ensures
            out == self.inversion(),
    {
        match self {
            DenseComparison::EqualArrays { invert, .. } => invert,
            DenseComparison::GreaterArrays { invert, .. } => invert,
            DenseComparison::EqualArrayConstant { invert, .. } => invert,
            DenseComparison::GreaterArrayConstant { invert, .. } => invert,
            DenseComparison::GreaterConstantArray { invert, .. } => invert,
        }
    }
}

impl<'a, T: SignedLane> DenseComparison<'a, T> {
    fn lane_at(self, index: usize) -> (out: bool)
        requires
            self.covers(index + 1),
        ensures
            out == self.lane(index as int),
    {
        match self {
            DenseComparison::EqualArrays { lhs, rhs, .. } => lhs[index].is_eq(rhs[index]),
            DenseComparison::GreaterArrays { lhs, rhs, .. } => lhs[index].signed_lane()
                > rhs[index].signed_lane(),
            DenseComparison::EqualArrayConstant { values, constant, .. } => values[index].is_eq(
                constant,
            ),
            DenseComparison::GreaterArrayConstant { values, constant, .. } => {
                values[index].signed_lane() > constant.signed_lane()
            },
            DenseComparison::GreaterConstantArray { constant, values, .. } => {
                constant.signed_lane() > values[index].signed_lane()
            },
        }
    }
}

/// The processor features that the word kernels depend on.
#[derive(Clone, Copy, PartialEq, Eq, Structural, Debug)]
pub struct CpuFeatures {
    pub avx2: bool,
    pub avx512f: bool,
    pub avx512bw: bool,
}

/// A primitive type that fits a signed vector lane.
pub trait SignedLane: NativePType {
    /// What a signed lane falls short of the value's rank.
    spec fn lane_bias() -> int;

    /// The value as a signed lane: unsigned values have their sign bit flipped, floats are keyed.
    fn signed_lane(self) -> (lane: i64)
        ensures
            lane == self.rank() - Self::lane_bias(),
    ;
}

/// A primitive type with vector comparison kernels.
pub trait SimdCompare: SignedLane {
    /// Whether this type's AVX-512 implementation also requires AVX-512BW.
    const REQUIRES_AVX512BW: bool;

    /// What [`REQUIRES_AVX512BW`](Self::REQUIRES_AVX512BW) is.
    spec fn needs_avx512bw() -> bool;

    /// The constant is what it is said to be.
    proof fn constant_holds()
        ensures
            Self::REQUIRES_AVX512BW == Self::needs_avx512bw(),
    ;

    /// Compare complete 64-row chunks in AVX2-sized steps and write one bitmap word per chunk.
    fn compare_words_avx2(comparison: DenseComparison<'_, Self>, words: &mut [u64])
        requires
            comparison.well_formed(),
            64 * old(words)@.len() <= usize::MAX,
            comparison.covers(64 * old(words)@.len() as int),
        ensures
            final(words)@.len() == old(words)@.len(),
            forall|i: int|
                0 <= i < 64 * old(words)@.len() ==> #[trigger] bits::row_bit(final(words)@, i)
                    == comparison.row(i),
    ;

    /// Compare complete 64-row chunks in AVX-512-sized steps and write one bitmap word per chunk.
    fn compare_words_avx512(comparison: DenseComparison<'_, Self>, words: &mut [u64])
        requires
            comparison.well_formed(),
            64 * old(words)@.len() <= usize::MAX,
            comparison.covers(64 * old(words)@.len() as int),
        ensures
            final(words)@.len() == old(words)@.len(),
            forall|i: int|
                0 <= i < 64 * old(words)@.len() ==> #[trigger] bits::row_bit(final(words)@, i)
                    == comparison.row(i),
    ;
}

/// Keep the even bits of `mask`, moved together.
pub fn compact_even_bits(mask: u32) -> (out: u64)
    ensures
        out < 0x1_0000,
        forall|i: int| 0 <= i < 16 ==> #[trigger] bits::bit_at(out, i) == bits::bit_at(mask as u64, 2 * i),
{
    let m0: u32 = mask & 0x5555_5555;
    let m1: u32 = (m0 | (m0 >> 1u32)) & 0x3333_3333;
    let m2: u32 = (m1 | (m1 >> 2u32)) & 0x0f0f_0f0f;
    let m3: u32 = (m2 | (m2 >> 4u32)) & 0x00ff_00ff;
    let m4: u32 = (m3 | (m3 >> 8u32)) & 0x0000_ffff;
    let out = m4 as u64;
    proof {
        assert(m4 < 0x1_0000) by (bit_vector)
            requires
                m4 == (m3 | (m3 >> 8u32)) & 0x0000_ffff,
        ;
        assert forall|i: int| 0 <= i < 16 implies #[trigger] bits::bit_at(out, i) == bits::bit_at(
            mask as u64,
            2 * i,
        ) by {
            let k = i as u64;
            assert((m4 as u64 >> k) & 1u64 == (mask as u64 >> ((2 * k) as u64)) & 1u64)
                by (bit_vector)
                requires
                    k < 16,
                    m0 == mask & 0x5555_5555,
                    m1 == (m0 | (m0 >> 1u32)) & 0x3333_3333,
                    m2 == (m1 | (m1 >> 2u32)) & 0x0f0f_0f0f,
                    m3 == (m2 | (m2 >> 4u32)) & 0x00ff_00ff,
                    m4 == (m3 | (m3 >> 8u32)) & 0x0000_ffff,
            ;
        }
    }
    out
}

/// The lane comparisons of `lanes` rows from `base`, one mask bit per row.
fn lane_mask<T: SignedLane>(comparison: DenseComparison<'_, T>, base: usize, lanes: u64) -> (mask:
    u64)
    requires
        lanes <= 64,
        base + lanes <= usize::MAX,
        comparison.covers(base + lanes),
    ensures
        forall|j: int|
            0 <= j < 64 ==> #[trigger] bits::bit_at(mask, j) == (j < lanes && comparison.lane(base + j)),
{
    let mut mask: u64 = 0;
    let mut lane: u64 = 0;
    proof {
        bits::zero_has_no_bits();
    }
    while lane < lanes
        invariant
            lane <= lanes <= 64,
            base + lanes <= usize::MAX,
            comparison.covers(base + lanes),
            forall|j: int|
                0 <= j < 64 ==> #[trigger] bits::bit_at(mask, j) == (j < lane && comparison.lane(
                    base + j,
                )),
        decreases lanes - lane,
    {
        mask = push_bit(mask, lane, comparison.lane_at(base + lane as usize));
        lane = lane + 1;
    }
    mask
}

/// The lane comparisons of 16 two-byte rows from `base`: a byte mask has two bits per row, and
/// every other bit is kept.
fn lane_mask_16<T: SignedLane>(comparison: DenseComparison<'_, T>, base: usize) -> (mask: u64)
    requires
        base + 16 <= usize::MAX,
        comparison.covers(base + 16),
    ensures
        forall|j: int|
            0 <= j < 64 ==> #[trigger] bits::bit_at(mask, j) == (j < 16 && comparison.lane(base + j)),
{
    let mut bytes: u64 = 0;
    let mut lane: u64 = 0;
    proof {
        bits::zero_has_no_bits();
    }
    while lane < 16
        invariant
            lane <= 16,
            base + 16 <= usize::MAX,
            comparison.covers(base + 16),
            forall|j: int|
                0 <= j < 64 ==> #[trigger] bits::bit_at(bytes, j) == (j < 2 * lane && comparison.lane(
                    base + j / 2,
                )),
        decreases 16 - lane,
    {
        let value = comparison.lane_at(base + lane as usize);
        bytes = push_bit(bytes, 2 * lane, value);
        bytes = push_bit(bytes, 2 * lane + 1, value);
        lane = lane + 1;
    }
    let mask = compact_even_bits(bytes as u32);
    proof {
        assert forall|j: int| 0 <= j < 64 implies #[trigger] bits::bit_at(mask, j) == (j < 16
            && comparison.lane(base + j)) by {
            let k = j as u64;
            if j < 16 {
                let even = (2 * k) as u64;
                assert(((bytes as u32) as u64 >> even) & 1u64 == (bytes >> even) & 1u64)
                    by (bit_vector)
                    requires
                        even < 32,
                ;
                assert(bits::bit_at((bytes as u32) as u64, 2 * j) == bits::bit_at(bytes, 2 * j));
            } else {
                assert((mask >> k) & 1u64 == 0u64) by (bit_vector)
                    requires
                        mask < 0x1_0000,
                        k >= 16,
                ;
            }
        }
    }
    mask
}

/// `word`, whose bits from `offset` on are clear, with `mask` placed at `offset`.
fn place_mask(word: u64, mask: u64, offset: u64) -> (out: u64)
    requires
        offset < 64,
        forall|j: int| offset <= j < 64 ==> !bits::bit_at(word, j),
    ensures
        forall|j: int|
            0 <= j < 64 ==> #[trigger] bits::bit_at(out, j) == (if j < offset {
                bits::bit_at(word, j)
            } else {
                bits::bit_at(mask, j - offset)
            }),
{
    let out = word | (mask << offset);
    proof {
        assert forall|j: int| 0 <= j < 64 implies #[trigger] bits::bit_at(out, j) == (if j < offset {
            bits::bit_at(word, j)
        } else {
            bits::bit_at(mask, j - offset)
        }) by {
            let k = j as u64;
            if j < offset {
                assert(((word | (mask << offset)) >> k) & 1u64 == (word >> k) & 1u64)
                    by (bit_vector)
                    requires
                        k < offset,
                        offset < 64,
                ;
            } else {
                assert(!bits::bit_at(word, j));
                let d = (k - offset) as u64;
                assert(((word | (mask << offset)) >> k) & 1u64 == (mask >> d) & 1u64)
                    by (bit_vector)
                    requires
                        offset <= k < 64,
                        d == k - offset,
                        (word >> k) & 1u64 != 1u64,
                ;
            }
        }
    }
    out
}

/// Fill one word from masks of `lanes` rows each.
fn compare_word<T: SignedLane>(
    comparison: DenseComparison<'_, T>,
    base: usize,
    lanes: u64,
    byte_masks: bool,
) -> (word: u64)
    requires
        comparison.well_formed(),
        lanes == 8 || lanes == 16 || lanes == 32 || lanes == 64,
        byte_masks ==> lanes == 16,
        base + 64 <= usize::MAX,
        comparison.covers(base + 64),
    ensures
        forall|j: int| 0 <= j < 64 ==> #[trigger] bits::bit_at(word, j) == comparison.row(base + j),
{
    let mut word: u64 = 0;
    let mut offset: u64 = 0;
    proof {
        bits::zero_has_no_bits();
    }
    while offset < 64
        invariant
            lanes == 8 || lanes == 16 || lanes == 32 || lanes == 64,
            byte_masks ==> lanes == 16,
            offset <= 64,
            lanes == 8 ==> offset % 8 == 0,
            lanes == 16 ==> offset % 16 == 0,
            lanes == 32 ==> offset % 32 == 0,
            lanes == 64 ==> offset % 64 == 0,
            base + 64 <= usize::MAX,
            comparison.covers(base + 64),
            forall|j: int|
                0 <= j < 64 ==> #[trigger] bits::bit_at(word, j) == (j < offset && comparison.lane(
                    base + j,
                )),
        decreases 64 - offset,
    {
        let start: usize = base + offset as usize;
        let mask = if byte_masks {
            lane_mask_16(comparison, start)
        } else {
            lane_mask(comparison, start, lanes)
        };
        let ghost before = word;
        word = place_mask(word, mask, offset);
        proof {
            assert forall|j: int| 0 <= j < 64 implies #[trigger] bits::bit_at(word, j) == (j < offset
                + lanes && comparison.lane(base + j)) by {
                if j < offset {
                    assert(bits::bit_at(before, j) == comparison.lane(base + j));
                } else {
                    assert(bits::bit_at(mask, j - offset) == (j - offset < lanes && comparison.lane(
                        start + (j - offset),
                    )));
                    assert(start + (j - offset) == base + j);
                }
            }
        }
        offset = offset + lanes;
    }
    let invert = comparison.invert();
    let out = word ^ invert;
    proof {
        assert forall|j: int| 0 <= j < 64 implies #[trigger] bits::bit_at(out, j) == comparison.row(
            base + j,
        ) by {
            let k = j as u64;
            assert(bits::bit_at(word, j) == comparison.lane(base + j));
            assert(((word ^ invert) >> k) & 1u64 == (if invert == 0 {
                (word >> k) & 1u64
            } else {
                (1 - ((word >> k) & 1u64)) as u64
            }) && (word >> k) & 1u64 <= 1) by (bit_vector)
                requires
                    k < 64,
                    invert == 0 || invert == 0xffff_ffff_ffff_ffffu64,
            ;
        }
    }
    out
}

/// Compare complete 64-row chunks, `lanes` rows per step.
fn compare_words<T: SignedLane>(
    comparison: DenseComparison<'_, T>,
    words: &mut [u64],
    lanes: u64,
    byte_masks: bool,
)
    requires
        comparison.well_formed(),
        lanes == 8 || lanes == 16 || lanes == 32 || lanes == 64,
        byte_masks ==> lanes == 16,
        64 * old(words)@.len() <= usize::MAX,
        comparison.covers(64 * old(words)@.len() as int),
    ensures
        final(words)@.len() == old(words)@.len(),
        forall|i: int|
            0 <= i < 64 * old(words)@.len() ==> #[trigger] bits::row_bit(final(words)@, i)
                == comparison.row(i),
{
    let count: usize = words.len();
    let mut word_index: usize = 0;
    while word_index < count
        invariant
            comparison.well_formed(),
            lanes == 8 || lanes == 16 || lanes == 32 || lanes == 64,
            byte_masks ==> lanes == 16,
            word_index <= count == words@.len(),
            words@.len() == old(words)@.len(),
            64 * count <= usize::MAX,
            comparison.covers(64 * count),
            forall|i: int|
                0 <= i < 64 * word_index ==> #[trigger] bits::row_bit(words@, i) == comparison.row(i),
        decreases count - word_index,
    {
        let word = compare_word(comparison, word_index * 64, lanes, byte_masks);
        let ghost before = words@;
        words[word_index] = word;
        proof {
            assert forall|i: int| 0 <= i < 64 * (word_index + 1) implies #[trigger] bits::row_bit(
                words@,
                i,
            ) == comparison.row(i) by {
                if i < 64 * word_index {
                    assert(bits::row_bit(before, i) == bits::row_bit(words@, i));
                } else {
                    assert(i / 64 == word_index);
                    assert(bits::bit_at(word, i % 64) == comparison.row(i)) by {
                        assert(word_index * 64 + i % 64 == i);
                    }
                }
            }
        }
        word_index = word_index + 1;
    }
}

/// Whether the AVX-512 kernels of `T` can run.
pub fn avx512_available<T: SimdCompare>(features: CpuFeatures) -> (r: bool)
    ensures
        r == (features.avx512f && (!T::needs_avx512bw() || features.avx512bw)),
{
    proof {
        T::constant_holds();
    }
    features.avx512f && (!T::REQUIRES_AVX512BW || features.avx512bw)
}

/// Whether the AVX2 kernels can run.
pub fn avx2_available(features: CpuFeatures) -> (r: bool)
    ensures
        r == features.avx2,
{
    features.avx2
}

/// The boolean column of a comparison.
pub open spec fn compare_column<T: NativePType>(
    lhs: PrimitiveInput<'_, T>,
    rhs: PrimitiveInput<'_, T>,
    op: CompareOperator,
    rows: int,
) -> Seq<bool> {
    Seq::new(rows as nat, |i: int| op_holds(op, lhs.row(i), rhs.row(i)))
}

/// Compare `row_count` rows and write the packed result. Which kernel runs depends on the
/// processor; what is written does not.
pub fn compare_into_words<T: SimdCompare>(
    lhs: PrimitiveInput<'_, T>,
    rhs: PrimitiveInput<'_, T>,
    op: CompareOperator,
    row_count: usize,
    words: &mut [u64],
    features: CpuFeatures,
)
    requires
        old(words)@.len() == bits::word_count(row_count as int),
        lhs.covers(row_count as int),
        rhs.covers(row_count as int),
    ensures
        bits::packs(final(words)@, compare_column(lhs, rhs, op, row_count as int)),
{
    if let (PrimitiveInput::Constant(lhs_value), PrimitiveInput::Constant(rhs_value)) = (lhs, rhs) {
        let value = apply_op(lhs_value, rhs_value, op);
        let fill: u64 = if value {
            u64::MAX
        } else {
            0
        };
        let count: usize = words.len();
        let mut index: usize = 0;
        while index < count
            invariant
                index <= count == words@.len(),
                words@.len() == old(words)@.len(),
                forall|w: int| 0 <= w < index ==> words@[w] == fill,
            decreases count - index,
        {
            words[index] = fill;
            index = index + 1;
        }
        let remainder: usize = row_count % 64;
        if value && count > 0 && remainder != 0 {
            words[count - 1] = low_bits(remainder as u64);
        }
        proof {
            bits::zero_has_no_bits();
            bits::ones_has_all_bits();
            assert forall|i: int| 0 <= i < 64 * words@.len() implies #[trigger] bits::row_bit(words@, i)
                == (i < row_count && value) by {
                let w = i / 64;
                assert(i == 64 * w + i % 64);
                if w < words@.len() - 1 {
                    assert(words@[w] == fill);
                }
            }
        }
        return;
    }
    let full_words: usize = row_count / 64;
    let remainder: usize = row_count % 64;
    let ghost mut done: Seq<u64> = Seq::empty();
    {
        let (full, _rest) = words.split_at_mut(full_words);
        if avx512_available::<T>(features) {
            let comparison = DenseComparison::new(lhs, rhs, op);
            assert(comparison.covers(row_count as int));
            assert(comparison.covers(64 * full_words));
            T::compare_words_avx512(comparison, full);
            assert(forall|i: int|
                0 <= i < 64 * full_words ==> #[trigger] bits::row_bit(full@, i) == comparison.row(i));
        } else if avx2_available(features) {
            let comparison = DenseComparison::new(lhs, rhs, op);
            assert(comparison.covers(row_count as int));
            assert(comparison.covers(64 * full_words));
            T::compare_words_avx2(comparison, full);
            assert(forall|i: int|
                0 <= i < 64 * full_words ==> #[trigger] bits::row_bit(full@, i) == comparison.row(i));
        } else {
            compare_words_scalar(lhs, rhs, op, full);
        }
        assert(forall|i: int|
            0 <= i < 64 * full_words ==> #[trigger] bits::row_bit(full@, i) == op_holds(
                op,
                lhs.row(i),
                rhs.row(i),
            ));
        proof {
            done = full@;
        }
    }
    proof {
        assert forall|i: int| 0 <= i < 64 * full_words implies #[trigger] bits::row_bit(words@, i)
            == op_holds(op, lhs.row(i), rhs.row(i)) by {
            assert(words@[i / 64] == done[i / 64]);
            assert(bits::row_bit(done, i) == bits::row_bit(words@, i));
        }
    }
    if remainder != 0 {
        let base: usize = full_words * 64;
        let word = compare_rows(lhs, rhs, op, base, remainder as u64);
        let ghost before = words@;
        words[full_words] = word;
        proof {
            assert forall|i: int| 0 <= i < 64 * words@.len() implies #[trigger] bits::row_bit(words@, i)
                == (i < row_count && op_holds(op, lhs.row(i), rhs.row(i))) by {
                if i < 64 * full_words {
                    assert(bits::row_bit(before, i) == bits::row_bit(words@, i));
                } else {
                    assert(i / 64 == full_words);
                    assert(bits::bit_at(word, i % 64) == (i % 64 < remainder && op_holds(
                        op,
                        lhs.row(base + i % 64),
                        rhs.row(base + i % 64),
                    )));
                    assert(base + i % 64 == i);
                }
            }
        }
    }
}

/// Exchanging the operands and the operator together changes no comparison.
pub proof fn swapped_operands_agree<T: NativePType>(op: CompareOperator, lhs: T, rhs: T)
    ensures
        op_holds(op.swapped(), rhs, lhs) == op_holds(op, lhs, rhs),
        op.swapped().swapped() == op,
{
}

impl SignedLane for i8 {
    open spec fn lane_bias() -> int {
        0
    }

    fn signed_lane(self) -> (lane: i64) {
        self as i64
    }
}

impl SimdCompare for i8 {
    const REQUIRES_AVX512BW: bool = true;

    open spec fn needs_avx512bw() -> bool {
        true
    }

    proof fn constant_holds() {
    }

    fn compare_words_avx2(comparison: DenseComparison<'_, Self>, words: &mut [u64]) {
        compare_words(comparison, words, 32, false);
    }

    fn compare_words_avx512(comparison: DenseComparison<'_, Self>, words: &mut [u64]) {
        compare_words(comparison, words, 64, false);
    }
}

impl SignedLane for u8 {
    open spec fn lane_bias() -> int {
        0x80
    }

    fn signed_lane(self) -> (lane: i64) {
        let lane = (self ^ 0x80) as i8;
        assert((self ^ 0x80u8) as i8 == self - 0x80) by (bit_vector);
        lane as i64
    }
}

impl SimdCompare for u8 {
    const REQUIRES_AVX512BW: bool = true;

    open spec fn needs_avx512bw() -> bool {
        true
    }

    proof fn constant_holds() {
    }

    fn compare_words_avx2(comparison: DenseComparison<'_, Self>, words: &mut [u64]) {
        compare_words(comparison, words, 32, false);
    }

    fn compare_words_avx512(comparison: DenseComparison<'_, Self>, words: &mut [u64]) {
        compare_words(comparison, words, 64, false);
    }
}

impl SignedLane for i16 {
    open spec fn lane_bias() -> int {
        0
    }

    fn signed_lane(self) -> (lane: i64) {
        self as i64
    }
}

impl SimdCompare for i16 {
    const REQUIRES_AVX512BW: bool = true;

    open spec fn needs_avx512bw() -> bool {
        true
    }

    proof fn constant_holds() {
    }

    fn compare_words_avx2(comparison: DenseComparison<'_, Self>, words: &mut [u64]) {
        compare_words(comparison, words, 16, true);
    }

    fn compare_words_avx512(comparison: DenseComparison<'_, Self>, words: &mut [u64]) {
        compare_words(comparison, words, 32, false);
    }
}

impl SignedLane for u16 {
    open spec fn lane_bias() -> int {
        0x8000
    }

    fn signed_lane(self) -> (lane: i64) {
        let lane = (self ^ 0x8000) as i16;
        assert((self ^ 0x8000u16) as i16 == self - 0x8000) by (bit_vector);
        lane as i64
    }
}

impl SimdCompare for u16 {
    const REQUIRES_AVX512BW: bool = true;

    open spec fn needs_avx512bw() -> bool {
        true
    }

    proof fn constant_holds() {
    }

    fn compare_words_avx2(comparison: DenseComparison<'_, Self>, words: &mut [u64]) {
        compare_words(comparison, words, 16, true);
    }

    fn compare_words_avx512(comparison: DenseComparison<'_, Self>, words: &mut [u64]) {
        compare_words(comparison, words, 32, false);
    }
}

impl SignedLane for F16 {
    open spec fn lane_bias() -> int {
        0
    }

    fn signed_lane(self) -> (lane: i64) {
        float_key_16(self.bits) as i64
    }
}

impl SimdCompare for F16 {
    const REQUIRES_AVX512BW: bool = true;

    open spec fn needs_avx512bw() -> bool {
        true
    }

    proof fn constant_holds() {
    }

    fn compare_words_avx2(comparison: DenseComparison<'_, Self>, words: &mut [u64]) {
        compare_words(comparison, words, 16, true);
    }

    fn compare_words_avx512(comparison: DenseComparison<'_, Self>, words: &mut [u64]) {
        compare_words(comparison, words, 32, false);
    }
}

impl SignedLane for i32 {
    open spec fn lane_bias() -> int {
        0
    }

    fn signed_lane(self) -> (lane: i64) {
        self as i64
    }
}

impl SimdCompare for i32 {
    const REQUIRES_AVX512BW: bool = false;

    open spec fn needs_avx512bw() -> bool {
        false
    }

    proof fn constant_holds() {
    }

    fn compare_words_avx2(comparison: DenseComparison<'_, Self>, words: &mut [u64]) {
        compare_words(comparison, words, 8, false);
    }

    fn compare_words_avx512(comparison: DenseComparison<'_, Self>, words: &mut [u64]) {
        compare_words(comparison, words, 16, false);
    }
}

impl SignedLane for u32 {
    open spec fn lane_bias() -> int {
        0x8000_0000
    }

    fn signed_lane(self) -> (lane: i64) {
        let lane = (self ^ 0x8000_0000) as i32;
        assert((self ^ 0x8000_0000u32) as i32 == self - 0x8000_0000) by (bit_vector);
        lane as i64
    }
}

impl SimdCompare for u32 {
    const REQUIRES_AVX512BW: bool = false;

    open spec fn needs_avx512bw() -> bool {
        false
    }

    proof fn constant_holds() {
    }

    fn compare_words_avx2(comparison: DenseComparison<'_, Self>, words: &mut [u64]) {
        compare_words(comparison, words, 8, false);
    }

    fn compare_words_avx512(comparison: DenseComparison<'_, Self>, words: &mut [u64]) {
        compare_words(comparison, words, 16, false);
    }
}

impl SignedLane for F32 {
    open spec fn lane_bias() -> int {
        0
    }

    fn signed_lane(self) -> (lane: i64) {
        float_key_32(self.bits) as i64
    }
}

impl SimdCompare for F32 {
    const REQUIRES_AVX512BW: bool = false;

    open spec fn needs_avx512bw() -> bool {
        false
    }

    proof fn constant_holds() {
    }

    fn compare_words_avx2(comparison: DenseComparison<'_, Self>, words: &mut [u64]) {
        compare_words(comparison, words, 8, false);
    }

    fn compare_words_avx512(comparison: DenseComparison<'_, Self>, words: &mut [u64]) {
        compare_words(comparison, words, 16, false);
    }
}

impl SignedLane for i64 {
    open spec fn lane_bias() -> int {
        0
    }

    fn signed_lane(self) -> (lane: i64) {
        self
    }
}

impl SimdCompare for i64 {
    const REQUIRES_AVX512BW: bool = false;

    open spec fn needs_avx512bw() -> bool {
        false
    }

    proof fn constant_holds() {
    }

    fn compare_words_avx2(comparison: DenseComparison<'_, Self>, words: &mut [u64]) {
        compare_words(comparison, words, 8, false);
    }

    fn compare_words_avx512(comparison: DenseComparison<'_, Self>, words: &mut [u64]) {
        compare_words(comparison, words, 8, false);
    }
}

impl SignedLane for u64 {
    open spec fn lane_bias() -> int {
        0x8000_0000_0000_0000
    }

    fn signed_lane(self) -> (lane: i64) {
        let lane = (self ^ 0x8000_0000_0000_0000) as i64;
        assert((self ^ 0x8000_0000_0000_0000u64) as i64 == self - 0x8000_0000_0000_0000) by (bit_vector);
        lane
    }
}

impl SimdCompare for u64 {
    const REQUIRES_AVX512BW: bool = false;

    open spec fn needs_avx512bw() -> bool {
        false
    }

    proof fn constant_holds() {
    }

    fn compare_words_avx2(comparison: DenseComparison<'_, Self>, words: &mut [u64]) {
        compare_words(comparison, words, 8, false);
    }

    fn compare_words_avx512(comparison: DenseComparison<'_, Self>, words: &mut [u64]) {
        compare_words(comparison, words, 8, false);
    }
}

impl SignedLane for F64 {
    open spec fn lane_bias() -> int {
        0
    }

    fn signed_lane(self) -> (lane: i64) {
        float_key_64(self.bits)
    }
}

impl SimdCompare for F64 {
    const REQUIRES_AVX512BW: bool = false;

    open spec fn needs_avx512bw() -> bool {
        false
    }

    proof fn constant_holds() {
    }

    fn compare_words_avx2(comparison: DenseComparison<'_, Self>, words: &mut [u64]) {
        compare_words(comparison, words, 8, false);
    }

    fn compare_words_avx512(comparison: DenseComparison<'_, Self>, words: &mut [u64]) {
        compare_words(comparison, words, 8, false);
    }
}

} // verus!
