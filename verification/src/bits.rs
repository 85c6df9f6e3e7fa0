//! Bitmap words: 64 rows per word, least significant bit first.

use vstd::arithmetic::power2::pow2;
use vstd::bits::lemma_u64_shr_is_div;
use vstd::prelude::*;

verus! {

/// Whether bit `i` of `word` is set.
pub open spec fn bit_at(word: u64, i: int) -> bool {
    (word >> (i as u64)) & 1u64 == 1u64
}

/// Row `i` of a packed bitmap.
pub open spec fn row_bit(words: Seq<u64>, i: int) -> bool {
    bit_at(words[i / 64], i % 64)
}

/// The number of words that hold `rows` rows.
pub open spec fn word_count(rows: int) -> int {
    (rows + 63) / 64
}

/// Every bit of `words` from row `rows` on is clear.
pub open spec fn tail_clear(words: Seq<u64>, rows: int) -> bool {
    forall|i: int| rows <= i < 64 * words.len() ==> !#[trigger] row_bit(words, i)
}

/// `words` is the packed form of the boolean sequence `values`.
pub open spec fn packs(words: Seq<u64>, values: Seq<bool>) -> bool {
    &&& words.len() == word_count(values.len() as int)
    &&& forall|i: int| 0 <= i < values.len() ==> #[trigger] row_bit(words, i) == values[i]
    &&& tail_clear(words, values.len() as int)
}

/// `word` with bit `i` set to `value` on top of a word whose bits from `i` on are clear.
pub fn push_bit(word: u64, i: u64, value: bool) -> (out: u64)
    requires
        i < 64,
        forall|j: int| i <= j < 64 ==> !bit_at(word, j),
    ensures
        forall|j: int| 0 <= j < 64 ==> #[trigger] bit_at(out, j) == (if j == i {
            value
        } else {
            bit_at(word, j)
        }),
{
    let flag: u64 = if value {
        1
    } else {
        0
    };
    let out = word | (flag << i);
    proof {
        assert forall|j: int| 0 <= j < 64 implies #[trigger] bit_at(out, j) == (if j == i {
            value
        } else {
            bit_at(word, j)
        }) by {
            let k = j as u64;
            if j == i {
                assert(!bit_at(word, j));
                assert(((word | (flag << i)) >> i) & 1u64 == flag) by (bit_vector)
                    requires
                        i < 64,
                        flag <= 1,
                        (word >> i) & 1u64 != 1u64,
                ;
            } else {
                assert(((word | (flag << i)) >> k) & 1u64 == (word >> k) & 1u64) by (bit_vector)
                    requires
                        i < 64,
                        k < 64,
                        k != i,
                        flag <= 1,
                ;
            }
        }
    }
    out
}

/// No bit of the zero word is set.
pub proof fn zero_has_no_bits()
    ensures
        forall|j: int| 0 <= j < 64 ==> !#[trigger] bit_at(0u64, j),
{
    assert forall|j: int| 0 <= j < 64 implies !#[trigger] bit_at(0u64, j) by {
        let k = j as u64;
        assert((0u64 >> k) & 1u64 == 0u64) by (bit_vector);
    }
}

/// Every bit of the all-ones word is set.
pub proof fn ones_has_all_bits()
    ensures
        forall|j: int| 0 <= j < 64 ==> #[trigger] bit_at(u64::MAX, j),
{
    assert forall|j: int| 0 <= j < 64 implies #[trigger] bit_at(u64::MAX, j) by {
        let k = j as u64;
        assert((0xffff_ffff_ffff_ffffu64 >> k) & 1u64 == 1u64) by (bit_vector)
            requires
                k < 64,
        ;
    }
}

/// The word whose low `count` bits are set.
pub fn low_bits(count: u64) -> (out: u64)
    requires
        count < 64,
    ensures
        forall|j: int| 0 <= j < 64 ==> #[trigger] bit_at(out, j) == (j < count),
{
    assert(1u64 << count >= 1) by (bit_vector)
        requires
            count < 64,
    ;
    let out = (1u64 << count) - 1;
    proof {
        assert forall|j: int| 0 <= j < 64 implies #[trigger] bit_at(out, j) == (j < count) by {
            let k = j as u64;
            assert((((1u64 << count) - 1) as u64 >> k) & 1u64 == (if k < count {
                1u64
            } else {
                0u64
            })) by (bit_vector)
                requires
                    k < 64,
                    count < 64,
            ;
        }
    }
    out
}

/// A bit survives a mask exactly if the mask has it.
pub proof fn masked_bit(word: u64, keep: u64, j: int)
    requires
        0 <= j < 64,
    ensures
        bit_at(word & keep, j) == (bit_at(word, j) && bit_at(keep, j)),
{
    let k = j as u64;
    assert((((word & keep) >> k) & 1u64 == 1u64) == (((word >> k) & 1u64 == 1u64) && ((keep >> k)
        & 1u64 == 1u64))) by (bit_vector);
}

/// A word holds its rows as a number does its binary digits, the first row in the last digit.
pub proof fn rows_are_binary_digits(words: Seq<u64>, i: int)
    requires
        0 <= i < 64 * words.len(),
    ensures
        row_bit(words, i) <==> (words[i / 64] as int / pow2((i % 64) as nat) as int) % 2 == 1,
{
    let word = words[i / 64];
    let k = (i % 64) as u64;
    lemma_u64_shr_is_div(word, k);
    let moved = word >> k;
    assert(moved & 1u64 == moved % 2) by (bit_vector);
}

/// As many words are used as rows need, and no more.
pub proof fn words_are_filled(rows: int)
    requires
        rows >= 0,
    ensures
        rows <= 64 * word_count(rows) < rows + 64,
{
}

} // verus!
