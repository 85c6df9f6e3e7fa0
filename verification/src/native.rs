//! Primitive element types and their total order.

use vstd::prelude::*;

verus! {

/// A 16-bit float, held by its bit pattern.
#[derive(Clone, Copy, PartialEq, Eq, Structural, Debug, Hash)]
pub struct F16 {
    pub bits: u16,
}

/// A 32-bit float, held by its bit pattern.
#[derive(Clone, Copy, PartialEq, Eq, Structural, Debug, Hash)]
pub struct F32 {
    pub bits: u32,
}

/// A 64-bit float, held by its bit pattern.
#[derive(Clone, Copy, PartialEq, Eq, Structural, Debug, Hash)]
pub struct F64 {
    pub bits: u64,
}

/// The place of a `width`-bit sign-and-magnitude pattern in the total order of floats: patterns
/// with a clear sign bit ascend with their magnitude, those with the sign bit set descend below
/// zero, so that `-0` stands just under `+0` and NaN patterns stand at the two ends.
pub open spec fn float_rank(bits: int, half: int) -> int {
    if bits < half {
        bits
    } else {
        half - 1 - bits
    }
}

/// A primitive element with a total order in which equality is bitwise.
pub trait NativePType: Copy {
    /// The place of this value in the total order.
    spec fn rank(self) -> int;

    fn is_eq(self, other: Self) -> (r: bool)
        ensures
            r == (self.rank() == other.rank()),
    ;

    fn is_gt(self, other: Self) -> (r: bool)
        ensures
            r == (self.rank() > other.rank()),
    ;

    fn is_ge(self, other: Self) -> (r: bool)
        ensures
            r == (self.rank() >= other.rank()),
    ;

    fn is_lt(self, other: Self) -> (r: bool)
        ensures
            r == (self.rank() < other.rank()),
    ;

    fn is_le(self, other: Self) -> (r: bool)
        ensures
            r == (self.rank() <= other.rank()),
    ;
}

impl NativePType for i8 {
    open spec fn rank(self) -> int {
        self as int
    }

    fn is_eq(self, other: Self) -> (r: bool) {
        self == other
    }

    fn is_gt(self, other: Self) -> (r: bool) {
        self > other
    }

    fn is_ge(self, other: Self) -> (r: bool) {
        self >= other
    }

    fn is_lt(self, other: Self) -> (r: bool) {
        self < other
    }

    fn is_le(self, other: Self) -> (r: bool) {
        self <= other
    }
}

impl NativePType for i16 {
    open spec fn rank(self) -> int {
        self as int
    }

    fn is_eq(self, other: Self) -> (r: bool) {
        self == other
    }

    fn is_gt(self, other: Self) -> (r: bool) {
        self > other
    }

    fn is_ge(self, other: Self) -> (r: bool) {
        self >= other
    }

    fn is_lt(self, other: Self) -> (r: bool) {
        self < other
    }

    fn is_le(self, other: Self) -> (r: bool) {
        self <= other
    }
}

impl NativePType for i32 {
    open spec fn rank(self) -> int {
        self as int
    }

    fn is_eq(self, other: Self) -> (r: bool) {
        self == other
    }

    fn is_gt(self, other: Self) -> (r: bool) {
        self > other
    }

    fn is_ge(self, other: Self) -> (r: bool) {
        self >= other
    }

    fn is_lt(self, other: Self) -> (r: bool) {
        self < other
    }

    fn is_le(self, other: Self) -> (r: bool) {
        self <= other
    }
}

impl NativePType for i64 {
    open spec fn rank(self) -> int {
        self as int
    }

    fn is_eq(self, other: Self) -> (r: bool) {
        self == other
    }

    fn is_gt(self, other: Self) -> (r: bool) {
        self > other
    }

    fn is_ge(self, other: Self) -> (r: bool) {
        self >= other
    }

    fn is_lt(self, other: Self) -> (r: bool) {
        self < other
    }

    fn is_le(self, other: Self) -> (r: bool) {
        self <= other
    }
}

impl NativePType for u8 {
    open spec fn rank(self) -> int {
        self as int
    }

    fn is_eq(self, other: Self) -> (r: bool) {
        self == other
    }

    fn is_gt(self, other: Self) -> (r: bool) {
        self > other
    }

    fn is_ge(self, other: Self) -> (r: bool) {
        self >= other
    }

    fn is_lt(self, other: Self) -> (r: bool) {
        self < other
    }

    fn is_le(self, other: Self) -> (r: bool) {
        self <= other
    }
}

impl NativePType for u16 {
    open spec fn rank(self) -> int {
        self as int
    }

    fn is_eq(self, other: Self) -> (r: bool) {
        self == other
    }

    fn is_gt(self, other: Self) -> (r: bool) {
        self > other
    }

    fn is_ge(self, other: Self) -> (r: bool) {
        self >= other
    }

    fn is_lt(self, other: Self) -> (r: bool) {
        self < other
    }

    fn is_le(self, other: Self) -> (r: bool) {
        self <= other
    }
}

impl NativePType for u32 {
    open spec fn rank(self) -> int {
        self as int
    }

    fn is_eq(self, other: Self) -> (r: bool) {
        self == other
    }

    fn is_gt(self, other: Self) -> (r: bool) {
        self > other
    }

    fn is_ge(self, other: Self) -> (r: bool) {
        self >= other
    }

    fn is_lt(self, other: Self) -> (r: bool) {
        self < other
    }

    fn is_le(self, other: Self) -> (r: bool) {
        self <= other
    }
}

impl NativePType for u64 {
    open spec fn rank(self) -> int {
        self as int
    }

    fn is_eq(self, other: Self) -> (r: bool) {
        self == other
    }

    fn is_gt(self, other: Self) -> (r: bool) {
        self > other
    }

    fn is_ge(self, other: Self) -> (r: bool) {
        self >= other
    }

    fn is_lt(self, other: Self) -> (r: bool) {
        self < other
    }

    fn is_le(self, other: Self) -> (r: bool) {
        self <= other
    }
}

/// The signed key of a 16-bit float pattern: a negative pattern has its magnitude bits flipped.
pub fn float_key_16(bits: u16) -> (key: i16)
    ensures
        key == float_rank(bits as int, 0x8000),
{
    let negative: u16 = if bits >= 0x8000 {
        u16::MAX
    } else {
        0
    };
    let key = (bits ^ (negative >> 1u16)) as i16;
    proof {
        if bits < 0x8000 {
            assert((bits ^ (0u16 >> 1u16)) as i16 == bits) by (bit_vector)
                requires
                    bits < 0x8000,
            ;
        } else {
            assert((bits ^ (u16::MAX >> 1u16)) as i16 == 0x8000 - 1 - bits) by (bit_vector)
                requires
                    bits >= 0x8000,
            ;
        }
    }
    key
}

impl NativePType for F16 {
    open spec fn rank(self) -> int {
        float_rank(self.bits as int, 0x8000)
    }

    fn is_eq(self, other: Self) -> (r: bool) {
        self.bits == other.bits
    }

    fn is_gt(self, other: Self) -> (r: bool) {
        float_key_16(self.bits) > float_key_16(other.bits)
    }

    fn is_ge(self, other: Self) -> (r: bool) {
        float_key_16(self.bits) >= float_key_16(other.bits)
    }

    fn is_lt(self, other: Self) -> (r: bool) {
        float_key_16(self.bits) < float_key_16(other.bits)
    }

    fn is_le(self, other: Self) -> (r: bool) {
        float_key_16(self.bits) <= float_key_16(other.bits)
    }
}

/// The signed key of a 32-bit float pattern: a negative pattern has its magnitude bits flipped.
pub fn float_key_32(bits: u32) -> (key: i32)
    ensures
        key == float_rank(bits as int, 0x8000_0000),
{
    let negative: u32 = if bits >= 0x8000_0000 {
        u32::MAX
    } else {
        0
    };
    let key = (bits ^ (negative >> 1u32)) as i32;
    proof {
        if bits < 0x8000_0000 {
            assert((bits ^ (0u32 >> 1u32)) as i32 == bits) by (bit_vector)
                requires
                    bits < 0x8000_0000,
            ;
        } else {
            assert((bits ^ (u32::MAX >> 1u32)) as i32 == 0x8000_0000 - 1 - bits) by (bit_vector)
                requires
                    bits >= 0x8000_0000,
            ;
        }
    }
    key
}

impl NativePType for F32 {
    open spec fn rank(self) -> int {
        float_rank(self.bits as int, 0x8000_0000)
    }

    fn is_eq(self, other: Self) -> (r: bool) {
        self.bits == other.bits
    }

    fn is_gt(self, other: Self) -> (r: bool) {
        float_key_32(self.bits) > float_key_32(other.bits)
    }

    fn is_ge(self, other: Self) -> (r: bool) {
        float_key_32(self.bits) >= float_key_32(other.bits)
    }

    fn is_lt(self, other: Self) -> (r: bool) {
        float_key_32(self.bits) < float_key_32(other.bits)
    }

    fn is_le(self, other: Self) -> (r: bool) {
        float_key_32(self.bits) <= float_key_32(other.bits)
    }
}

/// The signed key of a 64-bit float pattern: a negative pattern has its magnitude bits flipped.
pub fn float_key_64(bits: u64) -> (key: i64)
    ensures
        key == float_rank(bits as int, 0x8000_0000_0000_0000),
{
    let negative: u64 = if bits >= 0x8000_0000_0000_0000 {
        u64::MAX
    } else {
        0
    };
    let key = (bits ^ (negative >> 1u64)) as i64;
    proof {
        if bits < 0x8000_0000_0000_0000 {
            assert((bits ^ (0u64 >> 1u64)) as i64 == bits) by (bit_vector)
                requires
                    bits < 0x8000_0000_0000_0000,
            ;
        } else {
            assert((bits ^ (u64::MAX >> 1u64)) as i64 == 0x8000_0000_0000_0000 - 1 - bits) by (bit_vector)
                requires
                    bits >= 0x8000_0000_0000_0000,
            ;
        }
    }
    key
}

impl NativePType for F64 {
    open spec fn rank(self) -> int {
        float_rank(self.bits as int, 0x8000_0000_0000_0000)
    }

    fn is_eq(self, other: Self) -> (r: bool) {
        self.bits == other.bits
    }

    fn is_gt(self, other: Self) -> (r: bool) {
        float_key_64(self.bits) > float_key_64(other.bits)
    }

    fn is_ge(self, other: Self) -> (r: bool) {
        float_key_64(self.bits) >= float_key_64(other.bits)
    }

    fn is_lt(self, other: Self) -> (r: bool) {
        float_key_64(self.bits) < float_key_64(other.bits)
    }

    fn is_le(self, other: Self) -> (r: bool) {
        float_key_64(self.bits) <= float_key_64(other.bits)
    }
}

} // verus!
