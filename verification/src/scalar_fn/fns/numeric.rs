//! Checked arithmetic on primitive rows.
//!
//! Each operation is split into the value it produces and the evidence of whether producing it
//! failed, so that a value is written for every row and the evidence reduced once per batch.

use vstd::prelude::*;

use crate::native::NativePType;
use crate::scalar_fn::row::primitive::PrimitiveElement;
use crate::scalar_fn::row::result::SinkResult;
use crate::value::ValueV;
use crate::wide;

verus! {

/// An arithmetic operator.
#[derive(Clone, Copy, PartialEq, Eq, Structural, Debug, Hash)]
pub enum NumericOperator {
    Add,
    Sub,
    Mul,
    Div,
}

/// The integer in `lo..=hi` that is congruent to `x` modulo the size of the range.
pub open spec fn wrapped(x: int, lo: int, hi: int) -> int {
    lo + (x - lo) % (hi - lo + 1)
}

/// The quotient rounded toward zero.
pub open spec fn quotient(a: int, b: int) -> int {
    if (a >= 0) == (b >= 0) {
        wide::absolute(a) / wide::absolute(b)
    } else {
        -(wide::absolute(a) / wide::absolute(b))
    }
}

/// Congruent integers wrap to the one that is in range.
pub proof fn wrapped_is(x: int, lo: int, hi: int, y: int, turns: int)
    requires
        lo <= y <= hi,
        x == y + turns * (hi - lo + 1),
    ensures
        wrapped(x, lo, hi) == y,
{
    vstd::arithmetic::div_mod::lemma_fundamental_div_mod_converse_mod(
        x - lo,
        hi - lo + 1,
        turns,
        y - lo,
    );
}

/// The arithmetic of one integer width. Every value is total: it is computed for rows behind
/// nulls too.
pub trait CheckedArithmetic: PrimitiveElement {
    /// How multiplication reports a failing row.
    type MulFailure: SinkResult;

    /// The least value.
    spec fn lowest() -> int;

    /// The greatest value.
    spec fn highest() -> int;

    /// Ranks are the integers that the type holds.
    proof fn rank_in_range(self)
        ensures
            Self::lowest() <= self.rank() <= Self::highest(),
            Self::lowest() <= 0 <= Self::highest(),
            Self::of_payload(ValueV::Null).rank() == 0,
            self.to_payload() == ValueV::Primitive(Self::ptype(), self.rank()),
    ;

    fn add_value(self, rhs: Self) -> (out: Self)
        ensures
            out.rank() == wrapped(self.rank() + rhs.rank(), Self::lowest(), Self::highest()),
    ;

    fn add_error(self, rhs: Self) -> (out: bool)
        ensures
            out == !(Self::lowest() <= self.rank() + rhs.rank() <= Self::highest()),
    ;

    fn sub_value(self, rhs: Self) -> (out: Self)
        ensures
            out.rank() == wrapped(self.rank() - rhs.rank(), Self::lowest(), Self::highest()),
    ;

    fn sub_error(self, rhs: Self) -> (out: bool)
        ensures
            out == !(Self::lowest() <= self.rank() - rhs.rank() <= Self::highest()),
    ;

    fn mul_value(self, rhs: Self) -> (out: Self)
        ensures
            out.rank() == wrapped(self.rank() * rhs.rank(), Self::lowest(), Self::highest()),
    ;

    fn mul_failure(self, rhs: Self) -> (out: Self::MulFailure)
        ensures
            out.immediate() is Ok,
            out.deferred() == !(Self::lowest() <= self.rank() * rhs.rank() <= Self::highest()),
    ;

    fn div_value(self, rhs: Self) -> (out: Self)
        requires
            rhs.rank() != 0,
            quotient(self.rank(), rhs.rank()) <= Self::highest(),
        ensures
            out.rank() == quotient(self.rank(), rhs.rank()),
    ;

    fn div_error(self, rhs: Self) -> (out: bool)
        ensures
            out == (rhs.rank() == 0 || quotient(self.rank(), rhs.rank()) > Self::highest()),
    ;
}

impl CheckedArithmetic for u8 {
    /// The discarded high half of the widened product.
    type MulFailure = u8;

    open spec fn lowest() -> int {
        0
    }

    open spec fn highest() -> int {
        0xff
    }

    proof fn rank_in_range(self) {
    }

    fn add_value(self, rhs: u8) -> (out: u8) {
        let out = self.wrapping_add(rhs);
        proof {
            let x = self + rhs;
            let turns: int = if x > Self::highest() {
                1
            } else if x < Self::lowest() {
                -1
            } else {
                0
            };
            wrapped_is(x, Self::lowest(), Self::highest(), out as int, turns);
        }
        out
    }

    fn add_error(self, rhs: u8) -> (out: bool) {
        self > u8::MAX - rhs
    }

    fn sub_value(self, rhs: u8) -> (out: u8) {
        let out = self.wrapping_sub(rhs);
        proof {
            let x = self - rhs;
            let turns: int = if x > Self::highest() {
                1
            } else if x < Self::lowest() {
                -1
            } else {
                0
            };
            wrapped_is(x, Self::lowest(), Self::highest(), out as int, turns);
        }
        out
    }

    fn sub_error(self, rhs: u8) -> (out: bool) {
        self < rhs
    }

    fn mul_value(self, rhs: u8) -> (out: u8) {
        let out = self.wrapping_mul(rhs);
        proof {
            let x = self * rhs;
            let turns = (x - out) / 0x100;
            vstd::arithmetic::div_mod::lemma_fundamental_div_mod(x, 0x100);
            assert(x == out + turns * 0x100);
            wrapped_is(x, Self::lowest(), Self::highest(), out as int, turns);
        }
        out
    }

    fn mul_failure(self, rhs: u8) -> (out: u8) {
        assert(0 <= (self as int) * (rhs as int) <= 0xfe01) by (nonlinear_arith)
            requires
                0 <= self <= 0xff,
                0 <= rhs <= 0xff,
        ;
        let wide: u16 = (self as u16) * (rhs as u16);
        let out = (wide >> 8u32) as u8;
        assert(((wide >> 8u32) as u8 != 0) == (wide > 0xff)) by (bit_vector)
            requires
                wide <= 0xfe01,
        ;
        assert(out.immediate() is Ok && out.deferred() == (out != 0));
        out
    }

    fn div_value(self, rhs: u8) -> (out: u8) {
        self / rhs
    }

    fn div_error(self, rhs: u8) -> (out: bool) {
        proof {
            if rhs != 0 {
                assert((self as int) / (rhs as int) <= self) by (nonlinear_arith)
                    requires
                        self >= 0,
                        rhs > 0,
                ;
            }
        }
        rhs == 0
    }
}

impl CheckedArithmetic for u16 {
    /// The discarded high half of the widened product.
    type MulFailure = u16;

    open spec fn lowest() -> int {
        0
    }

    open spec fn highest() -> int {
        0xffff
    }

    proof fn rank_in_range(self) {
    }

    fn add_value(self, rhs: u16) -> (out: u16) {
        let out = self.wrapping_add(rhs);
        proof {
            let x = self + rhs;
            let turns: int = if x > Self::highest() {
                1
            } else if x < Self::lowest() {
                -1
            } else {
                0
            };
            wrapped_is(x, Self::lowest(), Self::highest(), out as int, turns);
        }
        out
    }

    fn add_error(self, rhs: u16) -> (out: bool) {
        self > u16::MAX - rhs
    }

    fn sub_value(self, rhs: u16) -> (out: u16) {
        let out = self.wrapping_sub(rhs);
        proof {
            let x = self - rhs;
            let turns: int = if x > Self::highest() {
                1
            } else if x < Self::lowest() {
                -1
            } else {
                0
            };
            wrapped_is(x, Self::lowest(), Self::highest(), out as int, turns);
        }
        out
    }

    fn sub_error(self, rhs: u16) -> (out: bool) {
        self < rhs
    }

    fn mul_value(self, rhs: u16) -> (out: u16) {
        let out = self.wrapping_mul(rhs);
        proof {
            let x = self * rhs;
            let turns = (x - out) / 0x1_0000;
            vstd::arithmetic::div_mod::lemma_fundamental_div_mod(x, 0x1_0000);
            assert(x == out + turns * 0x1_0000);
            wrapped_is(x, Self::lowest(), Self::highest(), out as int, turns);
        }
        out
    }

    fn mul_failure(self, rhs: u16) -> (out: u16) {
        assert(0 <= (self as int) * (rhs as int) <= 0xfffe_0001) by (nonlinear_arith)
            requires
                0 <= self <= 0xffff,
                0 <= rhs <= 0xffff,
        ;
        let wide: u32 = (self as u32) * (rhs as u32);
        let out = (wide >> 16u32) as u16;
        assert(((wide >> 16u32) as u16 != 0) == (wide > 0xffff)) by (bit_vector)
            requires
                wide <= 0xfffe_0001,
        ;
        assert(out.immediate() is Ok && out.deferred() == (out != 0));
        out
    }

    fn div_value(self, rhs: u16) -> (out: u16) {
        self / rhs
    }

    fn div_error(self, rhs: u16) -> (out: bool) {
        proof {
            if rhs != 0 {
                assert((self as int) / (rhs as int) <= self) by (nonlinear_arith)
                    requires
                        self >= 0,
                        rhs > 0,
                ;
            }
        }
        rhs == 0
    }
}

impl CheckedArithmetic for u32 {
    /// The discarded high half of the widened product.
    type MulFailure = u32;

    open spec fn lowest() -> int {
        0
    }

    open spec fn highest() -> int {
        0xffff_ffff
    }

    proof fn rank_in_range(self) {
    }

    fn add_value(self, rhs: u32) -> (out: u32) {
        let out = self.wrapping_add(rhs);
        proof {
            let x = self + rhs;
            let turns: int = if x > Self::highest() {
                1
            } else if x < Self::lowest() {
                -1
            } else {
                0
            };
            wrapped_is(x, Self::lowest(), Self::highest(), out as int, turns);
        }
        out
    }

    fn add_error(self, rhs: u32) -> (out: bool) {
        self > u32::MAX - rhs
    }

    fn sub_value(self, rhs: u32) -> (out: u32) {
        let out = self.wrapping_sub(rhs);
        proof {
            let x = self - rhs;
            let turns: int = if x > Self::highest() {
                1
            } else if x < Self::lowest() {
                -1
            } else {
                0
            };
            wrapped_is(x, Self::lowest(), Self::highest(), out as int, turns);
        }
        out
    }

    fn sub_error(self, rhs: u32) -> (out: bool) {
        self < rhs
    }

    fn mul_value(self, rhs: u32) -> (out: u32) {
        let out = self.wrapping_mul(rhs);
        proof {
            let x = self * rhs;
            let turns = (x - out) / 0x1_0000_0000;
            vstd::arithmetic::div_mod::lemma_fundamental_div_mod(x, 0x1_0000_0000);
            assert(x == out + turns * 0x1_0000_0000);
            wrapped_is(x, Self::lowest(), Self::highest(), out as int, turns);
        }
        out
    }

    fn mul_failure(self, rhs: u32) -> (out: u32) {
        assert(0 <= (self as int) * (rhs as int) <= 0xffff_fffe_0000_0001) by (nonlinear_arith)
            requires
                0 <= self <= 0xffff_ffff,
                0 <= rhs <= 0xffff_ffff,
        ;
        let wide: u64 = (self as u64) * (rhs as u64);
        let out = (wide >> 32u32) as u32;
        assert(((wide >> 32u32) as u32 != 0) == (wide > 0xffff_ffff)) by (bit_vector)
            requires
                wide <= 0xffff_fffe_0000_0001,
        ;
        assert(out.immediate() is Ok && out.deferred() == (out != 0));
        out
    }

    fn div_value(self, rhs: u32) -> (out: u32) {
        self / rhs
    }

    fn div_error(self, rhs: u32) -> (out: bool) {
        proof {
            if rhs != 0 {
                assert((self as int) / (rhs as int) <= self) by (nonlinear_arith)
                    requires
                        self >= 0,
                        rhs > 0,
                ;
            }
        }
        rhs == 0
    }
}

impl CheckedArithmetic for u64 {
    /// The discarded high half of the widened product.
    type MulFailure = u64;

    open spec fn lowest() -> int {
        0
    }

    open spec fn highest() -> int {
        0xffff_ffff_ffff_ffff
    }

    proof fn rank_in_range(self) {
    }

    fn add_value(self, rhs: u64) -> (out: u64) {
        let out = self.wrapping_add(rhs);
        proof {
            let x = self + rhs;
            let turns: int = if x > Self::highest() {
                1
            } else if x < Self::lowest() {
                -1
            } else {
                0
            };
            wrapped_is(x, Self::lowest(), Self::highest(), out as int, turns);
        }
        out
    }

    fn add_error(self, rhs: u64) -> (out: bool) {
        self > u64::MAX - rhs
    }

    fn sub_value(self, rhs: u64) -> (out: u64) {
        let out = self.wrapping_sub(rhs);
        proof {
            let x = self - rhs;
            let turns: int = if x > Self::highest() {
                1
            } else if x < Self::lowest() {
                -1
            } else {
                0
            };
            wrapped_is(x, Self::lowest(), Self::highest(), out as int, turns);
        }
        out
    }

    fn sub_error(self, rhs: u64) -> (out: bool) {
        self < rhs
    }

    fn mul_value(self, rhs: u64) -> (out: u64) {
        let out = self.wrapping_mul(rhs);
        proof {
            let x = self * rhs;
            let turns = (x - out) / 0x1_0000_0000_0000_0000;
            vstd::arithmetic::div_mod::lemma_fundamental_div_mod(x, 0x1_0000_0000_0000_0000);
            assert(x == out + turns * 0x1_0000_0000_0000_0000);
            wrapped_is(x, Self::lowest(), Self::highest(), out as int, turns);
        }
        out
    }

    fn mul_failure(self, rhs: u64) -> (out: u64) {
        assert(0 <= (self as int) * (rhs as int) <= 0xffff_ffff_ffff_fffe_0000_0000_0000_0001) by (nonlinear_arith)
            requires
                0 <= self <= 0xffff_ffff_ffff_ffff,
                0 <= rhs <= 0xffff_ffff_ffff_ffff,
        ;
        let wide: u128 = (self as u128) * (rhs as u128);
        let out = (wide >> 64u32) as u64;
        assert(((wide >> 64u32) as u64 != 0) == (wide > 0xffff_ffff_ffff_ffff)) by (bit_vector)
            requires
                wide <= 0xffff_ffff_ffff_fffe_0000_0000_0000_0001,
        ;
        assert(out.immediate() is Ok && out.deferred() == (out != 0));
        out
    }

    fn div_value(self, rhs: u64) -> (out: u64) {
        self / rhs
    }

    fn div_error(self, rhs: u64) -> (out: bool) {
        proof {
            if rhs != 0 {
                assert((self as int) / (rhs as int) <= self) by (nonlinear_arith)
                    requires
                        self >= 0,
                        rhs > 0,
                ;
            }
        }
        rhs == 0
    }
}

impl CheckedArithmetic for i8 {
    /// A two-sided range check.
    type MulFailure = bool;

    open spec fn lowest() -> int {
        -0x80
    }

    open spec fn highest() -> int {
        0x80 - 1
    }

    proof fn rank_in_range(self) {
    }

    fn add_value(self, rhs: i8) -> (out: i8) {
        let out = self.wrapping_add(rhs);
        proof {
            let x = self + rhs;
            let turns: int = if x > Self::highest() {
                1
            } else if x < Self::lowest() {
                -1
            } else {
                0
            };
            wrapped_is(x, Self::lowest(), Self::highest(), out as int, turns);
        }
        out
    }

    fn add_error(self, rhs: i8) -> (out: bool) {
        self.checked_add(rhs).is_none()
    }

    fn sub_value(self, rhs: i8) -> (out: i8) {
        let out = self.wrapping_sub(rhs);
        proof {
            let x = self - rhs;
            let turns: int = if x > Self::highest() {
                1
            } else if x < Self::lowest() {
                -1
            } else {
                0
            };
            wrapped_is(x, Self::lowest(), Self::highest(), out as int, turns);
        }
        out
    }

    fn sub_error(self, rhs: i8) -> (out: bool) {
        self.checked_sub(rhs).is_none()
    }

    fn mul_value(self, rhs: i8) -> (out: i8) {
        let out = self.wrapping_mul(rhs);
        proof {
            let x = self * rhs;
            let turns = (x - out) / 0x100;
            vstd::arithmetic::div_mod::lemma_fundamental_div_mod(x, 0x100);
            assert(x == out + turns * 0x100);
            wrapped_is(x, Self::lowest(), Self::highest(), out as int, turns);
        }
        out
    }

    fn mul_failure(self, rhs: i8) -> (out: bool) {
        assert(-0x4000 <= (self as int) * (rhs as int) <= 0x4000) by (nonlinear_arith)
            requires
                -0x80 <= self <= 0x80 - 1,
                -0x80 <= rhs <= 0x80 - 1,
        ;
        let product: i16 = (self as i16) * (rhs as i16);
        let out = product < -0x80 || product > 0x80 - 1;
        assert(out.immediate() is Ok && out.deferred() == out);
        out
    }

    fn div_value(self, rhs: i8) -> (out: i8) {
        proof {
            quotient_in_range(self as int, rhs as int, 0x80);
        }
        self.checked_div(rhs).unwrap()
    }

    fn div_error(self, rhs: i8) -> (out: bool) {
        proof {
            if rhs != 0 {
                quotient_in_range(self as int, rhs as int, 0x80);
            }
        }
        rhs == 0 || (self == i8::MIN && rhs == -1)
    }
}

impl CheckedArithmetic for i16 {
    /// A two-sided range check.
    type MulFailure = bool;

    open spec fn lowest() -> int {
        -0x8000
    }

    open spec fn highest() -> int {
        0x8000 - 1
    }

    proof fn rank_in_range(self) {
    }

    fn add_value(self, rhs: i16) -> (out: i16) {
        let out = self.wrapping_add(rhs);
        proof {
            let x = self + rhs;
            let turns: int = if x > Self::highest() {
                1
            } else if x < Self::lowest() {
                -1
            } else {
                0
            };
            wrapped_is(x, Self::lowest(), Self::highest(), out as int, turns);
        }
        out
    }

    fn add_error(self, rhs: i16) -> (out: bool) {
        self.checked_add(rhs).is_none()
    }

    fn sub_value(self, rhs: i16) -> (out: i16) {
        let out = self.wrapping_sub(rhs);
        proof {
            let x = self - rhs;
            let turns: int = if x > Self::highest() {
                1
            } else if x < Self::lowest() {
                -1
            } else {
                0
            };
            wrapped_is(x, Self::lowest(), Self::highest(), out as int, turns);
        }
        out
    }

    fn sub_error(self, rhs: i16) -> (out: bool) {
        self.checked_sub(rhs).is_none()
    }

    fn mul_value(self, rhs: i16) -> (out: i16) {
        let out = self.wrapping_mul(rhs);
        proof {
            let x = self * rhs;
            let turns = (x - out) / 0x1_0000;
            vstd::arithmetic::div_mod::lemma_fundamental_div_mod(x, 0x1_0000);
            assert(x == out + turns * 0x1_0000);
            wrapped_is(x, Self::lowest(), Self::highest(), out as int, turns);
        }
        out
    }

    fn mul_failure(self, rhs: i16) -> (out: bool) {
        assert(-0x4000_0000 <= (self as int) * (rhs as int) <= 0x4000_0000) by (nonlinear_arith)
            requires
                -0x8000 <= self <= 0x8000 - 1,
                -0x8000 <= rhs <= 0x8000 - 1,
        ;
        let product: i32 = (self as i32) * (rhs as i32);
        let out = product < -0x8000 || product > 0x8000 - 1;
        assert(out.immediate() is Ok && out.deferred() == out);
        out
    }

    fn div_value(self, rhs: i16) -> (out: i16) {
        proof {
            quotient_in_range(self as int, rhs as int, 0x8000);
        }
        self.checked_div(rhs).unwrap()
    }

    fn div_error(self, rhs: i16) -> (out: bool) {
        proof {
            if rhs != 0 {
                quotient_in_range(self as int, rhs as int, 0x8000);
            }
        }
        rhs == 0 || (self == i16::MIN && rhs == -1)
    }
}

impl CheckedArithmetic for i32 {
    /// A two-sided range check.
    type MulFailure = bool;

    open spec fn lowest() -> int {
        -0x8000_0000
    }

    open spec fn highest() -> int {
        0x8000_0000 - 1
    }

    proof fn rank_in_range(self) {
    }

    fn add_value(self, rhs: i32) -> (out: i32) {
        let out = self.wrapping_add(rhs);
        proof {
            let x = self + rhs;
            let turns: int = if x > Self::highest() {
                1
            } else if x < Self::lowest() {
                -1
            } else {
                0
            };
            wrapped_is(x, Self::lowest(), Self::highest(), out as int, turns);
        }
        out
    }

    fn add_error(self, rhs: i32) -> (out: bool) {
        self.checked_add(rhs).is_none()
    }

    fn sub_value(self, rhs: i32) -> (out: i32) {
        let out = self.wrapping_sub(rhs);
        proof {
            let x = self - rhs;
            let turns: int = if x > Self::highest() {
                1
            } else if x < Self::lowest() {
                -1
            } else {
                0
            };
            wrapped_is(x, Self::lowest(), Self::highest(), out as int, turns);
        }
        out
    }

    fn sub_error(self, rhs: i32) -> (out: bool) {
        self.checked_sub(rhs).is_none()
    }

    fn mul_value(self, rhs: i32) -> (out: i32) {
        let out = self.wrapping_mul(rhs);
        proof {
            let x = self * rhs;
            let turns = (x - out) / 0x1_0000_0000;
            vstd::arithmetic::div_mod::lemma_fundamental_div_mod(x, 0x1_0000_0000);
            assert(x == out + turns * 0x1_0000_0000);
            wrapped_is(x, Self::lowest(), Self::highest(), out as int, turns);
        }
        out
    }

    fn mul_failure(self, rhs: i32) -> (out: bool) {
        assert(-0x4000_0000_0000_0000 <= (self as int) * (rhs as int) <= 0x4000_0000_0000_0000) by (nonlinear_arith)
            requires
                -0x8000_0000 <= self <= 0x8000_0000 - 1,
                -0x8000_0000 <= rhs <= 0x8000_0000 - 1,
        ;
        let product: i64 = (self as i64) * (rhs as i64);
        let out = product < -0x8000_0000 || product > 0x8000_0000 - 1;
        assert(out.immediate() is Ok && out.deferred() == out);
        out
    }

    fn div_value(self, rhs: i32) -> (out: i32) {
        proof {
            quotient_in_range(self as int, rhs as int, 0x8000_0000);
        }
        self.checked_div(rhs).unwrap()
    }

    fn div_error(self, rhs: i32) -> (out: bool) {
        proof {
            if rhs != 0 {
                quotient_in_range(self as int, rhs as int, 0x8000_0000);
            }
        }
        rhs == 0 || (self == i32::MIN && rhs == -1)
    }
}

impl CheckedArithmetic for i64 {
    /// The discarded high half against the sign of the kept one.
    type MulFailure = u64;

    open spec fn lowest() -> int {
        -0x8000_0000_0000_0000
    }

    open spec fn highest() -> int {
        0x8000_0000_0000_0000 - 1
    }

    proof fn rank_in_range(self) {
    }

    fn add_value(self, rhs: i64) -> (out: i64) {
        let out = self.wrapping_add(rhs);
        proof {
            let x = self + rhs;
            let turns: int = if x > Self::highest() {
                1
            } else if x < Self::lowest() {
                -1
            } else {
                0
            };
            wrapped_is(x, Self::lowest(), Self::highest(), out as int, turns);
        }
        out
    }

    fn add_error(self, rhs: i64) -> (out: bool) {
        self.checked_add(rhs).is_none()
    }

    fn sub_value(self, rhs: i64) -> (out: i64) {
        let out = self.wrapping_sub(rhs);
        proof {
            let x = self - rhs;
            let turns: int = if x > Self::highest() {
                1
            } else if x < Self::lowest() {
                -1
            } else {
                0
            };
            wrapped_is(x, Self::lowest(), Self::highest(), out as int, turns);
        }
        out
    }

    fn sub_error(self, rhs: i64) -> (out: bool) {
        self.checked_sub(rhs).is_none()
    }

    fn mul_value(self, rhs: i64) -> (out: i64) {
        let out = self.wrapping_mul(rhs);
        proof {
            let x = self * rhs;
            let turns = (x - out) / 0x1_0000_0000_0000_0000;
            vstd::arithmetic::div_mod::lemma_fundamental_div_mod(x, 0x1_0000_0000_0000_0000);
            assert(x == out + turns * 0x1_0000_0000_0000_0000);
            wrapped_is(x, Self::lowest(), Self::highest(), out as int, turns);
        }
        out
    }

    fn mul_failure(self, rhs: i64) -> (out: u64) {
        assert(-0x4000_0000_0000_0000_0000_0000_0000_0000 <= (self as int) * (rhs as int) <= 0x4000_0000_0000_0000_0000_0000_0000_0000) by (nonlinear_arith)
            requires
                -0x8000_0000_0000_0000 <= self <= 0x8000_0000_0000_0000 - 1,
                -0x8000_0000_0000_0000 <= rhs <= 0x8000_0000_0000_0000 - 1,
        ;
        let wide: i128 = (self as i128) * (rhs as i128);
        let kept = wide as i64;
        let discarded = (wide >> 64u32) as i64;
        let out = (discarded ^ (kept >> 63u32)) as u64;
        assert((((((wide >> 64u32) as i64) ^ ((wide as i64) >> 63u32)) as u64) != 0) == (wide
            < -0x8000_0000_0000_0000 || wide > 0x7fff_ffff_ffff_ffff)) by (bit_vector);
        assert(out.immediate() is Ok && out.deferred() == (out != 0));
        out
    }

    fn div_value(self, rhs: i64) -> (out: i64) {
        proof {
            quotient_in_range(self as int, rhs as int, 0x8000_0000_0000_0000);
        }
        self.checked_div(rhs).unwrap()
    }

    fn div_error(self, rhs: i64) -> (out: bool) {
        proof {
            if rhs != 0 {
                quotient_in_range(self as int, rhs as int, 0x8000_0000_0000_0000);
            }
        }
        rhs == 0 || (self == i64::MIN && rhs == -1)
    }
}

/// The result of an operator on integers.
pub open spec fn exact(op: NumericOperator, a: int, b: int) -> int {
    match op {
        NumericOperator::Add => a + b,
        NumericOperator::Sub => a - b,
        NumericOperator::Mul => a * b,
        NumericOperator::Div => quotient(a, b),
    }
}

/// The operator has no result in range.
pub open spec fn overflows(op: NumericOperator, a: int, b: int, lo: int, hi: int) -> bool {
    match op {
        NumericOperator::Div => b == 0 || quotient(a, b) > hi,
        _ => !(lo <= exact(op, a, b) <= hi),
    }
}

/// What is stored for a row: the result, wrapped into range, or zero for a rejected division.
pub open spec fn stored(op: NumericOperator, a: int, b: int, lo: int, hi: int) -> int {
    match op {
        NumericOperator::Div => if overflows(op, a, b, lo, hi) {
            0
        } else {
            quotient(a, b)
        },
        _ => wrapped(exact(op, a, b), lo, hi),
    }
}

/// Where an operator does not overflow, what is stored is its result.
pub proof fn stored_is_exact(op: NumericOperator, a: int, b: int, lo: int, hi: int)
    requires
        lo <= hi,
        !overflows(op, a, b, lo, hi),
    ensures
        stored(op, a, b, lo, hi) == exact(op, a, b),
{
    if !(op is Div) {
        wrapped_is(exact(op, a, b), lo, hi, exact(op, a, b), 0);
    }
}

/// What is said of a batch in which an operator overflowed.
pub open spec fn overflow_text(op: NumericOperator) -> Seq<char> {
    match op {
        NumericOperator::Add => "integer overflow in checked add"@,
        NumericOperator::Sub => "integer overflow in checked sub"@,
        NumericOperator::Mul => "integer overflow in checked mul"@,
        NumericOperator::Div => "integer division by zero or overflow in checked div"@,
    }
}

/// A signed quotient leaves the range only for the least value divided by minus one.
proof fn quotient_in_range(a: int, b: int, half: int)
    requires
        -half <= a < half,
        -half <= b < half,
        b != 0,
        half > 1,
    ensures
        -half <= quotient(a, b),
        (quotient(a, b) > half - 1) == (a == -half && b == -1),
        a == 0 ==> quotient(a, b) == 0,
{
    let x = wide::absolute(a);
    let y = wide::absolute(b);
    assert(0 <= x / y <= x) by (nonlinear_arith)
        requires
            x >= 0,
            y >= 1,
    ;
    if y == 1 {
        assert(x / y == x) by (nonlinear_arith)
            requires
                y == 1,
        ;
    } else {
        assert(x / y <= x / 2) by (nonlinear_arith)
            requires
                x >= 0,
                y >= 2,
        ;
    }
    if a == 0 {
        assert(0int / y == 0) by (nonlinear_arith)
            requires
                y >= 1,
        ;
    }
}

} // verus!
