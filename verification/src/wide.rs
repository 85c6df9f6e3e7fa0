//! Integers of 256 bits.

use vstd::prelude::*;

verus! {

/// The magnitudes that a signed number of 256 bits holds are below this, or this below zero.
pub open spec fn half_range() -> int {
    0x8000_0000_0000_0000_0000_0000_0000_0000_0000_0000_0000_0000_0000_0000_0000_0000int
}

/// One more than the largest number that 256 bits hold.
pub open spec fn full_range() -> int {
    0x1_0000_0000_0000_0000_0000_0000_0000_0000_0000_0000_0000_0000_0000_0000_0000_0000int
}

/// A signed integer of 256 bits: `high * 2^128 + low`.
#[derive(Clone, Copy, PartialEq, Eq, Structural, Debug, Hash)]
pub struct I256 {
    pub high: i128,
    pub low: u128,
}

impl View for I256 {
    type V = int;

    open spec fn view(&self) -> int {
        self.high * 0x1_0000_0000_0000_0000_0000_0000_0000_0000int + self.low
    }
}

/// An unsigned integer of 256 bits: `high * 2^128 + low`.
#[derive(Clone, Copy, PartialEq, Eq, Structural, Debug, Hash)]
pub struct U256 {
    pub high: u128,
    pub low: u128,
}

impl View for U256 {
    type V = int;

    open spec fn view(&self) -> int {
        self.high * 0x1_0000_0000_0000_0000_0000_0000_0000_0000int + self.low
    }
}

/// How large a number is.
pub open spec fn absolute(a: int) -> int {
    if a < 0 {
        -a
    } else {
        a
    }
}

/// The number of a magnitude, with a sign.
pub open spec fn signed(negative: bool, m: int) -> int {
    if negative {
        -m
    } else {
        m
    }
}

/// Two numbers of 256 bits are the same where they stand for the same integer.
pub proof fn equal_numbers_are_the_same(a: I256, b: I256)
    ensures
        a@ == b@ ==> a == b,
        -half_range() <= a@ < half_range(),
{
}

impl I256 {
    pub fn from_i128(v: i128) -> (out: I256)
        ensures
            out@ == v,
    {
        if v >= 0 {
            I256 { high: 0, low: v as u128 }
        } else if v == i128::MIN {
            I256 { high: -1, low: 0x8000_0000_0000_0000_0000_0000_0000_0000 }
        } else {
            I256 { high: -1, low: (u128::MAX - (-v) as u128) + 1 }
        }
    }

    pub fn less_than(self, other: I256) -> (out: bool)
        ensures
            out == (self@ < other@),
    {
        self.high < other.high || (self.high == other.high && self.low < other.low)
    }

    pub fn is_negative(self) -> (out: bool)
        ensures
            out == (self@ < 0),
    {
        self.high < 0
    }

    pub fn magnitude(self) -> (out: U256)
        ensures
            out@ == absolute(self@),
            out@ <= half_range(),
    {
        if self.high >= 0 {
            U256 { high: self.high as u128, low: self.low }
        } else if self.low > 0 {
            U256 { high: (-(self.high + 1)) as u128, low: (u128::MAX - self.low) + 1 }
        } else if self.high == i128::MIN {
            U256 { high: 0x8000_0000_0000_0000_0000_0000_0000_0000, low: 0 }
        } else {
            U256 { high: (-self.high) as u128, low: 0 }
        }
    }

    /// The number of a magnitude, with a sign, where 256 bits hold it.
    pub fn of_magnitude(negative: bool, m: U256) -> (out: Option<I256>)
        ensures
            match out {
                Some(v) => v@ == signed(negative, m@),
                None => !(-half_range() <= signed(negative, m@) < half_range()),
            },
    {
        if m.high < 0x8000_0000_0000_0000_0000_0000_0000_0000 {
            let high: i128 = m.high as i128;
            if !negative {
                Some(I256 { high, low: m.low })
            } else if m.low == 0 {
                Some(I256 { high: -high, low: 0 })
            } else {
                Some(I256 { high: -high - 1, low: (u128::MAX - m.low) + 1 })
            }
        } else if negative && m.high == 0x8000_0000_0000_0000_0000_0000_0000_0000 && m.low == 0 {
            Some(I256 { high: i128::MIN, low: 0 })
        } else {
            None
        }
    }
}

impl U256 {
    pub fn from_u128(v: u128) -> (out: U256)
        ensures
            out@ == v,
    {
        U256 { high: 0, low: v }
    }

    pub fn is_zero(self) -> (out: bool)
        ensures
            out == (self@ == 0),
    {
        self.high == 0 && self.low == 0
    }

    pub fn less_than(self, other: U256) -> (out: bool)
        ensures
            out == (self@ < other@),
    {
        self.high < other.high || (self.high == other.high && self.low < other.low)
    }

    /// The sum, where 256 bits hold it.
    pub fn plus(self, other: U256) -> (out: Option<U256>)
        ensures
            match out {
                Some(sum) => sum@ == self@ + other@,
                None => self@ + other@ >= full_range(),
            },
    {
        let room: u128 = u128::MAX - other.low;
        let (carry, low): (u128, u128) = if self.low > room {
            (1, self.low - room - 1)
        } else {
            (0, self.low + other.low)
        };
        match self.high.checked_add(other.high) {
            Some(high) => match high.checked_add(carry) {
                Some(high) => Some(U256 { high, low }),
                None => None,
            },
            None => None,
        }
    }

    /// The difference.
    pub fn minus(self, other: U256) -> (out: U256)
        requires
            self@ >= other@,
        ensures
            out@ == self@ - other@,
    {
        if self.low >= other.low {
            U256 { high: self.high - other.high, low: self.low - other.low }
        } else {
            U256 {
                high: self.high - other.high - 1,
                low: u128::MAX - (other.low - self.low) + 1,
            }
        }
    }

    /// Half of the number, rounded down, and what is left over.
    fn halves(self) -> (out: (U256, bool))
        ensures
            self@ == 2 * out.0@ + (if out.1 {
                1int
            } else {
                0
            }),
    {
        let low: u128 = if self.high % 2 == 1 {
            self.low / 2 + 0x8000_0000_0000_0000_0000_0000_0000_0000
        } else {
            self.low / 2
        };
        (U256 { high: self.high / 2, low }, self.low % 2 == 1)
    }

    /// The product, where 256 bits hold it.
    pub fn times(self, other: U256) -> (out: Option<U256>)
        ensures
            match out {
                Some(product) => product@ == self@ * other@,
                None => self@ * other@ >= full_range(),
            },
        decreases other@,
    {
        if other.is_zero() {
            assert(self@ * 0 == 0);
            return Some(U256 { high: 0, low: 0 });
        }
        let (half, odd) = other.halves();
        let ghost a = self@;
        let ghost b = other@;
        let ghost h = half@;
        let ghost o: int = if odd {
            1
        } else {
            0
        };
        proof {
            assert(a * b == 2 * (a * h) + o * a) by (nonlinear_arith)
                requires
                    b == 2 * h + o,
            ;
            assert(a * h >= 0) by (nonlinear_arith)
                requires
                    a >= 0,
                    h >= 0,
            ;
            assert(o * a == (if odd {
                a
            } else {
                0
            }));
        }
        match self.times(half) {
            None => None,
            Some(product) => match product.plus(product) {
                None => None,
                Some(doubled) => if odd {
                    doubled.plus(self)
                } else {
                    Some(doubled)
                },
            },
        }
    }

    /// The quotient, rounded down, and the remainder.
    pub fn divided_by(self, divisor: U256) -> (out: (U256, U256))
        requires
            0 < divisor@ <= half_range(),
        ensures
            self@ == out.0@ * divisor@ + out.1@,
            0 <= out.1@ < divisor@,
        decreases self@,
    {
        if self.is_zero() {
            assert(0 * divisor@ == 0);
            return (U256 { high: 0, low: 0 }, U256 { high: 0, low: 0 });
        }
        let (half, odd) = self.halves();
        let (q, r) = half.divided_by(divisor);
        let one = U256 { high: 0, low: 1 };
        let ghost m = divisor@;
        proof {
            assert(q@ <= half@) by (nonlinear_arith)
                requires
                    half@ == q@ * m + r@,
                    r@ >= 0,
                    q@ >= 0,
                    m >= 1,
            ;
        }
        let mut quotient = match q.plus(q) {
            Some(v) => v,
            None => q,
        };
        let mut rest = match r.plus(r) {
            Some(v) => v,
            None => r,
        };
        assert(quotient@ == 2 * q@ && rest@ == 2 * r@);
        if odd {
            rest = match rest.plus(one) {
                Some(v) => v,
                None => rest,
            };
        }
        let ghost total = self@;
        assert(total == quotient@ * m + rest@) by (nonlinear_arith)
            requires
                half@ == q@ * m + r@,
                quotient@ == 2 * q@,
                total == 2 * half@ + (rest@ - 2 * r@),
        ;
        if !rest.less_than(divisor) {
            let ghost before = quotient@;
            let ghost left = rest@;
            rest = rest.minus(divisor);
            quotient = match quotient.plus(one) {
                Some(v) => v,
                None => quotient,
            };
            assert(quotient@ == before + 1);
            assert(total == quotient@ * m + rest@) by (nonlinear_arith)
                requires
                    total == before * m + left,
                    quotient@ == before + 1,
                    rest@ == left - m,
            ;
        }
        (quotient, rest)
    }
}

/// The sum of two signed magnitudes, where 256 bits hold its magnitude.
pub fn sum(a: bool, x: U256, b: bool, y: U256) -> (out: Option<(bool, U256)>)
    ensures
        match out {
            Some((negative, m)) => signed(negative, m@) == signed(a, x@) + signed(b, y@),
            None => absolute(signed(a, x@) + signed(b, y@)) >= full_range(),
        },
{
    if a == b {
        match x.plus(y) {
            Some(m) => Some((a, m)),
            None => None,
        }
    } else if x.less_than(y) {
        Some((b, y.minus(x)))
    } else {
        Some((a, x.minus(y)))
    }
}

} // verus!
