//! Fixed-point arithmetic on decimals.

use vstd::arithmetic::div_mod::lemma_fundamental_div_mod_converse;
use vstd::prelude::*;

use crate::array::{Array, ArrayV};
use crate::dtype::{DType, DTypeV, DecimalDType};
use crate::error::{VortexError, VortexResult};
use crate::scalar_fn::fns::numeric::NumericOperator;
use crate::scalar_fn::fns::zip;
use crate::scalar_fn::row::primitive::{self, wrong_column_error};
use crate::scalar_fn::vtable;
use crate::value::{Value, ValueV};
use crate::wide::{self, I256, U256};

verus! {

/// A power of ten.
pub open spec fn pow10(n: nat) -> int
    decreases n,
{
    if n == 0 {
        1
    } else {
        10 * pow10((n - 1) as nat)
    }
}

/// The result of an operator on two decimals of one scale, in units of that scale. A product or a
/// quotient that has more digits is cut off, toward zero. There is none for a division by zero, and
/// none where the raw product, or the dividend or the divisor brought to the other's scale, takes
/// more than 256 bits, even if the result would fit.
pub open spec fn decimal_exact(op: NumericOperator, a: int, b: int, scale: int) -> Option<int> {
    let negative = (a < 0) != (b < 0);
    let x = wide::absolute(a);
    let y = wide::absolute(b);
    match op {
        NumericOperator::Add => Some(a + b),
        NumericOperator::Sub => Some(a - b),
        NumericOperator::Mul => if x * y >= wide::half_range() {
            None
        } else if scale >= 0 {
            Some(wide::signed(negative, (x * y) / pow10(scale as nat)))
        } else {
            Some(wide::signed(negative, (x * y) * pow10((-scale) as nat)))
        },
        NumericOperator::Div => if b == 0 {
            None
        } else if scale >= 0 {
            let dividend = x * pow10(scale as nat);
            if dividend < wide::half_range() {
                Some(wide::signed(negative, dividend / y))
            } else {
                None
            }
        } else {
            let divisor = y * pow10((-scale) as nat);
            if divisor < wide::half_range() {
                Some(wide::signed(negative, x / divisor))
            } else {
                None
            }
        },
    }
}

/// A number of units has at most as many digits as the precision allows, and is held in 256 bits.
pub open spec fn decimal_fits(v: int, precision: nat) -> bool {
    wide::absolute(v) < pow10(precision) && -wide::half_range() <= v < wide::half_range()
}

/// The result of an operator on two decimals, where it has one that fits.
pub open spec fn decimal_value(
    op: NumericOperator,
    a: int,
    b: int,
    precision: nat,
    scale: int,
) -> Option<int> {
    match decimal_exact(op, a, b, scale) {
        Some(v) => if decimal_fits(v, precision) {
            Some(v)
        } else {
            None
        },
        None => None,
    }
}

proof fn pow10_is_positive(n: nat)
    ensures
        pow10(n) >= 1,
    decreases n,
{
    if n > 0 {
        pow10_is_positive((n - 1) as nat);
    }
}

/// A power of ten, where 256 bits hold it.
fn power_of_ten(n: u8) -> (out: Option<U256>)
    ensures
        match out {
            Some(p) => p@ == pow10(n as nat),
            None => pow10(n as nat) >= wide::full_range(),
        },
    decreases n,
{
    if n == 0 {
        return Some(U256::from_u128(1));
    }
    match power_of_ten(n - 1) {
        Some(p) => p.times(U256::from_u128(10)),
        None => None,
    }
}

/// A number with `n` more digits, where 256 bits hold it.
fn scaled_up(v: U256, n: u8) -> (out: Option<U256>)
    ensures
        match out {
            Some(p) => p@ == v@ * pow10(n as nat),
            None => v@ * pow10(n as nat) >= wide::full_range(),
        },
{
    let ghost p = pow10(n as nat);
    if v.is_zero() {
        assert(0 * p == 0);
        return Some(v);
    }
    match power_of_ten(n) {
        Some(power) => v.times(power),
        None => {
            let ghost m = v@;
            assert(m * p >= wide::full_range()) by (nonlinear_arith)
                requires
                    m >= 1,
                    p >= wide::full_range(),
            ;
            None
        },
    }
}

/// A number without its last `n` digits.
fn scaled_down(v: U256, n: u8) -> (out: U256)
    requires
        v@ < wide::half_range(),
    ensures
        out@ == v@ / pow10(n as nat),
{
    let ghost p = pow10(n as nat);
    let power = match power_of_ten(n) {
        Some(power) => if v.less_than(power) {
            None
        } else {
            Some(power)
        },
        None => None,
    };
    proof {
        pow10_is_positive(n as nat);
    }
    match power {
        Some(power) => {
            let (q, r) = v.divided_by(power);
            proof {
                lemma_fundamental_div_mod_converse(v@, p, q@, r@);
            }
            q
        },
        None => {
            proof {
                lemma_fundamental_div_mod_converse(v@, p, 0, v@);
            }
            U256::from_u128(0)
        },
    }
}

/// The limit below which an intermediate must stay.
fn is_intermediate(v: U256) -> (out: bool)
    ensures
        out == (v@ < wide::half_range()),
{
    v.high < 0x8000_0000_0000_0000_0000_0000_0000_0000
}

/// The number of a magnitude, with a sign, where it has at most `precision` digits and is held in
/// 256 bits.
fn fitted(negative: bool, m: U256, precision: u8) -> (out: Option<I256>)
    ensures
        match out {
            Some(v) => v@ == wide::signed(negative, m@) && decimal_fits(v@, precision as nat),
            None => !decimal_fits(wide::signed(negative, m@), precision as nat),
        },
{
    if let Some(power) = power_of_ten(precision) {
        if !m.less_than(power) {
            return None;
        }
    }
    let out = I256::of_magnitude(negative, m);
    proof {
        if let Some(v) = out {
            wide::equal_numbers_are_the_same(v, v);
        }
    }
    out
}

/// The magnitude of a product.
fn multiply_magnitudes(x: U256, y: U256, scale: i8) -> (out: Option<U256>)
    ensures
        ({
            let raw = x@ * y@;
            match out {
                Some(m) => raw < wide::half_range() && m@ == (if scale >= 0 {
                    raw / pow10(scale as nat)
                } else {
                    raw * pow10((-scale) as nat)
                }),
                None => raw < wide::half_range() ==> scale < 0 && raw * pow10((-scale) as nat)
                    >= wide::full_range(),
            }
        }),
{
    match x.times(y) {
        Some(raw) => if !is_intermediate(raw) {
            None
        } else if scale >= 0 {
            Some(scaled_down(raw, scale as u8))
        } else {
            scaled_up(raw, (-(scale as i16)) as u8)
        },
        None => None,
    }
}

/// The magnitude of a quotient.
fn divide_magnitudes(x: U256, y: U256, scale: i8) -> (out: Option<U256>)
    requires
        0 < y@ <= wide::half_range(),
    ensures
        ({
            let dividend = x@ * pow10(scale as nat);
            let divisor = y@ * pow10((-scale) as nat);
            match out {
                Some(m) => if scale >= 0 {
                    dividend < wide::half_range() && m@ == dividend / y@
                } else {
                    divisor < wide::half_range() && m@ == x@ / divisor
                },
                None => if scale >= 0 {
                    dividend >= wide::half_range()
                } else {
                    divisor >= wide::half_range()
                },
            }
        }),
{
    if scale >= 0 {
        match scaled_up(x, scale as u8) {
            Some(dividend) => if is_intermediate(dividend) {
                let (q, r) = dividend.divided_by(y);
                proof {
                    lemma_fundamental_div_mod_converse(dividend@, y@, q@, r@);
                }
                Some(q)
            } else {
                None
            },
            None => None,
        }
    } else {
        let t: u8 = (-(scale as i16)) as u8;
        match scaled_up(y, t) {
            Some(divisor) => if is_intermediate(divisor) {
                proof {
                    let p = pow10(t as nat);
                    let d = y@;
                    pow10_is_positive(t as nat);
                    assert(d * p > 0) by (nonlinear_arith)
                        requires
                            d > 0,
                            p > 0,
                    ;
                }
                let (q, r) = x.divided_by(divisor);
                proof {
                    lemma_fundamental_div_mod_converse(x@, divisor@, q@, r@);
                }
                Some(q)
            } else {
                None
            },
            None => None,
        }
    }
}

/// An operator on two decimals of one precision and scale.
pub fn execute_decimal_value(op: NumericOperator, a: I256, b: I256, decimal: DecimalDType) -> (out:
    Option<I256>)
    ensures
        out matches Some(v) ==> decimal_value(
            op,
            a@,
            b@,
            decimal.precision as nat,
            decimal.scale as int,
        ) == Some(v@),
        out is None ==> decimal_value(
            op,
            a@,
            b@,
            decimal.precision as nat,
            decimal.scale as int,
        ) is None,
        op is Add ==> (out matches Some(v) ==> v@ - b@ == a@),
        op is Sub ==> (out matches Some(v) ==> v@ + b@ == a@),
{
    let negative = a.is_negative() != b.is_negative();
    let x = a.magnitude();
    let y = b.magnitude();
    match op {
        NumericOperator::Add => match wide::sum(a.is_negative(), x, b.is_negative(), y) {
            Some((sign, m)) => fitted(sign, m, decimal.precision),
            None => None,
        },
        NumericOperator::Sub => match wide::sum(a.is_negative(), x, !b.is_negative(), y) {
            Some((sign, m)) => fitted(sign, m, decimal.precision),
            None => None,
        },
        NumericOperator::Mul => match multiply_magnitudes(x, y, decimal.scale) {
            Some(m) => fitted(negative, m, decimal.precision),
            None => None,
        },
        NumericOperator::Div => {
            if y.is_zero() {
                return None;
            }
            match divide_magnitudes(x, y, decimal.scale) {
                Some(m) => fitted(negative, m, decimal.precision),
                None => None,
            }
        },
    }
}

/// The units that a payload holds.
pub open spec fn units(value: ValueV) -> int {
    match value {
        ValueV::Decimal(v) => v,
        _ => 0,
    }
}

/// What an operator gives in one row, whether or not the row is valid.
pub open spec fn decimal_at(
    op: NumericOperator,
    decimal: DecimalDType,
    lhs: ArrayV,
    rhs: ArrayV,
    r: int,
) -> Option<int> {
    decimal_value(
        op,
        units(lhs.cells[r].value),
        units(rhs.cells[r].value),
        decimal.precision as nat,
        decimal.scale as int,
    )
}

/// A row that is valid on both sides has no result that fits.
pub open spec fn decimal_fails_at(
    op: NumericOperator,
    decimal: DecimalDType,
    lhs: ArrayV,
    rhs: ArrayV,
    r: int,
) -> bool {
    zip::both_valid(lhs, rhs, r) && decimal_at(op, decimal, lhs, rhs, r) is None
}

/// The payload of each row; zero where there is no result that fits.
pub open spec fn decimal_values(
    op: NumericOperator,
    decimal: DecimalDType,
    lhs: ArrayV,
    rhs: ArrayV,
) -> Seq<ValueV> {
    Seq::new(
        lhs.len(),
        |r: int|
            ValueV::Decimal(
                match decimal_at(op, decimal, lhs, rhs, r) {
                    Some(v) => v,
                    None => 0,
                },
            ),
    )
}

/// What is said where a row has no result that fits.
pub open spec fn decimal_failure(op: NumericOperator) -> Seq<char> {
    match op {
        NumericOperator::Add => "decimal overflow in checked add"@,
        NumericOperator::Sub => "decimal overflow in checked sub"@,
        NumericOperator::Mul => "decimal overflow in checked mul"@,
        NumericOperator::Div => "decimal division by zero or overflow in checked div"@,
    }
}

/// The precision and scale of two operands, or what is said where they have none in common.
pub open spec fn operand_decimal(lhs: DTypeV, rhs: DTypeV) -> Result<DecimalDType, Seq<char>> {
    match lhs {
        DTypeV::Decimal(decimal, _) => if rhs matches DTypeV::Decimal(other, _) && other
            == decimal {
            Ok(decimal)
        } else {
            Err(primitive::wrong_column("matching decimal"@, rhs))
        },
        _ => Err(primitive::wrong_column("decimal"@, lhs)),
    }
}

/// Arithmetic on two decimal columns: an error where a row that is valid on both sides has no
/// result that fits, and otherwise the results, null wherever either side is null.
pub open spec fn decimal_result(op: NumericOperator, lhs: ArrayV, rhs: ArrayV) -> Result<
    ArrayV,
    Seq<char>,
> {
    match operand_decimal(lhs.dtype, rhs.dtype) {
        Err(text) => Err(text),
        Ok(decimal) => if exists|r: int|
            0 <= r < lhs.len() && #[trigger] decimal_fails_at(op, decimal, lhs, rhs, r) {
            Err(decimal_failure(op))
        } else {
            Ok(
                zip::zipped(
                    DTypeV::Decimal(
                        decimal,
                        lhs.dtype.nullability().union(rhs.dtype.nullability()),
                    ),
                    lhs,
                    rhs,
                    decimal_values(op, decimal, lhs, rhs),
                ),
            )
        },
    }
}

fn units_of(value: &Value) -> (out: I256)
    ensures
        out@ == units(value@),
{
    match value {
        Value::Decimal(v) => *v,
        _ => I256::from_i128(0),
    }
}

fn decimal_error(op: NumericOperator) -> (out: VortexError)
    ensures
        out@ == decimal_failure(op),
{
    match op {
        NumericOperator::Add => VortexError::of("decimal overflow in checked add"),
        NumericOperator::Sub => VortexError::of("decimal overflow in checked sub"),
        NumericOperator::Mul => VortexError::of("decimal overflow in checked mul"),
        NumericOperator::Div => VortexError::of(
            "decimal division by zero or overflow in checked div",
        ),
    }
}

/// Arithmetic on two decimal columns of one precision and scale.
pub fn execute_numeric_decimal(lhs: &Array, rhs: &Array, op: NumericOperator) -> (out: VortexResult<
    Array,
>)
    requires
        lhs@.len() == rhs@.len(),
    ensures
        vtable::outcome(out) == decimal_result(op, lhs@, rhs@),
{
    let decimal = match lhs.dtype() {
        DType::Decimal(decimal, _) => *decimal,
        _ => return Err(wrong_column_error("decimal", lhs.dtype())),
    };
    let same = match rhs.dtype() {
        DType::Decimal(other, _) => *other == decimal,
        _ => false,
    };
    if !same {
        return Err(wrong_column_error("matching decimal", rhs.dtype()));
    }
    let rows: usize = lhs.len();
    let ghost expected = decimal_values(op, decimal, lhs@, rhs@);
    let mut values: Vec<Value> = Vec::new();
    let mut index: usize = 0;
    while index < rows
        invariant
            index <= rows == lhs@.len() == rhs@.len(),
            operand_decimal(lhs@.dtype, rhs@.dtype) == Ok::<DecimalDType, Seq<char>>(decimal),
            expected == decimal_values(op, decimal, lhs@, rhs@),
            values@.len() == index,
            forall|r: int| 0 <= r < index ==> (#[trigger] values@[r])@ == expected[r],
            forall|r: int|
                0 <= r < index ==> !#[trigger] decimal_fails_at(op, decimal, lhs@, rhs@, r),
        decreases rows - index,
    {
        let a = lhs.cell(index);
        let b = rhs.cell(index);
        match execute_decimal_value(op, units_of(&a.value), units_of(&b.value), decimal) {
            Some(v) => values.push(Value::Decimal(v)),
            None => {
                if a.valid && b.valid {
                    assert(decimal_fails_at(op, decimal, lhs@, rhs@, index as int));
                    return Err(decimal_error(op));
                }
                values.push(Value::Decimal(I256::from_i128(0)));
            },
        }
        index = index + 1;
    }
    assert(zip::values_model(values@) =~= expected);
    let nullability = lhs.dtype().nullability().or(rhs.dtype().nullability());
    Ok(zip::zip_values(DType::Decimal(decimal, nullability), lhs, rhs, values))
}

/// Where arithmetic on decimals succeeds, a row that is valid on both sides holds the result, which
/// fits, and every other row is null.
pub proof fn decimal_arithmetic_is_exact_on_valid_rows(
    op: NumericOperator,
    lhs: ArrayV,
    rhs: ArrayV,
    r: int,
)
    requires
        lhs.len() == rhs.len(),
        lhs.uniform(),
        rhs.uniform(),
        0 <= r < lhs.len(),
        decimal_result(op, lhs, rhs) is Ok,
    ensures
        ({
            let out = decimal_result(op, lhs, rhs)->Ok_0;
            let decimal = operand_decimal(lhs.dtype, rhs.dtype)->Ok_0;
            let exact = decimal_exact(
                op,
                units(lhs.cells[r].value),
                units(rhs.cells[r].value),
                decimal.scale as int,
            );
            &&& out.len() == lhs.len()
            &&& zip::both_valid(lhs, rhs, r) ==> exact is Some && decimal_fits(
                exact->Some_0,
                decimal.precision as nat,
            )
            &&& out.row(r) == (if zip::both_valid(lhs, rhs, r) {
                Some(ValueV::Decimal(exact->Some_0))
            } else {
                None
            })
        }),
{
    let decimal = operand_decimal(lhs.dtype, rhs.dtype)->Ok_0;
    let values = decimal_values(op, decimal, lhs, rhs);
    assert(!decimal_fails_at(op, decimal, lhs, rhs, r));
    assert(lhs.constant matches Some(cell) ==> lhs.cells[r] == cell && lhs.cells[0] == cell);
    assert(rhs.constant matches Some(cell) ==> rhs.cells[r] == cell && rhs.cells[0] == cell);
    zip::zipped_rows(
        DTypeV::Decimal(decimal, lhs.dtype.nullability().union(rhs.dtype.nullability())),
        lhs,
        rhs,
        values,
        r,
    );
}

} // verus!
