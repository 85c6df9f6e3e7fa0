//! What the binary operators compute, said of the numbers, texts and truth values in the rows.

use vstd::arithmetic::div_mod::{lemma_fundamental_div_mod, lemma_fundamental_div_mod_converse};
use vstd::arithmetic::power::{lemma_pow_positive, pow};
use vstd::arithmetic::power2::{lemma2_to64, lemma2_to64_rest, lemma_pow2_adds, pow2};
use vstd::prelude::*;

use crate::array::ArrayV;
use crate::chars;
use crate::dtype::{DTypeV, DecimalDType, PType};
use crate::order;
use crate::order_laws::{self, before};
use crate::scalar_fn::fns::arithmetic;
use crate::scalar_fn::fns::binary::{self, binary_result, Binary};
use crate::scalar_fn::fns::byte_length;
use crate::scalar_fn::fns::compare;
use crate::scalar_fn::fns::decimal;
use crate::scalar_fn::fns::not;
use crate::scalar_fn::fns::numeric::{self, NumericOperator};
use crate::scalar_fn::fns::operators::Operator;
use crate::scalar_fn::fns::zip;
use crate::scalar_fn::vtable::ScalarFnVTable;
use crate::value::{CellV, ValueV};
use crate::wide;

verus! {

/// `v` is what an arithmetic operator gives for `x` and `y`: the number that taking away gives back
/// from a sum, that adding gives back from a difference, the product, and the quotient that leaves
/// a rest on the dividend's side that is smaller than the divisor.
pub open spec fn solves(op: Operator, x: int, y: int, v: int) -> bool {
    match op {
        Operator::Add => v - y == x,
        Operator::Sub => v + y == x,
        Operator::Mul => v == x * y,
        Operator::Div => y != 0 && (-y < x - v * y < y || y < x - v * y < -y) && (x >= 0 ==> x - v
            * y >= 0) && (x <= 0 ==> x - v * y <= 0),
        _ => false,
    }
}

/// The least integer of a type.
pub open spec fn least(ptype: PType) -> int {
    match ptype {
        PType::I8 => i8::MIN as int,
        PType::I16 => i16::MIN as int,
        PType::I32 => i32::MIN as int,
        PType::I64 => i64::MIN as int,
        _ => 0,
    }
}

/// The largest integer of a type.
pub open spec fn largest(ptype: PType) -> int {
    match ptype {
        PType::U8 => u8::MAX as int,
        PType::U16 => u16::MAX as int,
        PType::U32 => u32::MAX as int,
        PType::U64 => u64::MAX as int,
        PType::I8 => i8::MAX as int,
        PType::I16 => i16::MAX as int,
        PType::I32 => i32::MAX as int,
        PType::I64 => i64::MAX as int,
        _ => 0,
    }
}

/// The type holds integers.
pub open spec fn integers(ptype: PType) -> bool {
    !(ptype is F16) && !(ptype is F32) && !(ptype is F64)
}

/// A row holds this integer.
pub open spec fn holds_integer(cell: CellV, ptype: PType, x: int) -> bool {
    cell.value == ValueV::Primitive(ptype, x) && least(ptype) <= x <= largest(ptype)
}

/// A column of integers of a type, which every valid row holds one of.
pub open spec fn integer_column(a: ArrayV, ptype: PType) -> bool {
    &&& integers(ptype)
    &&& a.uniform()
    &&& a.dtype matches DTypeV::Primitive(p, _) && p == ptype
    &&& forall|r: int|
        0 <= r < a.len() && (#[trigger] a.cells[r]).valid ==> holds_integer(
            a.cells[r],
            ptype,
            number(a.cells[r]),
        )
}

/// The number that a row holds.
pub open spec fn number(cell: CellV) -> int {
    match cell.value {
        ValueV::Primitive(_, x) => x,
        ValueV::Decimal(x) => x,
        _ => 0,
    }
}

/// The operator has a result that the type holds.
pub open spec fn has_integer(op: Operator, ptype: PType, x: int, y: int) -> bool {
    exists|v: int| least(ptype) <= v <= largest(ptype) && #[trigger] solves(op, x, y, v)
}

/// The quotient that leaves such a rest is the one rounded toward zero, and there is no other.
proof fn quotients_are_unique(x: int, y: int, v: int)
    requires
        y != 0,
    ensures
        solves(Operator::Div, x, y, v) == (v == numeric::quotient(x, y)),
{
    let a = wide::absolute(x);
    let b = wide::absolute(y);
    lemma_fundamental_div_mod(a, b);
    let q = a / b;
    assert(0 <= a % b < b) by {
        vstd::arithmetic::div_mod::lemma_mod_bound(a, b);
    }
    if v == numeric::quotient(x, y) {
        let rest = x - v * y;
        if x >= 0 && y > 0 {
            assert(v * y == b * q) by (nonlinear_arith)
                requires
                    v == q,
                    y == b,
            ;
        } else if x >= 0 {
            assert(v * y == b * q) by (nonlinear_arith)
                requires
                    v == -q,
                    y == -b,
            ;
        } else if y > 0 {
            assert(v * y == -(b * q)) by (nonlinear_arith)
                requires
                    v == -q,
                    y == b,
            ;
        } else {
            assert(v * y == -(b * q)) by (nonlinear_arith)
                requires
                    v == q,
                    y == -b,
            ;
        }
    }
    if solves(Operator::Div, x, y, v) {
        let rest = x - v * y;
        let m = if x >= 0 {
            rest
        } else {
            -rest
        };
        let w = if (x >= 0) == (y >= 0) {
            v
        } else {
            -v
        };
        assert(a == w * b + m) by {
            if x >= 0 && y > 0 {
            } else if x >= 0 {
                assert((-v) * (-y) == v * y) by (nonlinear_arith);
            } else if y > 0 {
                assert((-v) * y == -(v * y)) by (nonlinear_arith);
            } else {
                assert(v * (-y) == -(v * y)) by (nonlinear_arith);
            }
        }
        lemma_fundamental_div_mod_converse(a, b, w, m);
    }
}

/// Integer ranges are those of the machine's integers.
proof fn ranges_are_the_machines(ptype: PType)
    requires
        integers(ptype),
    ensures
        arithmetic::range_of(ptype) == (least(ptype), largest(ptype)),
{
}

/// Payloads of integers stand for themselves.
proof fn operands_are_numbers(lhs: ArrayV, rhs: ArrayV, ptype: PType, r: int)
    requires
        integer_column(lhs, ptype),
        integer_column(rhs, ptype),
        lhs.len() == rhs.len(),
        0 <= r < lhs.len(),
        lhs.cells[r].valid,
        rhs.cells[r].valid,
    ensures
        arithmetic::integer_operands(ptype, lhs, rhs)[r] == (
            number(lhs.cells[r]),
            number(rhs.cells[r]),
        ),
{
    assert(holds_integer(lhs.cells[r], ptype, number(lhs.cells[r])));
    assert(holds_integer(rhs.cells[r], ptype, number(rhs.cells[r])));
}

proof fn overflow_means_no_result(op: Operator, numeric: NumericOperator, ptype: PType, x: int, y: int)
    requires
        op.arithmetic() == Some(numeric),
        integers(ptype),
        least(ptype) <= x <= largest(ptype),
        least(ptype) <= y <= largest(ptype),
    ensures
        numeric::overflows(numeric, x, y, least(ptype), largest(ptype)) == !has_integer(
            op,
            ptype,
            x,
            y,
        ),
        !numeric::overflows(numeric, x, y, least(ptype), largest(ptype)) ==> solves(
            op,
            x,
            y,
            numeric::exact(numeric, x, y),
        ),
{
    let lo = least(ptype);
    let hi = largest(ptype);
    let e = numeric::exact(numeric, x, y);
    if op is Div {
        if y != 0 {
            quotients_are_unique(x, y, e);
            quotient_is_bounded(x, y);
            if has_integer(op, ptype, x, y) {
                let v = choose|v: int| lo <= v <= hi && #[trigger] solves(op, x, y, v);
                quotients_are_unique(x, y, v);
            }
            if !numeric::overflows(numeric, x, y, lo, hi) {
                assert(solves(op, x, y, e) && lo <= e <= hi);
            }
        } else {
            assert(forall|v: int| !#[trigger] solves(op, x, y, v));
        }
    } else {
        assert(solves(op, x, y, e));
        if has_integer(op, ptype, x, y) {
            let v = choose|v: int| lo <= v <= hi && #[trigger] solves(op, x, y, v);
            assert(v == e);
        }
    }
}

proof fn quotient_is_bounded(x: int, y: int)
    requires
        y != 0,
    ensures
        -wide::absolute(x) <= numeric::quotient(x, y) <= wide::absolute(x),
        x >= 0 && y > 0 ==> numeric::quotient(x, y) >= 0,
        x == 0 ==> numeric::quotient(x, y) == 0,
        numeric::quotient(x, y) < 0 && x < 0 ==> numeric::quotient(x, y) >= x,
        numeric::quotient(x, y) < 0 && x > 0 ==> numeric::quotient(x, y) >= -x,
{
    let a = wide::absolute(x);
    let b = wide::absolute(y);
    assert(0 <= a / b <= a) by (nonlinear_arith)
        requires
            a >= 0,
            b >= 1,
    ;
}

/// Where arithmetic on integers succeeds, a row is valid exactly where both operands are, and then
/// holds the number that solves the operator for theirs.
pub proof fn integers_are_computed(op: Operator, lhs: ArrayV, rhs: ArrayV, ptype: PType, r: int)
    requires
        op is Add || op is Sub || op is Mul || op is Div,
        integer_column(lhs, ptype),
        integer_column(rhs, ptype),
        lhs.len() == rhs.len(),
        0 <= r < lhs.len(),
        binary_result(op, lhs, rhs) is Ok,
    ensures
        ({
            let out = binary_result(op, lhs, rhs)->Ok_0;
            &&& out.len() == lhs.len()
            &&& out.cells[r].valid == (lhs.cells[r].valid && rhs.cells[r].valid)
            &&& out.cells[r].valid ==> holds_integer(out.cells[r], ptype, number(out.cells[r]))
                && solves(
                op,
                number(lhs.cells[r]),
                number(rhs.cells[r]),
                number(out.cells[r]),
            )
        }),
{
    let numeric = op.arithmetic()->Some_0;
    arithmetic::arithmetic_is_exact_on_valid_rows(numeric, lhs, rhs, r);
    let out = binary_result(op, lhs, rhs)->Ok_0;
    let (lo, hi) = arithmetic::range_of(ptype);
    ranges_are_the_machines(ptype);
    if zip::both_valid(lhs, rhs, r) {
        let x = number(lhs.cells[r]);
        let y = number(rhs.cells[r]);
        assert(holds_integer(lhs.cells[r], ptype, x));
        assert(holds_integer(rhs.cells[r], ptype, y));
        operands_are_numbers(lhs, rhs, ptype, r);
        let operands = arithmetic::integer_operands(ptype, lhs, rhs);
        assert(!arithmetic::overflows_at(numeric, (lo, hi), operands, r));
        overflow_means_no_result(op, numeric, ptype, x, y);
        if op is Div {
            quotient_is_bounded(x, y);
        }
    }
}

/// Arithmetic on integers succeeds exactly where every row that is valid on both sides has a result
/// that the type holds.
pub proof fn integer_arithmetic_fails_for_want_of_a_result(
    op: Operator,
    lhs: ArrayV,
    rhs: ArrayV,
    ptype: PType,
)
    requires
        op is Add || op is Sub || op is Mul || op is Div,
        integer_column(lhs, ptype),
        integer_column(rhs, ptype),
        lhs.len() == rhs.len(),
    ensures
        binary_result(op, lhs, rhs) is Ok <==> forall|r: int|
            0 <= r < lhs.len() && (#[trigger] lhs.cells[r]).valid && rhs.cells[r].valid
                ==> has_integer(op, ptype, number(lhs.cells[r]), number(rhs.cells[r])),
{
    let numeric = op.arithmetic()->Some_0;
    let operands = arithmetic::integer_operands(ptype, lhs, rhs);
    let range = arithmetic::range_of(ptype);
    ranges_are_the_machines(ptype);
    assert(lhs.dtype.eq_ignore_nullability(rhs.dtype)) by {
        assert(lhs.dtype.erased() == rhs.dtype.erased());
    }
    assert(operands.len() == lhs.len());
    assert forall|r: int|
        0 <= r < lhs.len() && (#[trigger] lhs.cells[r]).valid && rhs.cells[r].valid implies has_integer(
        op,
        ptype,
        number(lhs.cells[r]),
        number(rhs.cells[r]),
    ) == !arithmetic::overflows_at(numeric, range, operands, r) && zip::both_valid(lhs, rhs, r) by {
        assert(holds_integer(lhs.cells[r], ptype, number(lhs.cells[r])));
        assert(holds_integer(rhs.cells[r], ptype, number(rhs.cells[r])));
        operands_are_numbers(lhs, rhs, ptype, r);
        overflow_means_no_result(
            op,
            numeric,
            ptype,
            number(lhs.cells[r]),
            number(rhs.cells[r]),
        );
    }
    if arithmetic::valid_overflow(numeric, range, operands, lhs, rhs) {
        let r = choose|r: int|
            0 <= r < operands.len() && zip::both_valid(lhs, rhs, r)
                && #[trigger] arithmetic::overflows_at(numeric, range, operands, r);
        assert(lhs.cells[r].valid);
    }
    if exists|r: int|
        0 <= r < lhs.len() && (#[trigger] lhs.cells[r]).valid && rhs.cells[r].valid && !has_integer(
            op,
            ptype,
            number(lhs.cells[r]),
            number(rhs.cells[r]),
        ) {
        let r = choose|r: int|
            0 <= r < lhs.len() && (#[trigger] lhs.cells[r]).valid && rhs.cells[r].valid
                && !has_integer(op, ptype, number(lhs.cells[r]), number(rhs.cells[r]));
        assert(arithmetic::overflows_at(numeric, range, operands, r));
    }
}

/// `v` is what an operator gives for two decimals of a scale, in units of that scale: a product has
/// as many digits too many as the scale says, and a quotient as many too few.
pub open spec fn solves_decimal(op: Operator, x: int, y: int, scale: int, v: int) -> bool {
    if scale >= 0 {
        let unit = pow(10, scale as nat);
        match op {
            Operator::Mul => solves(Operator::Div, x * y, unit, v),
            Operator::Div => solves(Operator::Div, x * unit, y, v),
            _ => solves(op, x, y, v),
        }
    } else {
        let unit = pow(10, (-scale) as nat);
        match op {
            Operator::Mul => v == x * y * unit,
            Operator::Div => solves(Operator::Div, x, y * unit, v),
            _ => solves(op, x, y, v),
        }
    }
}

/// What is computed on the way takes no more than 256 bits, with a sign.
pub open spec fn stays_narrow(op: Operator, x: int, y: int, scale: int) -> bool {
    let limit = pow2(255) as int;
    match op {
        Operator::Mul => -limit < x * y < limit,
        Operator::Div => if scale >= 0 {
            -limit < x * pow(10, scale as nat) < limit
        } else {
            -limit < y * pow(10, (-scale) as nat) < limit
        },
        _ => true,
    }
}

/// A decimal has at most `precision` digits, and takes no more than 256 bits, with a sign.
pub open spec fn is_decimal(v: int, precision: nat) -> bool {
    -pow(10, precision) < v < pow(10, precision) && -pow2(255) <= v < pow2(255)
}

/// The operator has a decimal as its result.
pub open spec fn has_decimal(op: Operator, x: int, y: int, precision: nat, scale: int) -> bool {
    stays_narrow(op, x, y, scale) && exists|v: int|
        is_decimal(v, precision) && #[trigger] solves_decimal(op, x, y, scale, v)
}

proof fn powers_of_ten(n: nat)
    ensures
        decimal::pow10(n) == pow(10, n),
        pow(10, n) >= 1,
    decreases n,
{
    lemma_pow_positive(10, n);
    if n > 0 {
        powers_of_ten((n - 1) as nat);
        vstd::arithmetic::power::lemma_pow1(10);
        vstd::arithmetic::power::lemma_pow_adds(10, 1, (n - 1) as nat);
    } else {
        vstd::arithmetic::power::lemma_pow0(10);
    }
}

proof fn half_of_256_bits()
    ensures
        wide::half_range() == pow2(255),
{
    lemma2_to64();
    lemma2_to64_rest();
    lemma_pow2_adds(63, 64);
    lemma_pow2_adds(64, 64);
    lemma_pow2_adds(127, 128);
    assert(0x8000_0000_0000_0000int * 0x1_0000_0000_0000_0000
        == 0x8000_0000_0000_0000_0000_0000_0000_0000int) by (nonlinear_arith);
    assert(0x1_0000_0000_0000_0000int * 0x1_0000_0000_0000_0000
        == 0x1_0000_0000_0000_0000_0000_0000_0000_0000int) by (nonlinear_arith);
    assert(0x8000_0000_0000_0000_0000_0000_0000_0000int
        * 0x1_0000_0000_0000_0000_0000_0000_0000_0000int == wide::half_range()) by (nonlinear_arith);
}

/// A quotient of magnitudes, with the sign of the quotient, is the quotient.
proof fn signed_quotients(x: int, y: int, negative: bool)
    requires
        y != 0,
        x != 0 ==> negative == ((x < 0) != (y < 0)),
    ensures
        wide::signed(negative, wide::absolute(x) / wide::absolute(y)) == numeric::quotient(x, y),
{
    quotient_is_bounded(x, y);
    if x == 0 {
        assert(0int / wide::absolute(y) == 0) by (nonlinear_arith)
            requires
                wide::absolute(y) >= 1,
        ;
    }
}

proof fn magnitudes_multiply(x: int, y: int)
    ensures
        wide::absolute(x) * wide::absolute(y) == wide::absolute(x * y),
        x * y != 0 ==> (x * y < 0) == ((x < 0) != (y < 0)),
        x == 0 || y == 0 ==> x * y == 0,
{
    if x >= 0 && y >= 0 {
        assert(x * y >= 0) by (nonlinear_arith)
            requires
                x >= 0,
                y >= 0,
        ;
    } else if x >= 0 {
        assert(x * y <= 0) by (nonlinear_arith)
            requires
                x >= 0,
                y < 0,
        ;
        assert(x * (-y) == -(x * y)) by (nonlinear_arith);
    } else if y >= 0 {
        assert(x * y <= 0) by (nonlinear_arith)
            requires
                x < 0,
                y >= 0,
        ;
        assert((-x) * y == -(x * y)) by (nonlinear_arith);
    } else {
        assert(x * y >= 0) by (nonlinear_arith)
            requires
                x < 0,
                y < 0,
        ;
        assert((-x) * (-y) == x * y) by (nonlinear_arith);
    }
    if x == 0 || y == 0 {
        assert(x * y == 0) by (nonlinear_arith)
            requires
                x == 0 || y == 0,
        ;
    }
}

/// What is computed of two decimals solves the operator, and nothing else does.
#[verifier::rlimit(30)]
proof fn exact_decimals_solve(
    op: Operator,
    numeric: NumericOperator,
    x: int,
    y: int,
    scale: int,
    v: int,
)
    requires
        op.arithmetic() == Some(numeric),
    ensures
        (decimal::decimal_exact(numeric, x, y, scale) == Some(v)) == (stays_narrow(op, x, y, scale)
            && solves_decimal(op, x, y, scale, v)),
        decimal::decimal_exact(numeric, x, y, scale) is None ==> !(stays_narrow(op, x, y, scale)
            && solves_decimal(op, x, y, scale, v)),
{
    half_of_256_bits();
    let n: nat = if scale >= 0 {
        scale as nat
    } else {
        (-scale) as nat
    };
    powers_of_ten(n);
    let unit = pow(10, n);
    let negative = (x < 0) != (y < 0);
    magnitudes_multiply(x, y);
    match op {
        Operator::Mul => {
            if scale >= 0 {
                signed_quotients(x * y, unit, negative);
                quotients_are_unique(x * y, unit, v);
            } else {
                magnitudes_multiply(x * y, unit);
                let p = wide::absolute(x) * wide::absolute(y);
                if x * y < 0 {
                    assert(-(p * unit) == (-p) * unit) by (nonlinear_arith);
                } else if x * y == 0 {
                    assert(p * unit == 0) by (nonlinear_arith)
                        requires
                            p == 0,
                    ;
                }
            }
        },
        Operator::Div => {
            if y != 0 {
                if scale >= 0 {
                    magnitudes_multiply(x, unit);
                    signed_quotients(x * unit, y, negative);
                    quotients_are_unique(x * unit, y, v);
                } else {
                    magnitudes_multiply(y, unit);
                    assert(y * unit != 0) by (nonlinear_arith)
                        requires
                            y != 0,
                            unit >= 1,
                    ;
                    signed_quotients(x, y * unit, negative);
                    quotients_are_unique(x, y * unit, v);
                }
            } else {
                assert(0 * unit == 0);
            }
        },
        _ => {},
    }
}

/// An operator on two decimals gives the decimal that solves it: adding takes back what subtracting
/// took away, whatever the signs, and a product or a quotient is cut off toward zero. It gives
/// nothing exactly where there is no such decimal.
pub proof fn decimals_are_computed(op: Operator, x: int, y: int, precision: nat, scale: int)
    requires
        op is Add || op is Sub || op is Mul || op is Div,
    ensures
        match decimal::decimal_value(op.arithmetic()->Some_0, x, y, precision, scale) {
            Some(v) => is_decimal(v, precision) && stays_narrow(op, x, y, scale) && solves_decimal(
                op,
                x,
                y,
                scale,
                v,
            ),
            None => !has_decimal(op, x, y, precision, scale),
        },
{
    let numeric = op.arithmetic()->Some_0;
    half_of_256_bits();
    powers_of_ten(precision);
    match decimal::decimal_value(numeric, x, y, precision, scale) {
        Some(v) => exact_decimals_solve(op, numeric, x, y, scale, v),
        None => {
            if has_decimal(op, x, y, precision, scale) {
                let v = choose|v: int|
                    is_decimal(v, precision) && #[trigger] solves_decimal(op, x, y, scale, v);
                exact_decimals_solve(op, numeric, x, y, scale, v);
            }
        },
    }
}

/// Subtracting a decimal is adding its opposite, and adding it again undoes it.
pub proof fn subtracting_is_adding_the_opposite(x: int, y: int, precision: nat, scale: int)
    ensures
        decimal::decimal_value(NumericOperator::Sub, x, y, precision, scale)
            == decimal::decimal_value(NumericOperator::Add, x, -y, precision, scale),
        decimal::decimal_value(NumericOperator::Sub, x, y, precision, scale) matches Some(v) ==> v
            + y == x,
{
}

/// A column of decimals, which every valid row holds one of.
pub open spec fn decimal_column(a: ArrayV, dtype: DecimalDType) -> bool {
    &&& a.uniform()
    &&& a.dtype matches DTypeV::Decimal(d, _) && d == dtype
    &&& forall|r: int| 0 <= r < a.len() && (#[trigger] a.cells[r]).valid ==> a.cells[r].value is Decimal
}

/// Where arithmetic on decimals succeeds, a row is valid exactly where both operands are, and then
/// holds the decimal that solves the operator for theirs.
pub proof fn decimal_rows_are_computed(
    op: Operator,
    lhs: ArrayV,
    rhs: ArrayV,
    dtype: DecimalDType,
    r: int,
)
    requires
        op is Add || op is Sub || op is Mul || op is Div,
        decimal_column(lhs, dtype),
        decimal_column(rhs, dtype),
        lhs.len() == rhs.len(),
        0 <= r < lhs.len(),
        binary_result(op, lhs, rhs) is Ok,
    ensures
        ({
            let out = binary_result(op, lhs, rhs)->Ok_0;
            &&& out.len() == lhs.len()
            &&& out.cells[r].valid == (lhs.cells[r].valid && rhs.cells[r].valid)
            &&& out.cells[r].valid ==> out.cells[r].value is Decimal && is_decimal(
                number(out.cells[r]),
                dtype.precision as nat,
            ) && solves_decimal(
                op,
                number(lhs.cells[r]),
                number(rhs.cells[r]),
                dtype.scale as int,
                number(out.cells[r]),
            )
        }),
{
    let numeric = op.arithmetic()->Some_0;
    decimal::decimal_arithmetic_is_exact_on_valid_rows(numeric, lhs, rhs, r);
    if zip::both_valid(lhs, rhs, r) {
        decimals_are_computed(
            op,
            number(lhs.cells[r]),
            number(rhs.cells[r]),
            dtype.precision as nat,
            dtype.scale as int,
        );
    }
}

/// Arithmetic on decimals succeeds exactly where every row that is valid on both sides has a
/// decimal as its result.
pub proof fn decimal_arithmetic_fails_for_want_of_a_result(
    op: Operator,
    lhs: ArrayV,
    rhs: ArrayV,
    dtype: DecimalDType,
)
    requires
        op is Add || op is Sub || op is Mul || op is Div,
        decimal_column(lhs, dtype),
        decimal_column(rhs, dtype),
        lhs.len() == rhs.len(),
    ensures
        binary_result(op, lhs, rhs) is Ok <==> forall|r: int|
            0 <= r < lhs.len() && (#[trigger] lhs.cells[r]).valid && rhs.cells[r].valid
                ==> has_decimal(
                op,
                number(lhs.cells[r]),
                number(rhs.cells[r]),
                dtype.precision as nat,
                dtype.scale as int,
            ),
{
    let numeric = op.arithmetic()->Some_0;
    assert(lhs.dtype.eq_ignore_nullability(rhs.dtype)) by {
        assert(lhs.dtype.erased() == rhs.dtype.erased());
    }
    assert forall|r: int|
        0 <= r < lhs.len() && (#[trigger] lhs.cells[r]).valid && rhs.cells[r].valid implies has_decimal(
        op,
        number(lhs.cells[r]),
        number(rhs.cells[r]),
        dtype.precision as nat,
        dtype.scale as int,
    ) == !decimal::decimal_fails_at(numeric, dtype, lhs, rhs, r) by {
        decimals_are_computed(
            op,
            number(lhs.cells[r]),
            number(rhs.cells[r]),
            dtype.precision as nat,
            dtype.scale as int,
        );
    }
    if exists|r: int| 0 <= r < lhs.len() && #[trigger] decimal::decimal_fails_at(
        numeric,
        dtype,
        lhs,
        rhs,
        r,
    ) {
        let r = choose|r: int|
            0 <= r < lhs.len() && #[trigger] decimal::decimal_fails_at(numeric, dtype, lhs, rhs, r);
        assert(lhs.cells[r].valid);
    }
    if exists|r: int|
        0 <= r < lhs.len() && (#[trigger] lhs.cells[r]).valid && rhs.cells[r].valid && !has_decimal(
            op,
            number(lhs.cells[r]),
            number(rhs.cells[r]),
            dtype.precision as nat,
            dtype.scale as int,
        ) {
        let r = choose|r: int|
            0 <= r < lhs.len() && (#[trigger] lhs.cells[r]).valid && rhs.cells[r].valid
                && !has_decimal(
                op,
                number(lhs.cells[r]),
                number(rhs.cells[r]),
                dtype.precision as nat,
                dtype.scale as int,
            );
        assert(decimal::decimal_fails_at(numeric, dtype, lhs, rhs, r));
    }
}

/// The payload is one that a scalar type has.
pub open spec fn of_type(dtype: DTypeV, value: ValueV) -> bool {
    match dtype {
        DTypeV::Bool(_) => value is Bool,
        DTypeV::Primitive(p, _) => match value {
            ValueV::Primitive(q, x) => p == q && order_laws::bits_in_range(value) && (integers(p)
                ==> least(p) <= x <= largest(p)),
            _ => false,
        },
        DTypeV::Decimal(_, _) => value is Decimal,
        DTypeV::Utf8(_) => value is Bytes,
        DTypeV::Binary(_) => value is Bytes,
        _ => false,
    }
}

/// A column of scalars, each valid row of which has a payload of its type.
pub open spec fn scalar_column(a: ArrayV) -> bool {
    &&& a.uniform()
    &&& a.dtype is Bool || a.dtype is Primitive || a.dtype is Decimal || a.dtype is Utf8
        || a.dtype is Binary
    &&& forall|r: int|
        0 <= r < a.len() && (#[trigger] a.cells[r]).valid ==> of_type(a.dtype, a.cells[r].value)
}

/// What a comparison says of two scalars.
pub open spec fn says(op: Operator, a: ValueV, b: ValueV) -> bool {
    match op {
        Operator::Eq => a == b,
        Operator::NotEq => a != b,
        Operator::Lt => before(a, b),
        Operator::Lte => !before(b, a),
        Operator::Gt => before(b, a),
        Operator::Gte => !before(a, b),
        _ => false,
    }
}

proof fn payload_comparisons(
    op: Operator,
    comparison: crate::scalar_fn::fns::operators::CompareOperator,
    p: PType,
    a: ValueV,
    b: ValueV,
    nullability: crate::dtype::Nullability,
)
    requires
        op.comparison() == Some(comparison),
        of_type(DTypeV::Primitive(p, nullability), a),
        of_type(DTypeV::Primitive(p, nullability), b),
    ensures
        compare::compare_payloads(p, comparison, a, b) == says(op, a, b),
{
    order_laws::scalars_are_in_order(a, b);
}

/// Comparing two columns of scalars always succeeds. A row is valid exactly where both operands
/// are, and then says which of them comes first, or whether they are the same.
pub proof fn comparisons_follow_the_order(op: Operator, lhs: ArrayV, rhs: ArrayV, r: int)
    requires
        op is Eq || op is NotEq || op is Lt || op is Lte || op is Gt || op is Gte,
        scalar_column(lhs),
        scalar_column(rhs),
        lhs.dtype.erased() == rhs.dtype.erased(),
        lhs.len() == rhs.len(),
        0 <= r < lhs.len(),
    ensures
        match binary_result(op, lhs, rhs) {
            Ok(out) => {
                &&& out.dtype is Bool
                &&& out.len() == lhs.len()
                &&& out.cells[r].valid == (lhs.cells[r].valid && rhs.cells[r].valid)
                &&& out.cells[r].valid ==> out.cells[r].value == ValueV::Bool(
                    says(op, lhs.cells[r].value, rhs.cells[r].value),
                )
            },
            Err(_) => false,
        },
{
    let comparison = op.comparison()->Some_0;
    let a = lhs.cells[r].value;
    let b = rhs.cells[r].value;
    let declared = compare::compared_dtype(lhs.dtype, rhs.dtype);
    assert(lhs.dtype.eq_ignore_nullability(rhs.dtype));
    assert(lhs.constant matches Some(cell) ==> lhs.cells[r] == cell && lhs.cells[0] == cell);
    assert(rhs.constant matches Some(cell) ==> rhs.cells[r] == cell && rhs.cells[0] == cell);
    match compare::comparable(lhs.dtype, rhs.dtype) {
        Ok(p) => {
            let values = compare::primitive_values(p, comparison, lhs, rhs);
            zip::zipped_rows(declared, lhs, rhs, values, r);
            if zip::both_valid(lhs, rhs, r) {
                assert(of_type(lhs.dtype, a));
                assert(of_type(rhs.dtype, b));
                payload_comparisons(op, comparison, p, a, b, lhs.dtype->Primitive_1);
            }
        },
        Err(_) => {
            let values = binary::ordered_values(comparison, lhs, rhs);
            zip::zipped_rows(declared, lhs, rhs, values, r);
            if zip::both_valid(lhs, rhs, r) {
                assert(of_type(lhs.dtype, a));
                assert(of_type(rhs.dtype, b));
                order_laws::scalars_are_in_order(a, b);
            }
        },
    }
}

/// A row is valid and holds this truth value.
pub open spec fn holds_truth(cell: CellV, truth: bool) -> bool {
    cell.valid && cell.value == ValueV::Bool(truth)
}

/// A conjunction of two boolean columns is true where both are, false where either is, and null
/// where neither is so; a disjunction is false where both are, true where either is, and null where
/// neither is so. Columns of other types have neither.
pub proof fn conjunctions_and_disjunctions(op: Operator, lhs: ArrayV, rhs: ArrayV, r: int)
    requires
        op is And || op is Or,
        lhs.uniform(),
        rhs.uniform(),
        lhs.len() == rhs.len(),
        0 <= r < lhs.len(),
    ensures
        match binary_result(op, lhs, rhs) {
            Ok(out) => {
                let a = lhs.cells[r];
                let b = rhs.cells[r];
                let c = out.cells[r];
                &&& lhs.dtype is Bool && rhs.dtype is Bool && out.dtype is Bool
                &&& out.len() == lhs.len()
                &&& op is And ==> {
                    &&& holds_truth(c, true) <==> holds_truth(a, true) && holds_truth(b, true)
                    &&& holds_truth(c, false) <==> holds_truth(a, false) || holds_truth(b, false)
                }
                &&& op is Or ==> {
                    &&& holds_truth(c, false) <==> holds_truth(a, false) && holds_truth(b, false)
                    &&& holds_truth(c, true) <==> holds_truth(a, true) || holds_truth(b, true)
                }
                &&& c.valid <==> holds_truth(c, true) || holds_truth(c, false)
            },
            Err(_) => !(lhs.dtype is Bool) || !(rhs.dtype is Bool),
        },
{
    assert(lhs.constant matches Some(cell) ==> lhs.cells[r] == cell && lhs.cells[0] == cell);
    assert(rhs.constant matches Some(cell) ==> rhs.cells[r] == cell && rhs.cells[0] == cell);
}

/// Where negation succeeds, a row is valid exactly where the operand is, and then holds the other
/// truth value.
pub proof fn negation_turns_truth_over(input: ArrayV, r: int, b: bool)
    requires
        input.uniform(),
        0 <= r < input.len(),
        not::not_result(input) is Ok,
        input.cells[r].valid ==> input.cells[r].value == ValueV::Bool(b),
    ensures
        ({
            let out = not::not_result(input)->Ok_0;
            &&& out.len() == input.len()
            &&& out.cells[r].valid == input.cells[r].valid
            &&& input.cells[r].valid ==> out.cells[r].value == ValueV::Bool(!b)
        }),
{
    not::not_keeps_rows(input);
    not::not_shows_inverses(input, r);
}

/// Where lengths are computed, a row is valid exactly where the operand is, and then holds how many
/// bytes there are.
pub proof fn lengths_count_bytes(input: ArrayV, r: int, bytes: Seq<u8>)
    requires
        input.uniform(),
        0 <= r < input.len(),
        byte_length::byte_length_result(input) is Ok,
        input.cells[r].valid ==> input.cells[r].value == ValueV::Bytes(bytes),
        bytes.len() <= usize::MAX,
    ensures
        ({
            let out = byte_length::byte_length_result(input)->Ok_0;
            &&& out.len() == input.len()
            &&& out.cells[r].valid == input.cells[r].valid
            &&& input.cells[r].valid ==> out.cells[r].value == ValueV::Primitive(
                PType::U64,
                bytes.len() as int,
            )
        }),
{
    byte_length::byte_length_shows_lengths(input, r);
}

/// The length of bytes that do not resolve is the length that is known of them.
pub proof fn known_lengths_are_kept(input: ArrayV, r: int, length: nat)
    requires
        input.uniform(),
        0 <= r < input.len(),
        byte_length::byte_length_result(input) is Ok,
        input.cells[r].valid,
        input.cells[r].value == ValueV::UnresolvedBytes(length),
        length <= usize::MAX,
    ensures
        byte_length::byte_length_result(input)->Ok_0.row(r) == Some(
            ValueV::Primitive(PType::U64, length as int),
        ),
{
    byte_length::byte_length_shows_lengths(input, r);
}

/// An operator's function applies it to its operands in their order.
pub proof fn operands_keep_their_order(function: Binary, op: Operator, lhs: ArrayV, rhs: ArrayV)
    ensures
        function.result(&op, seq![lhs, rhs], lhs.len()) == binary_result(op, lhs, rhs),
{
    assert(seq![lhs, rhs][0] == lhs && seq![lhs, rhs][1] == rhs);
}

/// Arithmetic keeps the type of its operands, which must agree; a comparison and a boolean operator
/// give truth values. The result can be null exactly where an operand can.
pub proof fn operators_have_their_types(op: Operator, a: DTypeV, b: DTypeV)
    requires
        !(a is Null) && !(a is Extension) && !(b is Null) && !(b is Extension),
    ensures
        match binary::binary_dtype(op, a, b) {
            Ok(dtype) => {
                &&& dtype.nullable() <==> a.nullable() || b.nullable()
                &&& if op is Add || op is Sub || op is Mul || op is Div {
                    (a is Primitive || a is Decimal) && dtype.eq_ignore_nullability(a)
                        && dtype.eq_ignore_nullability(b)
                } else {
                    dtype is Bool && (op is And || op is Or || a.eq_ignore_nullability(b))
                }
            },
            Err(_) => !(op is And) && !(op is Or) && (!a.eq_ignore_nullability(b) || !(op is Eq
                || op is NotEq || op is Gt || op is Gte || op is Lt || op is Lte) && !(a
                is Primitive) && !(a is Decimal)),
        },
{
    if op.arithmetic() is Some {
        let n = a.nullability().union(b.nullability());
        crate::dtype::eq_ignore_nullability_is_an_equivalence(a, a.with_nullability(n), a, n);
        crate::dtype::eq_ignore_nullability_is_an_equivalence(a.with_nullability(n), a, b, n);
    }
}

/// An operator that includes equality is written as the one without it, and an equals sign; the
/// opposite of equality is written with an exclamation mark before it. No two operators are written
/// alike.
pub proof fn operators_are_written_apart(a: Operator, b: Operator)
    ensures
        Operator::Gte.symbol() == Operator::Gt.symbol() + Operator::Eq.symbol(),
        Operator::Lte.symbol() == Operator::Lt.symbol() + Operator::Eq.symbol(),
        Operator::NotEq.symbol() == seq!['!'] + Operator::Eq.symbol(),
        Operator::Gt.symbol() == seq!['>'],
        Operator::Lt.symbol() == seq!['<'],
        Operator::Eq.symbol() == seq!['='],
        Operator::Add.symbol() == seq!['+'],
        Operator::Sub.symbol() == seq!['-'],
        Operator::Mul.symbol() == seq!['*'],
        Operator::Div.symbol() == seq!['/'],
        a.symbol() == b.symbol() <==> a == b,
{
    reveal_strlit("=");
    reveal_strlit("!=");
    reveal_strlit(">");
    reveal_strlit(">=");
    reveal_strlit("<");
    reveal_strlit("<=");
    reveal_strlit("and");
    reveal_strlit("or");
    reveal_strlit("+");
    reveal_strlit("-");
    reveal_strlit("*");
    reveal_strlit("/");
    assert("="@ =~= seq!['=']);
    assert("!="@ =~= seq!['!', '=']);
    assert(">"@ =~= seq!['>']);
    assert(">="@ =~= seq!['>', '=']);
    assert("<"@ =~= seq!['<']);
    assert("<="@ =~= seq!['<', '=']);
    assert("+"@ =~= seq!['+']);
    assert("-"@ =~= seq!['-']);
    assert("*"@ =~= seq!['*']);
    assert("/"@ =~= seq!['/']);
    assert(seq!['>'] + seq!['='] =~= seq!['>', '=']);
    assert(seq!['<'] + seq!['='] =~= seq!['<', '=']);
    assert(seq!['!'] + seq!['='] =~= seq!['!', '=']);
    if a.symbol() == b.symbol() {
        assert(a.symbol()[0] == b.symbol()[0]);
        assert(a.symbol().len() == b.symbol().len());
    }
}

/// Operators persist as their places in this list.
pub proof fn operators_persist_by_place(op: Operator)
    ensures
        0 <= op.number() < 12,
        seq![
            Operator::Eq,
            Operator::NotEq,
            Operator::Gt,
            Operator::Gte,
            Operator::Lt,
            Operator::Lte,
            Operator::And,
            Operator::Or,
            Operator::Add,
            Operator::Sub,
            Operator::Mul,
            Operator::Div,
        ][op.number() as int] == op,
{
}

/// Comparing two columns of lists, or of structs, always succeeds. A row is valid exactly where both
/// operands are, and then says which of them comes first, or whether they tie.
pub proof fn nested_comparisons_follow_the_order(op: Operator, lhs: ArrayV, rhs: ArrayV, r: int)
    requires
        op is Eq || op is NotEq || op is Lt || op is Lte || op is Gt || op is Gte,
        lhs.uniform(),
        rhs.uniform(),
        lhs.dtype is List || lhs.dtype is FixedSizeList || lhs.dtype is Struct,
        lhs.dtype.eq_ignore_nullability(rhs.dtype),
        lhs.len() == rhs.len(),
        0 <= r < lhs.len(),
    ensures
        match binary_result(op, lhs, rhs) {
            Ok(out) => {
                let place = order::order(lhs.cells[r].value, rhs.cells[r].value);
                &&& out.dtype is Bool
                &&& out.len() == lhs.len()
                &&& out.cells[r].valid == (lhs.cells[r].valid && rhs.cells[r].valid)
                &&& out.cells[r].valid ==> out.cells[r].value == ValueV::Bool(
                    match op {
                        Operator::Eq => place == 0,
                        Operator::NotEq => place != 0,
                        Operator::Lt => place < 0,
                        Operator::Lte => place <= 0,
                        Operator::Gt => place > 0,
                        _ => place >= 0,
                    },
                )
            },
            Err(_) => false,
        },
{
    let comparison = op.comparison()->Some_0;
    let declared = compare::compared_dtype(lhs.dtype, rhs.dtype);
    assert(lhs.constant matches Some(cell) ==> lhs.cells[r] == cell && lhs.cells[0] == cell);
    assert(rhs.constant matches Some(cell) ==> rhs.cells[r] == cell && rhs.cells[0] == cell);
    zip::zipped_rows(declared, lhs, rhs, binary::ordered_values(comparison, lhs, rhs), r);
}

/// How an arithmetic operator is called where it fails.
pub open spec fn called(op: Operator) -> Seq<char> {
    match op {
        Operator::Add => seq!['a', 'd', 'd'],
        Operator::Sub => seq!['s', 'u', 'b'],
        Operator::Mul => seq!['m', 'u', 'l'],
        _ => seq!['d', 'i', 'v'],
    }
}

/// Where arithmetic fails on operands of one type, it says so of the kind of number, and names the
/// operator at the end.
pub proof fn failures_name_the_operator(op: Operator, lhs: ArrayV, rhs: ArrayV)
    requires
        op is Add || op is Sub || op is Mul || op is Div,
        lhs.dtype.eq_ignore_nullability(rhs.dtype),
        lhs.dtype is Decimal || (lhs.dtype matches DTypeV::Primitive(p, _) && integers(p)),
    ensures
        binary_result(op, lhs, rhs) matches Err(text) ==> chars::ends(text, called(op))
            && chars::begins(
            text,
            if lhs.dtype is Decimal {
                "decimal "@
            } else {
                "integer "@
            },
        ),
{
    reveal_strlit("decimal ");
    reveal_strlit("integer ");
    reveal_strlit("integer overflow in checked add");
    reveal_strlit("integer overflow in checked sub");
    reveal_strlit("integer overflow in checked mul");
    reveal_strlit("integer division by zero or overflow in checked div");
    reveal_strlit("decimal overflow in checked add");
    reveal_strlit("decimal overflow in checked sub");
    reveal_strlit("decimal overflow in checked mul");
    reveal_strlit("decimal division by zero or overflow in checked div");
    crate::dtype_laws::types_agree_by_their_parts(lhs.dtype, rhs.dtype);
    if let Err(text) = binary_result(op, lhs, rhs) {
        assert(text.skip(text.len() - 3) =~= called(op));
        if lhs.dtype is Decimal {
            assert(text.take(8) =~= "decimal "@);
        } else {
            assert(text.take(8) =~= "integer "@);
        }
    }
}

/// An operator can fail on legal values exactly where it is arithmetic, and every operator but
/// conjunction and disjunction gives null where an operand is null.
pub proof fn operators_say_what_they_are(function: Binary, op: Operator)
    ensures
        function.fallible(&op) <==> op is Add || op is Sub || op is Mul || op is Div,
        function.strict(&op) <==> !(op is And) && !(op is Or),
{
}

} // verus!
