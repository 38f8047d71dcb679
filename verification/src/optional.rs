//! Optional values: a division that answers "no value" for a zero divisor.

use crate::decimal::{decimal, decimal_text};
use vstd::math::abs;
use vstd::prelude::*;

verus! {

/// The quotient of `dividend` by `divisor`, rounded toward zero: its size is
/// the number of whole times that `|divisor|` fits into `|dividend|`, and it is
/// negative exactly when the two have different signs.
pub open spec fn truncated_quotient(dividend: int, divisor: int) -> int
    recommends
        divisor != 0,
{
    let magnitude = abs(dividend) as int / abs(divisor) as int;
    if (dividend < 0) == (divisor < 0) {
        magnitude
    } else {
        -magnitude
    }
}

/// What is left of `dividend` once `truncated_quotient` times `divisor` is
/// taken away is smaller in size than `divisor` and, unless it is zero, has
/// the sign of `dividend`.
pub proof fn lemma_quotient_rounds_toward_zero(dividend: int, divisor: int)
    requires
        divisor != 0,
    ensures
        ({
            let rest = dividend - truncated_quotient(dividend, divisor) * divisor;
            &&& abs(rest) < abs(divisor)
            &&& rest != 0 ==> ((rest < 0) == (dividend < 0))
        }),
{
    let n = abs(dividend) as int;
    let d = abs(divisor) as int;
    vstd::arithmetic::div_mod::lemma_fundamental_div_mod(n, d);
    vstd::arithmetic::div_mod::lemma_mod_bound(n, d);
    let magnitude = n / d;
    assert(n - magnitude * d == n % d) by (nonlinear_arith)
        requires
            n == d * magnitude + n % d,
    ;
    assert((-magnitude) * d == -(magnitude * d)) by (nonlinear_arith);
    assert(magnitude * (-d) == -(magnitude * d)) by (nonlinear_arith);
    assert((-magnitude) * (-d) == magnitude * d) by (nonlinear_arith);
}

/// Dividing by a negative number gives the opposite of dividing by its
/// opposite, when the quotient is taken with a remainder that is never
/// negative.
proof fn lemma_negative_divisor(dividend: int, divisor: int)
    requires
        dividend >= 0,
        divisor < 0,
    ensures
        dividend / divisor == -(dividend / (-divisor)),
{
    assert(dividend / divisor == -(dividend / (-divisor))) by (nonlinear_arith)
        requires
            dividend >= 0,
            divisor < 0,
    ;
}

/// On 32-bit operands, `i32::MIN` by `-1` set aside, the quotient rounded
/// toward zero is again a 32-bit number.
pub proof fn lemma_quotient_fits(dividend: int, divisor: int)
    requires
        i32::MIN <= dividend <= i32::MAX,
        i32::MIN <= divisor <= i32::MAX,
        divisor != 0,
        !(dividend == i32::MIN && divisor == -1),
    ensures
        i32::MIN <= truncated_quotient(dividend, divisor) <= i32::MAX,
{
    let n = abs(dividend) as int;
    let d = abs(divisor) as int;
    vstd::arithmetic::div_mod::lemma_div_pos_is_pos(n, d);
    vstd::arithmetic::div_mod::lemma_div_nonincreasing(n, d);
    if n > 0 && d > 1 {
        vstd::arithmetic::div_mod::lemma_div_decreases(n, d);
    }
}

/// The machine divides the sizes and puts the dividend's sign back; that is
/// the quotient rounded toward zero.
proof fn lemma_machine_quotient(dividend: int, divisor: int)
    requires
        divisor != 0,
    ensures
        dividend >= 0 ==> dividend / divisor == truncated_quotient(dividend, divisor),
        dividend < 0 ==> -((-dividend) / divisor) == truncated_quotient(dividend, divisor),
{
    if divisor < 0 {
        lemma_negative_divisor(abs(dividend) as int, divisor);
    }
}

/// Divides without failing on a zero divisor: the answer is "no value" then,
/// and otherwise the quotient, rounded toward zero.
///
/// The one quotient that an `i32` cannot hold, that of `i32::MIN` by `-1`, is
/// left out.
pub fn checked_division(dividend: i32, divisor: i32) -> (quotient: Option<i32>)
    requires
        !(dividend == i32::MIN && divisor == -1),
    ensures
        match quotient {
            None => divisor == 0,
            Some(q) => divisor != 0 && q == truncated_quotient(dividend as int, divisor as int),
        },
{
    if divisor == 0 {
        None
    } else {
        proof {
            lemma_quotient_fits(dividend as int, divisor as int);
            lemma_machine_quotient(dividend as int, divisor as int);
        }
        Some(dividend / divisor)
    }
}

/// The line that reports a division: `4 / 2 = 2` where there is a quotient,
/// `1 / 0 failed!` where the divisor is zero.
pub open spec fn division_line(dividend: int, divisor: int) -> Seq<char> {
    let asked = decimal(dividend) + " / "@ + decimal(divisor);
    if divisor == 0 {
        asked + " failed!"@
    } else {
        asked + " = "@ + decimal(truncated_quotient(dividend, divisor))
    }
}

/// Attempts the division and reports, in one line of text, the quotient or
/// the failure.
pub fn try_division(dividend: i32, divisor: i32) -> (line: String)
    requires
        !(dividend == i32::MIN && divisor == -1),
    ensures
        line@ == division_line(dividend as int, divisor as int),
{
    let mut line: String = decimal_text(dividend);
    line.append(" / ");
    line.append(decimal_text(divisor).as_str());
    match checked_division(dividend, divisor) {
        None => {
            line.append(" failed!");
        },
        Some(quotient) => {
            line.append(" = ");
            line.append(decimal_text(quotient).as_str());
        },
    }
    line
}

/// What the study of optional values produced.
pub struct OptionTour<T> {
    /// The report of dividing 4 by 2.
    pub divided: String,
    /// The report of dividing 1 by 0.
    pub failed: String,
    /// "No value", its type given by the binding.
    pub none: Option<i32>,
    /// "No value", its type given at the variant.
    pub equivalent_none: Option<i32>,
    /// A value that is present.
    pub optional: Option<T>,
    /// What unwrapping `optional` gave.
    pub unwrapped: T,
}

/// Divides 4 by 2 and 1 by 0, writes "no value" in two ways, and wraps
/// `present` as a value that is there and unwraps it again.
pub fn option<T: Copy>(present: T) -> (tour: OptionTour<T>)
    ensures
        tour.divided@ == "4 / 2 = 2"@,
        tour.failed@ == "1 / 0 failed!"@,
        tour.none is None,
        tour.equivalent_none is None,
        tour.optional == Some(present),
        tour.unwrapped == present,
{
    let divided: String = try_division(4, 2);
    let failed: String = try_division(1, 0);

    let none: Option<i32> = None;
    let equivalent_none = None::<i32>;

    let optional: Option<T> = Some(present);
    let unwrapped: T = optional.unwrap();

    proof {
        reveal_strlit(" / ");
        reveal_strlit(" = ");
        reveal_strlit(" failed!");
        reveal_strlit("4 / 2 = 2");
        reveal_strlit("1 / 0 failed!");
        assert(truncated_quotient(4, 2) == 4int / 2int);
    }
    OptionTour { divided, failed, none, equivalent_none, optional, unwrapped }
}

} // verus!
