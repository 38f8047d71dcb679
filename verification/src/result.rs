//! Results: failures that are handed back to the caller instead of ending
//! the program.

use crate::optional::{checked_division, truncated_quotient};
use vstd::prelude::*;

verus! {

/// Why a division gave no quotient.
#[derive(Debug, Clone, Copy, PartialEq, Eq, Structural)]
pub enum MathError {
    /// The divisor was zero.
    DivisionByZero,
    /// The quotient is larger than any `i32`.
    Overflow,
}

impl MathError {
    /// The failure in words.
    pub open spec fn words(self) -> Seq<char> {
        match self {
            MathError::DivisionByZero => "division by zero"@,
            MathError::Overflow => "quotient out of range"@,
        }
    }

    /// The failure in words, for a reader.
    pub fn message(&self) -> (text: &'static str)
        ensures
            text@ == self.words(),
    {
        match self {
            MathError::DivisionByZero => "division by zero",
            MathError::Overflow => "quotient out of range",
        }
    }
}

/// What dividing `dividend` by `divisor` comes to: the quotient rounded
/// toward zero, unless the divisor is zero or the quotient does not fit.
pub open spec fn division(dividend: i32, divisor: i32) -> Result<i32, MathError> {
    if divisor == 0 {
        Err(MathError::DivisionByZero)
    } else if truncated_quotient(dividend as int, divisor as int) > i32::MAX {
        Err(MathError::Overflow)
    } else {
        Ok(truncated_quotient(dividend as int, divisor as int) as i32)
    }
}

/// What dividing `dividend` by `first`, and the quotient by `second`, comes
/// to: the failure of the first division where it fails, and the outcome of
/// the second where it does not.
pub open spec fn division_chain(dividend: i32, first: i32, second: i32) -> Result<i32, MathError> {
    match division(dividend, first) {
        Err(why) => Err(why),
        Ok(quotient) => division(quotient, second),
    }
}

/// Only one division of two `i32` overflows: that of `i32::MIN` by `-1`.
pub proof fn lemma_overflow_is_min_by_minus_one(dividend: i32, divisor: i32)
    ensures
        division(dividend, divisor) == Err::<i32, MathError>(MathError::Overflow) <==> (dividend
            == i32::MIN && divisor == -1),
{
    if divisor != 0 && !(dividend == i32::MIN && divisor == -1) {
        crate::optional::lemma_quotient_fits(dividend as int, divisor as int);
    }
    if dividend == i32::MIN && divisor == -1 {
        assert(truncated_quotient(dividend as int, divisor as int) == 0x8000_0000int / 1int);
    }
}

/// Divides, and reports a zero divisor or a quotient that does not fit as a
/// failure.
pub fn divide(dividend: i32, divisor: i32) -> (outcome: Result<i32, MathError>)
    ensures
        outcome == division(dividend, divisor),
{
    proof {
        lemma_overflow_is_min_by_minus_one(dividend, divisor);
    }
    if dividend == i32::MIN && divisor == -1 {
        Err(MathError::Overflow)
    } else {
        checked_division(dividend, divisor).ok_or(MathError::DivisionByZero)
    }
}

/// Divides `dividend` by `first` and the quotient by `second`. The first
/// division that fails ends the computation, and its failure is the answer.
pub fn divide_twice(dividend: i32, first: i32, second: i32) -> (outcome: Result<i32, MathError>)
    ensures
        outcome == division_chain(dividend, first, second),
{
    let quotient: i32 = divide(dividend, first)?;
    divide(quotient, second)
}

/// A success and a failure, each made by a division: 4 by 2, and 1 by 0.
pub fn basic() -> (pair: (Result<i32, MathError>, Result<i32, MathError>))
    ensures
        pair.0 == Ok::<i32, MathError>(2),
        pair.1 == Err::<i32, MathError>(MathError::DivisionByZero),
{
    proof {
        assert(truncated_quotient(4, 2) == 4int / 2int);
    }
    (divide(4, 2), divide(1, 0))
}

/// Three chains of two divisions: one that goes through, one whose first
/// step fails, and one in which both steps would fail and the first failure
/// is the one reported.
pub fn question_mark() -> (outcomes: (
    Result<i32, MathError>,
    Result<i32, MathError>,
    Result<i32, MathError>,
))
    ensures
        outcomes.0 == Ok::<i32, MathError>(10),
        outcomes.1 == Err::<i32, MathError>(MathError::DivisionByZero),
        outcomes.2 == Err::<i32, MathError>(MathError::Overflow),
{
    proof {
        assert(truncated_quotient(100, 5) == 100int / 5int);
        assert(truncated_quotient(20, 2) == 20int / 2int);
        lemma_overflow_is_min_by_minus_one(i32::MIN, -1i32);
    }
    (divide_twice(100, 5, 2), divide_twice(1, 0, 2), divide_twice(i32::MIN, -1, 0))
}

/// What the study of results produced.
pub struct ResultTour {
    /// A success and a failure.
    pub basic: (Result<i32, MathError>, Result<i32, MathError>),
    /// The outcomes of three chains of divisions.
    pub chained: (Result<i32, MathError>, Result<i32, MathError>, Result<i32, MathError>),
}

/// Runs the two studies of results, one after the other.
pub fn run_result() -> (tour: ResultTour)
    ensures
        tour.basic.0 == Ok::<i32, MathError>(2),
        tour.basic.1 == Err::<i32, MathError>(MathError::DivisionByZero),
        tour.chained.0 == Ok::<i32, MathError>(10),
        tour.chained.1 == Err::<i32, MathError>(MathError::DivisionByZero),
        tour.chained.2 == Err::<i32, MathError>(MathError::Overflow),
{
    ResultTour { basic: basic(), chained: question_mark() }
}

} // verus!
