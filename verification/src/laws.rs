//! The laws the arithmetic contracts promise on inputs whose exact results
//! fit the machine word: where no wrap-around occurs, the wrapping operations
//! return the mathematical value, and division truncates toward zero. The
//! one sum, difference, product or quotient that does not fit an `i64` is
//! excluded by each lemma's precondition.

use vstd::prelude::*;
use vstd::arithmetic::div_mod::{lemma_div_is_ordered, lemma_div_is_ordered_by_denominator,
    lemma_div_nonincreasing, lemma_div_pos_is_pos, lemma_mod_multiples_vanish, lemma_small_mod};
use crate::arith::{abs_val, spec_evaluate, trunc_div, DomainError, Operation};
use crate::calc::spec_calc_result;
use crate::messages::{CalculationResponse, RpcError};

verus! {

/// Where the mathematical sum fits an `i64`, the `Add` operation returns it.
pub proof fn lemma_add_exact(a: i64, b: i64)
    requires
        i64::MIN <= a + b <= i64::MAX,
    ensures
        spec_evaluate(Operation::Add, a, b) == Ok::<i64, DomainError>((a + b) as i64),
{
}

/// Where the mathematical difference fits an `i64`, `Subtract` returns it.
pub proof fn lemma_subtract_exact(a: i64, b: i64)
    requires
        i64::MIN <= a - b <= i64::MAX,
    ensures
        spec_evaluate(Operation::Subtract, a, b) == Ok::<i64, DomainError>((a - b) as i64),
{
}

/// Where the mathematical product fits an `i64`, `Multiply` returns it.
pub proof fn lemma_multiply_exact(a: i64, b: i64)
    requires
        i64::MIN <= a * b <= i64::MAX,
    ensures
        spec_evaluate(Operation::Multiply, a, b) == Ok::<i64, DomainError>((a * b) as i64),
{
    let v = a * b;
    let range = 0x1_0000_0000_0000_0000;
    if v >= 0 {
        lemma_small_mod(v as nat, range as nat);
    } else {
        lemma_mod_multiples_vanish(-1, v + range, range);
        lemma_small_mod((v + range) as nat, range as nat);
    }
}

/// The quotient of a non-zero division fits an `i64` — except for
/// `i64::MIN / -1`, which the calculator's own contract excludes — and
/// `Divide` returns exactly the quotient truncated toward zero.
pub proof fn lemma_divide_exact(a: i64, b: i64)
    requires
        b != 0,
        !(a == i64::MIN && b == -1),
    ensures
        i64::MIN <= trunc_div(a as int, b as int) <= i64::MAX,
        spec_evaluate(Operation::Divide, a, b) == Ok::<i64, DomainError>(
            trunc_div(a as int, b as int) as i64,
        ),
{
    let ua = abs_val(a as int);
    let ub = abs_val(b as int);
    lemma_div_pos_is_pos(ua, ub);
    lemma_div_nonincreasing(ua, ub);
    if (a >= 0) == (b >= 0) && a < 0 && b <= -2 {
        lemma_div_is_ordered_by_denominator(ua, 2, ub);
        lemma_div_is_ordered(ua, 0x8000_0000_0000_0000, 2);
    }
}

/// A division by zero always fails, whatever the dividend, and the failure
/// carries exactly the fixed divide-by-zero message.
pub proof fn lemma_divide_by_zero(a: i64)
    ensures
        spec_calc_result(Operation::Divide, a, 0) == Err::<CalculationResponse, RpcError>(
            RpcError::DivideByZero,
        ),
        RpcError::DivideByZero.spec_message() == "Cannot divide by zero!"@,
{
}

} // verus!
