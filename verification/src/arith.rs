//! The arithmetic engine: a closed set of four operations over two signed
//! 64-bit integers, evaluated purely. Addition, subtraction and multiplication
//! wrap around on overflow (two's-complement wrapping, stated explicitly in
//! the contracts rather than silently assumed); division truncates toward
//! zero and reports a domain error on a zero divisor. An operation name that
//! is not one of the four known ones is an explicit domain error, resolved
//! once at the boundary by [`Operation::from_name`].

use vstd::prelude::*;
use vstd::arithmetic::div_mod::{lemma_div_is_ordered, lemma_div_is_ordered_by_denominator,
    lemma_div_nonincreasing};
use crate::text::str_eq;

verus! {

/// The closed set of operations the engine understands.
#[derive(Clone, Copy, Debug, PartialEq, Eq, Structural)]
pub enum Operation {
    Add,
    Subtract,
    Multiply,
    Divide,
}

/// A business-level failure of the engine, distinct from any transport
/// concern.
#[derive(Clone, Copy, Debug, PartialEq, Eq, Structural)]
pub enum DomainError {
    /// Division was requested with a zero divisor.
    DivideByZero,
    /// The requested operation name is not one of the four known ones.
    UnknownOperation,
}

/// Two's-complement wrapping sum of two `i64` values.
pub open spec fn wrap_add(a: i64, b: i64) -> i64 {
    vstd::wrapping::i64_specs::wrapping_add(a, b)
}

/// Two's-complement wrapping difference of two `i64` values.
pub open spec fn wrap_sub(a: i64, b: i64) -> i64 {
    vstd::wrapping::i64_specs::wrapping_sub(a, b)
}

/// Two's-complement wrapping product of two `i64` values.
pub open spec fn wrap_mul(a: i64, b: i64) -> i64 {
    vstd::wrapping::i64_specs::wrapping_mul(a, b)
}

/// Absolute value of a mathematical integer.
pub open spec fn abs_val(x: int) -> int {
    if x >= 0 {
        x
    } else {
        -x
    }
}

/// Integer division truncating toward zero: the magnitudes are divided and
/// the sign of the quotient follows the signs of the operands.
pub open spec fn trunc_div(a: int, b: int) -> int
    recommends
        b != 0,
{
    if (a >= 0) == (b >= 0) {
        abs_val(a) / abs_val(b)
    } else {
        -(abs_val(a) / abs_val(b))
    }
}

/// What the engine returns for each operation: wrapping arithmetic for the
/// three total operations, truncating division otherwise, with a zero divisor
/// as the one domain error an [`Operation`] can produce.
pub open spec fn spec_evaluate(op: Operation, a: i64, b: i64) -> Result<i64, DomainError> {
    match op {
        Operation::Add => Ok(wrap_add(a, b)),
        Operation::Subtract => Ok(wrap_sub(a, b)),
        Operation::Multiply => Ok(wrap_mul(a, b)),
        Operation::Divide => if b == 0 {
            Err(DomainError::DivideByZero)
        } else {
            Ok(trunc_div(a as int, b as int) as i64)
        },
    }
}

/// Magnitude of an `i64` as a `u64`; total, including `i64::MIN`.
fn magnitude(x: i64) -> (r: u64)
    ensures
        r == abs_val(x as int),
{
    if x >= 0 {
        x as u64
    } else {
        ((-(x + 1)) as u64) + 1
    }
}

/// Truncating signed division on the values themselves. The one quotient
/// that does not fit an `i64` (`i64::MIN / -1`) is excluded, as the caller's
/// contract demands.
fn divide_trunc(a: i64, b: i64) -> (q: i64)
    requires
        b != 0,
        !(a == i64::MIN && b == -1),
    ensures
        q == trunc_div(a as int, b as int),
{
    let ua = magnitude(a);
    let ub = magnitude(b);
    let uq = ua / ub;
    proof {
        lemma_div_nonincreasing(ua as int, ub as int);
    }
    if (a >= 0) == (b >= 0) {
        proof {
            if a < 0 && b < 0 && b <= -2 {
                lemma_div_is_ordered_by_denominator(ua as int, 2, ub as int);
                lemma_div_is_ordered(ua as int, 0x8000_0000_0000_0000, 2);
            }
        }
        uq as i64
    } else {
        if uq == 0 {
            0
        } else {
            -((uq - 1) as i64) - 1
        }
    }
}

impl Operation {
    /// How an operation name resolves: one of the four known names, or the
    /// explicit unknown-operation error.
    pub open spec fn spec_from_name(name: Seq<char>) -> Result<Operation, DomainError> {
        if name == "add"@ {
            Ok(Operation::Add)
        } else if name == "subtract"@ {
            Ok(Operation::Subtract)
        } else if name == "multiply"@ {
            Ok(Operation::Multiply)
        } else if name == "divide"@ {
            Ok(Operation::Divide)
        } else {
            Err(DomainError::UnknownOperation)
        }
    }

    /// Resolves an operation name once, at the boundary between the transport
    /// method and the engine.
    pub fn from_name(name: &str) -> (r: Result<Operation, DomainError>)
        ensures
            r == Self::spec_from_name(name@),
    {
        if str_eq(name, "add") {
            Ok(Operation::Add)
        } else if str_eq(name, "subtract") {
            Ok(Operation::Subtract)
        } else if str_eq(name, "multiply") {
            Ok(Operation::Multiply)
        } else if str_eq(name, "divide") {
            Ok(Operation::Divide)
        } else {
            Err(DomainError::UnknownOperation)
        }
    }
}

/// Evaluates one operation over two signed 64-bit integers. Pure and
/// stateless: the result is a function of the three arguments alone.
/// Overflow of the three total operations wraps; the division quotient that
/// would itself overflow (`i64::MIN / -1`) is ruled out by precondition.
pub fn evaluate(op: Operation, a: i64, b: i64) -> (r: Result<i64, DomainError>)
    requires
        !(op == Operation::Divide && a == i64::MIN && b == -1),
    ensures
        r == spec_evaluate(op, a, b),
{
    match op {
        Operation::Add => Ok(a.wrapping_add(b)),
        Operation::Subtract => Ok(a.wrapping_sub(b)),
        Operation::Multiply => Ok(a.wrapping_mul(b)),
        Operation::Divide => if b == 0 {
            Err(DomainError::DivideByZero)
        } else {
            Ok(divide_trunc(a, b))
        },
    }
}

} // verus!
