//! The calculator service: four methods, each incrementing the shared counter
//! exactly once — before the arithmetic is even looked at, so a failed call
//! still counts as load — and then delegating to the arithmetic engine.

use vstd::prelude::*;
use crate::arith::{evaluate, spec_evaluate, DomainError, Operation};
use crate::counter::Counter;
use crate::messages::{CalculationRequest, CalculationResponse, RpcError};

verus! {

/// What a calculator method returns for an operation and its two operands:
/// the engine's value on success, and the engine's domain errors mapped onto
/// the structured call failures.
pub open spec fn spec_calc_result(op: Operation, a: i64, b: i64) -> Result<
    CalculationResponse,
    RpcError,
> {
    match spec_evaluate(op, a, b) {
        Ok(v) => Ok(CalculationResponse { result: v }),
        Err(DomainError::DivideByZero) => Err(RpcError::DivideByZero),
        Err(DomainError::UnknownOperation) => Err(RpcError::InvalidOperation),
    }
}

/// What a string-named dispatch returns: an unknown name is an invalid
/// operation, a known one behaves as the engine says.
pub open spec fn spec_process_operation(operation: Seq<char>, a: i64, b: i64) -> Result<
    CalculationResponse,
    RpcError,
> {
    match Operation::spec_from_name(operation) {
        Ok(op) => spec_calc_result(op, a, b),
        Err(_) => Err(RpcError::InvalidOperation),
    }
}

/// Resolves an operation by its wire name and evaluates it. Stateless: the
/// counter is the methods' concern, not this dispatcher's.
pub fn process_operation(operation: &str, a: i64, b: i64) -> (r: Result<
    CalculationResponse,
    RpcError,
>)
    requires
        !(operation@ == "divide"@ && a == i64::MIN && b == -1),
    ensures
        r == spec_process_operation(operation@, a, b),
{
    match Operation::from_name(operation) {
        Ok(op) => run_operation(op, a, b),
        Err(_) => Err(RpcError::InvalidOperation),
    }
}

/// Evaluates one resolved operation and maps the engine's domain errors onto
/// structured call failures.
fn run_operation(op: Operation, a: i64, b: i64) -> (r: Result<CalculationResponse, RpcError>)
    requires
        !(op == Operation::Divide && a == i64::MIN && b == -1),
    ensures
        r == spec_calc_result(op, a, b),
{
    match evaluate(op, a, b) {
        Ok(v) => Ok(CalculationResponse { result: v }),
        Err(DomainError::DivideByZero) => Err(RpcError::DivideByZero),
        Err(DomainError::UnknownOperation) => Err(RpcError::InvalidOperation),
    }
}

/// The calculator service. It holds no state of its own: the one shared
/// counter is passed to each method by the composition root.
pub struct CalculatorService;

impl CalculatorService {
    /// Adds one to the shared counter; runs first on every method, whatever
    /// the call's own outcome will be.
    pub fn increment_counter(counter: &mut Counter)
        requires
            old(counter).count < u64::MAX,
        ensures
            final(counter).count == old(counter).count + 1,
    {
        counter.increment();
    }

    /// The `Add` method: counts the call, then returns the wrapping sum.
    pub fn add(counter: &mut Counter, request: &CalculationRequest) -> (r: Result<
        CalculationResponse,
        RpcError,
    >)
        requires
            old(counter).count < u64::MAX,
        ensures
            final(counter).count == old(counter).count + 1,
            r == spec_calc_result(Operation::Add, request.a, request.b),
    {
        Self::increment_counter(counter);
        run_operation(Operation::Add, request.a, request.b)
    }

    /// The `Subtract` method: counts the call, then returns the wrapping
    /// difference.
    pub fn subtract(counter: &mut Counter, request: &CalculationRequest) -> (r: Result<
        CalculationResponse,
        RpcError,
    >)
        requires
            old(counter).count < u64::MAX,
        ensures
            final(counter).count == old(counter).count + 1,
            r == spec_calc_result(Operation::Subtract, request.a, request.b),
    {
        Self::increment_counter(counter);
        run_operation(Operation::Subtract, request.a, request.b)
    }

    /// The `Multiply` method: counts the call, then returns the wrapping
    /// product.
    pub fn multiply(counter: &mut Counter, request: &CalculationRequest) -> (r: Result<
        CalculationResponse,
        RpcError,
    >)
        requires
            old(counter).count < u64::MAX,
        ensures
            final(counter).count == old(counter).count + 1,
            r == spec_calc_result(Operation::Multiply, request.a, request.b),
    {
        Self::increment_counter(counter);
        run_operation(Operation::Multiply, request.a, request.b)
    }

    /// The `Divide` method: counts the call — also when the divisor is zero
    /// and the call then fails — and returns the truncating quotient
    /// otherwise.
    pub fn divide(counter: &mut Counter, request: &CalculationRequest) -> (r: Result<
        CalculationResponse,
        RpcError,
    >)
        requires
            old(counter).count < u64::MAX,
            !(request.a == i64::MIN && request.b == -1),
        ensures
            final(counter).count == old(counter).count + 1,
            r == spec_calc_result(Operation::Divide, request.a, request.b),
    {
        Self::increment_counter(counter);
        if request.b == 0 {
            return Err(RpcError::DivideByZero);
        }
        run_operation(Operation::Divide, request.a, request.b)
    }

    /// Issues a whole sequence of calculator calls against one counter.
    /// Whatever mix of methods the sequence holds, and whichever of them
    /// succeed, the counter rises by exactly the number of calls.
    pub fn run_sequence(counter: &mut Counter, calls: &Vec<(Operation, i64, i64)>)
        requires
            old(counter).count + calls@.len() <= u64::MAX,
            forall|i: int|
                0 <= i < calls@.len() ==> !(calls@[i].0 == Operation::Divide && calls@[i].1
                    == i64::MIN && calls@[i].2 == -1),
        ensures
            final(counter).count == old(counter).count + calls@.len(),
    {
        let ghost start = counter.count;
        let mut i: usize = 0;
        while i < calls.len()
            invariant
                0 <= i <= calls@.len(),
                counter.count == start + i,
                start + calls@.len() <= u64::MAX,
                forall|j: int|
                    0 <= j < calls@.len() ==> !(calls@[j].0 == Operation::Divide && calls@[j].1
                        == i64::MIN && calls@[j].2 == -1),
            decreases calls@.len() - i,
        {
            let (op, a, b) = calls[i];
            let request = CalculationRequest { a, b };
            let _ = match op {
                Operation::Add => Self::add(counter, &request),
                Operation::Subtract => Self::subtract(counter, &request),
                Operation::Multiply => Self::multiply(counter, &request),
                Operation::Divide => Self::divide(counter, &request),
            };
            i = i + 1;
        }
    }
}

} // verus!
