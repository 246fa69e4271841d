use calculator::arith::{evaluate, DomainError, Operation};
use calculator::calc::process_operation;
use calculator::messages::{CalculationResponse, RpcError, StatusKind};

#[test]
fn add_returns_the_sum() {
    assert_eq!(evaluate(Operation::Add, 2, 3), Ok(5));
    assert_eq!(evaluate(Operation::Add, -2, 3), Ok(1));
    assert_eq!(evaluate(Operation::Add, 0, 0), Ok(0));
    assert_eq!(evaluate(Operation::Add, i64::MAX, 0), Ok(i64::MAX));
}

#[test]
fn subtract_returns_the_difference() {
    assert_eq!(evaluate(Operation::Subtract, 2, 3), Ok(-1));
    assert_eq!(evaluate(Operation::Subtract, -2, -3), Ok(1));
    assert_eq!(evaluate(Operation::Subtract, i64::MIN, 0), Ok(i64::MIN));
}

#[test]
fn multiply_returns_the_product() {
    assert_eq!(evaluate(Operation::Multiply, 6, 7), Ok(42));
    assert_eq!(evaluate(Operation::Multiply, -6, 7), Ok(-42));
    assert_eq!(evaluate(Operation::Multiply, 0, i64::MAX), Ok(0));
}

#[test]
fn addition_wraps_on_overflow() {
    // Overflow handling is wrapping, documented in the engine's contract.
    assert_eq!(evaluate(Operation::Add, i64::MAX, 1), Ok(i64::MIN));
    assert_eq!(evaluate(Operation::Subtract, i64::MIN, 1), Ok(i64::MAX));
    assert_eq!(evaluate(Operation::Multiply, i64::MAX, 2), Ok(-2));
}

#[test]
fn divide_truncates_toward_zero() {
    assert_eq!(evaluate(Operation::Divide, 10, 3), Ok(3));
    assert_eq!(evaluate(Operation::Divide, -10, 3), Ok(-3));
    assert_eq!(evaluate(Operation::Divide, 10, -3), Ok(-3));
    assert_eq!(evaluate(Operation::Divide, -10, -3), Ok(3));
    assert_eq!(evaluate(Operation::Divide, 7, 2), Ok(3));
    assert_eq!(evaluate(Operation::Divide, -7, 2), Ok(-3));
    assert_eq!(evaluate(Operation::Divide, 0, 5), Ok(0));
    assert_eq!(evaluate(Operation::Divide, i64::MIN, 1), Ok(i64::MIN));
    assert_eq!(evaluate(Operation::Divide, i64::MIN, 2), Ok(i64::MIN / 2));
    assert_eq!(evaluate(Operation::Divide, i64::MAX, -1), Ok(-i64::MAX));
}

#[test]
fn divide_by_zero_is_a_domain_error() {
    assert_eq!(evaluate(Operation::Divide, 10, 0), Err(DomainError::DivideByZero));
    assert_eq!(evaluate(Operation::Divide, 0, 0), Err(DomainError::DivideByZero));
    assert_eq!(evaluate(Operation::Divide, i64::MIN, 0), Err(DomainError::DivideByZero));
}

#[test]
fn operation_names_resolve_once_at_the_boundary() {
    assert_eq!(Operation::from_name("add"), Ok(Operation::Add));
    assert_eq!(Operation::from_name("subtract"), Ok(Operation::Subtract));
    assert_eq!(Operation::from_name("multiply"), Ok(Operation::Multiply));
    assert_eq!(Operation::from_name("divide"), Ok(Operation::Divide));
    assert_eq!(Operation::from_name("modulo"), Err(DomainError::UnknownOperation));
    assert_eq!(Operation::from_name("Add"), Err(DomainError::UnknownOperation));
    assert_eq!(Operation::from_name(""), Err(DomainError::UnknownOperation));
}

#[test]
fn process_operation_dispatches_by_name() {
    assert_eq!(process_operation("add", 2, 3), Ok(CalculationResponse { result: 5 }));
    assert_eq!(process_operation("subtract", 2, 3), Ok(CalculationResponse { result: -1 }));
    assert_eq!(process_operation("multiply", 2, 3), Ok(CalculationResponse { result: 6 }));
    assert_eq!(process_operation("divide", 10, 3), Ok(CalculationResponse { result: 3 }));
    assert_eq!(process_operation("divide", 10, 0), Err(RpcError::DivideByZero));
}

#[test]
fn unknown_operation_fails_with_fixed_message() {
    let err = process_operation("modulo", 1, 2).unwrap_err();
    assert_eq!(err, RpcError::InvalidOperation);
    assert_eq!(err.message(), "Invalid operation");
    assert_eq!(err.kind(), StatusKind::InvalidArgument);
}
