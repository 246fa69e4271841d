//! The plain message shapes the handlers exchange, and the structured call
//! failure they report. The transport's own status/metadata types stay
//! outside this crate; a failure here carries exactly a status kind and a
//! fixed human-readable message.

use vstd::prelude::*;

verus! {

/// A calculation request: two signed 64-bit operands.
#[derive(Clone, Copy, Debug, PartialEq, Eq, Structural)]
pub struct CalculationRequest {
    pub a: i64,
    pub b: i64,
}

/// A calculation response: one signed 64-bit result.
#[derive(Clone, Copy, Debug, PartialEq, Eq, Structural)]
pub struct CalculationResponse {
    pub result: i64,
}

/// The admin method's request carries nothing.
#[derive(Clone, Copy, Debug, PartialEq, Eq, Structural)]
pub struct GetCountRequest {}

/// A point-in-time snapshot of the shared counter.
#[derive(Clone, Copy, Debug, PartialEq, Eq, Structural)]
pub struct CounterResponse {
    pub count: u64,
}

/// The status class of a structured call failure, as the transport will
/// report it to the caller.
#[derive(Clone, Copy, Debug, PartialEq, Eq, Structural)]
pub enum StatusKind {
    /// The caller's input was invalid at the business level.
    InvalidArgument,
    /// The caller presented no valid credential.
    Unauthenticated,
}

/// Every structured failure a handler or the auth gate can report. Each
/// variant carries a fixed status kind and a fixed message.
#[derive(Clone, Copy, Debug, PartialEq, Eq, Structural)]
pub enum RpcError {
    /// A division was requested with a zero divisor.
    DivideByZero,
    /// The requested operation name is not one of the four known ones.
    InvalidOperation,
    /// The admin credential was absent or did not match.
    Unauthenticated,
}

impl RpcError {
    /// The status class of each failure.
    pub open spec fn spec_kind(self) -> StatusKind {
        match self {
            RpcError::DivideByZero => StatusKind::InvalidArgument,
            RpcError::InvalidOperation => StatusKind::InvalidArgument,
            RpcError::Unauthenticated => StatusKind::Unauthenticated,
        }
    }

    /// The exact message each failure carries to the caller.
    pub open spec fn spec_message(self) -> Seq<char> {
        match self {
            RpcError::DivideByZero => "Cannot divide by zero!"@,
            RpcError::InvalidOperation => "Invalid operation"@,
            RpcError::Unauthenticated => "Token inválido"@,
        }
    }

    /// The status class, for the transport to map onto its own codes.
    pub fn kind(&self) -> (k: StatusKind)
        ensures
            k == self.spec_kind(),
    {
        match self {
            RpcError::DivideByZero => StatusKind::InvalidArgument,
            RpcError::InvalidOperation => StatusKind::InvalidArgument,
            RpcError::Unauthenticated => StatusKind::Unauthenticated,
        }
    }

    /// The message, verbatim.
    pub fn message(&self) -> (m: &str)
        ensures
            m@ == self.spec_message(),
    {
        match self {
            RpcError::DivideByZero => "Cannot divide by zero!",
            RpcError::InvalidOperation => "Invalid operation",
            RpcError::Unauthenticated => "Token inválido",
        }
    }
}

} // verus!
