//! The admin service: one read-only method returning the current counter
//! value. The method itself performs no authentication; the interceptor in
//! [`crate::auth`] runs before it, and [`gated_get_request_count`] is the two
//! composed, as the composition root wires them.

use vstd::prelude::*;
use crate::auth::{check_auth, spec_authorized};
use crate::counter::Counter;
use crate::messages::{CounterResponse, GetCountRequest, RpcError};

verus! {

/// The admin service. Like the calculator, it holds no state of its own; it
/// reads the one shared counter it is handed.
pub struct AdminService;

impl AdminService {
    /// Returns the current counter value. Takes the counter by shared
    /// reference: the method cannot mutate it, and always succeeds.
    pub fn get_request_count(counter: &Counter, _request: &GetCountRequest) -> (r: Result<
        CounterResponse,
        RpcError,
    >)
        ensures
            r == Ok::<CounterResponse, RpcError>(CounterResponse { count: counter.count }),
    {
        Ok(CounterResponse { count: counter.read() })
    }
}

/// The admin method as a caller reaches it: the auth interceptor first, the
/// handler only with a validated credential, which yields the current counter
/// value; anything else is rejected as unauthenticated before the handler
/// runs, and the counter is untouched either way.
pub fn gated_get_request_count(
    counter: &Counter,
    authorization: Option<&str>,
    request: &GetCountRequest,
) -> (r: Result<CounterResponse, RpcError>)
    ensures
        r == if spec_authorized(authorization) {
            Ok::<CounterResponse, RpcError>(CounterResponse { count: counter.count })
        } else {
            Err::<CounterResponse, RpcError>(RpcError::Unauthenticated)
        },
{
    match check_auth(authorization) {
        Ok(()) => AdminService::get_request_count(counter, request),
        Err(e) => Err(e),
    }
}

} // verus!
