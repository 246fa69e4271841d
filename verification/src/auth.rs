//! The auth interceptor: a fixed shared-secret comparison on the
//! `authorization` metadata of a call, run before the admin handler and only
//! there. A deliberately minimal placeholder for a real credential scheme:
//! one exact string compare, nothing cryptographic.

use vstd::prelude::*;
use crate::messages::RpcError;
use crate::text::str_eq;

verus! {

/// The one credential the interceptor accepts, scheme prefix included.
pub open spec fn spec_expected_token() -> Seq<char> {
    "Bearer token"@
}

/// Whether a presented `authorization` value passes validation: it must be
/// present and equal the expected token exactly.
pub open spec fn spec_authorized(authorization: Option<&str>) -> bool {
    match authorization {
        Some(value) => value@ == spec_expected_token(),
        None => false,
    }
}

/// Validates a call's `authorization` metadata before the handler runs:
/// the call proceeds exactly when the value is present and matches the
/// expected token, and is rejected as unauthenticated otherwise.
pub fn check_auth(authorization: Option<&str>) -> (r: Result<(), RpcError>)
    ensures
        r == if spec_authorized(authorization) {
            Ok::<(), RpcError>(())
        } else {
            Err::<(), RpcError>(RpcError::Unauthenticated)
        },
{
    match authorization {
        Some(value) => if str_eq(value, "Bearer token") {
            Ok(())
        } else {
            Err(RpcError::Unauthenticated)
        },
        None => Err(RpcError::Unauthenticated),
    }
}

} // verus!
