//! Exact string comparison with a contract over the character views, used for
//! operation-name dispatch, credential validation and service-name lookup.

use vstd::prelude::*;
use vstd::string::StringExecFns;

verus! {

/// True exactly when the two slices hold the same characters.
pub fn str_eq(a: &str, b: &str) -> (r: bool)
    ensures
        r == (a@ == b@),
{
    let sa = String::from_str(a);
    let sb = String::from_str(b);
    sa == sb
}

} // verus!
