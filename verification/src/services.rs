//! The credential-verification collaborator.
//!
//! The real implementation (password hashing against the vault file) is out
//! of scope; the stand-in policy accepts exactly one literal password.

use vstd::prelude::*;

verus! {

/// Whether a candidate password is accepted by the stand-in policy.
pub open spec fn spec_verify(candidate: Seq<char>) -> bool {
    candidate == "hello"@
}

/// Pure credential check: no side effects, and the candidate is not
/// retained beyond the call.
pub fn verify(candidate: &String) -> (r: bool)
    ensures
        r == spec_verify(candidate@),
{
    let expected: String = "hello".to_string();
    *candidate == expected
}

} // verus!
