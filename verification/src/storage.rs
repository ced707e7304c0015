//! Classification of secure-storage errors.

use vstd::prelude::*;

use crate::text::{contains_substring, lower_of, spec_contains_seq, to_lowercase};

verus! {

/// A keychain error that only means "no entry yet": its lowercased message
/// names a missing entry rather than a failure.
pub fn is_not_found_error(message: &str) -> (r: bool)
    ensures
        ({
            let lowered = lower_of(message@);
            r == (spec_contains_seq(lowered, "no entry"@) || spec_contains_seq(
                lowered,
                "not found"@,
            ) || spec_contains_seq(lowered, "no matching entry"@))
        }),
{
    let normalized = to_lowercase(message);
    contains_substring(normalized.as_str(), "no entry") || contains_substring(
        normalized.as_str(),
        "not found",
    ) || contains_substring(normalized.as_str(), "no matching entry")
}

} // verus!
