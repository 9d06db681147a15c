//! The length analyzer: a password needs at least eight characters.

use crate::secret::expose;
use crate::secret::Password;
use crate::sections::outcome_of;
use crate::sections::SectionOutcome;
use crate::sections::SectionResult;
use vstd::prelude::*;
use vstd::string::StrSliceExecFns;

verus! {

/// The least number of characters of an acceptable password.
pub const MIN_LENGTH: usize = 8;

/// The reason given for a password that is too short.
pub open spec fn too_short_reason() -> Seq<char> {
    "Password must be at least 8 characters"@
}

/// A password fails exactly if it has fewer than eight characters.
pub open spec fn length_outcome(text: Seq<char>) -> SectionOutcome {
    if text.len() < MIN_LENGTH {
        SectionOutcome::Failed(too_short_reason())
    } else {
        SectionOutcome::Passed
    }
}

/// Checks the length of `text`.
pub fn analyze_length(text: &str) -> (result: SectionResult)
    ensures
        outcome_of(result) == length_outcome(text@),
{
    if text.unicode_len() < MIN_LENGTH {
        Ok(Some("Password must be at least 8 characters".to_owned()))
    } else {
        Ok(None)
    }
}

/// Checks that the password has at least eight characters.
pub fn length_section(password: &Password) -> (result: SectionResult)
    ensures
        outcome_of(result) == length_outcome(password@),
{
    analyze_length(expose(password))
}

} // verus!
