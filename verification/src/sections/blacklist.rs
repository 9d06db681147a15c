//! The blacklist analyzer: a password that the blacklist holds is one of the
//! most common.

use crate::blacklist::is_blacklisted;
use crate::blacklist::is_member;
use crate::blacklist::BlacklistStore;
use crate::secret::expose;
use crate::secret::Password;
use crate::sections::outcome_of;
use crate::sections::SectionOutcome;
use crate::sections::SectionResult;
use vstd::prelude::*;

verus! {

/// The reason given for a blacklisted password.
pub open spec fn blacklisted_reason() -> Seq<char> {
    "Password is in the top 10,000 most common"@
}

/// A password fails exactly if the blacklist holds it.
pub open spec fn blacklist_outcome(
    text: Seq<char>,
    entries: Option<Set<Seq<char>>>,
) -> SectionOutcome {
    if is_member(entries, text) {
        SectionOutcome::Failed(blacklisted_reason())
    } else {
        SectionOutcome::Passed
    }
}

/// Looks `text` up in the blacklist.
pub fn analyze_blacklist(text: &str, store: &BlacklistStore) -> (result: SectionResult)
    ensures
        outcome_of(result) == blacklist_outcome(text@, store@),
{
    if is_blacklisted(store, text) {
        Ok(Some("Password is in the top 10,000 most common".to_owned()))
    } else {
        Ok(None)
    }
}

/// Checks that the password is not in the blacklist.
pub fn blacklist_section(password: &Password, store: &BlacklistStore) -> (result: SectionResult)
    ensures
        outcome_of(result) == blacklist_outcome(password@, store@),
{
    analyze_blacklist(expose(password), store)
}

} // verus!
