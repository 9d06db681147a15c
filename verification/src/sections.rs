//! The analyzers. Each one looks at the password and either passes, fails
//! with a reason, or reports that it could not do its work.

pub mod blacklist;
pub mod length;
pub mod pattern;
pub mod variety;

pub use blacklist::blacklist_section;
pub use length::length_section;
pub use pattern::pattern_analysis_section;
pub use variety::character_variety_section;

use vstd::prelude::*;

verus! {

/// What an analyzer returns: `Ok(None)` when it passed, `Ok(Some(reason))`
/// when it found a deficiency, `Err(())` when it could not complete.
pub type SectionResult = Result<Option<String>, ()>;

/// What an analyzer came to.
pub enum SectionOutcome {
    /// No deficiency.
    Passed,
    /// A deficiency, with its reason.
    Failed(Seq<char>),
    /// The analyzer could not complete.
    Fatal,
}

/// The outcome that a result stands for.
pub open spec fn outcome_of(result: SectionResult) -> SectionOutcome {
    match result {
        Ok(None) => SectionOutcome::Passed,
        Ok(Some(reason)) => SectionOutcome::Failed(reason@),
        Err(_) => SectionOutcome::Fatal,
    }
}

} // verus!
