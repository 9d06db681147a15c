//! The variety analyzer: a password needs an uppercase letter, a lowercase
//! letter, a digit and a special character.

use crate::profile::has_digit;
use crate::profile::has_lowercase;
use crate::profile::has_special;
use crate::profile::has_uppercase;
use crate::profile::PasswordProfile;
use crate::secret::expose;
use crate::secret::Password;
use crate::sections::outcome_of;
use crate::sections::SectionOutcome;
use crate::sections::SectionResult;
use crate::text::append_joined;
use crate::text::join;
use crate::text::views;
use vstd::prelude::*;

verus! {

/// One name if the class is absent, none if it is present.
pub open spec fn named_if_absent(present: bool, name: Seq<char>) -> Seq<Seq<char>> {
    if present {
        Seq::empty()
    } else {
        seq![name]
    }
}

/// The names of the absent classes, in the order uppercase, lowercase,
/// numbers, special characters.
pub open spec fn missing_classes(upper: bool, lower: bool, digit: bool, special: bool) -> Seq<
    Seq<char>,
> {
    named_if_absent(upper, "uppercase"@) + named_if_absent(lower, "lowercase"@) + named_if_absent(
        digit,
        "numbers"@,
    ) + named_if_absent(special, "special characters"@)
}

/// The reason that names the absent classes.
pub open spec fn missing_reason(missing: Seq<Seq<char>>) -> Seq<char> {
    "Missing: "@ + join(missing, ", "@)
}

/// A password fails exactly if a class is absent, and the reason names the
/// absent classes.
pub open spec fn variety_outcome_of(
    upper: bool,
    lower: bool,
    digit: bool,
    special: bool,
) -> SectionOutcome {
    let missing = missing_classes(upper, lower, digit, special);
    if missing.len() == 0 {
        SectionOutcome::Passed
    } else {
        SectionOutcome::Failed(missing_reason(missing))
    }
}

/// The outcome for the classes that occur in `text`.
pub open spec fn variety_outcome(text: Seq<char>) -> SectionOutcome {
    variety_outcome_of(
        has_uppercase(text),
        has_lowercase(text),
        has_digit(text),
        has_special(text),
    )
}

/// Judges a password by the classes that occur in it.
pub fn judge_variety(upper: bool, lower: bool, digit: bool, special: bool) -> (result:
    SectionResult)
    ensures
        outcome_of(result) == variety_outcome_of(upper, lower, digit, special),
{
    let mut missing: Vec<&'static str> = Vec::new();
    if !upper {
        missing.push("uppercase");
    }
    let ghost first = missing@;
    if !lower {
        missing.push("lowercase");
    }
    let ghost second = missing@;
    if !digit {
        missing.push("numbers");
    }
    let ghost third = missing@;
    if !special {
        missing.push("special characters");
    }
    proof {
        assert(views(first) =~= named_if_absent(upper, "uppercase"@));
        assert(views(second) =~= views(first) + named_if_absent(lower, "lowercase"@));
        assert(views(third) =~= views(second) + named_if_absent(digit, "numbers"@));
        assert(views(missing@) =~= views(third) + named_if_absent(
            special,
            "special characters"@,
        ));
    }
    if missing.len() == 0 {
        Ok(None)
    } else {
        let mut reason = "Missing: ".to_owned();
        append_joined(&mut reason, &missing, ", ");
        Ok(Some(reason))
    }
}

/// Checks which character classes occur in `text`.
pub fn analyze_variety(text: &str) -> (result: SectionResult)
    ensures
        outcome_of(result) == variety_outcome(text@),
{
    let profile = PasswordProfile::of(text);
    judge_variety(profile.has_upper, profile.has_lower, profile.has_digit, profile.has_special)
}

/// Checks that the password holds all four character classes.
pub fn character_variety_section(password: &Password) -> (result: SectionResult)
    ensures
        outcome_of(result) == variety_outcome(password@),
{
    analyze_variety(expose(password))
}

} // verus!
