//! The scoring model: bonuses for length, variety, special characters and
//! distinct characters, a penalty for each deficiency, and the strength tier
//! that a score falls into.

use crate::profile::distinct_count;
use crate::profile::has_digit;
use crate::profile::has_lowercase;
use crate::profile::has_special;
use crate::profile::has_uppercase;
use crate::profile::special_count;
use crate::profile::PasswordProfile;
use vstd::prelude::*;

verus! {

/// The highest score.
pub const MAX_SCORE: u8 = 100;

/// Scores below this are weak.
pub const MEDIUM_THRESHOLD: u8 = 50;

/// Scores below this, and not weak, are medium.
pub const STRONG_THRESHOLD: u8 = 70;

/// Scores below this, and not medium, are strong.
pub const EPIC_THRESHOLD: u8 = 85;

/// Scores below this, and not strong, are epic; the rest are god.
pub const GOD_THRESHOLD: u8 = 95;

/// The tier of a password.
#[derive(Clone, Copy, Debug, PartialEq, Eq)]
pub enum PasswordStrength {
    /// There is no score: the evaluation did not run to its end.
    NotEvaluated,
    /// Score below 50.
    WEAK,
    /// Score from 50 to 69.
    MEDIUM,
    /// Score from 70 to 84.
    STRONG,
    /// Score from 85 to 94.
    EPIC,
    /// Score from 95 to 100.
    GOD,
}

/// `raw` brought into the range from 0 to 100.
pub open spec fn clamp_score(raw: int) -> int {
    if raw < 0 {
        0
    } else if raw > MAX_SCORE {
        MAX_SCORE as int
    } else {
        raw
    }
}

/// The tier of a score; without a score the password is not evaluated.
pub open spec fn strength_of(score: Option<int>) -> PasswordStrength {
    match score {
        None => PasswordStrength::NotEvaluated,
        Some(value) => if value < MEDIUM_THRESHOLD {
            PasswordStrength::WEAK
        } else if value < STRONG_THRESHOLD {
            PasswordStrength::MEDIUM
        } else if value < EPIC_THRESHOLD {
            PasswordStrength::STRONG
        } else if value < GOD_THRESHOLD {
            PasswordStrength::EPIC
        } else {
            PasswordStrength::GOD
        },
    }
}

/// The place of a tier among the tiers, from the weakest to the strongest;
/// `NotEvaluated` stands before them all.
pub open spec fn tier_rank(strength: PasswordStrength) -> nat {
    match strength {
        PasswordStrength::NotEvaluated => 0,
        PasswordStrength::WEAK => 1,
        PasswordStrength::MEDIUM => 2,
        PasswordStrength::STRONG => 3,
        PasswordStrength::EPIC => 4,
        PasswordStrength::GOD => 5,
    }
}

/// A score from 0 to 100.
#[derive(Clone, Copy, Debug, PartialEq, Eq)]
pub struct PasswordScore {
    value: u8,
}

impl View for PasswordScore {
    type V = int;

    closed spec fn view(&self) -> int {
        self.value as int
    }
}

impl PasswordScore {
    #[verifier::type_invariant]
    spec fn in_range(self) -> bool {
        self.value <= MAX_SCORE
    }

    /// The score nearest to `raw`: values below 0 give 0, values above 100
    /// give 100.
    pub fn new(raw: i64) -> (score: PasswordScore)
        ensures
            score@ == clamp_score(raw as int),
    {
        if raw < 0 {
            PasswordScore { value: 0 }
        } else if raw > MAX_SCORE as i64 {
            PasswordScore { value: MAX_SCORE }
        } else {
            PasswordScore { value: raw as u8 }
        }
    }

    /// The score as a number, which is never above 100.
    pub fn value(&self) -> (value: u8)
        ensures
            value == self@,
            0 <= value <= 100,
    {
        proof {
            use_type_invariant(self);
        }
        self.value
    }

    /// The tier that the score falls into.
    pub fn strength(&self) -> (strength: PasswordStrength)
        ensures
            strength == strength_of(Some(self@)),
            strength != PasswordStrength::NotEvaluated,
    {
        let value = self.value;
        if value < MEDIUM_THRESHOLD {
            PasswordStrength::WEAK
        } else if value < STRONG_THRESHOLD {
            PasswordStrength::MEDIUM
        } else if value < EPIC_THRESHOLD {
            PasswordStrength::STRONG
        } else if value < GOD_THRESHOLD {
            PasswordStrength::EPIC
        } else {
            PasswordStrength::GOD
        }
    }
}

/// Half a point for each character, at most 20.
pub open spec fn length_bonus(length: nat) -> int {
    if length / 2 < 20 {
        (length / 2) as int
    } else {
        20
    }
}

/// 15 points for each character class that occurs.
pub open spec fn variety_bonus(classes: nat) -> int {
    15 * (classes as int)
}

/// 10 points for more than 16 characters, else 5 for more than 12.
pub open spec fn extra_length_bonus(length: nat) -> int {
    if length > 16 {
        10
    } else if length > 12 {
        5
    } else {
        0
    }
}

/// 5 points for two or more special characters.
pub open spec fn multiple_special_bonus(specials: nat) -> int {
    if specials >= 2 {
        5
    } else {
        0
    }
}

/// 10 points for 16 or more distinct characters, else 5 for 12 or more.
pub open spec fn uniqueness_bonus(distinct: nat) -> int {
    if distinct >= 16 {
        10
    } else if distinct >= 12 {
        5
    } else {
        0
    }
}

/// 10 points off for each deficiency.
pub open spec fn penalty(reasons: nat) -> int {
    10 * (reasons as int)
}

/// How many of the four character classes occur.
pub open spec fn class_count(upper: bool, lower: bool, digit: bool, special: bool) -> nat {
    counts(upper) + counts(lower) + counts(digit) + counts(special)
}

/// 1 for a class that occurs, 0 for one that does not.
pub open spec fn counts(present: bool) -> nat {
    if present {
        1
    } else {
        0
    }
}

/// All bonuses together, from the measurements of a password.
pub open spec fn bonus_of(length: nat, classes: nat, specials: nat, distinct: nat) -> int {
    length_bonus(length) + variety_bonus(classes) + extra_length_bonus(length)
        + multiple_special_bonus(specials) + uniqueness_bonus(distinct)
}

/// All bonuses of a profile together.
pub open spec fn profile_bonus(profile: PasswordProfile) -> int {
    bonus_of(
        profile.length as nat,
        class_count(profile.has_upper, profile.has_lower, profile.has_digit, profile.has_special),
        profile.special_count as nat,
        profile.distinct as nat,
    )
}

/// All bonuses of a password together.
pub open spec fn bonus(text: Seq<char>) -> int {
    bonus_of(
        text.len(),
        class_count(has_uppercase(text), has_lowercase(text), has_digit(text), has_special(text)),
        special_count(text),
        distinct_count(text),
    )
}

/// The score of a password for which `reasons` deficiencies were found.
pub open spec fn score_value(text: Seq<char>, reasons: nat) -> int {
    clamp_score(bonus(text) - penalty(reasons))
}

fn length_points(length: usize) -> (points: i64)
    ensures
        points == length_bonus(length as nat),
{
    let half = length / 2;
    if half < 20 {
        half as i64
    } else {
        20
    }
}

fn class_points(present: bool) -> (points: i64)
    ensures
        points == variety_bonus(counts(present)),
{
    if present {
        15
    } else {
        0
    }
}

fn extra_length_points(length: usize) -> (points: i64)
    ensures
        points == extra_length_bonus(length as nat),
{
    if length > 16 {
        10
    } else if length > 12 {
        5
    } else {
        0
    }
}

fn multiple_special_points(specials: usize) -> (points: i64)
    ensures
        points == multiple_special_bonus(specials as nat),
{
    if specials >= 2 {
        5
    } else {
        0
    }
}

fn uniqueness_points(distinct: usize) -> (points: i64)
    ensures
        points == uniqueness_bonus(distinct as nat),
{
    if distinct >= 16 {
        10
    } else if distinct >= 12 {
        5
    } else {
        0
    }
}

fn penalty_points(reasons: usize) -> (points: i64)
    ensures
        0 <= points <= 110,
        points == penalty(reasons as nat) || (points == 110 && penalty(reasons as nat) > 110),
{
    if reasons > 10 {
        110
    } else {
        10 * (reasons as i64)
    }
}

/// Scores the measurements in `profile` against `reasons` deficiencies.
pub fn score_profile(profile: &PasswordProfile, reasons: usize) -> (score: PasswordScore)
    ensures
        score@ == clamp_score(profile_bonus(*profile) - penalty(reasons as nat)),
{
    let total = length_points(profile.length) + class_points(profile.has_upper) + class_points(
        profile.has_lower,
    ) + class_points(profile.has_digit) + class_points(profile.has_special) + extra_length_points(
        profile.length,
    ) + multiple_special_points(profile.special_count) + uniqueness_points(profile.distinct);
    PasswordScore::new(total - penalty_points(reasons))
}

/// Scores a password against the deficiencies found in it.
pub fn score_password(password: &str, reasons: &Vec<String>) -> (score: PasswordScore)
    ensures
        score@ == score_value(password@, reasons@.len()),
        0 <= score@ <= 100,
{
    let profile = PasswordProfile::of(password);
    score_profile(&profile, reasons.len())
}

} // verus!
