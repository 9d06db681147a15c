//! The pattern analyzer: a password must not repeat one character three times
//! in a row, nor run through four or five neighbouring code points.

use crate::secret::expose;
use crate::secret::Password;
use crate::sections::outcome_of;
use crate::sections::SectionOutcome;
use crate::sections::SectionResult;
use crate::text::chars_of;
use crate::text::code_of;
use vstd::prelude::*;

verus! {

/// The reason given for a repeated character.
pub open spec fn repetitive_reason() -> Seq<char> {
    "Password contains repetitive patterns"@
}

/// The reason given for a run of neighbouring code points.
pub open spec fn sequential_reason() -> Seq<char> {
    "Password contains sequential patterns"@
}

/// Whether the three characters from position `at` on are the same.
pub open spec fn repeats_at(text: Seq<char>, at: int) -> bool {
    &&& 0 <= at
    &&& at + 2 < text.len()
    &&& text[at] == text[at + 1]
    &&& text[at + 1] == text[at + 2]
}

/// Whether some character stands three times in a row.
pub open spec fn has_repetition(text: Seq<char>) -> bool {
    exists|at: int| repeats_at(text, at)
}

/// Whether the code point after position `at` is that at `at` plus `step`.
pub open spec fn steps_by(text: Seq<char>, at: int, step: int) -> bool {
    text[at + 1] as int == text[at] as int + step
}

/// Whether the `width` characters from `start` on lie within the text and
/// each differs from the one before by `step`.
pub open spec fn runs_at(text: Seq<char>, start: int, width: int, step: int) -> bool {
    &&& 0 <= start
    &&& start + width <= text.len()
    &&& forall|at: int| start <= at < start + width - 1 ==> #[trigger] steps_by(text, at, step)
}

/// Whether the window of `width` characters at `start` rises by one from
/// each character to the next, or falls by one from each to the next.
pub open spec fn is_sequence_at(text: Seq<char>, start: int, width: int) -> bool {
    runs_at(text, start, width, 1) || runs_at(text, start, width, -1)
}

/// Whether some window of `width` characters is a sequence.
pub open spec fn has_sequence_of(text: Seq<char>, width: int) -> bool {
    exists|start: int| is_sequence_at(text, start, width)
}

/// Whether some window of four or of five characters is a sequence.
pub open spec fn has_sequence(text: Seq<char>) -> bool {
    has_sequence_of(text, 4) || has_sequence_of(text, 5)
}

/// A password of fewer than three characters passes. Any other fails for a
/// repetition if it has one, else for a sequence if it has one.
pub open spec fn pattern_outcome(text: Seq<char>) -> SectionOutcome {
    if text.len() < 3 {
        SectionOutcome::Passed
    } else if has_repetition(text) {
        SectionOutcome::Failed(repetitive_reason())
    } else if has_sequence(text) {
        SectionOutcome::Failed(sequential_reason())
    } else {
        SectionOutcome::Passed
    }
}

/// Whether some character stands three times in a row in `chars`.
fn find_repetition(chars: &Vec<char>) -> (found: bool)
    ensures
        found == has_repetition(chars@),
{
    let n = chars.len();
    if n < 3 {
        return false;
    }
    let mut at: usize = 0;
    while at < n - 2
        invariant
            3 <= n == chars.len(),
            forall|before: int| 0 <= before < at ==> !repeats_at(chars@, before),
        decreases n - at,
    {
        if chars[at] == chars[at + 1] && chars[at + 1] == chars[at + 2] {
            assert(repeats_at(chars@, at as int));
            return true;
        }
        at += 1;
    }
    false
}

/// Whether the `width` characters from `start` on rise by one each, or, with
/// `rising` false, fall by one each.
fn is_run(chars: &Vec<char>, start: usize, width: usize, rising: bool) -> (run: bool)
    requires
        1 <= width,
        start + width <= chars.len(),
    ensures
        run == runs_at(
            chars@,
            start as int,
            width as int,
            if rising {
                1
            } else {
                -1
            },
        ),
{
    let ghost step: int = if rising {
        1
    } else {
        -1
    };
    let last: usize = start + width - 1;
    let mut at: usize = start;
    while at < last
        invariant
            last == start + width - 1,
            start <= at <= last < chars.len(),
            step == if rising {
                1int
            } else {
                -1int
            },
            forall|before: int| start <= before < at ==> #[trigger] steps_by(chars@, before, step),
        decreases last - at,
    {
        let here: u32 = code_of(chars[at]);
        let next: u32 = code_of(chars[at + 1]);
        let follows = if rising {
            next == here + 1
        } else {
            next + 1 == here
        };
        if !follows {
            assert(!steps_by(chars@, at as int, step));
            return false;
        }
        at += 1;
    }
    true
}

/// Whether some window of `width` characters of `chars` is a sequence. The
/// windows are tried from left to right.
fn find_sequence(chars: &Vec<char>, width: usize) -> (found: bool)
    requires
        1 <= width,
    ensures
        found == has_sequence_of(chars@, width as int),
{
    let n = chars.len();
    if n < width {
        return false;
    }
    let mut start: usize = 0;
    while start <= n - width
        invariant
            n == chars.len(),
            1 <= width <= n,
            forall|before: int| 0 <= before < start ==> !is_sequence_at(chars@, before, width as int),
        decreases n - start,
    {
        if is_run(chars, start, width, true) || is_run(chars, start, width, false) {
            assert(is_sequence_at(chars@, start as int, width as int));
            return true;
        }
        start += 1;
    }
    false
}

/// Looks for repetitions and sequences in `text`.
pub fn analyze_pattern(text: &str) -> (result: SectionResult)
    ensures
        outcome_of(result) == pattern_outcome(text@),
{
    let chars = chars_of(text);
    if chars.len() < 3 {
        return Ok(None);
    }
    if find_repetition(&chars) {
        return Ok(Some("Password contains repetitive patterns".to_owned()));
    }
    if find_sequence(&chars, 4) || find_sequence(&chars, 5) {
        return Ok(Some("Password contains sequential patterns".to_owned()));
    }
    Ok(None)
}

/// Checks that the password shows no repetition and no sequence.
pub fn pattern_analysis_section(password: &Password) -> (result: SectionResult)
    ensures
        outcome_of(result) == pattern_outcome(password@),
{
    analyze_pattern(expose(password))
}

} // verus!
