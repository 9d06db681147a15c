//! What the analyzers and the scoring model read off a password: its length,
//! the character classes it holds, and how many special and how many distinct
//! characters it has.

use crate::text::char_is_alphanumeric;
use crate::text::char_is_digit;
use crate::text::char_is_lowercase;
use crate::text::char_is_uppercase;
use crate::text::chars_of;
use crate::text::code_of;
use crate::text::code_point;
use crate::text::is_digit;
use crate::text::is_lowercase;
use crate::text::is_special;
use crate::text::is_uppercase;
use crate::text::lemma_code_point_is_injective;
use vstd::hash_set::HashSetWithView;
use vstd::prelude::*;

verus! {

/// Whether `text` holds an uppercase letter.
pub open spec fn has_uppercase(text: Seq<char>) -> bool {
    exists|i: int| 0 <= i < text.len() && is_uppercase(#[trigger] text[i])
}

/// Whether `text` holds a lowercase letter.
pub open spec fn has_lowercase(text: Seq<char>) -> bool {
    exists|i: int| 0 <= i < text.len() && is_lowercase(#[trigger] text[i])
}

/// Whether `text` holds a decimal digit.
pub open spec fn has_digit(text: Seq<char>) -> bool {
    exists|i: int| 0 <= i < text.len() && is_digit(#[trigger] text[i])
}

/// Whether `text` holds a special character.
pub open spec fn has_special(text: Seq<char>) -> bool {
    exists|i: int| 0 <= i < text.len() && is_special(#[trigger] text[i])
}

/// How many characters of `text` are special, counted with repetition.
pub open spec fn special_count(text: Seq<char>) -> nat {
    text.filter(|c: char| is_special(c)).len()
}

/// How many different characters occur in `text`.
pub open spec fn distinct_count(text: Seq<char>) -> nat {
    text.to_set().len()
}

/// The measurements of one password.
#[derive(Clone, Copy, Debug, PartialEq, Eq)]
pub struct PasswordProfile {
    /// Number of characters.
    pub length: usize,
    /// An uppercase letter occurs.
    pub has_upper: bool,
    /// A lowercase letter occurs.
    pub has_lower: bool,
    /// A decimal digit occurs.
    pub has_digit: bool,
    /// A special character occurs.
    pub has_special: bool,
    /// Number of special characters, counted with repetition.
    pub special_count: usize,
    /// Number of different characters.
    pub distinct: usize,
}

impl PasswordProfile {
    /// Whether this profile holds the measurements of `text`.
    pub open spec fn describes(&self, text: Seq<char>) -> bool {
        &&& self.length == text.len()
        &&& self.has_upper == has_uppercase(text)
        &&& self.has_lower == has_lowercase(text)
        &&& self.has_digit == has_digit(text)
        &&& self.has_special == has_special(text)
        &&& self.special_count == special_count(text)
        &&& self.distinct == distinct_count(text)
    }

    /// Measures `text` in one pass.
    pub fn of(text: &str) -> (profile: PasswordProfile)
        ensures
            profile.describes(text@),
    {
        broadcast use vstd::std_specs::hash::group_hash_axioms;
        broadcast use vstd::hash_set::group_hash_set_axioms;

        let chars = chars_of(text);
        let ghost counted = |c: char| is_special(c);
        let ghost code = |c: char| code_point(c);
        let mut upper = false;
        let mut lower = false;
        let mut digit = false;
        let mut special = false;
        let mut special_count: usize = 0;
        let mut seen: HashSetWithView<u32> = HashSetWithView::new();
        let mut i: usize = 0;
        while i < chars.len()
            invariant
                i <= chars.len(),
                chars@ == text@,
                counted == (|c: char| is_special(c)),
                code == (|c: char| code_point(c)),
                upper == has_uppercase(text@.take(i as int)),
                lower == has_lowercase(text@.take(i as int)),
                digit == has_digit(text@.take(i as int)),
                special == has_special(text@.take(i as int)),
                special_count == text@.take(i as int).filter(counted).len(),
                special_count <= i,
                seen@ == text@.take(i as int).map_values(code).to_set(),
            decreases chars.len() - i,
        {
            let c = chars[i];
            let ghost before = text@.take(i as int);
            let ghost after = text@.take(i + 1);
            proof {
                reveal(Seq::filter);
                assert(after.drop_last() =~= before);
                assert(after =~= before.push(c));
                assert(after.map_values(code) =~= before.map_values(code).push(code_point(c)));
                before.map_values(code).lemma_push_to_set_commute(code_point(c));
            }
            if char_is_uppercase(c) {
                upper = true;
            }
            if char_is_lowercase(c) {
                lower = true;
            }
            if char_is_digit(c) {
                digit = true;
            }
            if !char_is_alphanumeric(c) {
                special = true;
                special_count += 1;
            }
            seen.insert(code_of(c));
            proof {
                assert(has_uppercase(after) <==> has_uppercase(before) || is_uppercase(c)) by {
                    lemma_exists_after_push(before, c, |x: char| is_uppercase(x));
                }
                assert(has_lowercase(after) <==> has_lowercase(before) || is_lowercase(c)) by {
                    lemma_exists_after_push(before, c, |x: char| is_lowercase(x));
                }
                assert(has_digit(after) <==> has_digit(before) || is_digit(c)) by {
                    lemma_exists_after_push(before, c, |x: char| is_digit(x));
                }
                assert(has_special(after) <==> has_special(before) || is_special(c)) by {
                    lemma_exists_after_push(before, c, |x: char| is_special(x));
                }
            }
            i += 1;
        }
        let distinct = seen.len();
        proof {
            assert(text@.take(chars.len() as int) =~= text@);
            text@.lemma_to_set_map_commutes(code);
            vstd::seq_lib::seq_to_set_is_finite(text@);
            assert(vstd::relations::injective_on(code, text@.to_set())) by {
                assert forall|a: char, b: char| #[trigger] code(a) == #[trigger] code(b) implies a
                    == b by {
                    lemma_code_point_is_injective(a, b);
                }
            }
            vstd::set_lib::lemma_map_size(text@.to_set(), seen@, code);
        }
        PasswordProfile {
            length: chars.len(),
            has_upper: upper,
            has_lower: lower,
            has_digit: digit,
            has_special: special,
            special_count,
            distinct,
        }
    }
}

/// A sequence extended by one element holds an element with a property exactly
/// if the sequence did or the new element has it.
pub proof fn lemma_exists_after_push(text: Seq<char>, c: char, property: spec_fn(char) -> bool)
    ensures
        (exists|i: int| 0 <= i < text.push(c).len() && property(#[trigger] text.push(c)[i])) <==> (
        exists|i: int| 0 <= i < text.len() && property(#[trigger] text[i])) || property(c),
{
    let longer = text.push(c);
    if exists|i: int| 0 <= i < text.len() && property(#[trigger] text[i]) {
        let i = choose|i: int| 0 <= i < text.len() && property(#[trigger] text[i]);
        assert(property(longer[i]));
    }
    if property(c) {
        assert(property(longer[text.len() as int]));
    }
}

} // verus!
