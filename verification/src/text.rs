//! Characters and text: the Unicode character classes, lower-casing,
//! trimming and joining.
//!
//! The Unicode tables belong to the standard library. Each character class is
//! a spec function without a body here, and a small wrapper takes on trust
//! that the standard library's answer is that function of the character.

use vstd::prelude::*;

verus! {

/// Whether `c` has the Unicode property `Uppercase`.
pub uninterp spec fn is_uppercase(c: char) -> bool;

/// Whether `c` has the Unicode property `Lowercase`.
pub uninterp spec fn is_lowercase(c: char) -> bool;

/// Whether `c` has the Unicode property `Alphabetic` or is a number of the
/// general categories `Nd`, `Nl` or `No`.
pub uninterp spec fn is_alphanumeric(c: char) -> bool;

/// Whether `c` has the Unicode property `White_Space`.
pub uninterp spec fn is_whitespace(c: char) -> bool;

/// The lower-case form of `text` under Unicode's case mapping.
pub uninterp spec fn lowercase(text: Seq<char>) -> Seq<char>;

/// Whether `c` is one of the ten ASCII decimal digits.
pub open spec fn is_digit(c: char) -> bool {
    '0' <= c && c <= '9'
}

/// Whether `c` counts as a special character: anything that is not
/// alphanumeric.
pub open spec fn is_special(c: char) -> bool {
    !is_alphanumeric(c)
}

/// Asks `char::is_uppercase`. Taken on trust: the answer depends on nothing
/// but the character, and so is `is_uppercase(c)`.
#[verifier::external_body]
pub(crate) fn char_is_uppercase(c: char) -> (answer: bool)
    ensures
        answer == is_uppercase(c),
{
    c.is_uppercase()
}

/// Asks `char::is_lowercase`. Taken on trust: the answer depends on nothing
/// but the character, and so is `is_lowercase(c)`.
#[verifier::external_body]
pub(crate) fn char_is_lowercase(c: char) -> (answer: bool)
    ensures
        answer == is_lowercase(c),
{
    c.is_lowercase()
}

/// Asks `char::is_alphanumeric`. Taken on trust: the answer depends on nothing
/// but the character, and so is `is_alphanumeric(c)`.
#[verifier::external_body]
pub(crate) fn char_is_alphanumeric(c: char) -> (answer: bool)
    ensures
        answer == is_alphanumeric(c),
{
    c.is_alphanumeric()
}

/// Asks `char::is_whitespace`. Taken on trust: the answer depends on nothing
/// but the character, and so is `is_whitespace(c)`.
#[verifier::external_body]
pub(crate) fn char_is_whitespace(c: char) -> (answer: bool)
    ensures
        answer == is_whitespace(c),
{
    c.is_whitespace()
}

/// Calls `str::to_lowercase`, which returns the lower case equivalent of the
/// string as a new `String`. Taken on trust: the result depends on nothing but
/// the characters of the string, and so is `lowercase(text@)`.
#[verifier::external_body]
pub(crate) fn to_lowercase(text: &str) -> (lowered: String)
    ensures
        lowered@ == lowercase(text@),
{
    text.to_lowercase()
}

/// Calls `String::push`. Taken on trust: it appends the character to the end
/// of the string and changes nothing else.
#[verifier::external_body]
pub(crate) fn push_char(text: &mut String, c: char)
    ensures
        final(text)@ == old(text)@.push(c),
{
    text.push(c)
}

/// The code point of a character.
pub open spec fn code_point(c: char) -> u32 {
    c as u32
}

/// Different characters have different code points.
pub proof fn lemma_code_point_is_injective(a: char, b: char)
    ensures
        code_point(a) == code_point(b) ==> a == b,
{
}

/// The code point of `c`, which is at most `0x10FFFF`.
pub fn code_of(c: char) -> (code: u32)
    ensures
        code == code_point(c),
        code == c as int,
        code <= 0x10FFFF,
{
    c as u32
}

/// Whether `c` is an ASCII decimal digit.
pub fn char_is_digit(c: char) -> (answer: bool)
    ensures
        answer == is_digit(c),
{
    c >= '0' && c <= '9'
}

/// The characters of `text`, in order.
pub fn chars_of(text: &str) -> (chars: Vec<char>)
    ensures
        chars@ == text@,
{
    broadcast use vstd::string::group_string_axioms;

    let mut chars: Vec<char> = Vec::new();
    for c in it: text.chars()
        invariant
            it.seq() == text@,
            chars@ == text@.take(it.index() as int),
    {
        chars.push(c);
    }
    chars
}

/// The text made of `chars[from..to]`.
pub(crate) fn text_of(chars: &Vec<char>, from: usize, to: usize) -> (text: String)
    requires
        from <= to <= chars.len(),
    ensures
        text@ == chars@.subrange(from as int, to as int),
{
    let mut text = String::new();
    let mut i: usize = from;
    while i < to
        invariant
            from <= i <= to <= chars.len(),
            text@ == chars@.subrange(from as int, i as int),
        decreases to - i,
    {
        push_char(&mut text, chars[i]);
        i += 1;
    }
    text
}

/// Whether every character of `text` is whitespace; true of the empty text.
pub open spec fn is_blank(text: Seq<char>) -> bool {
    forall|i: int| 0 <= i < text.len() ==> is_whitespace(#[trigger] text[i])
}

/// `text` without its leading whitespace.
pub open spec fn trim_start(text: Seq<char>) -> Seq<char>
    decreases text.len(),
{
    if text.len() > 0 && is_whitespace(text.first()) {
        trim_start(text.drop_first())
    } else {
        text
    }
}

/// `text` without its trailing whitespace.
pub open spec fn trim_end(text: Seq<char>) -> Seq<char>
    decreases text.len(),
{
    if text.len() > 0 && is_whitespace(text.last()) {
        trim_end(text.drop_last())
    } else {
        text
    }
}

/// `text` without its leading and trailing whitespace.
pub open spec fn trim(text: Seq<char>) -> Seq<char> {
    trim_end(trim_start(text))
}

/// Dropping a whitespace prefix that ends at a non-whitespace character (or at
/// the end of the text) is `trim_start`.
pub proof fn lemma_trim_start_skips(text: Seq<char>, count: int)
    requires
        0 <= count <= text.len(),
        is_blank(text.take(count)),
        count < text.len() ==> !is_whitespace(text[count]),
    ensures
        trim_start(text) == text.skip(count),
    decreases count,
{
    if count > 0 {
        assert(text.take(count)[0] == text[0]);
        let rest = text.drop_first();
        assert forall|i: int| 0 <= i < rest.take(count - 1).len() implies is_whitespace(
            #[trigger] rest.take(count - 1)[i],
        ) by {
            assert(rest.take(count - 1)[i] == text.take(count)[i + 1]);
        }
        lemma_trim_start_skips(rest, count - 1);
    }
}

/// Dropping a whitespace suffix that starts after a non-whitespace character
/// (or at the start of the text) is `trim_end`.
pub proof fn lemma_trim_end_takes(text: Seq<char>, count: int)
    requires
        0 <= count <= text.len(),
        is_blank(text.skip(count)),
        count > 0 ==> !is_whitespace(text[count - 1]),
    ensures
        trim_end(text) == text.take(count),
    decreases text.len() - count,
{
    if count < text.len() {
        assert(text.skip(count)[text.len() - count - 1] == text.last());
        let rest = text.drop_last();
        assert forall|i: int| 0 <= i < rest.skip(count).len() implies is_whitespace(
            #[trigger] rest.skip(count)[i],
        ) by {
            assert(rest.skip(count)[i] == text.skip(count)[i]);
        }
        lemma_trim_end_takes(rest, count);
    }
}

/// The bounds of `trim(chars[from..to])` within `chars`: the trimmed text is
/// `chars[bounds.0..bounds.1]`.
pub(crate) fn trim_bounds(chars: &Vec<char>, from: usize, to: usize) -> (bounds: (usize, usize))
    requires
        from <= to <= chars.len(),
    ensures
        from <= bounds.0 <= bounds.1 <= to,
        chars@.subrange(bounds.0 as int, bounds.1 as int) == trim(
            chars@.subrange(from as int, to as int),
        ),
{
    let ghost line = chars@.subrange(from as int, to as int);
    let mut start: usize = from;
    while start < to && char_is_whitespace(chars[start])
        invariant
            from <= start <= to <= chars.len(),
            line == chars@.subrange(from as int, to as int),
            is_blank(line.take(start - from)),
        decreases to - start,
    {
        start += 1;
    }
    let ghost rest = line.skip(start - from);
    proof {
        lemma_trim_start_skips(line, start - from);
    }
    let mut end: usize = to;
    while end > start && char_is_whitespace(chars[end - 1])
        invariant
            start <= end <= to <= chars.len(),
            rest == chars@.subrange(start as int, to as int),
            is_blank(rest.skip(end - start)),
        decreases end - start,
    {
        assert forall|i: int| 0 <= i < rest.skip(end - 1 - start).len() implies is_whitespace(
            #[trigger] rest.skip(end - 1 - start)[i],
        ) by {
            if i > 0 {
                assert(rest.skip(end - start)[i - 1] == rest[end - start + i - 1]);
            }
        }
        end -= 1;
    }
    proof {
        lemma_trim_end_takes(rest, end - start);
    }
    (start, end)
}

/// Whether `text` is blank.
pub fn text_is_blank(text: &str) -> (answer: bool)
    ensures
        answer == is_blank(text@),
{
    let chars = chars_of(text);
    let mut i: usize = 0;
    while i < chars.len()
        invariant
            i <= chars.len(),
            chars@ == text@,
            forall|j: int| 0 <= j < i ==> is_whitespace(#[trigger] text@[j]),
        decreases chars.len() - i,
    {
        if !char_is_whitespace(chars[i]) {
            return false;
        }
        i += 1;
    }
    true
}

/// The strings as sequences of characters.
pub open spec fn texts(strings: Seq<String>) -> Seq<Seq<char>> {
    strings.map_values(|string: String| string@)
}

/// One more string at the end is one more sequence at the end.
pub proof fn lemma_texts_push(strings: Seq<String>, string: String)
    ensures
        texts(strings.push(string)) == texts(strings).push(string@),
{
}

/// The parts, with the separator between each two neighbours.
pub open spec fn join(parts: Seq<Seq<char>>, separator: Seq<char>) -> Seq<char>
    decreases parts.len(),
{
    if parts.len() == 0 {
        Seq::empty()
    } else if parts.len() == 1 {
        parts[0]
    } else {
        join(parts.drop_last(), separator) + separator + parts.last()
    }
}

/// The views of the parts.
pub open spec fn views(parts: Seq<&'static str>) -> Seq<Seq<char>> {
    parts.map_values(|part: &'static str| part@)
}

/// Appends to `text` the parts, joined by the separator.
pub fn append_joined(text: &mut String, parts: &Vec<&'static str>, separator: &str)
    ensures
        final(text)@ == old(text)@ + join(views(parts@), separator@),
{
    let ghost names = views(parts@);
    let mut i: usize = 0;
    while i < parts.len()
        invariant
            i <= parts.len(),
            names == views(parts@),
            text@ == old(text)@ + join(names.take(i as int), separator@),
        decreases parts.len() - i,
    {
        let ghost before = names.take(i as int);
        let ghost after = names.take(i + 1);
        assert(after.drop_last() =~= before);
        if i > 0 {
            text.append(separator);
            assert(old(text)@ + join(before, separator@) + separator@ + after.last() =~= old(
                text,
            )@ + join(after, separator@));
        } else {
            assert(old(text)@ + join(before, separator@) + after.last() =~= old(text)@ + join(
                after,
                separator@,
            ));
        }
        text.append(parts[i]);
        i += 1;
    }
    assert(names.take(parts.len() as int) =~= names);
}

} // verus!
