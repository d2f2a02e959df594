//! Work on text: comparison, search, and putting strings together.

use vstd::prelude::*;
use vstd::string::StringExecFns;
use crate::keyed::names;

verus! {

/// `str`'s `==` from the standard library: two string slices are equal
/// exactly when they hold the same characters in the same order. Verus takes
/// this on trust.
#[verifier::external_body]
pub(crate) fn same_text(a: &str, b: &str) -> (same: bool)
    ensures
        same == (a@ == b@),
{
    a == b
}

/// The text of an optional string.
pub open spec fn text_of(value: Option<String>) -> Option<Seq<char>> {
    match value {
        Some(s) => Some(s@),
        None => None,
    }
}

/// Whether `needle` occurs in `haystack` as a run of consecutive characters.
pub open spec fn is_substring(needle: Seq<char>, haystack: Seq<char>) -> bool {
    exists|start: int|
        0 <= start && start + needle.len() <= haystack.len() && #[trigger] haystack.subrange(
            start,
            start + needle.len(),
        ) == needle
}

/// `str::contains` of the standard library with a string slice as the
/// pattern: whether the pattern occurs in the text as a run of consecutive
/// characters. Verus takes this on trust.
#[verifier::external_body]
pub(crate) fn contains_text(haystack: &str, needle: &str) -> (found: bool)
    ensures
        found == is_substring(needle@, haystack@),
{
    haystack.contains(needle)
}

/// What `str::to_lowercase` of the standard library makes of a text: its
/// lowercase equivalent by the Unicode rules.
pub uninterp spec fn lowercased(text: Seq<char>) -> Seq<char>;

/// `str::to_lowercase` of the standard library. The result depends on the
/// text alone; Verus knows it by name only.
#[verifier::external_body]
pub(crate) fn lowercase(text: &str) -> (lower: String)
    ensures
        lower@ == lowercased(text@),
{
    text.to_lowercase()
}

/// What `str::split_whitespace` of the standard library makes of a text:
/// its parts between runs of Unicode whitespace, in their order.
pub uninterp spec fn whitespace_split(text: Seq<char>) -> Seq<Seq<char>>;

/// `str::split_whitespace` of the standard library, each part as a string
/// of its own. The parts depend on the text alone; Verus knows them by name
/// only.
#[verifier::external_body]
pub(crate) fn split_whitespace(text: &str) -> (parts: Vec<String>)
    ensures
        names(parts@) == whitespace_split(text@),
{
    text.split_whitespace().map(|part| part.to_string()).collect()
}

/// What `str::lines` of the standard library makes of a text: its lines,
/// without their line ends.
pub uninterp spec fn text_lines(text: Seq<char>) -> Seq<Seq<char>>;

/// `str::lines` of the standard library, each line as a string of its own.
/// The lines depend on the text alone; Verus knows them by name only.
#[verifier::external_body]
pub(crate) fn split_lines(text: &str) -> (lines: Vec<String>)
    ensures
        names(lines@) == text_lines(text@),
{
    text.lines().map(|line| line.to_string()).collect()
}

/// How many lines a text has.
pub open spec fn line_count(text: Seq<char>) -> nat {
    text_lines(text).len()
}

/// How many lines `text` has.
pub fn count_lines(text: &str) -> (count: usize)
    ensures
        count as nat == line_count(text@),
{
    split_lines(text).len()
}

/// What `str::trim` of the standard library leaves of a text: the text
/// without the Unicode whitespace at its start and at its end.
pub uninterp spec fn trimmed(text: Seq<char>) -> Seq<char>;

/// `str::trim` of the standard library. The result depends on the text
/// alone; Verus knows it by name only.
#[verifier::external_body]
pub(crate) fn trim(text: &str) -> (rest: &str)
    ensures
        rest@ == trimmed(text@),
{
    text.trim()
}

/// The character of a decimal digit.
pub open spec fn digit_char(digit: nat) -> char {
    if digit == 0 {
        '0'
    } else if digit == 1 {
        '1'
    } else if digit == 2 {
        '2'
    } else if digit == 3 {
        '3'
    } else if digit == 4 {
        '4'
    } else if digit == 5 {
        '5'
    } else if digit == 6 {
        '6'
    } else if digit == 7 {
        '7'
    } else if digit == 8 {
        '8'
    } else {
        '9'
    }
}

/// A number in decimal digits, without leading zeros.
pub open spec fn decimal_text(number: nat) -> Seq<char>
    decreases number,
{
    if number < 10 {
        seq![digit_char(number)]
    } else {
        decimal_text(number / 10).push(digit_char(number % 10))
    }
}

/// The character of the decimal digit `value`.
fn digit_of(value: usize) -> (c: char)
    requires
        value < 10,
    ensures
        c == digit_char(value as nat),
{
    if value == 0 {
        '0'
    } else if value == 1 {
        '1'
    } else if value == 2 {
        '2'
    } else if value == 3 {
        '3'
    } else if value == 4 {
        '4'
    } else if value == 5 {
        '5'
    } else if value == 6 {
        '6'
    } else if value == 7 {
        '7'
    } else if value == 8 {
        '8'
    } else {
        '9'
    }
}

/// `number` in decimal digits, without leading zeros.
pub fn number_text(number: usize) -> (text: String)
    ensures
        text@ == decimal_text(number as nat),
    decreases number,
{
    if number < 10 {
        let mut text = String::new();
        push_char(&mut text, digit_of(number));
        proof {
            assert(text@ =~= seq![digit_char(number as nat)]);
        }
        text
    } else {
        let mut text = number_text(number / 10);
        push_char(&mut text, digit_of(number % 10));
        text
    }
}

/// The text without its last character, if it has one.
pub fn without_last(text: &str) -> (rest: String)
    ensures
        rest@ == if text@.len() > 0 {
            text@.drop_last()
        } else {
            text@
        },
{
    let length = text.unicode_len();
    if length > 0 {
        text.substring_char(0, length - 1).to_owned()
    } else {
        text.to_owned()
    }
}

/// The texts of a list joined, with `separator` between each two.
pub open spec fn joined(parts: Seq<Seq<char>>, separator: Seq<char>) -> Seq<char>
    decreases parts.len(),
{
    if parts.len() == 0 {
        Seq::empty()
    } else if parts.len() == 1 {
        parts[0]
    } else {
        joined(parts.drop_last(), separator) + separator + parts.last()
    }
}

/// Joins the strings of `parts` from position `from` on, with `separator`
/// between each two.
pub fn join_from(parts: &Vec<String>, from: usize, separator: &str) -> (text: String)
    requires
        from <= parts@.len(),
    ensures
        text@ == joined(parts@.skip(from as int).map_values(|part: String| part@), separator@),
{
    let ghost texts = parts@.skip(from as int).map_values(|part: String| part@);
    let mut text = String::new();
    let mut i: usize = from;
    proof {
        assert(texts.take(0) =~= Seq::<Seq<char>>::empty());
    }
    while i < parts.len()
        invariant
            from <= i <= parts@.len(),
            texts == parts@.skip(from as int).map_values(|part: String| part@),
            text@ == joined(texts.take(i - from), separator@),
        decreases parts@.len() - i,
    {
        proof {
            let longer = texts.take(i - from + 1);
            assert(longer.drop_last() =~= texts.take(i - from));
            assert(longer.last() == parts@[i as int]@);
        }
        if i > from {
            text.append(separator);
        }
        text.append(parts[i].as_str());
        proof {
            if i == from {
                assert(text@ =~= parts@[i as int]@);
            }
        }
        i += 1;
    }
    proof {
        assert(texts.take(parts@.len() - from) =~= texts);
    }
    text
}

/// `String::push` of the standard library: appends one character. Verus
/// takes this on trust.
#[verifier::external_body]
pub(crate) fn push_char(text: &mut String, c: char)
    ensures
        final(text)@ == old(text)@.push(c),
{
    text.push(c);
}

/// Position of the first string of `list` that equals `text`.
pub fn position_of(list: &Vec<String>, text: &str) -> (found: Option<usize>)
    ensures
        match found {
            Some(index) => {
                &&& index < list@.len()
                &&& list@[index as int]@ == text@
                &&& forall|j: int| 0 <= j < index ==> (#[trigger] list@[j])@ != text@
            },
            None => !names(list@).contains(text@),
        },
{
    let mut i: usize = 0;
    while i < list.len()
        invariant
            i <= list@.len(),
            forall|j: int| 0 <= j < i ==> (#[trigger] list@[j])@ != text@,
        decreases list@.len() - i,
    {
        if same_text(list[i].as_str(), text) {
            return Some(i);
        }
        i += 1;
    }
    proof {
        assert forall|j: int| 0 <= j < names(list@).len() implies names(list@)[j] != text@ by {
            assert(list@[j]@ != text@);
        }
    }
    None
}

/// A copy of `list`.
pub fn copy_of(list: &Vec<String>) -> (copy: Vec<String>)
    ensures
        copy@ == list@,
{
    let mut copy: Vec<String> = Vec::new();
    let mut i: usize = 0;
    while i < list.len()
        invariant
            i <= list@.len(),
            copy@ == list@.take(i as int),
        decreases list@.len() - i,
    {
        copy.push(list[i].clone());
        proof {
            assert(copy@ =~= list@.take(i + 1));
        }
        i += 1;
    }
    proof {
        assert(list@.take(list@.len() as int) =~= list@);
    }
    copy
}

/// The strings of `list` that differ from `text`, in their order.
pub fn without(list: &Vec<String>, text: &str) -> (kept: Vec<String>)
    ensures
        kept@ == list@.filter(|item: String| item@ != text@),
{
    let ghost keep = |item: String| item@ != text@;
    let mut kept: Vec<String> = Vec::new();
    let mut i: usize = 0;
    proof {
        assert(list@.take(0) =~= Seq::<String>::empty());
    }
    while i < list.len()
        invariant
            i <= list@.len(),
            keep == |item: String| item@ != text@,
            kept@ == list@.take(i as int).filter(keep),
        decreases list@.len() - i,
    {
        proof {
            let longer = list@.take(i + 1);
            assert(longer.drop_last() =~= list@.take(i as int));
            assert(longer.last() == list@[i as int]);
            reveal(Seq::filter);
        }
        if !same_text(list[i].as_str(), text) {
            kept.push(list[i].clone());
        }
        i += 1;
    }
    proof {
        assert(list@.take(list@.len() as int) =~= list@);
    }
    kept
}

/// Whether `text` starts with the character `first`.
pub fn starts_with_char(text: &str, first: char) -> (starts: bool)
    ensures
        starts == (text@.len() > 0 && text@[0] == first),
{
    if text.is_empty() {
        false
    } else {
        text.get_char(0) == first
    }
}

} // verus!
