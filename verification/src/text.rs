//! Small operations on text as a sequence of characters.

use crate::host::push_char;
use vstd::prelude::*;

verus! {

broadcast use vstd::string::group_string_axioms;

/// The characters of `text`, one by one.
pub fn chars_of(text: &str) -> (chars: Vec<char>)
    ensures
        chars@ == text@,
{
    let mut chars: Vec<char> = Vec::new();
    for c in it: text.chars()
        invariant
            it.seq() == text@,
            chars@ == it.seq().take(it.index() as int),
    {
        chars.push(c);
        assert(chars@ =~= it.seq().take(it.index() + 1));
    }
    assert(chars@ =~= text@);
    chars
}

/// The text made of the characters of `chars` from `from` up to `to`.
pub fn string_of(chars: &Vec<char>, from: usize, to: usize) -> (text: String)
    requires
        from <= to <= chars@.len(),
    ensures
        text@ == chars@.subrange(from as int, to as int),
{
    let mut text = String::new();
    let mut i: usize = from;
    while i < to
        invariant
            from <= i <= to <= chars@.len(),
            text@ == chars@.subrange(from as int, i as int),
        decreases to - i,
    {
        push_char(&mut text, chars[i]);
        i += 1;
        assert(text@ =~= chars@.subrange(from as int, i as int));
    }
    text
}

/// Whether `c` is white space: the characters with the Unicode property
/// `White_Space`.
pub open spec fn is_space(c: char) -> bool {
    let code = c as u32;
    ||| 0x09 <= code <= 0x0d
    ||| code == 0x20
    ||| code == 0x85
    ||| code == 0xa0
    ||| code == 0x1680
    ||| 0x2000 <= code <= 0x200a
    ||| code == 0x2028
    ||| code == 0x2029
    ||| code == 0x202f
    ||| code == 0x205f
    ||| code == 0x3000
}

/// Tells white space from other characters.
pub fn is_white_space(c: char) -> (space: bool)
    ensures
        space == is_space(c),
{
    let code: u32 = c as u32;
    (0x09 <= code && code <= 0x0d) || code == 0x20 || code == 0x85 || code == 0xa0 || code
        == 0x1680 || (0x2000 <= code && code <= 0x200a) || code == 0x2028 || code == 0x2029
        || code == 0x202f || code == 0x205f || code == 0x3000
}

/// The first index at or after `from` whose character is not white space, or
/// the length of `text` where there is none.
pub open spec fn ink_from(text: Seq<char>, from: int) -> int
    decreases text.len() - from,
{
    if from < 0 || from >= text.len() || !is_space(text[from]) {
        from
    } else {
        ink_from(text, from + 1)
    }
}

/// One more than the last index before `to` whose character is not white
/// space, or zero where there is none.
pub open spec fn ink_until(text: Seq<char>, to: int) -> int
    decreases to,
{
    if to <= 0 || to > text.len() || !is_space(text[to - 1]) {
        to
    } else {
        ink_until(text, to - 1)
    }
}

/// `text` without the white space at its two ends.
pub open spec fn trimmed(text: Seq<char>) -> Seq<char> {
    let from = ink_from(text, 0);
    let to = ink_until(text, text.len() as int);
    if from < to {
        text.subrange(from, to)
    } else {
        Seq::empty()
    }
}

/// What trimming leaves: a stretch of the text that neither begins nor ends
/// with white space, with nothing but white space on either side of it.
pub proof fn lemma_trimmed(text: Seq<char>)
    ensures
        ({
            let from = ink_from(text, 0);
            let to = ink_until(text, text.len() as int);
            &&& 0 <= from <= text.len()
            &&& 0 <= to <= text.len()
            &&& forall|i: int| 0 <= i < from ==> is_space(text[i])
            &&& forall|i: int| to <= i < text.len() ==> is_space(text[i])
            &&& from < text.len() ==> !is_space(text[from]) && from < to
            &&& to > 0 ==> !is_space(text[to - 1])
        }),
        trimmed(text).len() > 0 ==> !is_space(trimmed(text).first()) && !is_space(
            trimmed(text).last(),
        ),
{
    lemma_ink_from(text, 0);
    lemma_ink_until(text, text.len() as int);
    let from = ink_from(text, 0);
    let to = ink_until(text, text.len() as int);
    if from < text.len() && from >= to {
        assert(is_space(text[from]));
    }
}

proof fn lemma_ink_from(text: Seq<char>, from: int)
    requires
        0 <= from <= text.len(),
    ensures
        from <= ink_from(text, from) <= text.len(),
        forall|i: int| from <= i < ink_from(text, from) ==> is_space(text[i]),
        ink_from(text, from) < text.len() ==> !is_space(text[ink_from(text, from)]),
    decreases text.len() - from,
{
    if from < text.len() && is_space(text[from]) {
        lemma_ink_from(text, from + 1);
    }
}

proof fn lemma_ink_until(text: Seq<char>, to: int)
    requires
        0 <= to <= text.len(),
    ensures
        0 <= ink_until(text, to) <= to,
        forall|i: int| ink_until(text, to) <= i < to ==> is_space(text[i]),
        ink_until(text, to) > 0 ==> !is_space(text[ink_until(text, to) - 1]),
    decreases to,
{
    if to > 0 && is_space(text[to - 1]) {
        lemma_ink_until(text, to - 1);
    }
}

/// The text of `chars` without the white space at its two ends.
pub fn trim(chars: &Vec<char>) -> (text: String)
    ensures
        text@ == trimmed(chars@),
{
    let mut from: usize = 0;
    while from < chars.len() && is_white_space(chars[from])
        invariant
            0 <= from <= chars@.len(),
            ink_from(chars@, 0) == ink_from(chars@, from as int),
        decreases chars@.len() - from,
    {
        from += 1;
    }
    let mut to: usize = chars.len();
    while to > 0 && is_white_space(chars[to - 1])
        invariant
            0 <= to <= chars@.len(),
            ink_until(chars@, chars@.len() as int) == ink_until(chars@, to as int),
        decreases to,
    {
        to -= 1;
    }
    if from < to {
        string_of(chars, from, to)
    } else {
        String::new()
    }
}

} // verus!
