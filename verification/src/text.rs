//! Text helpers: splitting, joining and comparing strings by their characters.

use vstd::prelude::*;

verus! {

/// The characters of each string of a list.
pub open spec fn texts(list: Seq<String>) -> Seq<Seq<char>> {
    Seq::new(list.len(), |i: int| list[i]@)
}

/// The parts of `s` before and after the first `separator`, or `None` where it does not occur.
pub open spec fn split_first(s: Seq<char>, separator: char) -> Option<(Seq<char>, Seq<char>)> {
    match s.index_of_first(separator) {
        Some(i) => Some((s.take(i), s.skip(i + 1))),
        None => None,
    }
}

/// The characters of `s`, one by one.
pub fn chars_of(s: &str) -> (chars: Vec<char>)
    ensures
        chars@ == s@,
{
    let mut chars: Vec<char> = Vec::new();
    for c in it: s.chars()
        invariant
            chars@ == it.seq().take(it.index() as int),
            it.seq() == s@,
    {
        chars.push(c);
    }
    chars
}

/// Splits `s` at the first `separator`, which belongs to neither part.
pub fn split_once<'a>(s: &'a str, separator: char) -> (parts: Option<(&'a str, &'a str)>)
    ensures
        match parts {
            Some((before, after)) => split_first(s@, separator) == Some((before@, after@)),
            None => split_first(s@, separator) is None,
        },
{
    let chars = chars_of(s);
    let n: usize = chars.len();
    let mut i: usize = 0;
    proof {
        s@.index_of_first_ensures(separator);
    }
    while i < n
        invariant
            i <= n,
            n == chars@.len(),
            chars@ == s@,
            forall|j: int| 0 <= j < i ==> s@[j] != separator,
            match s@.index_of_first(separator) {
                Some(k) => {
                    &&& 0 <= k < s@.len()
                    &&& s@[k] == separator
                    &&& forall|j: int| 0 <= j < k < s@.len() ==> s@[j] != separator
                },
                None => !s@.contains(separator),
            },
        decreases n - i,
    {
        if chars[i] == separator {
            let before = s.substring_char(0, i);
            let after = s.substring_char(i + 1, n);
            assert(s@.index_of_first(separator) == Some(i as int));
            return Some((before, after));
        }
        i += 1;
    }
    None
}

/// A part before the separator is free of it, and the three pieces make up the whole.
pub proof fn lemma_split_first(s: Seq<char>, separator: char)
    ensures
        split_first(s, separator) is None <==> !s.contains(separator),
        split_first(s, separator) matches Some((before, after)) ==> {
            &&& s == before + seq![separator] + after
            &&& !before.contains(separator)
        },
{
    s.index_of_first_ensures(separator);
}

/// A text made of a part free of the separator, the separator and a rest splits into just these.
pub proof fn lemma_split_joined(before: Seq<char>, separator: char, after: Seq<char>)
    requires
        !before.contains(separator),
    ensures
        split_first(before + seq![separator] + after, separator) == Some((before, after)),
{
    let s = before + seq![separator] + after;
    s.index_of_first_ensures(separator);
    assert(s[before.len() as int] == separator);
    let k = s.index_of_first(separator).unwrap();
    if k < before.len() {
        assert(before[k] == separator);
    }
    assert(s.take(k) =~= before);
    assert(s.skip(k + 1) =~= after);
}

/// `inner` between `before` and `after`.
pub open spec fn quoted_text(before: Seq<char>, inner: Seq<char>, after: Seq<char>) -> Seq<char> {
    before + inner + after
}

/// Puts `inner` between `before` and `after`.
pub fn quoted(before: &str, inner: &str, after: &str) -> (text: String)
    ensures
        text@ == quoted_text(before@, inner@, after@),
        text@ == before@ + inner@ + after@,
{
    let mut text: String = before.to_owned();
    text.append(inner);
    text.append(after);
    text
}

/// The characters of a text that may be absent.
pub open spec fn option_text(text: Option<String>) -> Option<Seq<char>> {
    match text {
        Some(s) => Some(s@),
        None => None,
    }
}

/// Whether two texts that may be absent are both absent, or both there and the same.
pub fn same_text(one: &Option<String>, other: &Option<String>) -> (b: bool)
    ensures
        b == (option_text(*one) == option_text(*other)),
{
    match (one, other) {
        (Some(a), Some(b)) => *a == *b,
        (None, None) => true,
        _ => false,
    }
}

/// A list of strings and the list of their characters have the same length and the same order.
pub proof fn law_texts_keep_order(list: Seq<String>)
    ensures
        texts(list).len() == list.len(),
        forall|i: int| 0 <= i < list.len() ==> #[trigger] texts(list)[i] == list[i]@,
{
}

/// A text that may be absent is absent exactly where its characters are.
pub proof fn law_option_text(text: Option<String>)
    ensures
        option_text(text) is Some <==> text is Some,
        text matches Some(s) ==> option_text(text) == Some(s@),
{
}

} // verus!
